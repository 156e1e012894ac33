use box_render::color::palette;
use box_render::color::Rgb;
use box_render::color::Rgba;
use box_render::color::CHANNEL_MAX;
use box_render::color::SCROLL_STEP;

#[test]
fn default_background_value() {
    // The fixed default: (0.1, 0.2, 0.3, 1.0) in per-mille units.
    let c = Rgba::default_background();
    assert_eq!(
        c,
        Rgba {
            r: 100,
            g: 200,
            b: 300,
            a: 1000
        }
    );
}

#[test]
fn scroll_constants() {
    assert_eq!(SCROLL_STEP, 25);
    assert_eq!(CHANNEL_MAX, 1000);
}

#[test]
fn scroll_up_adds_one_step_to_each_channel() {
    let c = Rgba::default_background().scrolled(true);
    assert_eq!(
        c,
        Rgba {
            r: 125,
            g: 225,
            b: 325,
            a: 1000
        }
    );
}

#[test]
fn scroll_down_subtracts_one_step() {
    let c = Rgba::default_background().scrolled(false);
    assert_eq!(
        c,
        Rgba {
            r: 75,
            g: 175,
            b: 275,
            a: 1000
        }
    );
}

#[test]
fn scroll_up_saturates_and_stays() {
    let mut c = Rgba::default_background();
    for _ in 0..40 {
        c = c.scrolled(true);
    }
    assert_eq!(
        c,
        Rgba {
            r: 1000,
            g: 1000,
            b: 1000,
            a: 1000
        }
    );
    // Saturated stays saturated.
    assert_eq!(c.scrolled(true), c);
}

#[test]
fn scroll_up_clamps_channels_independently() {
    // Red saturates first; the others keep climbing.
    let c = Rgba {
        r: 990,
        g: 500,
        b: 0,
        a: 1000,
    };
    let c = c.scrolled(true);
    assert_eq!(
        c,
        Rgba {
            r: 1000,
            g: 525,
            b: 25,
            a: 1000
        }
    );
}

#[test]
fn scroll_down_clamps_at_zero_and_stays() {
    let mut c = Rgba::default_background();
    for _ in 0..12 {
        c = c.scrolled(false);
    }
    // After twelve downward steps every channel has hit its floor.
    assert_eq!(
        c,
        Rgba {
            r: 0,
            g: 0,
            b: 0,
            a: 1000
        }
    );
    assert_eq!(c.scrolled(false), c);
}

#[test]
fn palette_entries() {
    assert_eq!(palette(0), Rgb { r: 1000, g: 0, b: 0 });
    assert_eq!(palette(1), Rgb { r: 0, g: 1000, b: 0 });
    assert_eq!(palette(2), Rgb { r: 0, g: 0, b: 1000 });
}
