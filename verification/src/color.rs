//! Background color state.
//!
//! The render loop clears each frame to a background color that the user
//! adjusts with the scroll wheel. Channels are held in per-mille units
//! (0 ..= 1000 stands for 0.0 ..= 1.0 of full intensity), so a scroll
//! step of 0.025 is exactly 25 units and clamping is exact. The host
//! program divides by 1000 when it hands the color to the GPU clear pass.

use vstd::prelude::*;

verus! {

/// One scroll step adjusts every color channel by 0.025, i.e. 25 per mille.
pub const SCROLL_STEP: u32 = 25;

/// Full intensity of one channel, in per-mille units.
pub const CHANNEL_MAX: u32 = 1000;

/// An RGBA color with channels in per-mille units.
#[derive(Clone, Copy, Debug, PartialEq, Eq, Structural)]
pub struct Rgba {
    pub r: u32,
    pub g: u32,
    pub b: u32,
    pub a: u32,
}

impl Rgba {
    /// Every channel stays within full intensity.
    pub open spec fn wf(self) -> bool {
        self.r <= 1000 && self.g <= 1000 && self.b <= 1000 && self.a <= 1000
    }

    /// The fixed default background the controller starts from:
    /// (0.1, 0.2, 0.3, 1.0).
    pub open spec fn default_spec() -> Rgba {
        Rgba { r: 100, g: 200, b: 300, a: 1000 }
    }

    /// Build the fixed default background color.
    pub fn default_background() -> (c: Rgba)
        ensures
            c == Rgba::default_spec(),
            c.wf(),
    {
        Rgba { r: 100, g: 200, b: 300, a: 1000 }
    }

    /// Adjust the red, green and blue channels by one scroll step,
    /// upward or downward, clamped to the valid range. Alpha is untouched.
    pub fn scrolled(self, upward: bool) -> (c: Rgba)
        requires
            self.wf(),
        ensures
            c == scroll_spec(self, upward),
            c.wf(),
    {
        Rgba {
            r: bump_channel(self.r, upward),
            g: bump_channel(self.g, upward),
            b: bump_channel(self.b, upward),
            a: self.a,
        }
    }
}

/// An RGB color with channels in per-mille units, as the palette holds it.
#[derive(Clone, Copy, Debug, PartialEq, Eq, Structural)]
pub struct Rgb {
    pub r: u32,
    pub g: u32,
    pub b: u32,
}

/// The three-entry palette of the colored variant: pure red, pure green
/// and pure blue. The center vertex takes entry 0; perimeter vertices
/// alternate between entries 1 and 2.
pub open spec fn palette_spec(index: int) -> Rgb {
    if index == 0 {
        Rgb { r: 1000, g: 0, b: 0 }
    } else if index == 1 {
        Rgb { r: 0, g: 1000, b: 0 }
    } else {
        Rgb { r: 0, g: 0, b: 1000 }
    }
}

/// Look an entry of the three-entry palette up.
pub fn palette(index: u32) -> (c: Rgb)
    requires
        index < 3,
    ensures
        c == palette_spec(index as int),
{
    if index == 0 {
        Rgb { r: 1000, g: 0, b: 0 }
    } else if index == 1 {
        Rgb { r: 0, g: 1000, b: 0 }
    } else {
        Rgb { r: 0, g: 0, b: 1000 }
    }
}

/// One channel after one scroll step: up adds 25 clamped at 1000,
/// down subtracts 25 clamped at 0.
pub open spec fn bump_spec(c: int, upward: bool) -> int {
    if upward {
        if c + 25 >= 1000 { 1000 } else { c + 25 }
    } else {
        if c <= 25 { 0 } else { c - 25 }
    }
}

/// A whole color after one scroll step: red, green and blue each move by
/// one step, alpha is kept.
pub open spec fn scroll_spec(c: Rgba, upward: bool) -> Rgba {
    Rgba {
        r: bump_spec(c.r as int, upward) as u32,
        g: bump_spec(c.g as int, upward) as u32,
        b: bump_spec(c.b as int, upward) as u32,
        a: c.a,
    }
}

fn bump_channel(c: u32, upward: bool) -> (r: u32)
    requires
        c <= 1000,
    ensures
        r == bump_spec(c as int, upward),
        r <= 1000,
{
    if upward {
        if c + 25 >= 1000 { 1000 } else { c + 25 }
    } else {
        if c <= 25 { 0 } else { c - 25 }
    }
}

/// The color after `n` upward scroll steps.
pub open spec fn scrolled_up_times(c: Rgba, n: nat) -> Rgba
    decreases n,
{
    if n == 0 { c } else { scroll_spec(scrolled_up_times(c, (n - 1) as nat), true) }
}

/// After `n` upward steps a channel has gained 25 per step, clamped at 1000.
proof fn lemma_channel_saturation(c: Rgba, n: nat)
    requires
        c.wf(),
    ensures
        scrolled_up_times(c, n).wf(),
        scrolled_up_times(c, n).r == if c.r + 25 * n >= 1000 { 1000int } else { c.r + 25 * n },
        scrolled_up_times(c, n).g == if c.g + 25 * n >= 1000 { 1000int } else { c.g + 25 * n },
        scrolled_up_times(c, n).b == if c.b + 25 * n >= 1000 { 1000int } else { c.b + 25 * n },
        scrolled_up_times(c, n).a == c.a,
    decreases n,
{
    if n > 0 {
        lemma_channel_saturation(c, (n - 1) as nat);
    }
}

/// Law: repeated upward scrolling saturates. From any valid color, forty
/// upward steps drive red, green and blue to full intensity, and one more
/// upward step leaves a saturated color unchanged.
pub proof fn lemma_scroll_saturates(c: Rgba, n: nat)
    requires
        c.wf(),
        n >= 40,
    ensures
        scrolled_up_times(c, n).r == 1000,
        scrolled_up_times(c, n).g == 1000,
        scrolled_up_times(c, n).b == 1000,
        scrolled_up_times(c, n).a == c.a,
        scroll_spec(scrolled_up_times(c, n), true) == scrolled_up_times(c, n),
{
    lemma_channel_saturation(c, n);
}

} // verus!
