//! Render-loop controller state machine.
//!
//! The controller owns the interaction state of the render loop: the
//! background color, the last known surface size, and whether the loop is
//! running, waiting for a surface reconfiguration, or exiting. The host
//! program pulls events from the platform, translates them to plain
//! values, hands them to [`Controller::handle_event`], and performs the
//! returned [`Action`]: render a frame (reporting the outcome through
//! [`Controller::handle_render_result`]), request a redraw, reconfigure
//! the surface (confirming through [`Controller::notify_reconfigured`]),
//! or leave the loop. Events for other windows are ignored.

use vstd::prelude::*;

use crate::color::Rgba;
use crate::color::scroll_spec;
use crate::surface::SurfaceError;
use crate::surface::configured_spec;

verus! {

/// A scroll-wheel movement, reported in pixels or in discrete lines.
/// Only the direction matters to the controller: both kinds act
/// identically on the background color.
#[derive(Clone, Copy, Debug, PartialEq, Eq, Structural)]
pub enum ScrollDelta {
    Pixels { upward: bool },
    Lines { upward: bool },
}

impl ScrollDelta {
    /// The direction of the movement, whatever its unit.
    pub open spec fn upward(self) -> bool {
        match self {
            ScrollDelta::Pixels { upward } => upward,
            ScrollDelta::Lines { upward } => upward,
        }
    }
}

/// A window event, already reduced to plain values by the host.
#[derive(Clone, Copy, Debug, PartialEq, Eq, Structural)]
pub enum WindowEvent {
    Resized { width: u32, height: u32 },
    ScaleFactorChanged { width: u32, height: u32 },
    MouseWheel { delta: ScrollDelta },
    /// A key event; `escape` says whether the key was the escape key.
    KeyboardInput { pressed: bool, escape: bool },
    CloseRequested,
    /// Any window event the controller does not react to.
    Other,
}

/// A top-level event of the platform event loop.
#[derive(Clone, Copy, Debug, PartialEq, Eq, Structural)]
pub enum Event {
    RedrawRequested { window_id: u64 },
    MainEventsCleared,
    Window { window_id: u64, event: WindowEvent },
    /// Any other event of the loop.
    Other,
}

/// What the host must do after handing the controller an event.
#[derive(Clone, Copy, Debug, PartialEq, Eq, Structural)]
pub enum Action {
    /// Nothing.
    Ignore,
    /// Render and present one frame, then report the outcome through
    /// [`Controller::handle_render_result`].
    RenderFrame,
    /// Ask the window for another redraw.
    RequestRedraw,
    /// Reconfigure the surface at the given size, then confirm through
    /// [`Controller::notify_reconfigured`].
    Reconfigure { width: u32, height: u32 },
    /// Leave the event loop; the process terminates.
    Exit,
}

/// The controller's mode: running, waiting for the host to reconfigure
/// the surface, or exiting (terminal).
#[derive(Clone, Copy, Debug, PartialEq, Eq, Structural)]
pub enum Mode {
    Running,
    Resizing,
    Exiting,
}

/// The render-loop controller: the identity of its window, its mode, the
/// background color and the last known surface size.
#[derive(Clone, Copy, Debug, PartialEq, Eq, Structural)]
pub struct Controller {
    pub window_id: u64,
    pub mode: Mode,
    pub background: Rgba,
    pub width: u32,
    pub height: u32,
}

/// One transition of the state machine: the controller afterwards and
/// the action the host must perform.
#[derive(Clone, Copy, Debug, PartialEq, Eq, Structural)]
pub struct Step {
    pub next: Controller,
    pub action: Action,
}

/// A transition that changes nothing and asks nothing of the host.
pub open spec fn stay(c: Controller) -> Step {
    Step { next: c, action: Action::Ignore }
}

/// The transition for a resize to the given size: a zero-area size is
/// ignored — a surface must never be reconfigured with a zero dimension —
/// and any other size is stored and forwarded to reconfiguration.
pub open spec fn resize_step(c: Controller, width: u32, height: u32) -> Step {
    if width == 0 || height == 0 {
        stay(c)
    } else {
        Step {
            next: Controller { mode: Mode::Resizing, width, height, ..c },
            action: Action::Reconfigure { width, height },
        }
    }
}

/// The transition to the terminal mode.
pub open spec fn exit_step(c: Controller) -> Step {
    Step { next: Controller { mode: Mode::Exiting, ..c }, action: Action::Exit }
}

/// The transition for a window event addressed to the controller's own
/// window.
pub open spec fn window_step(c: Controller, event: WindowEvent) -> Step {
    match event {
        WindowEvent::Resized { width, height } => resize_step(c, width, height),
        WindowEvent::ScaleFactorChanged { width, height } => resize_step(c, width, height),
        WindowEvent::MouseWheel { delta } => Step {
            next: Controller { background: scroll_spec(c.background, delta.upward()), ..c },
            action: Action::RequestRedraw,
        },
        WindowEvent::KeyboardInput { pressed, escape } => if pressed && escape {
            exit_step(c)
        } else {
            stay(c)
        },
        WindowEvent::CloseRequested => exit_step(c),
        WindowEvent::Other => stay(c),
    }
}

/// The transition for one event of the platform loop. In the terminal
/// mode every event is ignored; otherwise a redraw request for the own
/// window starts a frame, the end of an event batch requests the next
/// redraw, and window events for the own window go to [`window_step`].
pub open spec fn event_step(c: Controller, event: Event) -> Step {
    if c.mode == Mode::Exiting {
        stay(c)
    } else {
        match event {
            Event::RedrawRequested { window_id } => if window_id == c.window_id {
                Step { next: c, action: Action::RenderFrame }
            } else {
                stay(c)
            },
            Event::MainEventsCleared => Step { next: c, action: Action::RequestRedraw },
            Event::Window { window_id, event } => if window_id == c.window_id {
                window_step(c, event)
            } else {
                stay(c)
            },
            Event::Other => stay(c),
        }
    }
}

/// The transition for the outcome of one rendered frame: a lost surface
/// is answered with a same-size reconfiguration, memory exhaustion is
/// fatal, and transient failures (outdated, timeout) heal on the next
/// frame by themselves.
pub open spec fn render_result_step(c: Controller, outcome: Result<(), SurfaceError>) -> Step {
    if c.mode == Mode::Exiting {
        stay(c)
    } else {
        match outcome {
            Ok(_) => stay(c),
            Err(SurfaceError::Lost) => Step {
                next: Controller { mode: Mode::Resizing, ..c },
                action: Action::Reconfigure { width: c.width, height: c.height },
            },
            Err(SurfaceError::OutOfMemory) => exit_step(c),
            Err(SurfaceError::Outdated) => stay(c),
            Err(SurfaceError::Timeout) => stay(c),
        }
    }
}

/// The controller after the host confirms a surface reconfiguration:
/// resizing is over, the loop runs on. Any other mode is kept.
pub open spec fn reconfigured_step(c: Controller) -> Controller {
    if c.mode == Mode::Resizing {
        Controller { mode: Mode::Running, ..c }
    } else {
        c
    }
}

impl Controller {
    /// A valid controller: the background color is in range and the last
    /// known surface size has no zero dimension.
    pub open spec fn wf(self) -> bool {
        self.background.wf() && self.width > 0 && self.height > 0
    }

    /// Create the controller for the given window, running, with the
    /// fixed default background and the window's initial size.
    pub fn new(window_id: u64, width: u32, height: u32) -> (c: Controller)
        requires
            width > 0,
            height > 0,
        ensures
            c == (Controller {
                window_id,
                mode: Mode::Running,
                background: Rgba::default_spec(),
                width,
                height,
            }),
            c.wf(),
    {
        Controller {
            window_id,
            mode: Mode::Running,
            background: Rgba::default_background(),
            width,
            height,
        }
    }

    /// React to one event of the platform loop.
    pub fn handle_event(&mut self, event: Event) -> (action: Action)
        requires
            old(self).wf(),
        ensures
            *final(self) == event_step(*old(self), event).next,
            action == event_step(*old(self), event).action,
            final(self).wf(),
    {
        if let Mode::Exiting = self.mode {
            return Action::Ignore;
        }
        match event {
            Event::RedrawRequested { window_id } => {
                if window_id == self.window_id {
                    Action::RenderFrame
                } else {
                    Action::Ignore
                }
            },
            Event::MainEventsCleared => Action::RequestRedraw,
            Event::Window { window_id, event } => {
                if window_id == self.window_id {
                    self.handle_window_event(event)
                } else {
                    Action::Ignore
                }
            },
            Event::Other => Action::Ignore,
        }
    }

    /// React to one window event addressed to the own window.
    fn handle_window_event(&mut self, event: WindowEvent) -> (action: Action)
        requires
            old(self).wf(),
            old(self).mode != Mode::Exiting,
        ensures
            *final(self) == window_step(*old(self), event).next,
            action == window_step(*old(self), event).action,
            final(self).wf(),
    {
        match event {
            WindowEvent::Resized { width, height } => self.resize(width, height),
            WindowEvent::ScaleFactorChanged { width, height } => self.resize(width, height),
            WindowEvent::MouseWheel { delta } => {
                let upward = match delta {
                    ScrollDelta::Pixels { upward } => upward,
                    ScrollDelta::Lines { upward } => upward,
                };
                self.background = self.background.scrolled(upward);
                Action::RequestRedraw
            },
            WindowEvent::KeyboardInput { pressed, escape } => {
                if pressed && escape {
                    self.mode = Mode::Exiting;
                    Action::Exit
                } else {
                    Action::Ignore
                }
            },
            WindowEvent::CloseRequested => {
                self.mode = Mode::Exiting;
                Action::Exit
            },
            WindowEvent::Other => Action::Ignore,
        }
    }

    /// Store a new surface size and order a reconfiguration, unless a
    /// dimension is zero, in which case the event is ignored.
    fn resize(&mut self, width: u32, height: u32) -> (action: Action)
        requires
            old(self).wf(),
        ensures
            *final(self) == resize_step(*old(self), width, height).next,
            action == resize_step(*old(self), width, height).action,
            final(self).wf(),
    {
        if width == 0 || height == 0 {
            Action::Ignore
        } else {
            self.mode = Mode::Resizing;
            self.width = width;
            self.height = height;
            Action::Reconfigure { width, height }
        }
    }

    /// React to the outcome the host reports for one rendered frame.
    pub fn handle_render_result(&mut self, outcome: Result<(), SurfaceError>) -> (action: Action)
        requires
            old(self).wf(),
        ensures
            *final(self) == render_result_step(*old(self), outcome).next,
            action == render_result_step(*old(self), outcome).action,
            final(self).wf(),
    {
        if let Mode::Exiting = self.mode {
            return Action::Ignore;
        }
        match outcome {
            Ok(_) => Action::Ignore,
            Err(SurfaceError::Lost) => {
                self.mode = Mode::Resizing;
                Action::Reconfigure { width: self.width, height: self.height }
            },
            Err(SurfaceError::OutOfMemory) => {
                self.mode = Mode::Exiting;
                Action::Exit
            },
            Err(SurfaceError::Outdated) => Action::Ignore,
            Err(SurfaceError::Timeout) => Action::Ignore,
        }
    }

    /// Learn that the host carried a reconfiguration out: the loop runs
    /// on.
    pub fn notify_reconfigured(&mut self)
        ensures
            *final(self) == reconfigured_step(*old(self)),
    {
        if let Mode::Resizing = self.mode {
            self.mode = Mode::Running;
        }
    }
}

/// Law (zero-area resize rejected): a resize or scale-factor change with
/// a zero dimension leaves the controller unchanged and is not forwarded
/// to surface reconfiguration.
pub proof fn lemma_zero_resize_ignored(c: Controller, window_id: u64, width: u32, height: u32)
    requires
        width == 0 || height == 0,
    ensures
        event_step(
            c,
            Event::Window { window_id, event: WindowEvent::Resized { width, height } },
        ) == stay(c),
        event_step(
            c,
            Event::Window { window_id, event: WindowEvent::ScaleFactorChanged { width, height } },
        ) == stay(c),
{
}

/// Law (no zero-area reconfiguration): every reconfiguration a valid
/// controller ever orders — after a resize or after a lost frame — has
/// nonzero width and height.
pub proof fn lemma_reconfigure_nonzero(c: Controller, event: Event, outcome: Result<
    (),
    SurfaceError,
>)
    requires
        c.wf(),
    ensures
        (event_step(c, event).action matches Action::Reconfigure { width, height } ==> width > 0
            && height > 0),
        (render_result_step(c, outcome).action matches Action::Reconfigure { width, height }
            ==> width > 0 && height > 0),
{
}

/// Law (scroll units are equivalent): a scroll reported in pixels and one
/// reported in lines with the same direction make the very same
/// transition.
pub proof fn lemma_scroll_units_equal(c: Controller, window_id: u64, upward: bool)
    ensures
        event_step(
            c,
            Event::Window {
                window_id,
                event: WindowEvent::MouseWheel { delta: ScrollDelta::Pixels { upward } },
            },
        ) == event_step(
            c,
            Event::Window {
                window_id,
                event: WindowEvent::MouseWheel { delta: ScrollDelta::Lines { upward } },
            },
        ),
{
}

/// Law (lost-frame recovery): when a live, valid controller learns that
/// the frame was lost, it orders a reconfiguration at the last known
/// size; that size is valid, and a surface reconfigured at it is ready,
/// so the next frame acquisition succeeds.
pub proof fn lemma_lost_recovery(c: Controller)
    requires
        c.wf(),
        c.mode != Mode::Exiting,
    ensures
        render_result_step(c, Err(SurfaceError::Lost)).action == (Action::Reconfigure {
            width: c.width,
            height: c.height,
        }),
        c.width > 0 && c.height > 0,
        configured_spec(c.width, c.height).ready,
{
}

} // verus!
