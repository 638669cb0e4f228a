//! What a window that shows a plot does on each event. The window itself,
//! its surface and the drawing belong to the caller: here is only the
//! decision.

use vstd::prelude::*;
use vstd::string::StrSliceExecFns;

verus! {

/// An event of the window, as far as the plot cares.
pub enum WindowEvent {
    /// The window is to be closed.
    CloseRequested,
    /// A key was pressed that produces this text.
    Character(String),
    /// The window has a new size in pixels.
    Resized { width: u32, height: u32 },
    /// The window asks to be drawn.
    RedrawRequested,
    /// Anything else.
    Other,
}

/// What the window has and needs.
#[derive(Clone, Copy, Debug, PartialEq, Eq, Structural)]
pub struct WindowState {
    /// Whether the surface to draw on exists.
    pub ready: bool,
    /// Whether the plot has been drawn at all.
    pub drawn: bool,
    /// Whether the plot has to be drawn again.
    pub stale: bool,
}

/// What the caller is to do.
#[derive(Clone, Copy, Debug, PartialEq, Eq, Structural)]
pub enum WindowAction {
    /// Nothing.
    Ignore,
    /// Leave the event loop.
    Exit,
    /// Give the surface this size.
    Resize { width: u32, height: u32 },
    /// Draw the plot anew, then present it.
    DrawAndPresent,
    /// Present the plot as it was drawn last.
    Present,
}

/// Whether a key's text is the one that closes the window: a lone `q`.
pub open spec fn spec_is_quit(text: Seq<char>) -> bool {
    text.len() == 1 && text[0] == 'q'
}

/// Whether a key's text is the one that closes the window.
pub fn is_quit(text: &str) -> (b: bool)
    ensures
        b == spec_is_quit(text@),
{
    text.unicode_len() == 1 && text.get_char(0) == 'q'
}

impl WindowState {
    /// The state of a window that was just opened: nothing exists, and the
    /// plot has to be drawn.
    pub fn new() -> (s: WindowState)
        ensures
            s == (WindowState { ready: false, drawn: false, stale: true }),
    {
        WindowState { ready: false, drawn: false, stale: true }
    }

    /// The state and the action that follow an event.
    ///
    /// A request to close, and the key `q`, end the loop. A new size is
    /// given to the surface where the surface exists and neither side is
    /// zero, and makes the plot stale. A request to draw presents the plot
    /// where the surface exists, after drawing it anew where it was never
    /// drawn or is stale. Everything else is ignored.
    pub open spec fn spec_on_event(self, event: WindowEvent) -> (WindowState, WindowAction) {
        match event {
            WindowEvent::CloseRequested => (self, WindowAction::Exit),
            WindowEvent::Character(text) => if spec_is_quit(text@) {
                (self, WindowAction::Exit)
            } else {
                (self, WindowAction::Ignore)
            },
            WindowEvent::Resized { width, height } => if self.ready && width > 0 && height > 0 {
                (WindowState { stale: true, ..self }, WindowAction::Resize { width, height })
            } else {
                (self, WindowAction::Ignore)
            },
            WindowEvent::RedrawRequested => if !self.ready {
                (self, WindowAction::Ignore)
            } else if !self.drawn || self.stale {
                (WindowState { drawn: true, stale: false, ..self }, WindowAction::DrawAndPresent)
            } else {
                (self, WindowAction::Present)
            },
            WindowEvent::Other => (self, WindowAction::Ignore),
        }
    }

    /// The state and the action that follow an event.
    pub fn on_event(self, event: &WindowEvent) -> (r: (WindowState, WindowAction))
        ensures
            r == self.spec_on_event(*event),
    {
        match event {
            WindowEvent::CloseRequested => (self, WindowAction::Exit),
            WindowEvent::Character(text) => {
                if is_quit(text.as_str()) {
                    (self, WindowAction::Exit)
                } else {
                    (self, WindowAction::Ignore)
                }
            },
            WindowEvent::Resized { width, height } => {
                if self.ready && *width > 0 && *height > 0 {
                    (
                        WindowState { ready: self.ready, drawn: self.drawn, stale: true },
                        WindowAction::Resize { width: *width, height: *height },
                    )
                } else {
                    (self, WindowAction::Ignore)
                }
            },
            WindowEvent::RedrawRequested => {
                if !self.ready {
                    (self, WindowAction::Ignore)
                } else if !self.drawn || self.stale {
                    (
                        WindowState { ready: self.ready, drawn: true, stale: false },
                        WindowAction::DrawAndPresent,
                    )
                } else {
                    (self, WindowAction::Present)
                }
            },
            WindowEvent::Other => (self, WindowAction::Ignore),
        }
    }

    /// The state after the window came to the foreground, and whether the
    /// surface has to be made: it is made once.
    pub fn on_resumed(self) -> (r: (WindowState, bool))
        ensures
            r.1 == !self.ready,
            r.0 == (WindowState { ready: true, ..self }),
    {
        (WindowState { ready: true, drawn: self.drawn, stale: self.stale }, !self.ready)
    }
}

} // verus!
