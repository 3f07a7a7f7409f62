//! Window events as the event loop reports them, and what is done about each.

use vstd::prelude::*;
use crate::pipeline::RenderPass;
use crate::surface::{Size, SwapConfig};

verus! {

/// The keys the program tells apart.
#[derive(Clone, Copy, Debug, PartialEq, Eq, Structural)]
pub enum Key {
    Escape,
    Other,
}

/// An event of the window or of the event loop, reduced to what decides the
/// reaction. A cursor position is not carried: it only feeds the clear color,
/// which the caller keeps.
#[derive(Clone, Copy, Debug, PartialEq, Eq)]
pub enum Event {
    /// The user asked to close the window.
    CloseRequested,
    /// A key was pressed or released; `None` where the platform gave no key code.
    KeyboardInput(Option<Key>),
    /// The cursor moved inside the window.
    CursorMoved,
    /// The drawable area now has this size.
    Resized(Size),
    /// The window wants its contents drawn.
    RedrawRequested,
    /// All pending events of this round were delivered.
    MainEventsCleared,
    /// Any other event.
    Other,
}

/// What the caller does in reaction to an event.
#[derive(Clone, Copy, Debug, PartialEq, Eq)]
pub enum Action {
    /// Leave the event loop.
    Exit,
    /// Recompute the clear color from the cursor position.
    TrackCursor,
    /// Discard the swap target and create one with this configuration.
    RecreateSwapChain(SwapConfig),
    /// Record and submit this pass on the next presentable image.
    Draw(RenderPass),
    /// Ask the window for a redraw.
    RequestRedraw,
    /// Do nothing.
    Ignore,
}

impl Event {
    /// Whether the event can be handled: a keyboard event must name its key.
    pub open spec fn is_handled(self) -> bool {
        self != Event::KeyboardInput(None)
    }

    /// Executable form of [`Event::is_handled`].
    pub fn can_handle(&self) -> (ok: bool)
        ensures
            ok == self.is_handled(),
    {
        match self {
            Event::KeyboardInput(None) => false,
            _ => true,
        }
    }
}

} // verus!
