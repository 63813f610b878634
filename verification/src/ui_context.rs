//! Plain-value model of the per-window immediate-mode UI context.
//!
//! The real UI context is an opaque bundle of GPU-side state owned by the
//! UI library. The model records what the dispatcher's contracts need: which
//! window's GL context it was built against, how many frames it has run,
//! how many platform events it has absorbed, and whether its GPU resources
//! have been released.

use vstd::prelude::*;

use crate::platform::{Event, WindowedContext};

verus! {

/// A window's lazily-created UI context.
#[derive(Clone, Copy, Debug, PartialEq, Eq, Structural)]
pub struct UiContext {
    /// Identity of the window whose activated GL context this UI context
    /// was constructed against.
    pub bound_window: u64,
    /// Number of UI frames run (one begin-frame/end-frame pair each).
    pub frames_rendered: u64,
    /// Number of platform window events forwarded to the UI's input handling.
    pub events_absorbed: u64,
    /// Whether the context's GPU-side resources have been released.
    pub destroyed: bool,
}

impl UiContext {
    /// Constructs a UI context bound to a freshly activated window handle.
    pub fn new(gl_window: &WindowedContext) -> (r: UiContext)
        ensures
            r == (UiContext {
                bound_window: gl_window.window_id,
                frames_rendered: 0,
                events_absorbed: 0,
                destroyed: false,
            }),
    {
        UiContext {
            bound_window: gl_window.window_id,
            frames_rendered: 0,
            events_absorbed: 0,
            destroyed: false,
        }
    }

    /// Runs one UI frame: a begin-frame/end-frame pair building the window's
    /// widget tree and producing draw primitives.
    pub fn run_frame(&mut self)
        requires
            old(self).frames_rendered < u64::MAX,
        ensures
            *final(self) == (UiContext {
                frames_rendered: (old(self).frames_rendered + 1) as u64,
                ..*old(self)
            }),
    {
        self.frames_rendered = self.frames_rendered + 1;
    }

    /// Forwards one platform window event to the UI's input handling.
    pub fn on_event(&mut self)
        requires
            old(self).events_absorbed < u64::MAX,
        ensures
            *final(self) == (UiContext {
                events_absorbed: (old(self).events_absorbed + 1) as u64,
                ..*old(self)
            }),
    {
        self.events_absorbed = self.events_absorbed + 1;
    }

    /// Releases the context's GPU-side resources.
    pub fn destroy(&mut self)
        ensures
            *final(self) == (UiContext { destroyed: true, ..*old(self) }),
    {
        self.destroyed = true;
    }
}

/// What one event does to the UI context of the window it is dispatched to:
/// a redraw runs one frame, a window event is absorbed by input handling,
/// and loop teardown releases the context's GPU resources.
pub open spec fn ui_after(u: UiContext, e: Event) -> UiContext {
    match e {
        Event::RedrawRequested { .. } => UiContext {
            frames_rendered: (u.frames_rendered + 1) as u64,
            ..u
        },
        Event::WindowEvent { .. } => UiContext {
            events_absorbed: (u.events_absorbed + 1) as u64,
            ..u
        },
        Event::LoopDestroyed => UiContext { destroyed: true, ..u },
    }
}

} // verus!
