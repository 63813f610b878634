//! Plain-value model of the platform layer: scheduling directives, window
//! identities, platform events, window construction parameters, and the
//! OS window handle with its GL surface.
//!
//! A window identity is a `u64` assigned by the platform, unique among
//! live windows. Timestamps in [`ControlFlow::WaitUntil`] are opaque
//! instants ordered by `<` on `u64`.

use vstd::prelude::*;

use crate::tracked_window::DisplayCreationError;

verus! {

/// The scheduling directive a window hands back to the event loop after one
/// event: wake immediately, sleep until the next event, sleep until a given
/// instant, or (for a single window) tear that window down.
#[derive(Clone, Copy, Debug, PartialEq, Eq, Structural)]
pub enum ControlFlow {
    Poll,
    Wait,
    WaitUntil(u64),
    Exit,
}

/// What the user did during one UI frame of a window: whether the window's
/// main action button was pressed (the root window's "New popup" button,
/// a popup's "Increment" button), whether its "Quit" button was pressed,
/// and whether the UI asked to be repainted immediately.
#[derive(Clone, Copy, Debug, PartialEq, Eq, Structural)]
pub struct UiInteraction {
    pub primary_clicked: bool,
    pub quit_clicked: bool,
    pub repaint_now: bool,
}

/// A window-targeted platform event.
#[derive(Clone, Copy, Debug, PartialEq, Eq, Structural)]
pub enum WindowEventKind {
    Resized { width: u32, height: u32 },
    CloseRequested,
    Other,
}

/// A platform event as the dispatcher sees it. Redraw requests and window
/// events carry the identity of the window they target; loop teardown
/// targets every window.
///
/// A redraw request carries the outcome of the UI frame that servicing it
/// will run: the UI library reports clicks and the repaint demand while the
/// frame is built, and the model treats them as part of the event.
#[derive(Clone, Copy, Debug, PartialEq, Eq, Structural)]
pub enum Event {
    RedrawRequested { window_id: u64, ui: UiInteraction },
    WindowEvent { window_id: u64, event: WindowEventKind },
    LoopDestroyed,
}

/// The window identity an event targets, if it targets one at all.
pub open spec fn event_target(e: Event) -> Option<u64> {
    match e {
        Event::RedrawRequested { window_id, .. } => Some(window_id),
        Event::WindowEvent { window_id, .. } => Some(window_id),
        Event::LoopDestroyed => None,
    }
}

/// Construction parameters for a new OS window.
#[derive(Debug)]
pub struct WindowBuilder {
    pub width: u32,
    pub height: u32,
    pub resizable: bool,
    pub title: String,
}

/// An OS window handle together with its GL surface state: the
/// platform-assigned identity, the surface size, whether a redraw has been
/// requested since the last one was serviced, and how many frames have been
/// presented through it.
#[derive(Clone, Copy, Debug, PartialEq, Eq, Structural)]
pub struct WindowedContext {
    pub window_id: u64,
    pub surface_width: u32,
    pub surface_height: u32,
    pub redraw_requested: bool,
    pub frames_presented: u64,
}

impl WindowedContext {
    /// Resizes the GL surface to a new physical size.
    pub fn resize(&mut self, width: u32, height: u32)
        ensures
            *final(self) == (WindowedContext {
                surface_width: width,
                surface_height: height,
                ..*old(self)
            }),
    {
        self.surface_width = width;
        self.surface_height = height;
    }

    /// Asks the platform to deliver a redraw request for this window.
    pub fn request_redraw(&mut self)
        ensures
            *final(self) == (WindowedContext { redraw_requested: true, ..*old(self) }),
    {
        self.redraw_requested = true;
    }

    /// Presents the frame drawn since the last swap.
    pub fn swap_buffers(&mut self)
        requires
            old(self).frames_presented < u64::MAX,
        ensures
            *final(self) == (WindowedContext {
                frames_presented: (old(self).frames_presented + 1) as u64,
                ..*old(self)
            }),
    {
        self.frames_presented = self.frames_presented + 1;
    }
}

/// The handle of a freshly created window: the identity the platform
/// assigned, the surface at the requested size, no redraw pending, and no
/// frames presented yet.
pub open spec fn fresh_window(id: u64, builder: WindowBuilder) -> WindowedContext {
    WindowedContext {
        window_id: id,
        surface_width: builder.width,
        surface_height: builder.height,
        redraw_requested: false,
        frames_presented: 0,
    }
}

/// The window-creation side of the platform event loop: it assigns fresh
/// window identities in creation order, and it can be in a state in which
/// window or GL-context construction fails (resource exhaustion on the
/// platform side), in which case every creation fails with that error until
/// the state clears.
pub struct EventLoopWindowTarget {
    pub next_window_id: u64,
    pub fail_with: Option<DisplayCreationError>,
}

impl EventLoopWindowTarget {
    /// A fresh event-loop target with no windows created yet.
    pub fn new() -> (r: EventLoopWindowTarget)
        ensures
            r == (EventLoopWindowTarget { next_window_id: 0, fail_with: None }),
    {
        EventLoopWindowTarget { next_window_id: 0, fail_with: None }
    }

    /// Creates an OS window with a GL context from the given parameters.
    /// Succeeds exactly when the platform is not in a failing state, and
    /// hands out the next fresh window identity.
    pub fn create_window(&mut self, builder: &WindowBuilder) -> (r: Result<
        WindowedContext,
        DisplayCreationError,
    >)
        requires
            old(self).next_window_id < u64::MAX,
        ensures
            r is Ok <==> old(self).fail_with is None,
            match r {
                Ok(w) => {
                    &&& w == fresh_window(old(self).next_window_id, *builder)
                    &&& *final(self) == (EventLoopWindowTarget {
                        next_window_id: (old(self).next_window_id + 1) as u64,
                        ..*old(self)
                    })
                },
                Err(e) => {
                    &&& old(self).fail_with == Some(e)
                    &&& *final(self) == *old(self)
                },
            },
    {
        match self.fail_with {
            Some(e) => Err(e),
            None => {
                let id = self.next_window_id;
                self.next_window_id = self.next_window_id + 1;
                Ok(WindowedContext {
                    window_id: id,
                    surface_width: builder.width,
                    surface_height: builder.height,
                    redraw_requested: false,
                    frames_presented: 0,
                })
            },
        }
    }
}

/// What one event does to the window handle of the window it is dispatched
/// to. Servicing a redraw presents one frame and, when the UI wants an
/// immediate repaint (and did not quit), requests the next redraw; a window
/// event resizes the surface if it is a resize and always requests a redraw;
/// loop teardown leaves the handle alone.
pub open spec fn gl_after(w: WindowedContext, e: Event) -> WindowedContext {
    match e {
        Event::RedrawRequested { ui, .. } => WindowedContext {
            frames_presented: (w.frames_presented + 1) as u64,
            redraw_requested: w.redraw_requested || (!ui.quit_clicked && ui.repaint_now),
            ..w
        },
        Event::WindowEvent { event, .. } => match event {
            WindowEventKind::Resized { width, height } => WindowedContext {
                surface_width: width,
                surface_height: height,
                redraw_requested: true,
                ..w
            },
            _ => WindowedContext { redraw_requested: true, ..w },
        },
        Event::LoopDestroyed => w,
    }
}

} // verus!
