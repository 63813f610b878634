//! A window tracked by the dispatcher: one OS window handle, one lazily
//! created UI context, and one window behavior, with the activation and
//! dispatch discipline around a behavior invocation.

use vstd::pervasive::unreached;
use vstd::prelude::*;

use crate::multi_window::NewWindowRequest;
use crate::platform::{event_target, fresh_window, gl_after, ControlFlow, Event,
    EventLoopWindowTarget, WindowBuilder, WindowedContext};
use crate::ui_context::{ui_after, UiContext};
use crate::windows::{behavior_after, behavior_flow, behavior_spawns, is_popup_request,
    peers_after, popup_increments, roots_have_headroom, MyWindows};

verus! {

/// The tagged state of a window's GL context. Activation consumes the
/// handle, so "currently taken out for activation" is a representable
/// state rather than a nullable hack; outside a dispatch the context is
/// never left in transit.
pub enum IndeterminateWindowedContext {
    PossiblyCurrent(WindowedContext),
    NotCurrent(WindowedContext),
    InTransit,
}

/// What a container hands back to the dispatcher after one dispatch: the
/// window's scheduling directive and the new windows its behavior asked for.
pub struct TrackedWindowControl {
    pub requested_control_flow: ControlFlow,
    pub windows_to_create: Vec<NewWindowRequest>,
}

/// Failure to construct a platform window or its GL context. Recoverable at
/// the call site that requested the window; a failed mid-run request is
/// dropped without disturbing the windows already live.
#[derive(Clone, Copy, Debug, PartialEq, Eq, Structural)]
pub enum DisplayCreationError {
    Creation,
    Context,
}

/// A window being tracked by a `MultiWindow`: its GL context, its lazily
/// created UI context (absent until the first event is dispatched to it),
/// and its behavior.
pub struct TrackedWindowContainer {
    pub gl_window: IndeterminateWindowedContext,
    pub egui: Option<UiContext>,
    pub window: MyWindows,
}

impl TrackedWindowContainer {
    /// The window handle inside the context tag, when one is present.
    pub open spec fn handle(self) -> WindowedContext {
        match self.gl_window {
            IndeterminateWindowedContext::PossiblyCurrent(w) => w,
            IndeterminateWindowedContext::NotCurrent(w) => w,
            IndeterminateWindowedContext::InTransit => arbitrary(),
        }
    }

    /// The platform identity of this container's window.
    pub open spec fn window_id(self) -> u64 {
        self.handle().window_id
    }

    /// Structural invariant: outside a dispatch the GL context is never in
    /// transit, and a UI context, once created, is bound to this window.
    pub open spec fn inv(self) -> bool {
        &&& !(self.gl_window is InTransit)
        &&& (self.egui matches Some(u) ==> u.bound_window == self.window_id())
    }

    /// The container's bookkeeping counters are clear of their machine
    /// limits, so one more dispatch cannot overflow them.
    pub open spec fn has_headroom(self) -> bool {
        &&& crate::windows::behavior_headroom(self.window)
        &&& self.handle().frames_presented < u64::MAX
        &&& (self.egui matches Some(u) ==> u.frames_rendered < u64::MAX
            && u.events_absorbed < u64::MAX)
    }

    /// Whether an event is for this window: either it carries no window
    /// identity (such as loop teardown, which goes to everyone), or its
    /// identity matches this container's window.
    pub open spec fn is_interested(self, e: Event) -> bool {
        match event_target(e) {
            Some(id) => self.gl_window is InTransit || self.window_id() == id,
            None => true,
        }
    }

    /// The UI context the behavior handler will run with: the one already
    /// created, or — on the first dispatch — a fresh one bound to this
    /// window.
    pub open spec fn ui_start(self) -> UiContext {
        match self.egui {
            Some(u) => u,
            None => UiContext {
                bound_window: self.window_id(),
                frames_rendered: 0,
                events_absorbed: 0,
                destroyed: false,
            },
        }
    }

    /// The UI context after one dispatch of `e` that returned `flow`: the
    /// handler's effect, plus the GPU teardown done when the window exits.
    pub open spec fn ui_final(self, e: Event, flow: ControlFlow) -> UiContext {
        let u = ui_after(self.ui_start(), e);
        if flow is Exit {
            UiContext { destroyed: true, ..u }
        } else {
            u
        }
    }

    /// The container after one dispatch of `e` with the given other live
    /// containers: the GL context has been activated and returned as
    /// possibly current, the UI context exists, and the behavior has
    /// handled the event.
    pub open spec fn dispatched(self, e: Event, others: Seq<TrackedWindowContainer>)
        -> TrackedWindowContainer {
        let flow = behavior_flow(self.window, e, others);
        TrackedWindowContainer {
            gl_window: IndeterminateWindowedContext::PossiblyCurrent(
                gl_after(self.handle(), e),
            ),
            egui: Some(self.ui_final(e, flow)),
            window: behavior_after(self.window, e),
        }
    }

    /// Lazy UI-context creation: a container created by `create` has no UI
    /// context, and after any dispatch it has one — the first dispatch is
    /// what constructs it.
    pub proof fn lemma_lazy_ui_context(
        self,
        e: Event,
        others: Seq<TrackedWindowContainer>,
    )
        ensures
            self.dispatched(e, others).egui is Some,
            self.egui is None ==> self.dispatched(e, others).egui->0.frames_rendered
                == (if e is RedrawRequested { 1int } else { 0 }),
    {
    }

    /// Constructs a container for a new window: acquires the platform
    /// window and GL context, stores the context as not yet current, and
    /// leaves the UI context absent until the first dispatch.
    pub fn create(
        window: MyWindows,
        window_builder: WindowBuilder,
        event_loop: &mut EventLoopWindowTarget,
    ) -> (r: Result<TrackedWindowContainer, DisplayCreationError>)
        requires
            old(event_loop).next_window_id < u64::MAX,
        ensures
            r is Ok <==> old(event_loop).fail_with is None,
            match r {
                Ok(c) => {
                    &&& c == (TrackedWindowContainer {
                        gl_window: IndeterminateWindowedContext::NotCurrent(
                            fresh_window(old(event_loop).next_window_id, window_builder),
                        ),
                        egui: None,
                        window: window,
                    })
                    &&& *final(event_loop) == (EventLoopWindowTarget {
                        next_window_id: (old(event_loop).next_window_id + 1) as u64,
                        ..*old(event_loop)
                    })
                },
                Err(e) => {
                    &&& old(event_loop).fail_with == Some(e)
                    &&& *final(event_loop) == *old(event_loop)
                },
            },
    {
        let gl_window = match event_loop.create_window(&window_builder) {
            Ok(w) => w,
            Err(e) => {
                return Err(e);
            },
        };
        Ok(TrackedWindowContainer {
            window,
            gl_window: IndeterminateWindowedContext::NotCurrent(gl_window),
            egui: None,
        })
    }

    /// Dispatches one event to this container's behavior.
    ///
    /// The GL context is moved out of the container and activated (only one
    /// context may be current on the thread, and activation consumes the
    /// handle); if the UI context is still absent it is created now, bound
    /// to the freshly activated context — the only place UI contexts are
    /// constructed. The behavior's handler then runs with the event, the
    /// other live containers, the UI context and the activated handle. If
    /// it asks to exit, the UI context's GPU resources are released before
    /// the dispatcher drops the container. On every path the activated
    /// context is returned to the container as possibly current.
    pub fn handle_event_outer(
        &mut self,
        event: &Event,
        other_windows: &mut Vec<TrackedWindowContainer>,
    ) -> (r: TrackedWindowControl)
        requires
            old(self).inv(),
            old(self).has_headroom(),
            popup_increments(old(self).window, *event) ==> roots_have_headroom(
                old(other_windows)@,
            ),
        ensures
            *final(self) == old(self).dispatched(*event, old(other_windows)@),
            final(other_windows)@ == peers_after(
                old(self).window,
                *event,
                old(other_windows)@,
            ),
            r.requested_control_flow == behavior_flow(
                old(self).window,
                *event,
                old(other_windows)@,
            ),
            match behavior_spawns(old(self).window, *event) {
                Some(n) => r.windows_to_create@.len() == 1 && is_popup_request(
                    r.windows_to_create@[0],
                    n,
                ),
                None => r.windows_to_create@.len() == 0,
            },
    {
        // Activation needs full ownership, so move the context out of the
        // container; it must be returned on every exit path.
        let mut taken = IndeterminateWindowedContext::InTransit;
        core::mem::swap(&mut taken, &mut self.gl_window);
        let mut gl_window: WindowedContext = match taken {
            IndeterminateWindowedContext::PossiblyCurrent(w) => w,
            IndeterminateWindowedContext::NotCurrent(w) => w,
            IndeterminateWindowedContext::InTransit => unreached(),
        };

        // Now that the window is active, create the UI context if it is
        // missing, bound to the activated context's graphics device.
        if self.egui.is_none() {
            self.egui = Some(UiContext::new(&gl_window));
        }

        let result = match &mut self.egui {
            Some(egui) => {
                let result = self.window.handle_event(
                    event,
                    other_windows,
                    egui,
                    &mut gl_window,
                );
                if let ControlFlow::Exit = result.requested_control_flow {
                    // This window wants to go away: release its GPU
                    // resources before the dispatcher drops it.
                    egui.destroy();
                }
                result
            },
            None => unreached(),
        };

        proof {
            // Nothing re-entered the container while its context was
            // borrowed: the slot still holds the in-transit marker, so the
            // activated context can be returned without clobbering one.
            assert(self.gl_window is InTransit);
        }
        self.gl_window = IndeterminateWindowedContext::PossiblyCurrent(gl_window);
        result
    }

    /// Checks whether this window should receive the event, by window
    /// identity. A container whose context cannot be inspected (it is in
    /// transit) receives the event rather than miss one.
    pub fn is_event_for_window(&self, event: &Event) -> (r: bool)
        ensures
            r == self.is_interested(*event),
    {
        match event {
            Event::LoopDestroyed => true,
            Event::RedrawRequested { window_id, .. } => match &self.gl_window {
                IndeterminateWindowedContext::PossiblyCurrent(w) => w.window_id == *window_id,
                IndeterminateWindowedContext::NotCurrent(w) => w.window_id == *window_id,
                IndeterminateWindowedContext::InTransit => true,
            },
            Event::WindowEvent { window_id, .. } => match &self.gl_window {
                IndeterminateWindowedContext::PossiblyCurrent(w) => w.window_id == *window_id,
                IndeterminateWindowedContext::NotCurrent(w) => w.window_id == *window_id,
                IndeterminateWindowedContext::InTransit => true,
            },
        }
    }
}

} // verus!
