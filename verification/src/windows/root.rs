//! The root window kind: owns the shared button-press counter and spawns
//! popup windows.

use vstd::prelude::*;
use vstd::string::StringExecFns;

use crate::multi_window::NewWindowRequest;
use crate::platform::{gl_after, ControlFlow, Event, WindowBuilder, WindowEventKind,
    WindowedContext};
use crate::tracked_window::{TrackedWindowContainer, TrackedWindowControl};
use crate::ui_context::{ui_after, UiContext};
use crate::windows::popup_window::PopupWindow;
use crate::windows::{base_flow, is_popup_request, popup_label_string};

verus! {

/// State of the root window. `button_press_count` is the cross-window
/// mutation channel: popup windows increment it during their own dispatch.
/// `num_popups_created` numbers the popups this window has requested.
pub struct RootWindow {
    pub button_press_count: u32,
    pub num_popups_created: u32,
}

/// The root window's state after handling an event: spawning a popup during
/// a redraw numbers it; nothing else changes the root's own state. In
/// particular the root's own handler never touches `button_press_count`;
/// only popup peers do.
pub open spec fn root_after(r: RootWindow, e: Event) -> RootWindow {
    match e {
        Event::RedrawRequested { ui, .. } => if ui.primary_clicked {
            RootWindow { num_popups_created: (r.num_popups_created + 1) as u32, ..r }
        } else {
            r
        },
        _ => r,
    }
}

/// The popup the root's handler requests for an event, if any: one request,
/// numbered with the pre-dispatch popup count, when the new-popup button
/// was pressed during a redraw.
pub open spec fn root_spawns(r: RootWindow, e: Event) -> Option<u32> {
    match e {
        Event::RedrawRequested { ui, .. } => if ui.primary_clicked {
            Some(r.num_popups_created)
        } else {
            None
        },
        _ => None,
    }
}

impl RootWindow {
    /// The creation request for a root window: zeroed counters in a
    /// resizable window.
    pub fn new() -> (r: NewWindowRequest)
        ensures
            r.window_state == crate::windows::MyWindows::Root(
                RootWindow { button_press_count: 0, num_popups_created: 0 },
            ),
            r.builder.width == 800,
            r.builder.height == 600,
            r.builder.resizable,
            r.builder.title@ == "egui-multiwin root window"@,
    {
        NewWindowRequest {
            window_state: crate::windows::MyWindows::Root(
                RootWindow { button_press_count: 0, num_popups_created: 0 },
            ),
            builder: WindowBuilder {
                width: 800,
                height: 600,
                resizable: true,
                title: String::from_str("egui-multiwin root window"),
            },
        }
    }

    /// Handles one event for the root window. A redraw runs one UI frame,
    /// spawning a popup if the new-popup button was pressed and presenting
    /// the frame; a window event resizes the surface if needed, exits on a
    /// close request, and is forwarded to the UI; loop teardown releases
    /// the UI context's GPU resources. The root reads its popup peers to
    /// display them but never mutates them.
    pub fn handle_event(
        &mut self,
        event: &Event,
        other_windows: &mut Vec<TrackedWindowContainer>,
        egui: &mut UiContext,
        gl_window: &mut WindowedContext,
    ) -> (r: TrackedWindowControl)
        requires
            old(self).num_popups_created < u32::MAX,
            old(egui).frames_rendered < u64::MAX,
            old(egui).events_absorbed < u64::MAX,
            old(gl_window).frames_presented < u64::MAX,
        ensures
            *final(self) == root_after(*old(self), *event),
            final(other_windows)@ == old(other_windows)@,
            *final(egui) == ui_after(*old(egui), *event),
            *final(gl_window) == gl_after(*old(gl_window), *event),
            r.requested_control_flow == base_flow(*event),
            match root_spawns(*old(self), *event) {
                Some(n) => r.windows_to_create@.len() == 1 && is_popup_request(
                    r.windows_to_create@[0],
                    n,
                ),
                None => r.windows_to_create@.len() == 0,
            },
    {
        let mut control_flow = ControlFlow::Wait;
        let mut windows_to_create: Vec<NewWindowRequest> = Vec::new();

        match event {
            Event::RedrawRequested { ui, .. } => {
                // One UI frame: side panel with the new-popup and quit
                // buttons, central panel showing the counter and the popup
                // peers' text buffers.
                egui.run_frame();
                if ui.primary_clicked {
                    let label = popup_label_string(self.num_popups_created);
                    windows_to_create.push(PopupWindow::new(label));
                    self.num_popups_created = self.num_popups_created + 1;
                }
                if ui.quit_clicked {
                    control_flow = ControlFlow::Exit;
                } else if ui.repaint_now {
                    gl_window.request_redraw();
                    control_flow = ControlFlow::Poll;
                } else {
                    control_flow = ControlFlow::Wait;
                }
                // Clear, paint the frame's primitives, and present it.
                gl_window.swap_buffers();
            },
            Event::WindowEvent { event: kind, .. } => {
                if let WindowEventKind::Resized { width, height } = kind {
                    gl_window.resize(*width, *height);
                }
                if let WindowEventKind::CloseRequested = kind {
                    control_flow = ControlFlow::Exit;
                }
                egui.on_event();
                gl_window.request_redraw();
            },
            Event::LoopDestroyed => {
                egui.destroy();
            },
        }

        TrackedWindowControl { requested_control_flow: control_flow, windows_to_create }
    }
}

} // verus!
