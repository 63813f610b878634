//! The popup window kind: holds a text buffer, increments the root
//! window's counter, and tears itself down once no root window remains.

use vstd::prelude::*;

use crate::multi_window::NewWindowRequest;
use crate::platform::{gl_after, ControlFlow, Event, WindowBuilder, WindowEventKind,
    WindowedContext};
use crate::tracked_window::{TrackedWindowContainer, TrackedWindowControl};
use crate::ui_context::{ui_after, UiContext};
use crate::windows::{behavior_flow, increment_roots, peers_after, roots_have_headroom,
    MyWindows};

verus! {

/// State of a popup window: its text-input buffer.
pub struct PopupWindow {
    pub input: String,
}

impl PopupWindow {
    /// The creation request for a popup window: the label becomes both the
    /// window title and the initial text buffer, in a small fixed-size
    /// window.
    pub fn new(label: String) -> (r: NewWindowRequest)
        ensures
            r.window_state == MyWindows::Popup(PopupWindow { input: label }),
            r.builder == (WindowBuilder {
                width: 400,
                height: 200,
                resizable: false,
                title: label,
            }),
    {
        NewWindowRequest {
            window_state: MyWindows::Popup(PopupWindow { input: label.clone() }),
            builder: WindowBuilder { width: 400, height: 200, resizable: false, title: label },
        }
    }

    /// Handles one event for a popup window. A redraw runs one UI frame;
    /// if the increment button was pressed, every root peer's counter is
    /// incremented (the popup's own state is untouched). A close request
    /// or quitting from the UI exits this window, and a popup that finds
    /// no root among its peers exits on any event.
    pub fn handle_event(
        &mut self,
        event: &Event,
        other_windows: &mut Vec<TrackedWindowContainer>,
        egui: &mut UiContext,
        gl_window: &mut WindowedContext,
    ) -> (r: TrackedWindowControl)
        requires
            crate::windows::popup_increments(MyWindows::Popup(*old(self)), *event)
                ==> roots_have_headroom(old(other_windows)@),
            old(egui).frames_rendered < u64::MAX,
            old(egui).events_absorbed < u64::MAX,
            old(gl_window).frames_presented < u64::MAX,
        ensures
            *final(self) == *old(self),
            final(other_windows)@ == peers_after(
                MyWindows::Popup(*old(self)),
                *event,
                old(other_windows)@,
            ),
            *final(egui) == ui_after(*old(egui), *event),
            *final(gl_window) == gl_after(*old(gl_window), *event),
            r.requested_control_flow == behavior_flow(
                MyWindows::Popup(*old(self)),
                *event,
                old(other_windows)@,
            ),
            r.windows_to_create@.len() == 0,
    {
        let mut control_flow = ControlFlow::Wait;

        // Check whether any root window is left; exit if none remains.
        let mut root_window_exists = false;
        let mut i: usize = 0;
        while i < other_windows.len()
            invariant
                i <= other_windows@.len(),
                other_windows@ == old(other_windows)@,
                root_window_exists == exists|k: int|
                    0 <= k < i && other_windows@[k].window is Root,
            decreases other_windows@.len() - i,
        {
            if let MyWindows::Root(_) = &other_windows[i].window {
                root_window_exists = true;
            }
            i = i + 1;
        }

        match event {
            Event::RedrawRequested { ui, .. } => {
                // One UI frame: the increment button, the text buffer, and
                // the quit button.
                egui.run_frame();
                if ui.primary_clicked {
                    let ghost peers0 = other_windows@;
                    let mut j: usize = 0;
                    while j < other_windows.len()
                        invariant
                            j <= other_windows@.len(),
                            other_windows@.len() == peers0.len(),
                            roots_have_headroom(peers0),
                            forall|k: int|
                                j <= k < peers0.len() ==> other_windows@[k] == peers0[k],
                            forall|k: int|
                                0 <= k < j ==> other_windows@[k] == increment_roots(peers0)[k],
                        decreases other_windows@.len() - j,
                    {
                        proof {
                            assert(other_windows@[j as int] == peers0[j as int]);
                            assert(crate::windows::root_headroom(peers0[j as int]));
                        }
                        match &mut other_windows[j].window {
                            MyWindows::Root(root_window) => {
                                root_window.button_press_count = root_window.button_press_count
                                    + 1;
                            },
                            MyWindows::Popup(_) => {},
                        }
                        j = j + 1;
                    }
                    proof {
                        assert(other_windows@ =~= increment_roots(peers0));
                    }
                }
                if ui.quit_clicked {
                    control_flow = ControlFlow::Exit;
                } else if ui.repaint_now {
                    gl_window.request_redraw();
                    control_flow = ControlFlow::Poll;
                } else {
                    control_flow = ControlFlow::Wait;
                }
                // Clear, paint the frame's primitives, and present it.
                gl_window.swap_buffers();
            },
            Event::WindowEvent { event: kind, .. } => {
                if let WindowEventKind::Resized { width, height } = kind {
                    gl_window.resize(*width, *height);
                }
                if let WindowEventKind::CloseRequested = kind {
                    control_flow = ControlFlow::Exit;
                }
                egui.on_event();
                gl_window.request_redraw();
            },
            Event::LoopDestroyed => {
                egui.destroy();
            },
        }

        if !root_window_exists {
            control_flow = ControlFlow::Exit;
        }

        TrackedWindowControl {
            requested_control_flow: control_flow,
            windows_to_create: Vec::new(),
        }
    }
}

} // verus!
