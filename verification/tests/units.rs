//! Unit tests for the building blocks: directive reduction, window and UI
//! context models, container creation and routing, and label formatting.

use multiwin::multi_window::{reduce_control_flow, NewWindowRequest};
use multiwin::platform::{ControlFlow, Event, EventLoopWindowTarget, UiInteraction,
    WindowBuilder, WindowedContext};
use multiwin::tracked_window::{DisplayCreationError, IndeterminateWindowedContext,
    TrackedWindowContainer};
use multiwin::ui_context::UiContext;
use multiwin::windows::popup_window::PopupWindow;
use multiwin::windows::root::RootWindow;
use multiwin::windows::{popup_label_string, u32_to_decimal, MyWindows};

#[test]
fn reduction_poll_takes_precedence() {
    let flows = vec![ControlFlow::Wait, ControlFlow::WaitUntil(5), ControlFlow::Poll];
    assert_eq!(reduce_control_flow(&flows), ControlFlow::Poll);
    let flows = vec![ControlFlow::Poll, ControlFlow::WaitUntil(5)];
    assert_eq!(reduce_control_flow(&flows), ControlFlow::Poll);
}

#[test]
fn reduction_picks_earliest_wait_until() {
    let flows = vec![
        ControlFlow::Wait,
        ControlFlow::WaitUntil(9),
        ControlFlow::WaitUntil(3),
        ControlFlow::WaitUntil(7),
    ];
    assert_eq!(reduce_control_flow(&flows), ControlFlow::WaitUntil(3));
}

#[test]
fn reduction_defaults_to_wait() {
    assert_eq!(reduce_control_flow(&vec![]), ControlFlow::Wait);
    let flows = vec![ControlFlow::Wait, ControlFlow::Wait];
    assert_eq!(reduce_control_flow(&flows), ControlFlow::Wait);
}

#[test]
fn reduction_ignores_window_level_exit() {
    let flows = vec![ControlFlow::Exit, ControlFlow::WaitUntil(4), ControlFlow::Exit];
    assert_eq!(reduce_control_flow(&flows), ControlFlow::WaitUntil(4));
    assert_eq!(reduce_control_flow(&vec![ControlFlow::Exit]), ControlFlow::Wait);
}

#[test]
fn decimal_formatting() {
    assert_eq!(u32_to_decimal(0), "0");
    assert_eq!(u32_to_decimal(7), "7");
    assert_eq!(u32_to_decimal(10), "10");
    assert_eq!(u32_to_decimal(42), "42");
    assert_eq!(u32_to_decimal(4294967295), "4294967295");
}

#[test]
fn popup_labels() {
    assert_eq!(popup_label_string(0), "popup window #0");
    assert_eq!(popup_label_string(137), "popup window #137");
}

#[test]
fn root_request_shape() {
    let request = RootWindow::new();
    match request.window_state {
        MyWindows::Root(r) => {
            assert_eq!(r.button_press_count, 0);
            assert_eq!(r.num_popups_created, 0);
        },
        MyWindows::Popup(_) => panic!("root request should hold a root window"),
    }
    assert_eq!(request.builder.width, 800);
    assert_eq!(request.builder.height, 600);
    assert!(request.builder.resizable);
    assert_eq!(request.builder.title, "egui-multiwin root window");
}

#[test]
fn popup_request_shape() {
    let request = PopupWindow::new(String::from("popup window #4"));
    match request.window_state {
        MyWindows::Popup(p) => assert_eq!(p.input, "popup window #4"),
        MyWindows::Root(_) => panic!("popup request should hold a popup window"),
    }
    assert_eq!(request.builder.width, 400);
    assert_eq!(request.builder.height, 200);
    assert!(!request.builder.resizable);
    assert_eq!(request.builder.title, "popup window #4");
}

#[test]
fn target_assigns_fresh_identities() {
    let mut target = EventLoopWindowTarget::new();
    let builder =
        WindowBuilder { width: 10, height: 20, resizable: false, title: String::from("w") };
    let first = target.create_window(&builder).unwrap();
    let second = target.create_window(&builder).unwrap();
    assert_eq!(first.window_id, 0);
    assert_eq!(second.window_id, 1);
    assert_eq!(first.surface_width, 10);
    assert_eq!(first.surface_height, 20);
    assert!(!first.redraw_requested);
    assert_eq!(first.frames_presented, 0);
}

#[test]
fn target_failure_is_sticky_until_cleared() {
    let mut target = EventLoopWindowTarget::new();
    target.fail_with = Some(DisplayCreationError::Creation);
    let builder =
        WindowBuilder { width: 1, height: 1, resizable: false, title: String::from("w") };
    assert_eq!(target.create_window(&builder), Err(DisplayCreationError::Creation));
    assert_eq!(target.create_window(&builder), Err(DisplayCreationError::Creation));
    assert_eq!(target.next_window_id, 0);
    target.fail_with = None;
    assert!(target.create_window(&builder).is_ok());
}

#[test]
fn created_container_is_not_current_with_no_ui_context() {
    let mut target = EventLoopWindowTarget::new();
    let request = RootWindow::new();
    let container = TrackedWindowContainer::create(
        request.window_state,
        request.builder,
        &mut target,
    )
    .unwrap();
    assert!(container.egui.is_none());
    match container.gl_window {
        IndeterminateWindowedContext::NotCurrent(w) => assert_eq!(w.window_id, 0),
        _ => panic!("a fresh container's context starts not current"),
    }
}

#[test]
fn event_routing_by_identity() {
    let mut target = EventLoopWindowTarget::new();
    let request = RootWindow::new();
    let container = TrackedWindowContainer::create(
        request.window_state,
        request.builder,
        &mut target,
    )
    .unwrap();

    let ui = UiInteraction { primary_clicked: false, quit_clicked: false, repaint_now: false };
    assert!(container.is_event_for_window(&Event::RedrawRequested { window_id: 0, ui }));
    assert!(!container.is_event_for_window(&Event::RedrawRequested { window_id: 3, ui }));
    assert!(container.is_event_for_window(&Event::LoopDestroyed));
}

#[test]
fn ui_context_model() {
    let w = WindowedContext {
        window_id: 9,
        surface_width: 1,
        surface_height: 1,
        redraw_requested: false,
        frames_presented: 0,
    };
    let mut ui = UiContext::new(&w);
    assert_eq!(ui.bound_window, 9);
    assert_eq!(ui.frames_rendered, 0);
    assert_eq!(ui.events_absorbed, 0);
    assert!(!ui.destroyed);
    ui.run_frame();
    ui.run_frame();
    ui.on_event();
    ui.destroy();
    assert_eq!(ui.frames_rendered, 2);
    assert_eq!(ui.events_absorbed, 1);
    assert!(ui.destroyed);
}

#[test]
fn window_handle_model() {
    let mut w = WindowedContext {
        window_id: 2,
        surface_width: 100,
        surface_height: 50,
        redraw_requested: false,
        frames_presented: 0,
    };
    w.resize(640, 480);
    assert_eq!(w.surface_width, 640);
    assert_eq!(w.surface_height, 480);
    w.request_redraw();
    assert!(w.redraw_requested);
    w.swap_buffers();
    assert_eq!(w.frames_presented, 1);
    assert_eq!(w.window_id, 2);
}

#[test]
fn request_can_carry_any_behavior() {
    let request = NewWindowRequest {
        window_state: MyWindows::Popup(PopupWindow { input: String::from("typed text") }),
        builder: WindowBuilder {
            width: 300,
            height: 100,
            resizable: true,
            title: String::from("scratch"),
        },
    };
    match request.window_state {
        MyWindows::Popup(p) => assert_eq!(p.input, "typed text"),
        MyWindows::Root(_) => panic!("expected the popup that was stored"),
    }
}
