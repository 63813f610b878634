//! Scenario tests for the multi-window dispatcher: event routing, lazy UI
//! context creation, cross-window mutation, orphan self-termination, and
//! failed window creation.

use multiwin::multi_window::MultiWindow;
use multiwin::platform::{ControlFlow, Event, EventLoopWindowTarget, UiInteraction,
    WindowEventKind};
use multiwin::tracked_window::{DisplayCreationError, IndeterminateWindowedContext};
use multiwin::windows::popup_window::PopupWindow;
use multiwin::windows::root::RootWindow;
use multiwin::windows::MyWindows;

fn no_clicks() -> UiInteraction {
    UiInteraction { primary_clicked: false, quit_clicked: false, repaint_now: false }
}

fn redraw(window_id: u64, ui: UiInteraction) -> Event {
    Event::RedrawRequested { window_id, ui }
}

/// A dispatcher with one root window (id 0) and one popup window (id 1).
fn root_and_popup() -> (MultiWindow, EventLoopWindowTarget) {
    let mut target = EventLoopWindowTarget::new();
    let mut mw = MultiWindow::new();
    mw.add(RootWindow::new(), &mut target).unwrap();
    mw.add(PopupWindow::new(String::from("hello")), &mut target).unwrap();
    (mw, target)
}

fn window_id(mw: &MultiWindow, index: usize) -> u64 {
    match &mw.windows[index].gl_window {
        IndeterminateWindowedContext::PossiblyCurrent(w) => w.window_id,
        IndeterminateWindowedContext::NotCurrent(w) => w.window_id,
        IndeterminateWindowedContext::InTransit => panic!("context in transit outside dispatch"),
    }
}

fn root_counter(mw: &MultiWindow, index: usize) -> u32 {
    match &mw.windows[index].window {
        MyWindows::Root(r) => r.button_press_count,
        MyWindows::Popup(_) => panic!("expected a root window"),
    }
}

fn popup_input(mw: &MultiWindow, index: usize) -> String {
    match &mw.windows[index].window {
        MyWindows::Popup(p) => p.input.clone(),
        MyWindows::Root(_) => panic!("expected a popup window"),
    }
}

#[test]
fn identity_routing_delivers_to_matching_window_only() {
    let mut target = EventLoopWindowTarget::new();
    let mut mw = MultiWindow::new();
    mw.add(RootWindow::new(), &mut target).unwrap();
    mw.add(PopupWindow::new(String::from("a")), &mut target).unwrap();
    mw.add(PopupWindow::new(String::from("b")), &mut target).unwrap();

    let flow = mw.process_event(&redraw(1, no_clicks()), &mut target);
    assert_eq!(flow, ControlFlow::Wait);

    // Only the targeted window was dispatched: its UI context exists and has
    // run exactly one frame; the other windows were never dispatched.
    assert!(mw.windows[0].egui.is_none());
    assert_eq!(mw.windows[1].egui.as_ref().unwrap().frames_rendered, 1);
    assert!(mw.windows[2].egui.is_none());
}

#[test]
fn identity_routing_no_matching_window() {
    let (mut mw, mut target) = root_and_popup();
    // No window has identity 77: nobody is dispatched, nothing changes.
    let flow = mw.process_event(&redraw(77, no_clicks()), &mut target);
    assert_eq!(flow, ControlFlow::Wait);
    assert_eq!(mw.windows.len(), 2);
    assert!(mw.windows[0].egui.is_none());
    assert!(mw.windows[1].egui.is_none());
}

#[test]
fn untargeted_event_reaches_every_window_once() {
    let (mut mw, mut target) = root_and_popup();
    let flow = mw.process_event(&Event::LoopDestroyed, &mut target);

    // Loop teardown goes to everyone: each window's UI context was created
    // by its dispatch and told to release its GPU resources exactly once.
    for container in &mw.windows {
        let ui = container.egui.as_ref().unwrap();
        assert!(ui.destroyed);
        assert_eq!(ui.frames_rendered, 0);
        assert_eq!(ui.events_absorbed, 0);
    }
    assert_eq!(flow, ControlFlow::Wait);
}

#[test]
fn ui_context_is_created_lazily_on_first_dispatch() {
    let (mut mw, mut target) = root_and_popup();
    assert!(mw.windows[0].egui.is_none());
    assert!(mw.windows[1].egui.is_none());

    mw.process_event(&redraw(0, no_clicks()), &mut target);

    // The dispatched root now has a UI context bound to its own window; the
    // popup, never dispatched, still has none.
    let ui = mw.windows[0].egui.as_ref().unwrap();
    assert_eq!(ui.bound_window, 0);
    assert!(!ui.destroyed);
    assert!(mw.windows[1].egui.is_none());

    // A second dispatch does not recreate it: the frame count advances.
    mw.process_event(&redraw(0, no_clicks()), &mut target);
    assert_eq!(mw.windows[0].egui.as_ref().unwrap().frames_rendered, 2);
}

#[test]
fn popup_increments_root_counter_and_keeps_own_state() {
    let (mut mw, mut target) = root_and_popup();
    assert_eq!(root_counter(&mw, 0), 0);

    let ui = UiInteraction { primary_clicked: true, quit_clicked: false, repaint_now: false };
    let flow = mw.process_event(&redraw(1, ui), &mut target);

    assert_eq!(root_counter(&mw, 0), 1);
    assert_eq!(popup_input(&mw, 1), "hello");
    assert_eq!(mw.windows.len(), 2);
    assert_eq!(flow, ControlFlow::Wait);
}

#[test]
fn popup_increments_every_root_and_no_popup() {
    let mut target = EventLoopWindowTarget::new();
    let mut mw = MultiWindow::new();
    mw.add(RootWindow::new(), &mut target).unwrap();
    mw.add(RootWindow::new(), &mut target).unwrap();
    mw.add(PopupWindow::new(String::from("first")), &mut target).unwrap();
    mw.add(PopupWindow::new(String::from("second")), &mut target).unwrap();

    // The increment comes from the popup with id 2: every root's counter
    // moves, and neither popup's state does — the dispatched popup is not
    // among the peers it mutates.
    let ui = UiInteraction { primary_clicked: true, quit_clicked: false, repaint_now: false };
    mw.process_event(&redraw(2, ui), &mut target);

    assert_eq!(root_counter(&mw, 0), 1);
    assert_eq!(root_counter(&mw, 1), 1);
    assert_eq!(popup_input(&mw, 2), "first");
    assert_eq!(popup_input(&mw, 3), "second");

    // Only the dispatched popup ran a frame.
    assert!(mw.windows[0].egui.is_none());
    assert!(mw.windows[1].egui.is_none());
    assert_eq!(mw.windows[2].egui.as_ref().unwrap().frames_rendered, 1);
    assert!(mw.windows[3].egui.is_none());
}

#[test]
fn orphaned_popup_exits_on_its_next_event() {
    let (mut mw, mut target) = root_and_popup();

    // Close the root: it is removed; the popup stays for now.
    let close = Event::WindowEvent { window_id: 0, event: WindowEventKind::CloseRequested };
    let flow = mw.process_event(&close, &mut target);
    assert_eq!(mw.windows.len(), 1);
    assert!(matches!(mw.windows[0].window, MyWindows::Popup(_)));
    assert_eq!(flow, ControlFlow::Wait);

    // On its next event the popup observes no root peer and exits; the
    // collection is empty, so the process directive becomes exit.
    let nudge = Event::WindowEvent { window_id: 1, event: WindowEventKind::Other };
    let flow = mw.process_event(&nudge, &mut target);
    assert_eq!(mw.windows.len(), 0);
    assert_eq!(flow, ControlFlow::Exit);
}

#[test]
fn popup_survives_while_root_lives() {
    let (mut mw, mut target) = root_and_popup();
    let nudge = Event::WindowEvent { window_id: 1, event: WindowEventKind::Other };
    let flow = mw.process_event(&nudge, &mut target);
    assert_eq!(mw.windows.len(), 2);
    assert_eq!(flow, ControlFlow::Wait);
}

#[test]
fn root_spawns_numbered_popups() {
    let mut target = EventLoopWindowTarget::new();
    let mut mw = MultiWindow::new();
    mw.add(RootWindow::new(), &mut target).unwrap();

    let ui = UiInteraction { primary_clicked: true, quit_clicked: false, repaint_now: false };
    mw.process_event(&redraw(0, ui), &mut target);
    assert_eq!(mw.windows.len(), 2);
    assert_eq!(popup_input(&mw, 1), "popup window #0");
    assert!(mw.windows[1].egui.is_none());
    assert_eq!(window_id(&mw, 1), 1);

    mw.process_event(&redraw(0, ui), &mut target);
    assert_eq!(mw.windows.len(), 3);
    assert_eq!(popup_input(&mw, 2), "popup window #1");
}

#[test]
fn quitting_root_drops_its_own_spawn_request() {
    let mut target = EventLoopWindowTarget::new();
    let mut mw = MultiWindow::new();
    mw.add(RootWindow::new(), &mut target).unwrap();

    // The root asks for a popup and quits in the same frame: the window
    // exits and its request is dropped with it.
    let ui = UiInteraction { primary_clicked: true, quit_clicked: true, repaint_now: false };
    let flow = mw.process_event(&redraw(0, ui), &mut target);
    assert_eq!(mw.windows.len(), 0);
    assert_eq!(flow, ControlFlow::Exit);
}

#[test]
fn failed_child_creation_does_not_abort_the_loop() {
    let mut target = EventLoopWindowTarget::new();
    let mut mw = MultiWindow::new();
    mw.add(RootWindow::new(), &mut target).unwrap();

    // Force platform window creation to fail, then have the root request a
    // popup: the request is dropped, the root lives on.
    target.fail_with = Some(DisplayCreationError::Creation);
    let ui = UiInteraction { primary_clicked: true, quit_clicked: false, repaint_now: false };
    let flow = mw.process_event(&redraw(0, ui), &mut target);
    assert_eq!(mw.windows.len(), 1);
    assert!(matches!(mw.windows[0].window, MyWindows::Root(_)));
    assert_ne!(flow, ControlFlow::Exit);

    // The surviving window keeps receiving events normally afterwards.
    target.fail_with = None;
    let flow = mw.process_event(&redraw(0, ui), &mut target);
    assert_eq!(mw.windows.len(), 2);
    assert_eq!(popup_input(&mw, 1), "popup window #1");
    assert_ne!(flow, ControlFlow::Exit);
}

#[test]
fn add_surfaces_creation_failure_to_the_caller() {
    let mut target = EventLoopWindowTarget::new();
    let mut mw = MultiWindow::new();
    target.fail_with = Some(DisplayCreationError::Context);
    let result = mw.add(RootWindow::new(), &mut target);
    assert_eq!(result, Err(DisplayCreationError::Context));
    assert_eq!(mw.windows.len(), 0);
    assert_eq!(target.next_window_id, 0);
}

#[test]
fn empty_collection_reduces_to_exit() {
    let mut target = EventLoopWindowTarget::new();
    let mut mw = MultiWindow::new();
    let flow = mw.process_event(&Event::LoopDestroyed, &mut target);
    assert_eq!(flow, ControlFlow::Exit);
}

#[test]
fn close_request_exits_only_that_window() {
    let mut target = EventLoopWindowTarget::new();
    let mut mw = MultiWindow::new();
    mw.add(RootWindow::new(), &mut target).unwrap();
    mw.add(RootWindow::new(), &mut target).unwrap();

    let close = Event::WindowEvent { window_id: 0, event: WindowEventKind::CloseRequested };
    let flow = mw.process_event(&close, &mut target);
    assert_eq!(mw.windows.len(), 1);
    assert_eq!(window_id(&mw, 0), 1);
    assert_eq!(flow, ControlFlow::Wait);
}

#[test]
fn repaint_request_polls_the_loop() {
    let mut target = EventLoopWindowTarget::new();
    let mut mw = MultiWindow::new();
    mw.add(RootWindow::new(), &mut target).unwrap();

    let ui = UiInteraction { primary_clicked: false, quit_clicked: false, repaint_now: true };
    let flow = mw.process_event(&redraw(0, ui), &mut target);
    assert_eq!(flow, ControlFlow::Poll);

    // The handle recorded the redraw request and the presented frame.
    match &mw.windows[0].gl_window {
        IndeterminateWindowedContext::PossiblyCurrent(w) => {
            assert!(w.redraw_requested);
            assert_eq!(w.frames_presented, 1);
        },
        _ => panic!("context should be possibly current after dispatch"),
    }
}

#[test]
fn window_event_resizes_surface_and_feeds_ui() {
    let (mut mw, mut target) = root_and_popup();
    let resize = Event::WindowEvent {
        window_id: 0,
        event: WindowEventKind::Resized { width: 1024, height: 768 },
    };
    mw.process_event(&resize, &mut target);

    match &mw.windows[0].gl_window {
        IndeterminateWindowedContext::PossiblyCurrent(w) => {
            assert_eq!(w.surface_width, 1024);
            assert_eq!(w.surface_height, 768);
            assert!(w.redraw_requested);
        },
        _ => panic!("context should be possibly current after dispatch"),
    }
    let ui = mw.windows[0].egui.as_ref().unwrap();
    assert_eq!(ui.events_absorbed, 1);
    assert_eq!(ui.frames_rendered, 0);
}
