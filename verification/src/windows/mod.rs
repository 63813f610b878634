//! The window kinds this application builds: a root window holding the
//! shared counter, and popup windows spawned from it.
//!
//! The set of kinds is closed: every dispatch site matches exhaustively on
//! [`MyWindows`], so adding a kind is a compile-time-checked change.

use vstd::prelude::*;
use vstd::string::StringExecFns;

use crate::multi_window::NewWindowRequest;
use crate::platform::{gl_after, ControlFlow, Event, WindowedContext};
use crate::tracked_window::{TrackedWindowContainer, TrackedWindowControl};
use crate::ui_context::{ui_after, UiContext};
use crate::windows::popup_window::PopupWindow;
use crate::windows::root::RootWindow;

pub mod popup_window;
pub mod root;

verus! {

/// The closed set of window behaviors, one variant per window kind.
pub enum MyWindows {
    Root(RootWindow),
    Popup(PopupWindow),
}

/// The scheduling directive any window derives from an event before
/// kind-specific rules apply: quitting from the UI or a close request means
/// this window exits; a UI that wants an immediate repaint means poll;
/// anything else means wait for the next event.
pub open spec fn base_flow(e: Event) -> ControlFlow {
    match e {
        Event::RedrawRequested { ui, .. } => if ui.quit_clicked {
            ControlFlow::Exit
        } else if ui.repaint_now {
            ControlFlow::Poll
        } else {
            ControlFlow::Wait
        },
        Event::WindowEvent { event, .. } => if event is CloseRequested {
            ControlFlow::Exit
        } else {
            ControlFlow::Wait
        },
        Event::LoopDestroyed => ControlFlow::Wait,
    }
}

/// Whether some container among `others` holds a root-kind window.
pub open spec fn root_exists(others: Seq<TrackedWindowContainer>) -> bool {
    exists|i: int| 0 <= i < others.len() && others[i].window is Root
}

/// The scheduling directive a behavior returns for an event, given the
/// other live containers. A popup that observes no remaining root window
/// exits regardless of the event.
pub open spec fn behavior_flow(w: MyWindows, e: Event, others: Seq<TrackedWindowContainer>)
    -> ControlFlow {
    match w {
        MyWindows::Root(_) => base_flow(e),
        MyWindows::Popup(_) => if root_exists(others) {
            base_flow(e)
        } else {
            ControlFlow::Exit
        },
    }
}

/// A behavior's own state after handling an event: a root that spawned a
/// popup has numbered it; nothing else changes a behavior's own state.
pub open spec fn behavior_after(w: MyWindows, e: Event) -> MyWindows {
    match w {
        MyWindows::Root(r) => MyWindows::Root(crate::windows::root::root_after(r, e)),
        MyWindows::Popup(p) => MyWindows::Popup(p),
    }
}

/// `others` with every root-kind behavior's button-press counter
/// incremented; everything else in every container is untouched.
pub open spec fn increment_roots(others: Seq<TrackedWindowContainer>)
    -> Seq<TrackedWindowContainer> {
    others.map_values(
        |c: TrackedWindowContainer|
            match c.window {
                MyWindows::Root(r) => TrackedWindowContainer {
                    window: MyWindows::Root(
                        RootWindow {
                            button_press_count: (r.button_press_count + 1) as u32,
                            ..r
                        },
                    ),
                    ..c
                },
                MyWindows::Popup(_) => c,
            },
    )
}

/// What a behavior's handler does to the other live containers: a popup
/// whose increment button was pressed during a redraw increments every
/// root's counter; no other invocation mutates a peer.
pub open spec fn peers_after(w: MyWindows, e: Event, others: Seq<TrackedWindowContainer>)
    -> Seq<TrackedWindowContainer> {
    match (w, e) {
        (MyWindows::Popup(_), Event::RedrawRequested { ui, .. }) => if ui.primary_clicked {
            increment_roots(others)
        } else {
            others
        },
        _ => others,
    }
}

/// The behavior's own counters are clear of their machine limits, so one
/// more dispatch (which increments each by at most one) cannot overflow
/// them.
pub open spec fn behavior_headroom(w: MyWindows) -> bool {
    match w {
        MyWindows::Root(r) => r.button_press_count < u32::MAX && r.num_popups_created
            < u32::MAX,
        MyWindows::Popup(_) => true,
    }
}

/// If the container holds a root-kind behavior, its button-press counter is
/// clear of the machine limit, so one increment cannot overflow it.
pub open spec fn root_headroom(c: TrackedWindowContainer) -> bool {
    c.window matches MyWindows::Root(r) ==> r.button_press_count < u32::MAX
}

/// Every root-kind behavior among `ws` has its button-press counter clear
/// of the machine limit, so one increment cannot overflow it.
pub open spec fn roots_have_headroom(ws: Seq<TrackedWindowContainer>) -> bool {
    forall|i: int| 0 <= i < ws.len() ==> #[trigger] root_headroom(ws[i])
}

/// The creation request for the `n`-th popup window: a popup behavior whose
/// text buffer is the popup label, in a fixed-size, non-resizable window
/// titled with the same label.
pub open spec fn is_popup_request(req: NewWindowRequest, n: u32) -> bool {
    &&& req.window_state matches MyWindows::Popup(p) && p.input@ == popup_label(n as nat)
    &&& req.builder.width == 400
    &&& req.builder.height == 200
    &&& !req.builder.resizable
    &&& req.builder.title@ == popup_label(n as nat)
}

/// Whether this invocation is a popup handling a redraw whose increment
/// button was pressed: the one case in which a handler mutates its peers.
pub open spec fn popup_increments(w: MyWindows, e: Event) -> bool {
    &&& w is Popup
    &&& e matches Event::RedrawRequested { ui, .. } && ui.primary_clicked
}

/// The popup spawned by handling an event, if any: a root whose new-popup
/// button was pressed during a redraw requests one popup, numbered with its
/// pre-dispatch popup count.
pub open spec fn behavior_spawns(w: MyWindows, e: Event) -> Option<u32> {
    match (w, e) {
        (MyWindows::Root(r), Event::RedrawRequested { ui, .. }) => if ui.primary_clicked {
            Some(r.num_popups_created)
        } else {
            None
        },
        _ => None,
    }
}

impl MyWindows {
    /// Handles one event: the single dispatch point over the window kinds.
    ///
    /// The handler may mutate the other live containers' behaviors (the
    /// cross-window mutation channel) and reports the window's scheduling
    /// directive together with any windows it wants created.
    pub fn handle_event(
        &mut self,
        event: &Event,
        other_windows: &mut Vec<TrackedWindowContainer>,
        egui: &mut UiContext,
        gl_window: &mut WindowedContext,
    ) -> (r: TrackedWindowControl)
        requires
            behavior_headroom(*old(self)),
            popup_increments(*old(self), *event) ==> roots_have_headroom(old(other_windows)@),
            old(egui).frames_rendered < u64::MAX,
            old(egui).events_absorbed < u64::MAX,
            old(gl_window).frames_presented < u64::MAX,
        ensures
            *final(self) == behavior_after(*old(self), *event),
            final(other_windows)@ == peers_after(*old(self), *event, old(other_windows)@),
            *final(egui) == ui_after(*old(egui), *event),
            *final(gl_window) == gl_after(*old(gl_window), *event),
            r.requested_control_flow == behavior_flow(*old(self), *event, old(other_windows)@),
            match behavior_spawns(*old(self), *event) {
                Some(n) => r.windows_to_create@.len() == 1 && is_popup_request(
                    r.windows_to_create@[0],
                    n,
                ),
                None => r.windows_to_create@.len() == 0,
            },
    {
        match self {
            MyWindows::Root(root_window) => root_window.handle_event(
                event,
                other_windows,
                egui,
                gl_window,
            ),
            MyWindows::Popup(popup_window) => popup_window.handle_event(
                event,
                other_windows,
                egui,
                gl_window,
            ),
        }
    }
}

/// The decimal digit character for `d` (`d < 10`).
pub open spec fn digit_char(d: nat) -> char {
    if d == 0 {
        '0'
    } else if d == 1 {
        '1'
    } else if d == 2 {
        '2'
    } else if d == 3 {
        '3'
    } else if d == 4 {
        '4'
    } else if d == 5 {
        '5'
    } else if d == 6 {
        '6'
    } else if d == 7 {
        '7'
    } else if d == 8 {
        '8'
    } else {
        '9'
    }
}

/// The decimal digit string of `n`, most significant digit first, without
/// leading zeros (except for `n == 0` itself).
pub open spec fn dec_digits(n: nat) -> Seq<char>
    decreases n,
{
    if n < 10 {
        seq![digit_char(n)]
    } else {
        dec_digits(n / 10).push(digit_char(n % 10))
    }
}

/// The title and text-buffer label of the `n`-th popup window.
pub open spec fn popup_label(n: nat) -> Seq<char> {
    "popup window #"@ + dec_digits(n)
}

/// The one-character string for a decimal digit.
fn digit_str(d: u32) -> (r: &'static str)
    requires
        d < 10,
    ensures
        r@ =~= seq![digit_char(d as nat)],
{
    proof {
        reveal_strlit("0");
        reveal_strlit("1");
        reveal_strlit("2");
        reveal_strlit("3");
        reveal_strlit("4");
        reveal_strlit("5");
        reveal_strlit("6");
        reveal_strlit("7");
        reveal_strlit("8");
        reveal_strlit("9");
    }
    if d == 0 {
        "0"
    } else if d == 1 {
        "1"
    } else if d == 2 {
        "2"
    } else if d == 3 {
        "3"
    } else if d == 4 {
        "4"
    } else if d == 5 {
        "5"
    } else if d == 6 {
        "6"
    } else if d == 7 {
        "7"
    } else if d == 8 {
        "8"
    } else {
        "9"
    }
}

/// Formats `n` in decimal.
pub fn u32_to_decimal(n: u32) -> (r: String)
    ensures
        r@ == dec_digits(n as nat),
    decreases n,
{
    if n < 10 {
        let r = digit_str(n).to_owned();
        proof {
            assert(r@ =~= dec_digits(n as nat));
        }
        r
    } else {
        let prefix = u32_to_decimal(n / 10);
        let r = prefix.concat(digit_str(n % 10));
        proof {
            assert(r@ =~= dec_digits(n as nat));
        }
        r
    }
}

/// Builds the label of the `n`-th popup window.
pub fn popup_label_string(n: u32) -> (r: String)
    ensures
        r@ == popup_label(n as nat),
{
    let s = String::from_str("popup window #");
    let r = s.concat(u32_to_decimal(n).as_str());
    proof {
        assert(r@ =~= popup_label(n as nat));
    }
    r
}

} // verus!
