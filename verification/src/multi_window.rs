//! The multi-window dispatcher: owns the collection of tracked windows,
//! fans one platform event out to the interested windows, reconciles the
//! per-window scheduling directives, and materializes requested windows.

use vstd::prelude::*;

use crate::platform::{event_target, ControlFlow, Event, EventLoopWindowTarget, WindowBuilder};
use crate::tracked_window::{DisplayCreationError, IndeterminateWindowedContext,
    TrackedWindowContainer};
use crate::windows::{behavior_flow, behavior_spawns, increment_roots, is_popup_request,
    peers_after, popup_increments, popup_label, roots_have_headroom, MyWindows};

verus! {

/// Collection-level invariant: every container's structural invariant holds.
pub open spec fn all_inv(ws: Seq<TrackedWindowContainer>) -> bool {
    forall|i: int| 0 <= i < ws.len() ==> (#[trigger] ws[i]).inv()
}

/// Collection-level invariant: window identities are pairwise distinct —
/// the platform never reuses an identity while its window is live.
pub open spec fn ids_distinct(ws: Seq<TrackedWindowContainer>) -> bool {
    forall|i: int, j: int|
        0 <= i < ws.len() && 0 <= j < ws.len() && i != j ==> #[trigger] ws[i].window_id()
            != #[trigger] ws[j].window_id()
}

/// Every window identity in the collection was assigned before `bound`,
/// the platform's next fresh identity.
pub open spec fn ids_below(ws: Seq<TrackedWindowContainer>, bound: u64) -> bool {
    forall|i: int| 0 <= i < ws.len() ==> (#[trigger] ws[i]).window_id() < bound
}

/// Every container's bookkeeping counters can take one more dispatch.
pub open spec fn all_headroom(ws: Seq<TrackedWindowContainer>) -> bool {
    forall|i: int| 0 <= i < ws.len() ==> (#[trigger] ws[i]).has_headroom()
}

/// A request, produced by a window behavior, for the dispatcher to open a
/// new window: the new window's initial behavior and its construction
/// parameters. Behaviors never construct containers themselves; only the
/// dispatcher owns the platform context needed to do so.
pub struct NewWindowRequest {
    pub window_state: MyWindows,
    pub builder: WindowBuilder,
}

/// Manages multiple tracked windows by forwarding events to them.
pub struct MultiWindow {
    pub windows: Vec<TrackedWindowContainer>,
}

/// The container a fulfilled creation request adds to the collection.
pub open spec fn container_of_request(request: NewWindowRequest, id: u64)
    -> TrackedWindowContainer {
    TrackedWindowContainer {
        gl_window: IndeterminateWindowedContext::NotCurrent(
            crate::platform::fresh_window(id, request.builder),
        ),
        egui: None,
        window: request.window_state,
    }
}

/// The outcome of the dispatch phase of one event-processing pass: the
/// containers that survived (dispatched or not), the directive each
/// dispatched window returned, in dispatch order, and the identities of the
/// windows the event was delivered to, in delivery order.
pub struct PassResult {
    pub windows: Seq<TrackedWindowContainer>,
    pub flows: Seq<ControlFlow>,
    pub delivered: Seq<u64>,
}

/// The dispatch phase of one pass, from position `i`: each interested
/// container, in order, is removed from the collection, dispatched with
/// mutable access to all the others, and re-inserted — or dropped when its
/// directive is the terminal one, in which case its creation requests are
/// dropped with it.
pub open spec fn pass_rec(ws: Seq<TrackedWindowContainer>, e: Event, i: int) -> PassResult
    decreases ws.len() - i,
{
    if i < 0 || i >= ws.len() {
        PassResult { windows: ws, flows: Seq::empty(), delivered: Seq::empty() }
    } else if !ws[i].is_interested(e) {
        pass_rec(ws, e, i + 1)
    } else {
        let c = ws[i];
        let others = ws.remove(i);
        let flow = behavior_flow(c.window, e, others);
        let others_after = peers_after(c.window, e, others);
        if flow is Exit {
            let rest = pass_rec(others_after, e, i);
            PassResult {
                windows: rest.windows,
                flows: seq![flow] + rest.flows,
                delivered: seq![c.window_id()] + rest.delivered,
            }
        } else {
            let rest = pass_rec(others_after.insert(i, c.dispatched(e, others)), e, i + 1);
            PassResult {
                windows: rest.windows,
                flows: seq![flow] + rest.flows,
                delivered: seq![c.window_id()] + rest.delivered,
            }
        }
    }
}

/// Whether this pass collects a popup-creation request: the event is a
/// redraw in which the new-popup button was pressed without quitting, and
/// some interested container holds the root window. (A root that quits in
/// the same frame exits, and its request is dropped with it.)
pub open spec fn pass_spawn_collected(ws: Seq<TrackedWindowContainer>, e: Event) -> bool {
    &&& e matches Event::RedrawRequested { ui, .. } && ui.primary_clicked && !ui.quit_clicked
    &&& exists|i: int|
        0 <= i < ws.len() && (#[trigger] ws[i]).is_interested(e) && ws[i].window is Root
}

/// The number of the popup this pass requests, if it requests one.
pub open spec fn spawn_of(ws: Seq<TrackedWindowContainer>, e: Event) -> Option<u32> {
    if pass_spawn_collected(ws, e) {
        let i = choose|i: int|
            0 <= i < ws.len() && (#[trigger] ws[i]).is_interested(e) && ws[i].window is Root;
        behavior_spawns(ws[i].window, e)
    } else {
        None
    }
}

/// The container created at the end of a pass that requested popup `n`,
/// under identity `id`: a fresh popup window at its fixed size, its GL
/// context not yet current and its UI context not yet created.
pub open spec fn is_new_popup_container(c: TrackedWindowContainer, n: u32, id: u64) -> bool {
    &&& c.gl_window matches IndeterminateWindowedContext::NotCurrent(w) && w
        == (crate::platform::WindowedContext {
        window_id: id,
        surface_width: 400,
        surface_height: 200,
        redraw_requested: false,
        frames_presented: 0,
    })
    &&& c.egui is None
    &&& c.window matches MyWindows::Popup(p) && p.input@ == popup_label(n as nat)
}

/// A handler's effect on its peers changes at most the behavior state of
/// root-kind peers; every container keeps its GL context, its UI context,
/// its identity, its kind, and its structural invariant.
pub proof fn lemma_peers_after_shape(w: MyWindows, e: Event, others: Seq<TrackedWindowContainer>)
    ensures
        peers_after(w, e, others).len() == others.len(),
        forall|k: int|
            0 <= k < others.len() ==> {
                let b = #[trigger] peers_after(w, e, others)[k];
                let a = others[k];
                &&& b.gl_window == a.gl_window
                &&& b.egui == a.egui
                &&& b.window_id() == a.window_id()
                &&& (b.inv() <==> a.inv())
                &&& (b.window is Root <==> a.window is Root)
            },
{
    let after = peers_after(w, e, others);
    if after == increment_roots(others) || after == others {
        assert forall|k: int| 0 <= k < others.len() implies {
            let b = #[trigger] after[k];
            let a = others[k];
            &&& b.gl_window == a.gl_window
            &&& b.egui == a.egui
            &&& b.window_id() == a.window_id()
            &&& (b.inv() <==> a.inv())
            &&& (b.window is Root <==> a.window is Root)
        } by {
            let a = others[k];
            if after == increment_roots(others) {
                assert(after[k] == match a.window {
                    MyWindows::Root(r) => TrackedWindowContainer {
                        window: MyWindows::Root(
                            crate::windows::root::RootWindow {
                                button_press_count: (r.button_press_count + 1) as u32,
                                ..r
                            },
                        ),
                        ..a
                    },
                    MyWindows::Popup(_) => a,
                });
            }
        }
    }
}

/// One step of directive reduction: `Poll` takes precedence, then the
/// earlier of two `WaitUntil` instants, then `Wait`. A window-level `Exit`
/// only removed that window and does not affect the process directive.
pub open spec fn flow_join(acc: ControlFlow, f: ControlFlow) -> ControlFlow {
    match f {
        ControlFlow::Poll => ControlFlow::Poll,
        ControlFlow::Wait => acc,
        ControlFlow::WaitUntil(t) => match acc {
            ControlFlow::Poll => ControlFlow::Poll,
            ControlFlow::WaitUntil(u) => if t < u {
                ControlFlow::WaitUntil(t)
            } else {
                acc
            },
            _ => ControlFlow::WaitUntil(t),
        },
        ControlFlow::Exit => acc,
    }
}

/// The reduction of one pass's directives, starting from `Wait`.
pub open spec fn reduce_flows(flows: Seq<ControlFlow>) -> ControlFlow
    decreases flows.len(),
{
    if flows.len() == 0 {
        ControlFlow::Wait
    } else {
        flow_join(reduce_flows(flows.drop_last()), flows.last())
    }
}

/// Reduces the directives collected in one pass to a single process-level
/// directive: poll if any window asked to poll, else the earliest requested
/// wake-up instant, else wait.
pub fn reduce_control_flow(flows: &Vec<ControlFlow>) -> (r: ControlFlow)
    ensures
        r == reduce_flows(flows@),
{
    let mut acc = ControlFlow::Wait;
    let mut i: usize = 0;
    while i < flows.len()
        invariant
            i <= flows@.len(),
            acc == reduce_flows(flows@.take(i as int)),
        decreases flows@.len() - i,
    {
        let f = flows[i];
        acc = match f {
            ControlFlow::Poll => ControlFlow::Poll,
            ControlFlow::Wait => acc,
            ControlFlow::WaitUntil(t) => match acc {
                ControlFlow::Poll => ControlFlow::Poll,
                ControlFlow::WaitUntil(u) => if t < u {
                    ControlFlow::WaitUntil(t)
                } else {
                    acc
                },
                _ => ControlFlow::WaitUntil(t),
            },
            ControlFlow::Exit => acc,
        };
        proof {
            assert(flows@.take(i + 1).drop_last() =~= flows@.take(i as int));
            assert(flows@.take(i + 1).last() == flows@[i as int]);
        }
        i = i + 1;
    }
    proof {
        assert(flows@.take(flows@.len() as int) =~= flows@);
    }
    acc
}

/// The window identities of a collection, in order.
pub open spec fn ids_of(ws: Seq<TrackedWindowContainer>) -> Seq<u64> {
    ws.map_values(|c: TrackedWindowContainer| c.window_id())
}

/// No self-aliasing: when a container is removed from the collection for
/// dispatch, the remaining containers — the "other windows" its handler
/// receives — never include the window being dispatched.
pub proof fn lemma_no_self_aliasing(ws: Seq<TrackedWindowContainer>, i: int)
    requires
        ids_distinct(ws),
        0 <= i < ws.len(),
    ensures
        forall|k: int|
            0 <= k < ws.remove(i).len() ==> (#[trigger] ws.remove(i)[k]).window_id()
                != ws[i].window_id(),
{
    assert forall|k: int|
        0 <= k < ws.remove(i).len() implies (#[trigger] ws.remove(i)[k]).window_id()
        != ws[i].window_id() by {
        if k < i {
            assert(ws.remove(i)[k] == ws[k]);
        } else {
            assert(ws.remove(i)[k] == ws[k + 1]);
        }
    }
}

/// In a pass over a region in which no container matches the targeted
/// event, nothing is delivered.
proof fn lemma_no_target_no_delivery(ws: Seq<TrackedWindowContainer>, e: Event, t: u64, i: int)
    requires
        all_inv(ws),
        event_target(e) == Some(t),
        forall|k: int| i <= k < ws.len() ==> (#[trigger] ws[k]).window_id() != t,
    ensures
        pass_rec(ws, e, i).delivered =~= Seq::<u64>::empty(),
    decreases ws.len() - i,
{
    if 0 <= i < ws.len() {
        assert(!ws[i].is_interested(e));
        lemma_no_target_no_delivery(ws, e, t, i + 1);
    }
}

/// Identity routing: an event carrying a window identity is delivered to
/// exactly the container whose window reports that identity — once if one
/// is live, not at all otherwise — and to no other container.
pub proof fn lemma_identity_routing(ws: Seq<TrackedWindowContainer>, e: Event, t: u64)
    requires
        all_inv(ws),
        ids_distinct(ws),
        event_target(e) == Some(t),
    ensures
        (exists|k: int| 0 <= k < ws.len() && (#[trigger] ws[k]).window_id() == t)
            ==> pass_rec(ws, e, 0).delivered =~= seq![t],
        !(exists|k: int| 0 <= k < ws.len() && (#[trigger] ws[k]).window_id() == t)
            ==> pass_rec(ws, e, 0).delivered =~= Seq::<u64>::empty(),
{
    lemma_identity_routing_rec(ws, e, t, 0);
}

/// The region form of identity routing, for induction over the pass.
proof fn lemma_identity_routing_rec(ws: Seq<TrackedWindowContainer>, e: Event, t: u64, i: int)
    requires
        all_inv(ws),
        ids_distinct(ws),
        event_target(e) == Some(t),
        0 <= i <= ws.len(),
    ensures
        (exists|k: int| i <= k < ws.len() && (#[trigger] ws[k]).window_id() == t)
            ==> pass_rec(ws, e, i).delivered =~= seq![t],
        !(exists|k: int| i <= k < ws.len() && (#[trigger] ws[k]).window_id() == t)
            ==> pass_rec(ws, e, i).delivered =~= Seq::<u64>::empty(),
    decreases ws.len() - i,
{
    if i >= ws.len() {
        return;
    }
    if !ws[i].is_interested(e) {
        lemma_identity_routing_rec(ws, e, t, i + 1);
        assert(ws[i].window_id() != t);
        assert forall|k: int|
            i <= k < ws.len() && (#[trigger] ws[k]).window_id() == t implies i + 1 <= k by {}
    } else {
        let c = ws[i];
        assert(c.window_id() == t);
        let others = ws.remove(i);
        let others_after = peers_after(c.window, e, others);
        lemma_peers_after_shape(c.window, e, others);
        assert forall|k: int| 0 <= k < others_after.len() implies (#[trigger] others_after[k])
            .inv() && others_after[k].window_id() != t by {
            if k < i {
                assert(others[k] == ws[k]);
            } else {
                assert(others[k] == ws[k + 1]);
            }
        }
        let flow = behavior_flow(c.window, e, others);
        if flow is Exit {
            lemma_no_target_no_delivery(others_after, e, t, i);
            assert(pass_rec(ws, e, i).delivered =~= seq![t]);
        } else {
            let inserted = others_after.insert(i, c.dispatched(e, others));
            assert forall|k: int| i + 1 <= k < inserted.len() implies (#[trigger] inserted[k])
                .window_id() != t by {
                assert(inserted[k] == others_after[k - 1]);
            }
            assert forall|k: int| 0 <= k < inserted.len() implies (#[trigger] inserted[k])
                .inv() by {
                if k != i {
                    let k2: int = if k < i { k } else { k - 1 };
                    assert(inserted[k] == others_after[k2]);
                }
            }
            lemma_no_target_no_delivery(inserted, e, t, i + 1);
            assert(pass_rec(ws, e, i).delivered =~= seq![t]);
        }
    }
}

/// Untargeted delivery: an event carrying no window identity (such as loop
/// teardown) is delivered to every live container exactly once in one
/// pass — the delivered identities are exactly the live identities, in
/// order.
pub proof fn lemma_untargeted_delivery(ws: Seq<TrackedWindowContainer>, e: Event)
    requires
        all_inv(ws),
        event_target(e) is None,
    ensures
        pass_rec(ws, e, 0).delivered =~= ids_of(ws),
{
    lemma_untargeted_delivery_rec(ws, e, 0);
    assert(ids_of(ws).skip(0) =~= ids_of(ws));
}

/// The region form of untargeted delivery, for induction over the pass.
proof fn lemma_untargeted_delivery_rec(ws: Seq<TrackedWindowContainer>, e: Event, i: int)
    requires
        all_inv(ws),
        event_target(e) is None,
        0 <= i <= ws.len(),
    ensures
        pass_rec(ws, e, i).delivered =~= ids_of(ws).skip(i),
    decreases ws.len() - i,
{
    if i >= ws.len() {
        return;
    }
    let c = ws[i];
    assert(c.is_interested(e));
    let others = ws.remove(i);
    let others_after = peers_after(c.window, e, others);
    lemma_peers_after_shape(c.window, e, others);
    assert forall|k: int| 0 <= k < others_after.len() implies (#[trigger] others_after[k]).inv()
        && others_after[k].window_id() == (if k < i {
        ws[k].window_id()
    } else {
        ws[k + 1].window_id()
    }) by {
        if k < i {
            assert(others[k] == ws[k]);
        } else {
            assert(others[k] == ws[k + 1]);
        }
    }
    let flow = behavior_flow(c.window, e, others);
    if flow is Exit {
        lemma_untargeted_delivery_rec(others_after, e, i);
        assert(pass_rec(others_after, e, i).delivered =~= ids_of(others_after).skip(i));
        assert(ids_of(others_after).skip(i) =~= ids_of(ws).skip(i + 1));
        assert(pass_rec(ws, e, i).delivered =~= seq![c.window_id()] + ids_of(ws).skip(i + 1));
        assert(seq![c.window_id()] + ids_of(ws).skip(i + 1) =~= ids_of(ws).skip(i));
    } else {
        let c2 = c.dispatched(e, others);
        let inserted = others_after.insert(i, c2);
        assert(c2.inv());
        assert forall|k: int| 0 <= k < inserted.len() implies (#[trigger] inserted[k])
            .inv() by {
            if k != i {
                let k2: int = if k < i { k } else { k - 1 };
                assert(inserted[k] == others_after[k2]);
            }
        }
        lemma_untargeted_delivery_rec(inserted, e, i + 1);
        assert(pass_rec(inserted, e, i + 1).delivered =~= ids_of(inserted).skip(i + 1));
        assert(ids_of(inserted).skip(i + 1) =~= ids_of(ws).skip(i + 1));
        assert(pass_rec(ws, e, i).delivered =~= seq![c.window_id()] + ids_of(ws).skip(i + 1));
        assert(seq![c.window_id()] + ids_of(ws).skip(i + 1) =~= ids_of(ws).skip(i));
    }
}

/// The container's UI context exists and its GPU resources have been
/// released.
pub open spec fn ui_torn_down(c: TrackedWindowContainer) -> bool {
    c.egui matches Some(u) && u.destroyed
}

/// A corollary of untargeted delivery one can see in the state: after a
/// loop-teardown pass, every surviving container has a UI context and its
/// GPU resources have been released — each container was dispatched, and
/// the teardown dispatch destroys the UI context it finds or creates.
pub proof fn lemma_teardown_destroys_all(ws: Seq<TrackedWindowContainer>, e: Event)
    requires
        all_inv(ws),
        e is LoopDestroyed,
    ensures
        forall|k: int|
            0 <= k < pass_rec(ws, e, 0).windows.len()
                ==> ui_torn_down(#[trigger] pass_rec(ws, e, 0).windows[k]),
{
    lemma_teardown_rec(ws, e, 0);
}

/// The region form of the teardown corollary, for induction over the pass.
proof fn lemma_teardown_rec(ws: Seq<TrackedWindowContainer>, e: Event, i: int)
    requires
        all_inv(ws),
        e is LoopDestroyed,
        0 <= i <= ws.len(),
        forall|k: int|
            0 <= k < i ==> ui_torn_down(#[trigger] ws[k]),
    ensures
        forall|k: int|
            0 <= k < pass_rec(ws, e, i).windows.len()
                ==> ui_torn_down(#[trigger] pass_rec(ws, e, i).windows[k]),
    decreases ws.len() - i,
{
    if i >= ws.len() {
        return;
    }
    let c = ws[i];
    assert(c.is_interested(e));
    let others = ws.remove(i);
    assert(peers_after(c.window, e, others) == others);
    let c2 = c.dispatched(e, others);
    assert(ui_torn_down(c2));
    assert forall|k: int| 0 <= k < others.len() implies (#[trigger] others[k]).inv() by {
        if k < i {
            assert(others[k] == ws[k]);
        } else {
            assert(others[k] == ws[k + 1]);
        }
    }
    let flow = behavior_flow(c.window, e, others);
    if flow is Exit {
        assert forall|k: int| 0 <= k < i implies ui_torn_down(#[trigger] others[k]) by {
            assert(others[k] == ws[k]);
        }
        lemma_teardown_rec(others, e, i);
        assert(pass_rec(ws, e, i).windows == pass_rec(others, e, i).windows);
    } else {
        let inserted = others.insert(i, c2);
        assert(c2.inv());
        assert forall|k: int| 0 <= k < inserted.len() implies (#[trigger] inserted[k])
            .inv() by {
            if k != i {
                let k2: int = if k < i { k } else { k - 1 };
                assert(inserted[k] == others[k2]);
            }
        }
        assert forall|k: int| 0 <= k < i + 1 implies ui_torn_down(#[trigger] inserted[k]) by {
            if k < i {
                assert(inserted[k] == ws[k]);
            }
        }
        lemma_teardown_rec(inserted, e, i + 1);
        assert(pass_rec(ws, e, i).windows == pass_rec(inserted, e, i + 1).windows);
    }
}

/// Some directive in the pass was `Poll`.
pub open spec fn some_poll(flows: Seq<ControlFlow>) -> bool {
    exists|i: int| 0 <= i < flows.len() && (#[trigger] flows[i]) is Poll
}

/// Some directive in the pass was a `WaitUntil`.
pub open spec fn some_wait_until(flows: Seq<ControlFlow>) -> bool {
    exists|i: int| 0 <= i < flows.len() && (#[trigger] flows[i]) is WaitUntil
}

/// Directive reduction: the reduced directive is `Poll` exactly when some
/// window asked to poll; otherwise it is the earliest `WaitUntil` asked
/// for, if any; otherwise `Wait`. Reduction alone never yields `Exit` —
/// the process exits only when no window remains.
pub proof fn lemma_directive_reduction(flows: Seq<ControlFlow>)
    ensures
        some_poll(flows) <==> reduce_flows(flows) is Poll,
        !some_poll(flows) && some_wait_until(flows) ==> reduce_flows(flows) is WaitUntil,
        reduce_flows(flows) matches ControlFlow::WaitUntil(t) ==> (exists|i: int|
            0 <= i < flows.len() && flows[i] == ControlFlow::WaitUntil(t)) && (forall|i: int|
            0 <= i < flows.len() ==> ((#[trigger] flows[i]) matches ControlFlow::WaitUntil(u)
                ==> t <= u)),
        !some_poll(flows) && !some_wait_until(flows) ==> reduce_flows(flows) is Wait,
    decreases flows.len(),
{
    if flows.len() == 0 {
        return;
    }
    let prefix = flows.drop_last();
    let last = flows.last();
    let n = flows.len() - 1;
    lemma_directive_reduction(prefix);
    assert(forall|i: int| 0 <= i < prefix.len() ==> #[trigger] prefix[i] == flows[i]);
    assert(flows[n] == last);
    let r = reduce_flows(flows);
    let rp = reduce_flows(prefix);
    assert(r == flow_join(rp, last));

    assert(some_poll(flows) <==> (some_poll(prefix) || last is Poll)) by {
        if some_poll(flows) {
            let w = choose|i: int| 0 <= i < flows.len() && (#[trigger] flows[i]) is Poll;
            if w < n {
                assert(prefix[w] is Poll);
            }
        }
        if some_poll(prefix) {
            let w = choose|i: int| 0 <= i < prefix.len() && (#[trigger] prefix[i]) is Poll;
            assert(flows[w] is Poll);
        }
    }
    assert(some_wait_until(flows) <==> (some_wait_until(prefix) || last is WaitUntil)) by {
        if some_wait_until(flows) {
            let w = choose|i: int| 0 <= i < flows.len() && (#[trigger] flows[i]) is WaitUntil;
            if w < n {
                assert(prefix[w] is WaitUntil);
            }
        }
        if some_wait_until(prefix) {
            let w = choose|i: int|
                0 <= i < prefix.len() && (#[trigger] prefix[i]) is WaitUntil;
            assert(flows[w] is WaitUntil);
        }
    }

    // If neither the prefix reduction nor the last directive is a poll or a
    // wait-until, the join stays `Wait`; the remaining cases each pin the
    // join down.
    match r {
        ControlFlow::WaitUntil(t) => {
            assert(exists|i: int| 0 <= i < flows.len() && flows[i] == ControlFlow::WaitUntil(t))
                by {
                match rp {
                    ControlFlow::WaitUntil(u) => {
                        if t == u {
                            let w = choose|i: int|
                                0 <= i < prefix.len() && prefix[i] == ControlFlow::WaitUntil(
                                    u,
                                );
                            assert(flows[w] == ControlFlow::WaitUntil(t));
                        } else {
                            assert(flows[n] == ControlFlow::WaitUntil(t));
                        }
                    },
                    _ => {
                        assert(flows[n] == ControlFlow::WaitUntil(t));
                    },
                }
            }
            assert forall|i: int|
                0 <= i < flows.len() implies ((#[trigger] flows[i])
                matches ControlFlow::WaitUntil(u) ==> t <= u) by {
                if i < n {
                    assert(prefix[i] == flows[i]);
                    if prefix[i] is WaitUntil {
                        assert(some_wait_until(prefix));
                        assert(!some_poll(prefix));
                        assert(rp is WaitUntil);
                    }
                }
            }
        },
        _ => {},
    }
}

impl MultiWindow {
    /// Creates a dispatcher with no windows.
    pub fn new() -> (r: MultiWindow)
        ensures
            r.windows@.len() == 0,
    {
        MultiWindow { windows: Vec::new() }
    }

    /// Adds a new tracked window to the collection. On creation failure the
    /// error is surfaced to the caller and the collection is untouched.
    pub fn add(&mut self, window: NewWindowRequest, event_loop: &mut EventLoopWindowTarget)
        -> (r: Result<(), DisplayCreationError>)
        requires
            old(event_loop).next_window_id < u64::MAX,
        ensures
            r is Ok <==> old(event_loop).fail_with is None,
            match r {
                Ok(_) => {
                    &&& final(self).windows@ == old(self).windows@.push(
                        container_of_request(window, old(event_loop).next_window_id),
                    )
                    &&& *final(event_loop) == (EventLoopWindowTarget {
                        next_window_id: (old(event_loop).next_window_id + 1) as u64,
                        ..*old(event_loop)
                    })
                },
                Err(e) => {
                    &&& old(event_loop).fail_with == Some(e)
                    &&& *final(self) == *old(self)
                    &&& *final(event_loop) == *old(event_loop)
                },
            },
    {
        let container = match TrackedWindowContainer::create(
            window.window_state,
            window.builder,
            event_loop,
        ) {
            Ok(c) => c,
            Err(e) => {
                return Err(e);
            },
        };
        self.windows.push(container);
        Ok(())
    }

    /// Processes one platform event: one pass of the event loop's body.
    ///
    /// Every interested container is removed from the collection, dispatched
    /// with mutable access to the remaining containers, and re-inserted —
    /// or dropped when it returned the terminal directive. The creation
    /// requests collected from the dispatched handlers are then fulfilled
    /// (a failed creation is dropped without disturbing the live windows),
    /// and the directives of the surviving windows are reduced to the
    /// process-level directive: exit once no window is left.
    #[verifier::rlimit(100)]
    pub fn process_event(&mut self, event: &Event, event_loop: &mut EventLoopWindowTarget)
        -> (flow: ControlFlow)
        requires
            all_inv(old(self).windows@),
            ids_distinct(old(self).windows@),
            all_headroom(old(self).windows@),
            ids_below(old(self).windows@, old(event_loop).next_window_id),
            old(event_loop).next_window_id < u64::MAX,
        ensures
            ({
                let po = pass_rec(old(self).windows@, *event, 0);
                match spawn_of(old(self).windows@, *event) {
                    None => final(self).windows@ == po.windows && *final(event_loop)
                        == *old(event_loop),
                    Some(n) => if old(event_loop).fail_with is None {
                        &&& final(self).windows@.len() == po.windows.len() + 1
                        &&& forall|k: int|
                            0 <= k < po.windows.len() ==> final(self).windows@[k]
                                == po.windows[k]
                        &&& is_new_popup_container(
                            final(self).windows@.last(),
                            n,
                            old(event_loop).next_window_id,
                        )
                        &&& *final(event_loop) == (EventLoopWindowTarget {
                            next_window_id: (old(event_loop).next_window_id + 1) as u64,
                            ..*old(event_loop)
                        })
                    } else {
                        &&& final(self).windows@ == po.windows
                        &&& *final(event_loop) == *old(event_loop)
                    },
                }
            }),
            flow == if final(self).windows@.len() == 0 {
                ControlFlow::Exit
            } else {
                reduce_flows(pass_rec(old(self).windows@, *event, 0).flows)
            },
            all_inv(final(self).windows@),
            ids_distinct(final(self).windows@),
            ids_below(final(self).windows@, final(event_loop).next_window_id),
    {
        let ghost ws0 = self.windows@;
        let mut flows: Vec<ControlFlow> = Vec::new();
        let mut windows_to_create: Vec<NewWindowRequest> = Vec::new();
        let ghost mut dispatched_any: bool = false;
        let mut i: usize = 0;

        proof {
            assert(pass_rec(ws0, *event, 0).flows =~= flows@ + pass_rec(ws0, *event, 0).flows);
        }

        while i < self.windows.len()
            invariant
                i <= self.windows@.len(),
                *event_loop == *old(event_loop),
                old(event_loop).next_window_id < u64::MAX,
                all_inv(ws0),
                ids_distinct(ws0),
                all_headroom(ws0),
                all_inv(self.windows@),
                ids_distinct(self.windows@),
                ids_below(self.windows@, old(event_loop).next_window_id),
                pass_rec(ws0, *event, 0).windows == pass_rec(
                    self.windows@,
                    *event,
                    i as int,
                ).windows,
                pass_rec(ws0, *event, 0).flows == flows@ + pass_rec(
                    self.windows@,
                    *event,
                    i as int,
                ).flows,
                event_target(*event) is None ==> all_headroom(self.windows@),
                event_target(*event) is Some ==> (!dispatched_any ==> self.windows@ == ws0),
                event_target(*event) is Some ==> (dispatched_any ==> forall|k: int|
                    i <= k < self.windows@.len() ==> !(#[trigger] self.windows@[k])
                        .is_interested(*event)),
                !dispatched_any ==> forall|k: int|
                    0 <= k < i ==> !(#[trigger] ws0[k]).is_interested(*event),
                match spawn_of(ws0, *event) {
                    None => windows_to_create@.len() == 0,
                    Some(n) => {
                        &&& (dispatched_any ==> windows_to_create@.len() == 1
                            && is_popup_request(windows_to_create@[0], n))
                        &&& (!dispatched_any ==> windows_to_create@.len() == 0)
                    },
                },
            decreases self.windows@.len() - i,
        {
            if self.windows[i].is_event_for_window(event) {
                let ghost s = self.windows@;
                let ghost c = s[i as int];
                let ghost others = s.remove(i as int);

                proof {
                    // The container being dispatched has headroom, and if it
                    // is a popup about to increment its peers, the roots
                    // among them have headroom for it.
                    if event_target(*event) is Some {
                        assert(self.windows@ == ws0);
                    }
                    assert(c.has_headroom());
                    assert forall|k: int| 0 <= k < others.len() implies (#[trigger] others[k])
                        .has_headroom() by {
                        if k < i {
                            assert(others[k] == s[k]);
                        } else {
                            assert(others[k] == s[k + 1]);
                        }
                    }
                    assert(popup_increments(c.window, *event) ==> roots_have_headroom(others));
                }

                let mut window = self.windows.remove(i);
                let window_control = window.handle_event_outer(event, &mut self.windows);
                let requested_flow = window_control.requested_control_flow;
                flows.push(requested_flow);

                proof {
                    let e = *event;
                    let others_after = peers_after(c.window, e, others);
                    let flow = behavior_flow(c.window, e, others);
                    assert(self.windows@ == others_after);
                    assert(requested_flow == flow);
                    lemma_peers_after_shape(c.window, e, others);

                    // The pass invariants survive the dispatch.
                    assert forall|k: int| 0 <= k < others_after.len() implies
                        (#[trigger] others_after[k]).inv() && others_after[k].window_id()
                            < old(event_loop).next_window_id by {
                        if k < i {
                            assert(others[k] == s[k]);
                        } else {
                            assert(others[k] == s[k + 1]);
                        }
                    }
                    assert forall|k1: int, k2: int|
                        0 <= k1 < others_after.len() && 0 <= k2 < others_after.len() && k1 != k2
                        implies #[trigger] others_after[k1].window_id()
                            != #[trigger] others_after[k2].window_id() by {
                        let j1 = if k1 < i { k1 } else { k1 + 1 };
                        let j2 = if k2 < i { k2 } else { k2 + 1 };
                        assert(others_after[k1].window_id() == s[j1].window_id());
                        assert(others_after[k2].window_id() == s[j2].window_id());
                    }

                    // A targeted event matches at most this one container:
                    // every other live window has a different identity.
                    match event_target(e) {
                        Some(t) => {
                            assert(c.window_id() == t);
                            assert forall|k: int| 0 <= k < others_after.len() implies
                                !(#[trigger] others_after[k]).is_interested(e) by {
                                if k < i {
                                    assert(others[k] == s[k]);
                                } else {
                                    assert(others[k] == s[k + 1]);
                                }
                                assert(others_after[k].window_id() != t);
                            }
                        },
                        None => {},
                    }

                    dispatched_any = true;
                }

                if let ControlFlow::Exit = requested_flow {
                    // This window is gone; its creation requests go with it.
                    proof {
                        let e = *event;
                        let rest = pass_rec(self.windows@, e, i as int);
                        assert(pass_rec(s, e, i as int).windows == rest.windows);
                        assert(pass_rec(s, e, i as int).flows =~= seq![requested_flow]
                            + rest.flows);
                        assert(flows@ + pass_rec(self.windows@, e, i as int).flows
                            =~= flows@.drop_last() + pass_rec(s, e, i as int).flows);

                        // No popup is spawned by a pass whose one dispatch
                        // exited.
                        match spawn_of(ws0, e) {
                            Some(_) => {
                                assert(pass_spawn_collected(ws0, e));
                                let j = choose|j: int|
                                    0 <= j < ws0.len() && (#[trigger] ws0[j]).is_interested(e)
                                        && ws0[j].window is Root;
                                assert(ws0 == s);
                                assert(ws0[j].window_id() == c.window_id());
                                assert(j == i as int);
                                assert(false);
                            },
                            None => {},
                        }
                    }
                } else {
                    let mut requests = window_control.windows_to_create;
                    windows_to_create.append(&mut requests);
                    self.windows.insert(i, window);
                    proof {
                        let e = *event;
                        let c2 = c.dispatched(e, others);
                        let inserted = peers_after(c.window, e, others).insert(i as int, c2);
                        assert(self.windows@ == inserted);
                        let rest = pass_rec(inserted, e, i as int + 1);
                        assert(pass_rec(s, e, i as int).windows == rest.windows);
                        assert(pass_rec(s, e, i as int).flows =~= seq![requested_flow]
                            + rest.flows);
                        assert(flows@ + rest.flows =~= flows@.drop_last() + pass_rec(
                            s,
                            e,
                            i as int,
                        ).flows);

                        // The re-inserted container keeps its identity and
                        // invariant.
                        assert(c2.inv());
                        assert(c2.window_id() == c.window_id());
                        assert forall|k: int| 0 <= k < inserted.len() implies
                            (#[trigger] inserted[k]).inv() && inserted[k].window_id()
                                < old(event_loop).next_window_id by {}
                        assert forall|k1: int, k2: int|
                            0 <= k1 < inserted.len() && 0 <= k2 < inserted.len() && k1 != k2
                            implies #[trigger] inserted[k1].window_id()
                                != #[trigger] inserted[k2].window_id() by {
                            let oa = peers_after(c.window, e, others);
                            assert(forall|m: int| 0 <= m < oa.len() ==> (#[trigger] oa[m])
                                .window_id() == others[m].window_id());
                        }

                        // Track the collected popup request, if any.
                        match behavior_spawns(c.window, e) {
                            Some(n) => {
                                assert(e matches Event::RedrawRequested { ui, .. }
                                    && ui.primary_clicked && !ui.quit_clicked);
                                assert(c.is_interested(e) && c.window is Root);
                                assert(ws0 == s);
                                assert(pass_spawn_collected(ws0, e));
                                let j = choose|j: int|
                                    0 <= j < ws0.len() && (#[trigger] ws0[j]).is_interested(e)
                                        && ws0[j].window is Root;
                                assert(ws0[j].window_id() == c.window_id());
                                assert(j == i as int);
                                assert(spawn_of(ws0, e) == Some(n));
                            },
                            None => {
                                match spawn_of(ws0, e) {
                                    Some(_) => {
                                        assert(pass_spawn_collected(ws0, e));
                                        let j = choose|j: int|
                                            0 <= j < ws0.len() && (#[trigger] ws0[j])
                                                .is_interested(e) && ws0[j].window is Root;
                                        assert(ws0 == s);
                                        assert(ws0[j].window_id() == c.window_id());
                                        assert(j == i as int);
                                        assert(false);
                                    },
                                    None => {},
                                }
                            },
                        }

                        // On an untargeted pass the dispatched container
                        // keeps its headroom: teardown only marks the UI
                        // context destroyed.
                        if event_target(e) is None {
                            assert(c2.has_headroom());
                            assert forall|k: int| 0 <= k < inserted.len() implies
                                (#[trigger] inserted[k]).has_headroom() by {}
                        }
                    }
                    i = i + 1;
                }
            } else {
                proof {
                    if !dispatched_any {
                        assert(self.windows@ == ws0 || event_target(*event) is None);
                        if event_target(*event) is None {
                            assert(self.windows@[i as int].is_interested(*event));
                        }
                        assert(!ws0[i as int].is_interested(*event));
                    }
                }
                i = i + 1;
            }
        }

        proof {
            let e = *event;
            assert(pass_rec(self.windows@, e, i as int).windows == self.windows@);
            assert(pass_rec(self.windows@, e, i as int).flows =~= Seq::<ControlFlow>::empty());
            assert(pass_rec(ws0, e, 0).flows =~= flows@);
            // A pass that spawns a popup has an interested root, which this
            // loop necessarily dispatched.
            match spawn_of(ws0, e) {
                Some(_) => {
                    if !dispatched_any {
                        assert(pass_spawn_collected(ws0, e));
                        let j = choose|j: int|
                            0 <= j < ws0.len() && (#[trigger] ws0[j]).is_interested(e)
                                && ws0[j].window is Root;
                        assert(!ws0[j].is_interested(e));
                        assert(false);
                    }
                },
                None => {},
            }
        }

        let ghost mid_windows = self.windows@;
        let ghost mid_loop = *event_loop;

        // Fulfil the window-creation requests collected in this pass. A
        // request whose creation fails is dropped; the windows already live
        // continue unaffected.
        while windows_to_create.len() > 0
            invariant
                old(event_loop).next_window_id < u64::MAX,
                flows@ == pass_rec(ws0, *event, 0).flows,
                mid_windows == pass_rec(ws0, *event, 0).windows,
                match spawn_of(ws0, *event) {
                    None => windows_to_create@.len() == 0 && self.windows@ == mid_windows
                        && *event_loop == *old(event_loop),
                    Some(n) => {
                        ||| {
                            &&& windows_to_create@.len() == 1
                            &&& is_popup_request(windows_to_create@[0], n)
                            &&& self.windows@ == mid_windows
                            &&& *event_loop == *old(event_loop)
                        }
                        ||| {
                            &&& windows_to_create@.len() == 0
                            &&& ({
                                if old(event_loop).fail_with is None {
                                    &&& self.windows@.len() == mid_windows.len() + 1
                                    &&& forall|k: int|
                                        0 <= k < mid_windows.len() ==> self.windows@[k]
                                            == mid_windows[k]
                                    &&& is_new_popup_container(
                                        self.windows@.last(),
                                        n,
                                        old(event_loop).next_window_id,
                                    )
                                    &&& *event_loop == (EventLoopWindowTarget {
                                        next_window_id: (old(event_loop).next_window_id
                                            + 1) as u64,
                                        ..*old(event_loop)
                                    })
                                } else {
                                    &&& self.windows@ == mid_windows
                                    &&& *event_loop == *old(event_loop)
                                }
                            })
                        }
                    },
                },
                all_inv(mid_windows),
                ids_distinct(mid_windows),
                ids_below(mid_windows, old(event_loop).next_window_id),
                all_inv(self.windows@),
                ids_distinct(self.windows@),
                ids_below(self.windows@, event_loop.next_window_id),
            decreases windows_to_create@.len(),
        {
            let request = windows_to_create.remove(0);
            let _ = self.add(request, event_loop);
            proof {
                if event_loop.fail_with is None {
                    assert(self.windows@.last() == container_of_request(
                        request,
                        old(event_loop).next_window_id,
                    ));
                }
            }
        }

        let reduced = reduce_control_flow(&flows);
        if self.windows.is_empty() {
            ControlFlow::Exit
        } else {
            reduced
        }
    }
}

} // verus!
