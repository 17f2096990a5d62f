//! The laws of the runtime, stated and proved against the spec-level model
//! that the operation contracts use.
//!
//! Each law here is a public proof function: its parameters are the law's
//! inputs, its preconditions hold nothing beyond what the law assumes, and
//! its conclusion is stated over the same spec functions that the
//! executable operations' contracts use, so the laws transfer to every call
//! of the API.

use crate::container::StateContainer;
use crate::counter::{counter_run, counter_step, CounterModel, CounterMsg, CounterState};
use crate::dispatcher::{
    counter_slot_step, flux_handler_step, run_flux_handlers, run_tea_handlers, tea_handler_step,
    todo_slot_step, FluxHandler, LogEntry, Obs, PendingEvent, SlotsView, TeaHandler,
    UnifiedDispatcher,
};
use crate::payload::{ActKind, ActPayload, MsgKind, MsgPayload};
use crate::todo::{todo_run, todo_step, TodoAction, TodoState, TodoStateView, TodoStore};
use vstd::prelude::*;

verus! {

// ------------------------------------------------------------------
// Round trip: adding a state object and reading it back through its
// slot yields that object's own snapshot.
// ------------------------------------------------------------------
/// Law (round trip, counter): a container in the state `add_tea(model)`
/// leaves it in, read through the snapshot that `TeaHandle::state`
/// guarantees, yields the snapshot of `model` itself.
pub proof fn tea_round_trip(c1: StateContainer, model: CounterModel, s: CounterState)
    requires
        c1.slots.counter == Some(model),
        s == (CounterState { count: c1.slots.counter.unwrap().count }),
    ensures
        s == (CounterState { count: model.count }),
{
}

/// Law (round trip, todo): a container in the state `add_flux(store)`
/// leaves it in, read through the snapshot that `FluxHandle::state`
/// guarantees, yields the value of `store` itself.
pub proof fn flux_round_trip(c1: StateContainer, store: TodoStore, s: TodoState)
    requires
        c1.slots.todo == Some(store),
        s@ == c1.slots.todo.unwrap()@,
    ensures
        s@ == store@,
{
}

// ------------------------------------------------------------------
// Determinism: replaying a history one payload at a time — as every
// dispatch path does — is the reference fold of the whole history.
// ------------------------------------------------------------------
/// Law (determinism, counter): extending a replayed history by one message
/// applies exactly one more step to the fold, so N dispatches through a
/// handle end in the same state as folding the N messages directly.
pub proof fn counter_replay_extends(m0: CounterModel, msgs: Seq<CounterMsg>, msg: CounterMsg)
    ensures
        counter_run(m0, msgs.push(msg)) == counter_step(counter_run(m0, msgs), msg),
    decreases msgs.len(),
{
    if msgs.len() == 0 {
        assert(msgs.push(msg)[0] == msg);
        assert(msgs.push(msg).drop_first() =~= Seq::<CounterMsg>::empty());
        assert(counter_run(counter_step(m0, msg), Seq::<CounterMsg>::empty()) == counter_step(
            m0,
            msg,
        ));
        assert(counter_run(m0, msgs) == m0);
    } else {
        assert(msgs.push(msg)[0] == msgs[0]);
        assert(msgs.push(msg).drop_first() =~= msgs.drop_first().push(msg));
        counter_replay_extends(counter_step(m0, msgs[0]), msgs.drop_first(), msg);
        assert(counter_run(m0, msgs.push(msg)) == counter_run(
            counter_step(m0, msgs[0]),
            msgs.drop_first().push(msg),
        ));
        assert(counter_run(m0, msgs) == counter_run(counter_step(m0, msgs[0]), msgs.drop_first()));
    }
}

/// Law (determinism, todo): extending a replayed history by one action
/// applies exactly one more step to the fold.
pub proof fn todo_replay_extends(s0: TodoStateView, actions: Seq<TodoAction>, a: TodoAction)
    ensures
        todo_run(s0, actions.push(a)) == todo_step(todo_run(s0, actions), a),
    decreases actions.len(),
{
    if actions.len() == 0 {
        assert(actions.push(a)[0] == a);
        assert(actions.push(a).drop_first() =~= Seq::<TodoAction>::empty());
        assert(todo_run(todo_step(s0, a), Seq::<TodoAction>::empty()) == todo_step(s0, a));
        assert(todo_run(s0, actions) == s0);
    } else {
        assert(actions.push(a)[0] == actions[0]);
        assert(actions.push(a).drop_first() =~= actions.drop_first().push(a));
        todo_replay_extends(todo_step(s0, actions[0]), actions.drop_first(), a);
        assert(todo_run(s0, actions.push(a)) == todo_run(
            todo_step(s0, actions[0]),
            actions.drop_first().push(a),
        ));
        assert(todo_run(s0, actions) == todo_run(todo_step(s0, actions[0]), actions.drop_first()));
    }
}

// ------------------------------------------------------------------
// Order preservation: a table fires its handlers first-registered
// first, and its probes write the log in exactly that order.
// ------------------------------------------------------------------
/// What the probes of a message handler table write to the log for one
/// payload of kind `k`, in table order.
pub open spec fn tea_trace(hs: Seq<TeaHandler>, k: MsgKind) -> Seq<LogEntry>
    decreases hs.len(),
{
    if hs.len() == 0 {
        Seq::empty()
    } else {
        (match hs[0] {
            TeaHandler::Probe(id) => seq![LogEntry::TeaRan(id, k)],
            _ => Seq::<LogEntry>::empty(),
        }) + tea_trace(hs.drop_first(), k)
    }
}

/// What the probes of an action handler table write to the log for one
/// payload of kind `k`, in table order.
pub open spec fn flux_trace(hs: Seq<FluxHandler>, k: ActKind) -> Seq<LogEntry>
    decreases hs.len(),
{
    if hs.len() == 0 {
        Seq::empty()
    } else {
        (match hs[0] {
            FluxHandler::Probe(id) => seq![LogEntry::FluxRan(id, k)],
            _ => Seq::<LogEntry>::empty(),
        }) + flux_trace(hs.drop_first(), k)
    }
}

/// Law (order, messages): delivering one message payload to a table
/// appends exactly the table's probe trace to the log — probes appear in
/// the log in registration order, on every matching dispatch.
pub proof fn tea_log_is_trace(o: Obs, hs: Seq<TeaHandler>, m: MsgPayload)
    ensures
        run_tea_handlers(o, hs, m).log == o.log + tea_trace(hs, m.spec_kind()),
    decreases hs.len(),
{
    if hs.len() == 0 {
        assert(o.log + tea_trace(hs, m.spec_kind()) =~= o.log);
    } else {
        let o1 = tea_handler_step(o, hs[0], m);
        tea_log_is_trace(o1, hs.drop_first(), m);
        let head = (match hs[0] {
            TeaHandler::Probe(id) => seq![LogEntry::TeaRan(id, m.spec_kind())],
            _ => Seq::<LogEntry>::empty(),
        });
        assert(o1.log =~= o.log + head);
        assert((o.log + head) + tea_trace(hs.drop_first(), m.spec_kind()) =~= o.log + (head
            + tea_trace(hs.drop_first(), m.spec_kind())));
        assert(tea_trace(hs, m.spec_kind()) == head + tea_trace(hs.drop_first(), m.spec_kind()));
    }
}

/// Law (order, actions): delivering one action payload to a table appends
/// exactly the table's probe trace to the log.
pub proof fn flux_log_is_trace(o: Obs, hs: Seq<FluxHandler>, a: ActPayload)
    ensures
        run_flux_handlers(o, hs, a).log == o.log + flux_trace(hs, a.spec_kind()),
    decreases hs.len(),
{
    if hs.len() == 0 {
        assert(o.log + flux_trace(hs, a.spec_kind()) =~= o.log);
    } else {
        let o1 = flux_handler_step(o, hs[0], a);
        flux_log_is_trace(o1, hs.drop_first(), a);
        let head = (match hs[0] {
            FluxHandler::Probe(id) => seq![LogEntry::FluxRan(id, a.spec_kind())],
            _ => Seq::<LogEntry>::empty(),
        });
        assert(o1.log =~= o.log + head);
        assert((o.log + head) + flux_trace(hs.drop_first(), a.spec_kind()) =~= o.log + (head
            + flux_trace(hs.drop_first(), a.spec_kind())));
        assert(flux_trace(hs, a.spec_kind()) == head + flux_trace(
            hs.drop_first(),
            a.spec_kind(),
        ));
    }
}

/// Law (order, two probes): registering probe `a` and then probe `b` for
/// the same payload kind makes `a`'s mark precede `b`'s in the log of
/// every delivery to that table.
pub proof fn tea_probes_fire_in_order(o: Obs, hs: Seq<TeaHandler>, a: u64, b: u64, m: MsgPayload)
    ensures
        run_tea_handlers(
            o,
            hs.push(TeaHandler::Probe(a)).push(TeaHandler::Probe(b)),
            m,
        ).log == run_tea_handlers(o, hs, m).log + seq![
            LogEntry::TeaRan(a, m.spec_kind()),
            LogEntry::TeaRan(b, m.spec_kind()),
        ],
{
    let hs1 = hs.push(TeaHandler::Probe(a));
    let hs2 = hs1.push(TeaHandler::Probe(b));
    crate::dispatcher::lemma_run_tea_snoc(o, hs1, TeaHandler::Probe(b), m);
    crate::dispatcher::lemma_run_tea_snoc(o, hs, TeaHandler::Probe(a), m);
    assert(run_tea_handlers(o, hs2, m).log =~= run_tea_handlers(o, hs, m).log + seq![
        LogEntry::TeaRan(a, m.spec_kind()),
        LogEntry::TeaRan(b, m.spec_kind()),
    ]);
}

// ------------------------------------------------------------------
// Tombstone: unregistering one handler silences exactly that handler;
// every other handler keeps its index and its place in the firing
// order.
// ------------------------------------------------------------------
/// Delivery to a table splits at any position: the prefix runs first, the
/// suffix runs on the result.
pub proof fn tea_run_splits(o: Obs, hs: Seq<TeaHandler>, i: int, m: MsgPayload)
    requires
        0 <= i <= hs.len(),
    ensures
        run_tea_handlers(o, hs, m) == run_tea_handlers(
            run_tea_handlers(o, hs.take(i), m),
            hs.skip(i),
            m,
        ),
    decreases i,
{
    if i == 0 {
        assert(hs.take(0) =~= Seq::<TeaHandler>::empty());
        assert(hs.skip(0) =~= hs);
        assert(run_tea_handlers(o, Seq::<TeaHandler>::empty(), m) == o);
    } else {
        let o1 = tea_handler_step(o, hs[0], m);
        tea_run_splits(o1, hs.drop_first(), i - 1, m);
        assert(hs.drop_first().take(i - 1) =~= hs.take(i).drop_first());
        assert(hs.drop_first().skip(i - 1) =~= hs.skip(i));
        assert(hs.take(i)[0] == hs[0]);
        assert(run_tea_handlers(o, hs.take(i), m) == run_tea_handlers(
            o1,
            hs.take(i).drop_first(),
            m,
        ));
        assert(run_tea_handlers(o, hs, m) == run_tea_handlers(o1, hs.drop_first(), m));
    }
}

/// Law (tombstone, messages): delivery to a table with position `i`
/// tombstoned runs the prefix before `i` and the suffix after `i` exactly
/// as the original table runs them, and applies nothing in between; the
/// original table differs only in applying `hs[i]`'s own step there.
pub proof fn tea_tombstone_isolates(o: Obs, hs: Seq<TeaHandler>, i: int, m: MsgPayload)
    requires
        0 <= i < hs.len(),
    ensures
        run_tea_handlers(o, hs.update(i, TeaHandler::Tombstone), m) == run_tea_handlers(
            run_tea_handlers(o, hs.take(i), m),
            hs.skip(i + 1),
            m,
        ),
        run_tea_handlers(o, hs, m) == run_tea_handlers(
            tea_handler_step(run_tea_handlers(o, hs.take(i), m), hs[i], m),
            hs.skip(i + 1),
            m,
        ),
{
    let hs2 = hs.update(i, TeaHandler::Tombstone);
    let before = run_tea_handlers(o, hs.take(i), m);
    tea_run_splits(o, hs2, i, m);
    assert(hs2.take(i) =~= hs.take(i));
    assert(hs2.skip(i)[0] == TeaHandler::Tombstone);
    assert(hs2.skip(i).drop_first() =~= hs.skip(i + 1));
    assert(run_tea_handlers(before, hs2.skip(i), m) == run_tea_handlers(
        tea_handler_step(before, TeaHandler::Tombstone, m),
        hs.skip(i + 1),
        m,
    ));
    tea_run_splits(o, hs, i, m);
    assert(hs.skip(i)[0] == hs[i]);
    assert(hs.skip(i).drop_first() =~= hs.skip(i + 1));
    assert(run_tea_handlers(before, hs.skip(i), m) == run_tea_handlers(
        tea_handler_step(before, hs[i], m),
        hs.skip(i + 1),
        m,
    ));
}

/// Delivery to an action table splits at any position.
pub proof fn flux_run_splits(o: Obs, hs: Seq<FluxHandler>, i: int, a: ActPayload)
    requires
        0 <= i <= hs.len(),
    ensures
        run_flux_handlers(o, hs, a) == run_flux_handlers(
            run_flux_handlers(o, hs.take(i), a),
            hs.skip(i),
            a,
        ),
    decreases i,
{
    if i == 0 {
        assert(hs.take(0) =~= Seq::<FluxHandler>::empty());
        assert(hs.skip(0) =~= hs);
        assert(run_flux_handlers(o, Seq::<FluxHandler>::empty(), a) == o);
    } else {
        let o1 = flux_handler_step(o, hs[0], a);
        flux_run_splits(o1, hs.drop_first(), i - 1, a);
        assert(hs.drop_first().take(i - 1) =~= hs.take(i).drop_first());
        assert(hs.drop_first().skip(i - 1) =~= hs.skip(i));
        assert(hs.take(i)[0] == hs[0]);
        assert(run_flux_handlers(o, hs.take(i), a) == run_flux_handlers(
            o1,
            hs.take(i).drop_first(),
            a,
        ));
        assert(run_flux_handlers(o, hs, a) == run_flux_handlers(o1, hs.drop_first(), a));
    }
}

/// Law (tombstone, actions): the action-table counterpart of the
/// message-table tombstone law.
pub proof fn flux_tombstone_isolates(o: Obs, hs: Seq<FluxHandler>, i: int, a: ActPayload)
    requires
        0 <= i < hs.len(),
    ensures
        run_flux_handlers(o, hs.update(i, FluxHandler::Tombstone), a) == run_flux_handlers(
            run_flux_handlers(o, hs.take(i), a),
            hs.skip(i + 1),
            a,
        ),
        run_flux_handlers(o, hs, a) == run_flux_handlers(
            flux_handler_step(run_flux_handlers(o, hs.take(i), a), hs[i], a),
            hs.skip(i + 1),
            a,
        ),
{
    let hs2 = hs.update(i, FluxHandler::Tombstone);
    let before = run_flux_handlers(o, hs.take(i), a);
    flux_run_splits(o, hs2, i, a);
    assert(hs2.take(i) =~= hs.take(i));
    assert(hs2.skip(i)[0] == FluxHandler::Tombstone);
    assert(hs2.skip(i).drop_first() =~= hs.skip(i + 1));
    assert(run_flux_handlers(before, hs2.skip(i), a) == run_flux_handlers(
        flux_handler_step(before, FluxHandler::Tombstone, a),
        hs.skip(i + 1),
        a,
    ));
    flux_run_splits(o, hs, i, a);
    assert(hs.skip(i)[0] == hs[i]);
    assert(hs.skip(i).drop_first() =~= hs.skip(i + 1));
    assert(run_flux_handlers(before, hs.skip(i), a) == run_flux_handlers(
        flux_handler_step(before, hs[i], a),
        hs.skip(i + 1),
        a,
    ));
}

// ------------------------------------------------------------------
// Deferred delivery: a queue drains FIFO, and draining a single queued
// event is exactly delivering it.
// ------------------------------------------------------------------
/// Law (deferred delivery): draining a queue of one event delivers exactly
/// that event; together with `queue_event`'s contract — which leaves the
/// observable state untouched — queueing has no effect until the drain,
/// and the drain has exactly the event's effect.
pub proof fn drain_single(d: UnifiedDispatcher, o: Obs, pe: PendingEvent)
    ensures
        d.spec_drain(o, seq![pe]) == d.spec_deliver_pending(o, pe),
{
    assert(seq![pe].drop_first() =~= Seq::<PendingEvent>::empty());
    assert(d.spec_drain(d.spec_deliver_pending(o, pe), Seq::<PendingEvent>::empty())
        == d.spec_deliver_pending(o, pe));
}

/// Law (deferred delivery, FIFO): draining a concatenation drains the
/// older part first, then the newer part on the result — queued events
/// take effect in queue order.
pub proof fn drain_concat(
    d: UnifiedDispatcher,
    o: Obs,
    q1: Seq<PendingEvent>,
    q2: Seq<PendingEvent>,
)
    ensures
        d.spec_drain(o, q1 + q2) == d.spec_drain(d.spec_drain(o, q1), q2),
    decreases q1.len(),
{
    if q1.len() == 0 {
        assert(q1 + q2 =~= q2);
        assert(d.spec_drain(o, q1) == o);
    } else {
        let o1 = d.spec_deliver_pending(o, q1[0]);
        drain_concat(d, o1, q1.drop_first(), q2);
        assert((q1 + q2)[0] == q1[0]);
        assert((q1 + q2).drop_first() =~= q1.drop_first() + q2);
        assert(d.spec_drain(o, q1 + q2) == d.spec_drain(o1, q1.drop_first() + q2));
        assert(d.spec_drain(o, q1) == d.spec_drain(o1, q1.drop_first()));
    }
}

// ------------------------------------------------------------------
// Independence: interleaved direct dispatches against the two
// disciplines never interfere; each slot ends at the fold of its own
// operations alone.
// ------------------------------------------------------------------
/// One direct handle dispatch: a counter message or a todo action.
pub ghost enum DirectOp {
    /// A message driven through the counter handle.
    Tea(CounterMsg),
    /// An action driven through the todo handle.
    Flux(TodoAction),
}

/// The slots after one direct dispatch.
pub open spec fn direct_step(sl: SlotsView, op: DirectOp) -> SlotsView {
    match op {
        DirectOp::Tea(m) => counter_slot_step(sl, m),
        DirectOp::Flux(a) => todo_slot_step(sl, a),
    }
}

/// The slots after a whole interleaving of direct dispatches, first
/// operation first.
pub open spec fn run_direct(sl: SlotsView, ops: Seq<DirectOp>) -> SlotsView
    decreases ops.len(),
{
    if ops.len() == 0 {
        sl
    } else {
        run_direct(direct_step(sl, ops[0]), ops.drop_first())
    }
}

/// The counter messages of an interleaving, in order.
pub open spec fn tea_ops(ops: Seq<DirectOp>) -> Seq<CounterMsg>
    decreases ops.len(),
{
    if ops.len() == 0 {
        Seq::empty()
    } else {
        (match ops[0] {
            DirectOp::Tea(m) => seq![m],
            DirectOp::Flux(_) => Seq::<CounterMsg>::empty(),
        }) + tea_ops(ops.drop_first())
    }
}

/// The todo actions of an interleaving, in order.
pub open spec fn flux_ops(ops: Seq<DirectOp>) -> Seq<TodoAction>
    decreases ops.len(),
{
    if ops.len() == 0 {
        Seq::empty()
    } else {
        (match ops[0] {
            DirectOp::Flux(a) => seq![a],
            DirectOp::Tea(_) => Seq::<TodoAction>::empty(),
        }) + flux_ops(ops.drop_first())
    }
}

/// Law (independence): however counter messages and todo actions are
/// interleaved, the counter slot ends at the fold of the counter messages
/// alone and the todo slot at the fold of the todo actions alone — the two
/// disciplines never disturb each other's slot.
pub proof fn independent_disciplines(sl: SlotsView, ops: Seq<DirectOp>)
    ensures
        run_direct(sl, ops).counter == (match sl.counter {
            Some(m) => Some(counter_run(m, tea_ops(ops))),
            None => None::<CounterModel>,
        }),
        run_direct(sl, ops).todo == (match sl.todo {
            Some(s) => Some(todo_run(s, flux_ops(ops))),
            None => None::<TodoStateView>,
        }),
    decreases ops.len(),
{
    if ops.len() == 0 {
        match sl.counter {
            Some(m) => {
                assert(counter_run(m, tea_ops(ops)) == m);
            }
            None => {}
        }
        match sl.todo {
            Some(s) => {
                assert(todo_run(s, flux_ops(ops)) == s);
            }
            None => {}
        }
    } else {
        let sl1 = direct_step(sl, ops[0]);
        independent_disciplines(sl1, ops.drop_first());
        match ops[0] {
            DirectOp::Tea(m) => {
                assert(tea_ops(ops) == seq![m] + tea_ops(ops.drop_first()));
                assert(flux_ops(ops) == Seq::<TodoAction>::empty() + flux_ops(ops.drop_first()));
                assert(flux_ops(ops) =~= flux_ops(ops.drop_first()));
                match sl.counter {
                    Some(m0) => {
                        assert((seq![m] + tea_ops(ops.drop_first()))[0] == m);
                        assert((seq![m] + tea_ops(ops.drop_first())).drop_first() =~= tea_ops(
                            ops.drop_first(),
                        ));
                        assert(counter_run(m0, tea_ops(ops)) == counter_run(
                            counter_step(m0, m),
                            tea_ops(ops.drop_first()),
                        ));
                    }
                    None => {}
                }
            }
            DirectOp::Flux(a) => {
                assert(flux_ops(ops) == seq![a] + flux_ops(ops.drop_first()));
                assert(tea_ops(ops) == Seq::<CounterMsg>::empty() + tea_ops(ops.drop_first()));
                assert(tea_ops(ops) =~= tea_ops(ops.drop_first()));
                match sl.todo {
                    Some(s0) => {
                        assert((seq![a] + flux_ops(ops.drop_first()))[0] == a);
                        assert((seq![a] + flux_ops(ops.drop_first())).drop_first() =~= flux_ops(
                            ops.drop_first(),
                        ));
                        assert(todo_run(s0, flux_ops(ops)) == todo_run(
                            todo_step(s0, a),
                            flux_ops(ops.drop_first()),
                        ));
                    }
                    None => {}
                }
            }
        }
    }
}

} // verus!
