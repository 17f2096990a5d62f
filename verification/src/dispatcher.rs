//! The unified dispatcher: handler tables, middleware chain, pending queue.
//!
//! Handlers are drawn from a closed set of effects: a tombstone (the no-op
//! left behind by unregistration), the adapter that applies a payload to its
//! slot, and a probe that records its firing in the dispatcher's log.
//! Middleware likewise either records both phases of every dispatch or does
//! nothing.  Because every effect is closed, a handler can never re-enter
//! the dispatcher, which removes the self-deadlock hazard of re-entrant
//! dispatch by construction.
//!
//! Dispatch runs in four steps — every middleware's before-hook, delivery of
//! the message projection, delivery of the action projection, every
//! middleware's after-hook — with no short-circuiting: a middleware observes
//! and can never veto delivery.  Queued events are projected when queued
//! (both projections are pure, so nothing is lost) and drained FIFO through
//! the same per-kind matching rule that immediate dispatch uses; draining
//! runs no middleware.
//!
//! The observable state of the runtime is an [`Obs`]: the two slots plus the
//! log.  Every operation's contract pins its effect on the observable state
//! through the spec-level transition functions below.

use crate::counter::{counter_step, CounterModel};
use crate::event::{Event, EventKind};
use crate::flux::FluxStore;
use crate::tea::TeaModel;
use crate::payload::{ActKind, ActPayload, MsgKind, MsgPayload};
use crate::todo::{todo_step, TodoStateView, TodoStore};
use vstd::prelude::*;
use vstd::std_specs::vec::vec_index_mut;

verus! {

/// A handler for message payloads, drawn from the closed set of effects.
#[derive(Clone, Copy, Debug, PartialEq, Eq, Structural)]
pub enum TeaHandler {
    /// The no-op left at an index by unregistration.
    Tombstone,
    /// The adapter that folds counter messages into the counter slot.
    CounterSlot,
    /// A probe that records its firing, tagged with this identifier.
    Probe(u64),
}

/// A handler for action payloads, drawn from the closed set of effects.
#[derive(Clone, Copy, Debug, PartialEq, Eq, Structural)]
pub enum FluxHandler {
    /// The no-op left at an index by unregistration.
    Tombstone,
    /// The adapter that folds todo actions into the todo slot.
    TodoSlot,
    /// A probe that records its firing, tagged with this identifier.
    Probe(u64),
}

/// One middleware of the chain.
#[derive(Clone, Copy, Debug, PartialEq, Eq, Structural)]
pub enum Middleware {
    /// Records the before- and after-phase of every dispatch under this
    /// identifier.
    Probe(u64),
    /// Observes nothing and records nothing.
    Silent,
}

/// The stable identifier a registration returns: the payload kind together
/// with the index inside that kind's table.  Indices stay valid forever,
/// because unregistration tombstones an entry instead of removing it.
#[derive(Clone, Copy, Debug, PartialEq, Eq, Hash, Structural)]
pub enum HandlerId {
    /// A message handler: its kind and its index in that kind's table.
    Tea(MsgKind, usize),
    /// An action handler: its kind and its index in that kind's table.
    Flux(ActKind, usize),
}

/// One recorded observation: what a probe middleware or a probe handler saw.
#[derive(Clone, Copy, Debug, PartialEq, Eq, Structural)]
pub enum LogEntry {
    /// Middleware `id` ran its before-hook for an event of this kind.
    MwBefore(u64, EventKind),
    /// Middleware `id` ran its after-hook for an event of this kind.
    MwAfter(u64, EventKind),
    /// Message probe `id` fired for a payload of this kind.
    TeaRan(u64, MsgKind),
    /// Action probe `id` fired for a payload of this kind.
    FluxRan(u64, ActKind),
}

/// A queued event, held as its two projections; both projections are pure,
/// so projecting at queue time loses nothing.
#[derive(Clone, Debug, PartialEq, Eq)]
pub struct PendingEvent {
    /// The message projection of the queued event, if it had one.
    pub message: Option<MsgPayload>,
    /// The action projection of the queued event, if it had one.
    pub action: Option<ActPayload>,
}

/// The state slots of the runtime: at most one slot per discipline, each
/// owning its state object exclusively.
#[derive(Debug)]
pub struct Slots {
    /// The slot of the update-function discipline.
    pub counter: Option<CounterModel>,
    /// The slot of the reducer discipline.
    pub todo: Option<TodoStore>,
}

/// The mathematical value of the slots.
#[verifier::ext_equal]
pub ghost struct SlotsView {
    /// The counter slot.
    pub counter: Option<CounterModel>,
    /// The todo slot, as its state view.
    pub todo: Option<TodoStateView>,
}

impl View for Slots {
    type V = SlotsView;

    open spec fn view(&self) -> SlotsView {
        SlotsView {
            counter: self.counter,
            todo: match self.todo {
                Some(s) => Some(s@),
                None => None,
            },
        }
    }
}

/// The observable state of the runtime: the slots plus the log of recorded
/// middleware and probe activity.
#[verifier::ext_equal]
pub ghost struct Obs {
    /// The slots.
    pub slots: SlotsView,
    /// The log, oldest entry first.
    pub log: Seq<LogEntry>,
}

/// The observable state assembled from slots and a log.
pub open spec fn obs_of(slots: Slots, log: Seq<LogEntry>) -> Obs {
    Obs { slots: slots@, log }
}

/// The slots after the counter slot absorbs one message; absent slot, no
/// change.
pub open spec fn counter_slot_step(sl: SlotsView, m: crate::counter::CounterMsg) -> SlotsView {
    match sl.counter {
        Some(model) => SlotsView { counter: Some(counter_step(model, m)), todo: sl.todo },
        None => sl,
    }
}

/// The slots after the todo slot absorbs one action; absent slot, no change.
pub open spec fn todo_slot_step(sl: SlotsView, a: crate::todo::TodoAction) -> SlotsView {
    match sl.todo {
        Some(s) => SlotsView { counter: sl.counter, todo: Some(todo_step(s, a)) },
        None => sl,
    }
}

/// The observable state after one message handler sees one payload.
///
/// A handler whose effect does not apply to the payload it is handed — the
/// counter adapter seeing a non-counter message — is not applicable and is
/// skipped silently.
pub open spec fn tea_handler_step(o: Obs, h: TeaHandler, m: MsgPayload) -> Obs {
    match h {
        TeaHandler::Tombstone => o,
        TeaHandler::Probe(id) => Obs {
            slots: o.slots,
            log: o.log.push(LogEntry::TeaRan(id, m.spec_kind())),
        },
        TeaHandler::CounterSlot => match m {
            MsgPayload::Counter(cm) => Obs { slots: counter_slot_step(o.slots, cm), log: o.log },
            _ => o,
        },
    }
}

/// The observable state after one action handler sees one payload.
pub open spec fn flux_handler_step(o: Obs, h: FluxHandler, a: ActPayload) -> Obs {
    match h {
        FluxHandler::Tombstone => o,
        FluxHandler::Probe(id) => Obs {
            slots: o.slots,
            log: o.log.push(LogEntry::FluxRan(id, a.spec_kind())),
        },
        FluxHandler::TodoSlot => match a {
            ActPayload::Todo(ta) => Obs { slots: todo_slot_step(o.slots, ta), log: o.log },
            _ => o,
        },
    }
}

/// The observable state after a whole table sees one message payload, in
/// table order: handlers fire first-registered first.
pub open spec fn run_tea_handlers(o: Obs, hs: Seq<TeaHandler>, m: MsgPayload) -> Obs
    decreases hs.len(),
{
    if hs.len() == 0 {
        o
    } else {
        run_tea_handlers(tea_handler_step(o, hs[0], m), hs.drop_first(), m)
    }
}

/// The observable state after a whole table sees one action payload, in
/// table order.
pub open spec fn run_flux_handlers(o: Obs, hs: Seq<FluxHandler>, a: ActPayload) -> Obs
    decreases hs.len(),
{
    if hs.len() == 0 {
        o
    } else {
        run_flux_handlers(flux_handler_step(o, hs[0], a), hs.drop_first(), a)
    }
}

/// What the middleware chain writes to the log in its before-phase for an
/// event of kind `k`, in chain order.
pub open spec fn mw_before_trace(ms: Seq<Middleware>, k: EventKind) -> Seq<LogEntry>
    decreases ms.len(),
{
    if ms.len() == 0 {
        Seq::empty()
    } else {
        (match ms[0] {
            Middleware::Probe(id) => seq![LogEntry::MwBefore(id, k)],
            Middleware::Silent => Seq::empty(),
        }) + mw_before_trace(ms.drop_first(), k)
    }
}

/// What the middleware chain writes to the log in its after-phase for an
/// event of kind `k`, in chain order.
pub open spec fn mw_after_trace(ms: Seq<Middleware>, k: EventKind) -> Seq<LogEntry>
    decreases ms.len(),
{
    if ms.len() == 0 {
        Seq::empty()
    } else {
        (match ms[0] {
            Middleware::Probe(id) => seq![LogEntry::MwAfter(id, k)],
            Middleware::Silent => Seq::empty(),
        }) + mw_after_trace(ms.drop_first(), k)
    }
}

/// The observable state after the before-phase of the middleware chain:
/// hooks observe the event and record; they change no slot.
pub open spec fn run_mw_before(o: Obs, ms: Seq<Middleware>, k: EventKind) -> Obs {
    Obs { slots: o.slots, log: o.log + mw_before_trace(ms, k) }
}

/// The observable state after the after-phase of the middleware chain.
pub open spec fn run_mw_after(o: Obs, ms: Seq<Middleware>, k: EventKind) -> Obs {
    Obs { slots: o.slots, log: o.log + mw_after_trace(ms, k) }
}

/// Running a table extended by one handler is running the table, then the
/// handler: the table fires in registration order.
pub proof fn lemma_run_tea_snoc(o: Obs, hs: Seq<TeaHandler>, h: TeaHandler, m: MsgPayload)
    ensures
        run_tea_handlers(o, hs.push(h), m) == tea_handler_step(run_tea_handlers(o, hs, m), h, m),
    decreases hs.len(),
{
    if hs.len() == 0 {
        assert(hs.push(h)[0] == h);
        assert(hs.push(h).drop_first() =~= Seq::<TeaHandler>::empty());
        assert(run_tea_handlers(o, hs, m) == o);
        assert(run_tea_handlers(tea_handler_step(o, h, m), Seq::<TeaHandler>::empty(), m)
            == tea_handler_step(o, h, m));
    } else {
        assert(hs.push(h)[0] == hs[0]);
        assert(hs.push(h).drop_first() =~= hs.drop_first().push(h));
        lemma_run_tea_snoc(tea_handler_step(o, hs[0], m), hs.drop_first(), h, m);
        assert(run_tea_handlers(o, hs.push(h), m) == run_tea_handlers(
            tea_handler_step(o, hs[0], m),
            hs.drop_first().push(h),
            m,
        ));
        assert(run_tea_handlers(o, hs, m) == run_tea_handlers(
            tea_handler_step(o, hs[0], m),
            hs.drop_first(),
            m,
        ));
    }
}

/// Running a table extended by one handler is running the table, then the
/// handler.
pub proof fn lemma_run_flux_snoc(o: Obs, hs: Seq<FluxHandler>, h: FluxHandler, a: ActPayload)
    ensures
        run_flux_handlers(o, hs.push(h), a) == flux_handler_step(run_flux_handlers(o, hs, a), h, a),
    decreases hs.len(),
{
    if hs.len() == 0 {
        assert(hs.push(h)[0] == h);
        assert(hs.push(h).drop_first() =~= Seq::<FluxHandler>::empty());
        assert(run_flux_handlers(o, hs, a) == o);
        assert(run_flux_handlers(flux_handler_step(o, h, a), Seq::<FluxHandler>::empty(), a)
            == flux_handler_step(o, h, a));
    } else {
        assert(hs.push(h)[0] == hs[0]);
        assert(hs.push(h).drop_first() =~= hs.drop_first().push(h));
        lemma_run_flux_snoc(flux_handler_step(o, hs[0], a), hs.drop_first(), h, a);
    }
}

/// The before-trace of a chain extended by one middleware.
pub proof fn lemma_mw_before_trace_snoc(ms: Seq<Middleware>, m: Middleware, k: EventKind)
    ensures
        mw_before_trace(ms.push(m), k) == mw_before_trace(ms, k) + (match m {
            Middleware::Probe(id) => seq![LogEntry::MwBefore(id, k)],
            Middleware::Silent => Seq::<LogEntry>::empty(),
        }),
    decreases ms.len(),
{
    let tail = (match m {
        Middleware::Probe(id) => seq![LogEntry::MwBefore(id, k)],
        Middleware::Silent => Seq::<LogEntry>::empty(),
    });
    if ms.len() == 0 {
        assert(ms.push(m)[0] == m);
        assert(ms.push(m).drop_first() =~= Seq::<Middleware>::empty());
        assert(mw_before_trace(Seq::<Middleware>::empty(), k) == Seq::<LogEntry>::empty());
        assert(mw_before_trace(ms.push(m), k) =~= mw_before_trace(ms, k) + tail);
    } else {
        let head = (match ms[0] {
            Middleware::Probe(id) => seq![LogEntry::MwBefore(id, k)],
            Middleware::Silent => Seq::<LogEntry>::empty(),
        });
        assert(ms.push(m)[0] == ms[0]);
        assert(ms.push(m).drop_first() =~= ms.drop_first().push(m));
        lemma_mw_before_trace_snoc(ms.drop_first(), m, k);
        assert(mw_before_trace(ms.push(m), k) == head + mw_before_trace(
            ms.drop_first().push(m),
            k,
        ));
        assert(mw_before_trace(ms, k) == head + mw_before_trace(ms.drop_first(), k));
        assert(head + (mw_before_trace(ms.drop_first(), k) + tail) =~= (head + mw_before_trace(
            ms.drop_first(),
            k,
        )) + tail);
    }
}

/// The after-trace of a chain extended by one middleware.
pub proof fn lemma_mw_after_trace_snoc(ms: Seq<Middleware>, m: Middleware, k: EventKind)
    ensures
        mw_after_trace(ms.push(m), k) == mw_after_trace(ms, k) + (match m {
            Middleware::Probe(id) => seq![LogEntry::MwAfter(id, k)],
            Middleware::Silent => Seq::<LogEntry>::empty(),
        }),
    decreases ms.len(),
{
    let tail = (match m {
        Middleware::Probe(id) => seq![LogEntry::MwAfter(id, k)],
        Middleware::Silent => Seq::<LogEntry>::empty(),
    });
    if ms.len() == 0 {
        assert(ms.push(m)[0] == m);
        assert(ms.push(m).drop_first() =~= Seq::<Middleware>::empty());
        assert(mw_after_trace(Seq::<Middleware>::empty(), k) == Seq::<LogEntry>::empty());
        assert(mw_after_trace(ms.push(m), k) =~= mw_after_trace(ms, k) + tail);
    } else {
        let head = (match ms[0] {
            Middleware::Probe(id) => seq![LogEntry::MwAfter(id, k)],
            Middleware::Silent => Seq::<LogEntry>::empty(),
        });
        assert(ms.push(m)[0] == ms[0]);
        assert(ms.push(m).drop_first() =~= ms.drop_first().push(m));
        lemma_mw_after_trace_snoc(ms.drop_first(), m, k);
        assert(mw_after_trace(ms.push(m), k) == head + mw_after_trace(
            ms.drop_first().push(m),
            k,
        ));
        assert(mw_after_trace(ms, k) == head + mw_after_trace(ms.drop_first(), k));
        assert(head + (mw_after_trace(ms.drop_first(), k) + tail) =~= (head + mw_after_trace(
            ms.drop_first(),
            k,
        )) + tail);
    }
}

/// Applies one message handler to the observable state.
fn apply_tea_handler(h: TeaHandler, slots: &mut Slots, log: &mut Vec<LogEntry>, m: &MsgPayload)
    ensures
        obs_of(*final(slots), final(log)@) == tea_handler_step(
            obs_of(*old(slots), old(log)@),
            h,
            *m,
        ),
{
    match h {
        TeaHandler::Tombstone => {
            proof {
                assert(obs_of(*slots, log@) =~= tea_handler_step(
                    obs_of(*old(slots), old(log)@),
                    h,
                    *m,
                ));
            }
        }
        TeaHandler::Probe(id) => {
            let k = m.kind();
            log.push(LogEntry::TeaRan(id, k));
            proof {
                assert(obs_of(*slots, log@) =~= tea_handler_step(
                    obs_of(*old(slots), old(log)@),
                    h,
                    *m,
                ));
            }
        }
        TeaHandler::CounterSlot => {
            match m {
                MsgPayload::Counter(cm) => {
                    match &mut slots.counter {
                        Some(model) => {
                            let _c = model.update(*cm);
                        }
                        None => {}
                    }
                }
                _ => {}
            }
            proof {
                assert(obs_of(*slots, log@) =~= tea_handler_step(
                    obs_of(*old(slots), old(log)@),
                    h,
                    *m,
                ));
            }
        }
    }
}

/// Applies one action handler to the observable state.
fn apply_flux_handler(h: FluxHandler, slots: &mut Slots, log: &mut Vec<LogEntry>, a: &ActPayload)
    ensures
        obs_of(*final(slots), final(log)@) == flux_handler_step(
            obs_of(*old(slots), old(log)@),
            h,
            *a,
        ),
{
    match h {
        FluxHandler::Tombstone => {
            proof {
                assert(obs_of(*slots, log@) =~= flux_handler_step(
                    obs_of(*old(slots), old(log)@),
                    h,
                    *a,
                ));
            }
        }
        FluxHandler::Probe(id) => {
            let k = a.kind();
            log.push(LogEntry::FluxRan(id, k));
            proof {
                assert(obs_of(*slots, log@) =~= flux_handler_step(
                    obs_of(*old(slots), old(log)@),
                    h,
                    *a,
                ));
            }
        }
        FluxHandler::TodoSlot => {
            match a {
                ActPayload::Todo(ta) => {
                    match &mut slots.todo {
                        Some(store) => {
                            store.reduce(ta);
                        }
                        None => {}
                    }
                }
                _ => {}
            }
            proof {
                assert(obs_of(*slots, log@) =~= flux_handler_step(
                    obs_of(*old(slots), old(log)@),
                    h,
                    *a,
                ));
            }
        }
    }
}

/// Runs every handler of one table, in table order, against one message.
fn run_tea_table(table: &Vec<TeaHandler>, slots: &mut Slots, log: &mut Vec<LogEntry>, m: &MsgPayload)
    ensures
        obs_of(*final(slots), final(log)@) == run_tea_handlers(
            obs_of(*old(slots), old(log)@),
            table@,
            *m,
        ),
{
    let ghost o0 = obs_of(*slots, log@);
    let n = table.len();
    let mut i: usize = 0;
    proof {
        assert(table@.take(0) =~= Seq::<TeaHandler>::empty());
        assert(run_tea_handlers(o0, Seq::<TeaHandler>::empty(), *m) == o0);
    }
    while i < n
        invariant
            i <= n,
            n == table@.len(),
            obs_of(*slots, log@) == run_tea_handlers(o0, table@.take(i as int), *m),
        decreases n - i,
    {
        let h = table[i];
        apply_tea_handler(h, slots, log, m);
        proof {
            assert(table@.take(i as int + 1) =~= table@.take(i as int).push(table@[i as int]));
            lemma_run_tea_snoc(o0, table@.take(i as int), h, *m);
        }
        i = i + 1;
    }
    proof {
        assert(table@.take(n as int) =~= table@);
    }
}

/// Runs every handler of one table, in table order, against one action.
fn run_flux_table(
    table: &Vec<FluxHandler>,
    slots: &mut Slots,
    log: &mut Vec<LogEntry>,
    a: &ActPayload,
)
    ensures
        obs_of(*final(slots), final(log)@) == run_flux_handlers(
            obs_of(*old(slots), old(log)@),
            table@,
            *a,
        ),
{
    let ghost o0 = obs_of(*slots, log@);
    let n = table.len();
    let mut i: usize = 0;
    proof {
        assert(table@.take(0) =~= Seq::<FluxHandler>::empty());
        assert(run_flux_handlers(o0, Seq::<FluxHandler>::empty(), *a) == o0);
    }
    while i < n
        invariant
            i <= n,
            n == table@.len(),
            obs_of(*slots, log@) == run_flux_handlers(o0, table@.take(i as int), *a),
        decreases n - i,
    {
        let h = table[i];
        apply_flux_handler(h, slots, log, a);
        proof {
            assert(table@.take(i as int + 1) =~= table@.take(i as int).push(table@[i as int]));
            lemma_run_flux_snoc(o0, table@.take(i as int), h, *a);
        }
        i = i + 1;
    }
    proof {
        assert(table@.take(n as int) =~= table@);
    }
}

/// Runs the before-hook of every middleware, in chain order, handing each
/// the kind of the event being dispatched.
fn run_mw_before_chain(mws: &Vec<Middleware>, log: &mut Vec<LogEntry>, k: EventKind)
    ensures
        final(log)@ == old(log)@ + mw_before_trace(mws@, k),
{
    let ghost log0 = log@;
    let n = mws.len();
    let mut i: usize = 0;
    proof {
        assert(mws@.take(0) =~= Seq::<Middleware>::empty());
        assert(log@ =~= log0 + mw_before_trace(mws@.take(0), k));
    }
    while i < n
        invariant
            i <= n,
            n == mws@.len(),
            log@ == log0 + mw_before_trace(mws@.take(i as int), k),
        decreases n - i,
    {
        let mw = mws[i];
        match mw {
            Middleware::Probe(id) => {
                log.push(LogEntry::MwBefore(id, k));
            }
            Middleware::Silent => {}
        }
        proof {
            assert(mws@.take(i as int + 1) =~= mws@.take(i as int).push(mws@[i as int]));
            lemma_mw_before_trace_snoc(mws@.take(i as int), mws@[i as int], k);
            assert(log@ =~= log0 + mw_before_trace(mws@.take(i as int + 1), k));
        }
        i = i + 1;
    }
    proof {
        assert(mws@.take(n as int) =~= mws@);
    }
}

/// Runs the after-hook of every middleware, in chain order, handing each
/// the kind of the event being dispatched.
fn run_mw_after_chain(mws: &Vec<Middleware>, log: &mut Vec<LogEntry>, k: EventKind)
    ensures
        final(log)@ == old(log)@ + mw_after_trace(mws@, k),
{
    let ghost log0 = log@;
    let n = mws.len();
    let mut i: usize = 0;
    proof {
        assert(mws@.take(0) =~= Seq::<Middleware>::empty());
        assert(log@ =~= log0 + mw_after_trace(mws@.take(0), k));
    }
    while i < n
        invariant
            i <= n,
            n == mws@.len(),
            log@ == log0 + mw_after_trace(mws@.take(i as int), k),
        decreases n - i,
    {
        let mw = mws[i];
        match mw {
            Middleware::Probe(id) => {
                log.push(LogEntry::MwAfter(id, k));
            }
            Middleware::Silent => {}
        }
        proof {
            assert(mws@.take(i as int + 1) =~= mws@.take(i as int).push(mws@[i as int]));
            lemma_mw_after_trace_snoc(mws@.take(i as int), mws@[i as int], k);
            assert(log@ =~= log0 + mw_after_trace(mws@.take(i as int + 1), k));
        }
        i = i + 1;
    }
    proof {
        assert(mws@.take(n as int) =~= mws@);
    }
}

/// The unified dispatcher: one handler table per payload kind, a middleware
/// chain, a pending queue, and the log that makes probe activity observable.
///
/// Exclusive access is by ownership: every mutating operation takes the
/// dispatcher by `&mut`, so a separate lock per table is not needed here.
#[derive(Debug)]
pub struct UnifiedDispatcher {
    /// Message handlers for counter messages, in registration order.
    pub tea_counter: Vec<TeaHandler>,
    /// Message handlers for probe messages, in registration order.
    pub tea_probe: Vec<TeaHandler>,
    /// Message handlers for step messages, in registration order.
    pub tea_step: Vec<TeaHandler>,
    /// Action handlers for todo actions, in registration order.
    pub flux_todo: Vec<FluxHandler>,
    /// Action handlers for probe actions, in registration order.
    pub flux_probe: Vec<FluxHandler>,
    /// Action handlers for step actions, in registration order.
    pub flux_step: Vec<FluxHandler>,
    /// The middleware chain, in registration order.
    pub middleware: Vec<Middleware>,
    /// Queued events awaiting a drain, oldest first.
    pub queue: Vec<PendingEvent>,
    /// Everything probes and middleware have recorded, oldest first.
    pub log: Vec<LogEntry>,
}

/// Holds where the routing state — the six handler tables and the middleware
/// chain — of `post` is exactly that of `pre`.
pub open spec fn same_routes(pre: UnifiedDispatcher, post: UnifiedDispatcher) -> bool {
    &&& post.tea_counter == pre.tea_counter
    &&& post.tea_probe == pre.tea_probe
    &&& post.tea_step == pre.tea_step
    &&& post.flux_todo == pre.flux_todo
    &&& post.flux_probe == pre.flux_probe
    &&& post.flux_step == pre.flux_step
    &&& post.middleware == pre.middleware
}

impl UnifiedDispatcher {
    /// The message handler table for one payload kind.
    pub open spec fn tea_table(self, k: MsgKind) -> Seq<TeaHandler> {
        match k {
            MsgKind::Counter => self.tea_counter@,
            MsgKind::Probe => self.tea_probe@,
            MsgKind::Step => self.tea_step@,
        }
    }

    /// The action handler table for one payload kind.
    pub open spec fn flux_table(self, k: ActKind) -> Seq<FluxHandler> {
        match k {
            ActKind::Todo => self.flux_todo@,
            ActKind::Probe => self.flux_probe@,
            ActKind::Step => self.flux_step@,
        }
    }

    /// The observable state after an optional message payload is delivered
    /// to the table of its kind.
    pub open spec fn spec_deliver_message(self, o: Obs, m: Option<MsgPayload>) -> Obs {
        match m {
            Some(mp) => run_tea_handlers(o, self.tea_table(mp.spec_kind()), mp),
            None => o,
        }
    }

    /// The observable state after an optional action payload is delivered
    /// to the table of its kind.
    pub open spec fn spec_deliver_action(self, o: Obs, a: Option<ActPayload>) -> Obs {
        match a {
            Some(ap) => run_flux_handlers(o, self.flux_table(ap.spec_kind()), ap),
            None => o,
        }
    }

    /// The observable state after one full dispatch: before-hooks, message
    /// delivery, action delivery, after-hooks, in that order, always all
    /// four steps.
    pub open spec fn spec_dispatch(
        self,
        o: Obs,
        k: EventKind,
        m: Option<MsgPayload>,
        a: Option<ActPayload>,
    ) -> Obs {
        run_mw_after(
            self.spec_deliver_action(
                self.spec_deliver_message(run_mw_before(o, self.middleware@, k), m),
                a,
            ),
            self.middleware@,
            k,
        )
    }

    /// The observable state after one queued event is delivered: both
    /// projections through the same per-kind rule as dispatch, but no
    /// middleware hooks.
    pub open spec fn spec_deliver_pending(self, o: Obs, pe: PendingEvent) -> Obs {
        self.spec_deliver_action(self.spec_deliver_message(o, pe.message), pe.action)
    }

    /// The observable state after a whole queue is drained, oldest event
    /// first.
    pub open spec fn spec_drain(self, o: Obs, q: Seq<PendingEvent>) -> Obs
        decreases q.len(),
    {
        if q.len() == 0 {
            o
        } else {
            self.spec_drain(self.spec_deliver_pending(o, q[0]), q.drop_first())
        }
    }

    /// A dispatcher with no handlers, no middleware, an empty queue and an
    /// empty log.
    pub fn new() -> (r: Self)
        ensures
            r.tea_table(MsgKind::Counter) == Seq::<TeaHandler>::empty(),
            r.tea_table(MsgKind::Probe) == Seq::<TeaHandler>::empty(),
            r.tea_table(MsgKind::Step) == Seq::<TeaHandler>::empty(),
            r.flux_table(ActKind::Todo) == Seq::<FluxHandler>::empty(),
            r.flux_table(ActKind::Probe) == Seq::<FluxHandler>::empty(),
            r.flux_table(ActKind::Step) == Seq::<FluxHandler>::empty(),
            r.middleware@ == Seq::<Middleware>::empty(),
            r.queue@ == Seq::<PendingEvent>::empty(),
            r.log@ == Seq::<LogEntry>::empty(),
    {
        UnifiedDispatcher {
            tea_counter: Vec::new(),
            tea_probe: Vec::new(),
            tea_step: Vec::new(),
            flux_todo: Vec::new(),
            flux_probe: Vec::new(),
            flux_step: Vec::new(),
            middleware: Vec::new(),
            queue: Vec::new(),
            log: Vec::new(),
        }
    }

    /// Appends a message handler to the table of the given kind and returns
    /// its stable identifier: the kind and the index the handler occupies.
    pub fn register_tea(&mut self, kind: MsgKind, handler: TeaHandler) -> (id: HandlerId)
        ensures
            final(self).tea_table(kind) == old(self).tea_table(kind).push(handler),
            forall|k: MsgKind|
                k != kind ==> #[trigger] final(self).tea_table(k) == old(self).tea_table(k),
            final(self).flux_todo == old(self).flux_todo,
            final(self).flux_probe == old(self).flux_probe,
            final(self).flux_step == old(self).flux_step,
            final(self).middleware == old(self).middleware,
            final(self).queue == old(self).queue,
            final(self).log == old(self).log,
            id == HandlerId::Tea(kind, old(self).tea_table(kind).len() as usize),
    {
        match kind {
            MsgKind::Counter => {
                let idx = self.tea_counter.len();
                self.tea_counter.push(handler);
                HandlerId::Tea(kind, idx)
            }
            MsgKind::Probe => {
                let idx = self.tea_probe.len();
                self.tea_probe.push(handler);
                HandlerId::Tea(kind, idx)
            }
            MsgKind::Step => {
                let idx = self.tea_step.len();
                self.tea_step.push(handler);
                HandlerId::Tea(kind, idx)
            }
        }
    }

    /// Appends an action handler to the table of the given kind and returns
    /// its stable identifier.
    pub fn register_flux(&mut self, kind: ActKind, handler: FluxHandler) -> (id: HandlerId)
        ensures
            final(self).flux_table(kind) == old(self).flux_table(kind).push(handler),
            forall|k: ActKind|
                k != kind ==> #[trigger] final(self).flux_table(k) == old(self).flux_table(k),
            final(self).tea_counter == old(self).tea_counter,
            final(self).tea_probe == old(self).tea_probe,
            final(self).tea_step == old(self).tea_step,
            final(self).middleware == old(self).middleware,
            final(self).queue == old(self).queue,
            final(self).log == old(self).log,
            id == HandlerId::Flux(kind, old(self).flux_table(kind).len() as usize),
    {
        match kind {
            ActKind::Todo => {
                let idx = self.flux_todo.len();
                self.flux_todo.push(handler);
                HandlerId::Flux(kind, idx)
            }
            ActKind::Probe => {
                let idx = self.flux_probe.len();
                self.flux_probe.push(handler);
                HandlerId::Flux(kind, idx)
            }
            ActKind::Step => {
                let idx = self.flux_step.len();
                self.flux_step.push(handler);
                HandlerId::Flux(kind, idx)
            }
        }
    }

    /// Replaces the entry at the identifier's index with a tombstone.  The
    /// table keeps its length, so every other handler keeps its index and
    /// its place in the firing order; an index out of range does nothing,
    /// and tombstoning twice is the same as tombstoning once.
    pub fn unregister(&mut self, id: HandlerId)
        ensures
            final(self).middleware == old(self).middleware,
            final(self).queue == old(self).queue,
            final(self).log == old(self).log,
            match id {
                HandlerId::Tea(k, i) => {
                    &&& final(self).tea_table(k) == (if i < old(self).tea_table(k).len() {
                        old(self).tea_table(k).update(i as int, TeaHandler::Tombstone)
                    } else {
                        old(self).tea_table(k)
                    })
                    &&& forall|k2: MsgKind|
                        k2 != k ==> #[trigger] final(self).tea_table(k2) == old(self).tea_table(k2)
                    &&& final(self).flux_todo == old(self).flux_todo
                    &&& final(self).flux_probe == old(self).flux_probe
                    &&& final(self).flux_step == old(self).flux_step
                },
                HandlerId::Flux(k, i) => {
                    &&& final(self).flux_table(k) == (if i < old(self).flux_table(k).len() {
                        old(self).flux_table(k).update(i as int, FluxHandler::Tombstone)
                    } else {
                        old(self).flux_table(k)
                    })
                    &&& forall|k2: ActKind|
                        k2 != k ==> #[trigger] final(self).flux_table(k2) == old(self).flux_table(
                            k2,
                        )
                    &&& final(self).tea_counter == old(self).tea_counter
                    &&& final(self).tea_probe == old(self).tea_probe
                    &&& final(self).tea_step == old(self).tea_step
                },
            },
    {
        match id {
            HandlerId::Tea(kind, i) => {
                match kind {
                    MsgKind::Counter => {
                        if i < self.tea_counter.len() {
                            *vec_index_mut(&mut self.tea_counter, i) = TeaHandler::Tombstone;
                        }
                    }
                    MsgKind::Probe => {
                        if i < self.tea_probe.len() {
                            *vec_index_mut(&mut self.tea_probe, i) = TeaHandler::Tombstone;
                        }
                    }
                    MsgKind::Step => {
                        if i < self.tea_step.len() {
                            *vec_index_mut(&mut self.tea_step, i) = TeaHandler::Tombstone;
                        }
                    }
                }
            }
            HandlerId::Flux(kind, i) => {
                match kind {
                    ActKind::Todo => {
                        if i < self.flux_todo.len() {
                            *vec_index_mut(&mut self.flux_todo, i) = FluxHandler::Tombstone;
                        }
                    }
                    ActKind::Probe => {
                        if i < self.flux_probe.len() {
                            *vec_index_mut(&mut self.flux_probe, i) = FluxHandler::Tombstone;
                        }
                    }
                    ActKind::Step => {
                        if i < self.flux_step.len() {
                            *vec_index_mut(&mut self.flux_step, i) = FluxHandler::Tombstone;
                        }
                    }
                }
            }
        }
    }

    /// Appends one middleware to the chain; it runs around every later
    /// dispatch, after everything registered before it.
    pub fn add_middleware(&mut self, mw: Middleware)
        ensures
            final(self).middleware@ == old(self).middleware@.push(mw),
            final(self).tea_counter == old(self).tea_counter,
            final(self).tea_probe == old(self).tea_probe,
            final(self).tea_step == old(self).tea_step,
            final(self).flux_todo == old(self).flux_todo,
            final(self).flux_probe == old(self).flux_probe,
            final(self).flux_step == old(self).flux_step,
            final(self).queue == old(self).queue,
            final(self).log == old(self).log,
    {
        self.middleware.push(mw);
    }

    /// Delivers one message payload to the table of its kind.
    fn deliver_message(&mut self, slots: &mut Slots, m: &MsgPayload)
        ensures
            same_routes(*old(self), *final(self)),
            final(self).queue == old(self).queue,
            obs_of(*final(slots), final(self).log@) == run_tea_handlers(
                obs_of(*old(slots), old(self).log@),
                old(self).tea_table(m.spec_kind()),
                *m,
            ),
    {
        let k = m.kind();
        match k {
            MsgKind::Counter => run_tea_table(&self.tea_counter, slots, &mut self.log, m),
            MsgKind::Probe => run_tea_table(&self.tea_probe, slots, &mut self.log, m),
            MsgKind::Step => run_tea_table(&self.tea_step, slots, &mut self.log, m),
        }
    }

    /// Delivers one action payload to the table of its kind.
    fn deliver_action(&mut self, slots: &mut Slots, a: &ActPayload)
        ensures
            same_routes(*old(self), *final(self)),
            final(self).queue == old(self).queue,
            obs_of(*final(slots), final(self).log@) == run_flux_handlers(
                obs_of(*old(slots), old(self).log@),
                old(self).flux_table(a.spec_kind()),
                *a,
            ),
    {
        let k = a.kind();
        match k {
            ActKind::Todo => run_flux_table(&self.flux_todo, slots, &mut self.log, a),
            ActKind::Probe => run_flux_table(&self.flux_probe, slots, &mut self.log, a),
            ActKind::Step => run_flux_table(&self.flux_step, slots, &mut self.log, a),
        }
    }

    /// Dispatches one event: every middleware's before-hook, then the
    /// message projection to its table, then the action projection to its
    /// table, then every middleware's after-hook.  All four steps always
    /// run to completion; nothing can veto delivery.
    pub fn dispatch<E: Event>(&mut self, slots: &mut Slots, event: &E)
        ensures
            same_routes(*old(self), *final(self)),
            final(self).queue == old(self).queue,
            obs_of(*final(slots), final(self).log@) == old(self).spec_dispatch(
                obs_of(*old(slots), old(self).log@),
                event.spec_kind(),
                event.spec_message(),
                event.spec_action(),
            ),
    {
        let ghost o0 = obs_of(*slots, self.log@);
        let k = event.kind();
        run_mw_before_chain(&self.middleware, &mut self.log, k);
        proof {
            assert(obs_of(*slots, self.log@) =~= run_mw_before(o0, old(self).middleware@, k));
        }
        let msg = event.as_message();
        match &msg {
            Some(m) => self.deliver_message(slots, m),
            None => {}
        }
        let act = event.as_action();
        match &act {
            Some(a) => self.deliver_action(slots, a),
            None => {}
        }
        let ghost o3 = obs_of(*slots, self.log@);
        run_mw_after_chain(&self.middleware, &mut self.log, k);
        proof {
            assert(obs_of(*slots, self.log@) =~= run_mw_after(o3, old(self).middleware@, k));
        }
    }

    /// Appends one event to the pending queue, as its two projections, and
    /// returns at once: no middleware runs, no handler runs, and the
    /// observable state does not change until a drain.
    pub fn queue_event<E: Event>(&mut self, event: &E)
        ensures
            same_routes(*old(self), *final(self)),
            final(self).log == old(self).log,
            final(self).queue@ == old(self).queue@.push(
                PendingEvent { message: event.spec_message(), action: event.spec_action() },
            ),
    {
        let message = event.as_message();
        let action = event.as_action();
        self.queue.push(PendingEvent { message, action });
    }

    /// Drains the pending queue, oldest event first, delivering each
    /// event's projections through the same per-kind rule as dispatch;
    /// draining runs no middleware hooks.
    pub fn process_queue(&mut self, slots: &mut Slots)
        ensures
            same_routes(*old(self), *final(self)),
            final(self).queue@ == Seq::<PendingEvent>::empty(),
            obs_of(*final(slots), final(self).log@) == old(self).spec_drain(
                obs_of(*old(slots), old(self).log@),
                old(self).queue@,
            ),
    {
        let ghost o0 = obs_of(*slots, self.log@);
        let ghost q0 = self.queue@;
        while self.queue.len() > 0
            invariant
                same_routes(*old(self), *self),
                old(self).spec_drain(obs_of(*slots, self.log@), self.queue@) == old(
                    self,
                ).spec_drain(o0, q0),
            decreases self.queue@.len(),
        {
            let ghost o_iter = obs_of(*slots, self.log@);
            let ghost q_iter = self.queue@;
            let pe = self.queue.remove(0);
            proof {
                assert(self.queue@ =~= q_iter.drop_first());
                assert(pe == q_iter[0]);
            }
            match &pe.message {
                Some(m) => self.deliver_message(slots, m),
                None => {}
            }
            match &pe.action {
                Some(a) => self.deliver_action(slots, a),
                None => {}
            }
            proof {
                assert(old(self).spec_drain(o_iter, q_iter) == old(self).spec_drain(
                    old(self).spec_deliver_pending(o_iter, q_iter[0]),
                    q_iter.drop_first(),
                ));
                assert(obs_of(*slots, self.log@) == old(self).spec_deliver_pending(
                    o_iter,
                    q_iter[0],
                ));
            }
        }
    }
}

} // verus!
