//! The state container: the registry of slots plus the dispatcher they are
//! wired to, and the handles that read and drive one slot.
//!
//! Adding a state object creates its slot and registers the slot's adapter
//! handler with the dispatcher, so that dispatched events of the matching
//! payload kind reach the slot; the caller gets back a cheap, copyable
//! handle.  At most one slot exists per discipline: adding again replaces
//! the slot's contents and registers no second adapter, so a payload is
//! never applied twice.  A slot, once created, lives for the container's
//! lifetime.
//!
//! Looking up a handle for a discipline whose slot was never added yields an
//! absent value; that is a normal outcome, not an error.  A handle's direct
//! dispatch path writes the slot and bypasses the dispatcher entirely: no
//! middleware runs and no handler table is consulted on that path.

use crate::counter::{counter_run, counter_step, CounterModel, CounterMsg, CounterState};
use crate::dispatcher::{
    same_routes, FluxHandler, Slots, TeaHandler, UnifiedDispatcher,
};
use crate::event::Event;
use crate::flux::FluxStore;
use crate::tea::TeaModel;
use crate::payload::{ActKind, MsgKind};
use crate::todo::{todo_run, todo_step, TodoAction, TodoState, TodoStore};
use vstd::prelude::*;

verus! {

/// The container: the two slots and the dispatcher they are wired to.
#[derive(Debug)]
pub struct StateContainer {
    /// The state slots.
    pub slots: Slots,
    /// The dispatcher shared by both disciplines.
    pub dispatcher: UnifiedDispatcher,
}

/// A handle bound to the counter slot: a copyable accessor offering a
/// read-only snapshot and a direct dispatch path.
#[derive(Clone, Copy, Debug, PartialEq, Eq, Structural)]
pub struct TeaHandle;

/// A handle bound to the todo slot: a copyable accessor offering a
/// read-only snapshot and a direct dispatch path.
#[derive(Clone, Copy, Debug, PartialEq, Eq, Structural)]
pub struct FluxHandle;

impl StateContainer {
    /// A container with no slots, wired to the given dispatcher.
    pub fn new(dispatcher: UnifiedDispatcher) -> (r: Self)
        ensures
            r.slots.counter is None,
            r.slots.todo is None,
            r.dispatcher == dispatcher,
    {
        StateContainer { slots: Slots { counter: None, todo: None }, dispatcher }
    }

    /// Puts a counter model into its slot and wires the slot to the
    /// dispatcher: the adapter handler is registered the first time the
    /// slot is created, and only then, so re-adding replaces the state but
    /// never duplicates delivery.
    pub fn add_tea(&mut self, model: CounterModel) -> (h: TeaHandle)
        ensures
            final(self).slots.counter == Some(model),
            final(self).slots.todo == old(self).slots.todo,
            final(self).dispatcher.tea_table(MsgKind::Counter) == (if old(
                self,
            ).slots.counter is None {
                old(self).dispatcher.tea_table(MsgKind::Counter).push(TeaHandler::CounterSlot)
            } else {
                old(self).dispatcher.tea_table(MsgKind::Counter)
            }),
            forall|k: MsgKind|
                k != MsgKind::Counter ==> #[trigger] final(self).dispatcher.tea_table(k) == old(
                    self,
                ).dispatcher.tea_table(k),
            final(self).dispatcher.flux_todo == old(self).dispatcher.flux_todo,
            final(self).dispatcher.flux_probe == old(self).dispatcher.flux_probe,
            final(self).dispatcher.flux_step == old(self).dispatcher.flux_step,
            final(self).dispatcher.middleware == old(self).dispatcher.middleware,
            final(self).dispatcher.queue == old(self).dispatcher.queue,
            final(self).dispatcher.log == old(self).dispatcher.log,
    {
        if self.slots.counter.is_none() {
            self.dispatcher.register_tea(MsgKind::Counter, TeaHandler::CounterSlot);
        }
        self.slots.counter = Some(model);
        TeaHandle
    }

    /// Puts a todo store into its slot and wires the slot to the
    /// dispatcher, under the same once-only adapter rule as the counter
    /// slot.
    pub fn add_flux(&mut self, store: TodoStore) -> (h: FluxHandle)
        ensures
            final(self).slots.todo == Some(store),
            final(self).slots.counter == old(self).slots.counter,
            final(self).dispatcher.flux_table(ActKind::Todo) == (if old(self).slots.todo is None {
                old(self).dispatcher.flux_table(ActKind::Todo).push(FluxHandler::TodoSlot)
            } else {
                old(self).dispatcher.flux_table(ActKind::Todo)
            }),
            forall|k: ActKind|
                k != ActKind::Todo ==> #[trigger] final(self).dispatcher.flux_table(k) == old(
                    self,
                ).dispatcher.flux_table(k),
            final(self).dispatcher.tea_counter == old(self).dispatcher.tea_counter,
            final(self).dispatcher.tea_probe == old(self).dispatcher.tea_probe,
            final(self).dispatcher.tea_step == old(self).dispatcher.tea_step,
            final(self).dispatcher.middleware == old(self).dispatcher.middleware,
            final(self).dispatcher.queue == old(self).dispatcher.queue,
            final(self).dispatcher.log == old(self).dispatcher.log,
    {
        if self.slots.todo.is_none() {
            self.dispatcher.register_flux(ActKind::Todo, FluxHandler::TodoSlot);
        }
        self.slots.todo = Some(store);
        FluxHandle
    }

    /// A handle to the counter slot, or an absent value if no counter model
    /// was ever added — a normal outcome, not an error.
    pub fn get_tea(&self) -> (r: Option<TeaHandle>)
        ensures
            r is Some <==> self.slots.counter is Some,
    {
        match &self.slots.counter {
            Some(_) => Some(TeaHandle),
            None => None,
        }
    }

    /// A handle to the todo slot, or an absent value if no todo store was
    /// ever added.
    pub fn get_flux(&self) -> (r: Option<FluxHandle>)
        ensures
            r is Some <==> self.slots.todo is Some,
    {
        match &self.slots.todo {
            Some(_) => Some(FluxHandle),
            None => None,
        }
    }

    /// Routes one event through the dispatcher: middleware, handler tables,
    /// slots.
    pub fn dispatch<E: Event>(&mut self, event: &E)
        ensures
            same_routes(old(self).dispatcher, final(self).dispatcher),
            final(self).dispatcher.queue == old(self).dispatcher.queue,
            crate::dispatcher::obs_of(final(self).slots, final(self).dispatcher.log@) == old(
                self,
            ).dispatcher.spec_dispatch(
                crate::dispatcher::obs_of(old(self).slots, old(self).dispatcher.log@),
                event.spec_kind(),
                event.spec_message(),
                event.spec_action(),
            ),
    {
        self.dispatcher.dispatch(&mut self.slots, event);
    }

    /// Queues one event for a later drain; nothing observable changes now.
    pub fn queue_event<E: Event>(&mut self, event: &E)
        ensures
            same_routes(old(self).dispatcher, final(self).dispatcher),
            final(self).dispatcher.log == old(self).dispatcher.log,
            final(self).slots == old(self).slots,
            final(self).dispatcher.queue@ == old(self).dispatcher.queue@.push(
                crate::dispatcher::PendingEvent {
                    message: event.spec_message(),
                    action: event.spec_action(),
                },
            ),
    {
        self.dispatcher.queue_event(event);
    }

    /// Drains the pending queue, oldest event first.
    pub fn process_queue(&mut self)
        ensures
            same_routes(old(self).dispatcher, final(self).dispatcher),
            final(self).dispatcher.queue@ == Seq::<crate::dispatcher::PendingEvent>::empty(),
            crate::dispatcher::obs_of(final(self).slots, final(self).dispatcher.log@) == old(
                self,
            ).dispatcher.spec_drain(
                crate::dispatcher::obs_of(old(self).slots, old(self).dispatcher.log@),
                old(self).dispatcher.queue@,
            ),
    {
        self.dispatcher.process_queue(&mut self.slots);
    }

    /// The shared dispatcher, for reading its tables, queue and log.
    pub fn dispatcher(&self) -> (d: &UnifiedDispatcher)
        ensures
            d == &self.dispatcher,
    {
        &self.dispatcher
    }
}

impl TeaHandle {
    /// A snapshot of the counter slot's state.  Reading through a handle
    /// requires the slot it was issued for: a slot, once added, lives for
    /// the container's lifetime.
    pub fn state(&self, c: &StateContainer) -> (s: CounterState)
        requires
            c.slots.counter is Some,
        ensures
            s == (CounterState { count: c.slots.counter.unwrap().count }),
    {
        match &c.slots.counter {
            Some(model) => model.state(),
            None => vstd::pervasive::unreached(),
        }
    }

    /// Applies one message to the counter slot directly, bypassing the
    /// dispatcher entirely: no middleware and no handler table runs on this
    /// path, and nothing but the counter slot changes.
    pub fn dispatch(&self, c: &mut StateContainer, msg: CounterMsg)
        requires
            old(c).slots.counter is Some,
        ensures
            final(c).slots.counter == Some(counter_step(old(c).slots.counter.unwrap(), msg)),
            final(c).slots.todo == old(c).slots.todo,
            final(c).dispatcher == old(c).dispatcher,
    {
        match &mut c.slots.counter {
            Some(model) => { let _c = model.update(msg); },
            None => {}
        }
    }

    /// Applies a whole sequence of messages to the counter slot directly,
    /// first element first; the result is the reference fold of the
    /// sequence, so replaying a history through the handle is
    /// deterministic.
    pub fn dispatch_all(&self, c: &mut StateContainer, msgs: &Vec<CounterMsg>)
        requires
            old(c).slots.counter is Some,
        ensures
            final(c).slots.counter == Some(counter_run(old(c).slots.counter.unwrap(), msgs@)),
            final(c).slots.todo == old(c).slots.todo,
            final(c).dispatcher == old(c).dispatcher,
    {
        match &mut c.slots.counter {
            Some(model) => model.update_all(msgs),
            None => {}
        }
    }

    /// The dispatcher the handle's container is wired to.
    pub fn dispatcher<'a>(&self, c: &'a StateContainer) -> (d: &'a UnifiedDispatcher)
        ensures
            d == &c.dispatcher,
    {
        &c.dispatcher
    }
}

impl FluxHandle {
    /// A snapshot of the todo slot's state: an owned copy with the same
    /// mathematical value.
    pub fn state(&self, c: &StateContainer) -> (s: TodoState)
        requires
            c.slots.todo is Some,
        ensures
            s@ == c.slots.todo.unwrap()@,
    {
        match &c.slots.todo {
            Some(store) => store.state(),
            None => vstd::pervasive::unreached(),
        }
    }

    /// Applies one action to the todo slot directly, bypassing the
    /// dispatcher entirely.
    pub fn dispatch(&self, c: &mut StateContainer, action: TodoAction)
        requires
            old(c).slots.todo is Some,
        ensures
            final(c).slots.todo matches Some(s) && s@ == todo_step(
                old(c).slots.todo.unwrap()@,
                action,
            ),
            final(c).slots.counter == old(c).slots.counter,
            final(c).dispatcher == old(c).dispatcher,
    {
        match &mut c.slots.todo {
            Some(store) => store.reduce(&action),
            None => {}
        }
    }

    /// Applies a whole sequence of actions to the todo slot directly,
    /// first element first; the result is the reference fold of the
    /// sequence, so replaying a history through the handle is
    /// deterministic.
    pub fn dispatch_all(&self, c: &mut StateContainer, actions: &Vec<TodoAction>)
        requires
            old(c).slots.todo is Some,
        ensures
            final(c).slots.todo matches Some(s) && s@ == todo_run(
                old(c).slots.todo.unwrap()@,
                actions@,
            ),
            final(c).slots.counter == old(c).slots.counter,
            final(c).dispatcher == old(c).dispatcher,
    {
        match &mut c.slots.todo {
            Some(store) => store.reduce_all(actions),
            None => {}
        }
    }

    /// The dispatcher the handle's container is wired to.
    pub fn dispatcher<'a>(&self, c: &'a StateContainer) -> (d: &'a UnifiedDispatcher)
        ensures
            d == &c.dispatcher,
    {
        &c.dispatcher
    }
}

} // verus!
