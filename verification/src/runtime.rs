//! The hybrid runtime: the composition root that owns the container and,
//! through it, the dispatcher.
//!
//! There is no ambient process-wide registry: a runtime is constructed
//! explicitly and handed by reference to whoever needs it.  A caller that
//! queues events is expected to drain them once per frame through
//! [`HybridRuntime::process_events`].

use crate::container::StateContainer;
use crate::dispatcher::{obs_of, same_routes, PendingEvent, UnifiedDispatcher};
use vstd::prelude::*;

verus! {

/// The runtime: the owner of the container and dispatcher.
#[derive(Debug)]
pub struct HybridRuntime {
    /// The state container, wired to its dispatcher.
    pub container: StateContainer,
}

impl HybridRuntime {
    /// A runtime with an empty container wired to a fresh dispatcher.
    pub fn new() -> (r: Self)
        ensures
            r.container.slots.counter is None,
            r.container.slots.todo is None,
            r.container.dispatcher.middleware@ == Seq::<
                crate::dispatcher::Middleware,
            >::empty(),
            r.container.dispatcher.queue@ == Seq::<PendingEvent>::empty(),
            r.container.dispatcher.log@ == Seq::<crate::dispatcher::LogEntry>::empty(),
            r.container.dispatcher.tea_counter@ == Seq::<
                crate::dispatcher::TeaHandler,
            >::empty(),
            r.container.dispatcher.tea_probe@ == Seq::<crate::dispatcher::TeaHandler>::empty(),
            r.container.dispatcher.tea_step@ == Seq::<crate::dispatcher::TeaHandler>::empty(),
            r.container.dispatcher.flux_todo@ == Seq::<
                crate::dispatcher::FluxHandler,
            >::empty(),
            r.container.dispatcher.flux_probe@ == Seq::<
                crate::dispatcher::FluxHandler,
            >::empty(),
            r.container.dispatcher.flux_step@ == Seq::<
                crate::dispatcher::FluxHandler,
            >::empty(),
    {
        let dispatcher = UnifiedDispatcher::new();
        let container = StateContainer::new(dispatcher);
        HybridRuntime { container }
    }

    /// The state container, for reading.
    pub fn container(&self) -> (c: &StateContainer)
        ensures
            c == &self.container,
    {
        &self.container
    }

    /// The state container, for adding state and dispatching.
    pub fn container_mut(&mut self) -> (c: &mut StateContainer)
        ensures
            *c == old(self).container,
            *final(self) == (HybridRuntime { container: *final(c) }),
    {
        &mut self.container
    }

    /// The dispatcher, for reading its tables, queue and log.
    pub fn dispatcher(&self) -> (d: &UnifiedDispatcher)
        ensures
            d == &self.container.dispatcher,
    {
        &self.container.dispatcher
    }

    /// Drains all queued events, oldest first; meant to run once per frame.
    pub fn process_events(&mut self)
        ensures
            same_routes(old(self).container.dispatcher, final(self).container.dispatcher),
            final(self).container.dispatcher.queue@ == Seq::<PendingEvent>::empty(),
            obs_of(final(self).container.slots, final(self).container.dispatcher.log@) == old(
                self,
            ).container.dispatcher.spec_drain(
                obs_of(old(self).container.slots, old(self).container.dispatcher.log@),
                old(self).container.dispatcher.queue@,
            ),
    {
        self.container.process_queue();
    }
}

} // verus!
