use hybrid_state::counter::{CounterModel, CounterMsg};
use hybrid_state::dispatcher::{
    FluxHandler, HandlerId, LogEntry, Middleware, Slots, TeaHandler, UnifiedDispatcher,
};
use hybrid_state::event::{CounterEvent, Event, EventKind, ProbeEvent, PulseEvent, StepEvent, TodoEvent};
use hybrid_state::payload::{ActKind, ActPayload, MsgKind, MsgPayload, StepAction, StepMsg};
use hybrid_state::runtime::HybridRuntime;
use hybrid_state::todo::TodoAction;

fn empty_slots() -> Slots {
    Slots { counter: None, todo: None }
}

fn tea_ran_count(log: &[LogEntry], id: u64) -> usize {
    log.iter()
        .filter(|e| matches!(e, LogEntry::TeaRan(i, _) if *i == id))
        .count()
}

fn flux_ran_count(log: &[LogEntry], id: u64) -> usize {
    log.iter()
        .filter(|e| matches!(e, LogEntry::FluxRan(i, _) if *i == id))
        .count()
}

#[test]
fn test_register_tea_handler() {
    let mut dispatcher = UnifiedDispatcher::new();
    let mut slots = empty_slots();

    dispatcher.register_tea(MsgKind::Probe, TeaHandler::Probe(1));
    dispatcher.dispatch(&mut slots, &ProbeEvent { value: 42 });

    assert_eq!(tea_ran_count(&dispatcher.log, 1), 1);
}

#[test]
fn test_register_flux_handler() {
    let mut dispatcher = UnifiedDispatcher::new();
    let mut slots = empty_slots();

    dispatcher.register_flux(ActKind::Probe, FluxHandler::Probe(1));
    dispatcher.dispatch(&mut slots, &ProbeEvent { value: 42 });

    assert_eq!(flux_ran_count(&dispatcher.log, 1), 1);
}

#[test]
fn test_middleware() {
    let mut dispatcher = UnifiedDispatcher::new();
    let mut slots = empty_slots();

    dispatcher.add_middleware(Middleware::Probe(1));
    dispatcher.dispatch(&mut slots, &PulseEvent);

    let before_count = dispatcher
        .log
        .iter()
        .filter(|e| matches!(e, LogEntry::MwBefore(1, _)))
        .count();
    let after_count = dispatcher
        .log
        .iter()
        .filter(|e| matches!(e, LogEntry::MwAfter(1, _)))
        .count();
    assert_eq!(before_count, 1);
    assert_eq!(after_count, 1);
}

#[test]
fn test_event_type() {
    let event = StepEvent::Increment;
    assert_eq!(event.event_type(), "StepEvent");
}

#[test]
fn test_as_message() {
    let event = StepEvent::Increment;
    let msg = event.as_message();
    assert!(msg.is_some());
    assert_eq!(msg.unwrap(), MsgPayload::Step(StepMsg::Increment));
}

#[test]
fn test_as_action() {
    let event = StepEvent::Decrement;
    let action = event.as_action();
    assert!(action.is_some());
    assert_eq!(action.unwrap(), ActPayload::Step(StepAction::Decrement));
}

#[test]
fn test_create_runtime() {
    let runtime = HybridRuntime::new();
    assert!(runtime.dispatcher().log.is_empty());
    assert!(runtime.dispatcher().queue.is_empty());
}

#[test]
fn test_get_container() {
    let runtime = HybridRuntime::new();
    let container = runtime.container();
    assert!(container.get_tea().is_none());
    assert!(container.get_flux().is_none());
}

#[test]
fn test_get_dispatcher() {
    let runtime = HybridRuntime::new();
    let dispatcher = runtime.dispatcher();
    assert!(dispatcher.middleware.is_empty());
}

#[test]
fn probes_fire_in_registration_order() {
    let mut dispatcher = UnifiedDispatcher::new();
    let mut slots = empty_slots();

    dispatcher.register_tea(MsgKind::Probe, TeaHandler::Probe(1));
    dispatcher.register_tea(MsgKind::Probe, TeaHandler::Probe(2));
    dispatcher.dispatch(&mut slots, &ProbeEvent { value: 5 });

    let tea_entries: Vec<&LogEntry> = dispatcher
        .log
        .iter()
        .filter(|e| matches!(e, LogEntry::TeaRan(_, _)))
        .collect();
    assert_eq!(
        tea_entries,
        vec![
            &LogEntry::TeaRan(1, MsgKind::Probe),
            &LogEntry::TeaRan(2, MsgKind::Probe)
        ]
    );
}

#[test]
fn unregister_leaves_other_handlers_in_order() {
    let mut dispatcher = UnifiedDispatcher::new();
    let mut slots = empty_slots();

    let _id1 = dispatcher.register_tea(MsgKind::Probe, TeaHandler::Probe(1));
    let id2 = dispatcher.register_tea(MsgKind::Probe, TeaHandler::Probe(2));
    let _id3 = dispatcher.register_tea(MsgKind::Probe, TeaHandler::Probe(3));
    assert_eq!(id2, HandlerId::Tea(MsgKind::Probe, 1));

    dispatcher.unregister(id2);
    dispatcher.dispatch(&mut slots, &ProbeEvent { value: 9 });

    let tea_entries: Vec<&LogEntry> = dispatcher
        .log
        .iter()
        .filter(|e| matches!(e, LogEntry::TeaRan(_, _)))
        .collect();
    assert_eq!(
        tea_entries,
        vec![
            &LogEntry::TeaRan(1, MsgKind::Probe),
            &LogEntry::TeaRan(3, MsgKind::Probe)
        ]
    );

    // A later registration still gets the next index: tombstones keep
    // every index stable.
    let id4 = dispatcher.register_tea(MsgKind::Probe, TeaHandler::Probe(4));
    assert_eq!(id4, HandlerId::Tea(MsgKind::Probe, 3));
}

#[test]
fn unregister_is_idempotent_and_tolerates_bad_indices() {
    let mut dispatcher = UnifiedDispatcher::new();
    let mut slots = empty_slots();

    let id = dispatcher.register_flux(ActKind::Probe, FluxHandler::Probe(1));
    dispatcher.unregister(id);
    dispatcher.unregister(id);
    dispatcher.unregister(HandlerId::Flux(ActKind::Probe, 17));
    dispatcher.unregister(HandlerId::Tea(MsgKind::Step, 0));

    dispatcher.dispatch(&mut slots, &ProbeEvent { value: 3 });
    assert_eq!(flux_ran_count(&dispatcher.log, 1), 0);
}

#[test]
fn middleware_wraps_handlers_in_order() {
    let mut dispatcher = UnifiedDispatcher::new();
    let mut slots = empty_slots();

    dispatcher.add_middleware(Middleware::Probe(10));
    dispatcher.add_middleware(Middleware::Silent);
    dispatcher.add_middleware(Middleware::Probe(20));
    dispatcher.register_tea(MsgKind::Probe, TeaHandler::Probe(1));
    dispatcher.register_flux(ActKind::Probe, FluxHandler::Probe(2));

    dispatcher.dispatch(&mut slots, &ProbeEvent { value: 0 });

    assert_eq!(
        dispatcher.log,
        vec![
            LogEntry::MwBefore(10, EventKind::Probe),
            LogEntry::MwBefore(20, EventKind::Probe),
            LogEntry::TeaRan(1, MsgKind::Probe),
            LogEntry::FluxRan(2, ActKind::Probe),
            LogEntry::MwAfter(10, EventKind::Probe),
            LogEntry::MwAfter(20, EventKind::Probe),
        ]
    );
}

#[test]
fn event_without_projections_reaches_no_table() {
    let mut dispatcher = UnifiedDispatcher::new();
    let mut slots = empty_slots();

    dispatcher.register_tea(MsgKind::Probe, TeaHandler::Probe(1));
    dispatcher.register_flux(ActKind::Probe, FluxHandler::Probe(2));
    dispatcher.add_middleware(Middleware::Probe(3));

    dispatcher.dispatch(&mut slots, &PulseEvent);

    assert_eq!(
        dispatcher.log,
        vec![
            LogEntry::MwBefore(3, EventKind::Pulse),
            LogEntry::MwAfter(3, EventKind::Pulse)
        ]
    );
}

#[test]
fn handler_skips_payload_it_cannot_use() {
    let mut dispatcher = UnifiedDispatcher::new();
    let mut slots = Slots {
        counter: Some(CounterModel { count: 5 }),
        todo: None,
    };

    // A counter adapter registered under the probe kind receives probe
    // messages, which it cannot fold: it is skipped silently.
    dispatcher.register_tea(MsgKind::Probe, TeaHandler::CounterSlot);
    dispatcher.dispatch(&mut slots, &ProbeEvent { value: 1 });

    assert_eq!(slots.counter, Some(CounterModel { count: 5 }));
    assert!(dispatcher.log.is_empty());
}

#[test]
fn adapter_without_slot_is_a_no_op() {
    let mut dispatcher = UnifiedDispatcher::new();
    let mut slots = empty_slots();

    dispatcher.register_tea(MsgKind::Counter, TeaHandler::CounterSlot);
    dispatcher.register_flux(ActKind::Todo, FluxHandler::TodoSlot);
    dispatcher.dispatch(&mut slots, &CounterEvent { msg: CounterMsg::Increment });
    dispatcher.dispatch(
        &mut slots,
        &TodoEvent { action: TodoAction::Add { text: "x".to_string() } },
    );

    assert!(slots.counter.is_none());
    assert!(slots.todo.is_none());
}

#[test]
fn queue_defers_and_drain_delivers_in_order() {
    let mut dispatcher = UnifiedDispatcher::new();
    let mut slots = Slots {
        counter: Some(CounterModel { count: 0 }),
        todo: None,
    };
    dispatcher.register_tea(MsgKind::Counter, TeaHandler::CounterSlot);
    dispatcher.add_middleware(Middleware::Probe(9));

    dispatcher.queue_event(&CounterEvent { msg: CounterMsg::Increment });
    dispatcher.queue_event(&CounterEvent { msg: CounterMsg::SetTo { value: 40 } });
    dispatcher.queue_event(&CounterEvent { msg: CounterMsg::Increment });

    // Queueing is not delivery: nothing observable has changed yet.
    assert_eq!(slots.counter, Some(CounterModel { count: 0 }));
    assert!(dispatcher.log.is_empty());
    assert_eq!(dispatcher.queue.len(), 3);

    dispatcher.process_queue(&mut slots);

    // FIFO: increment, then set to 40, then increment again.
    assert_eq!(slots.counter, Some(CounterModel { count: 41 }));
    assert_eq!(dispatcher.queue.len(), 0);
    // Draining runs no middleware hooks.
    assert!(dispatcher.log.is_empty());
}

#[test]
fn drain_on_empty_queue_changes_nothing() {
    let mut dispatcher = UnifiedDispatcher::new();
    let mut slots = empty_slots();
    dispatcher.process_queue(&mut slots);
    assert!(dispatcher.log.is_empty());
    assert!(dispatcher.queue.is_empty());
}
