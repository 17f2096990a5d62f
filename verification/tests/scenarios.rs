use hybrid_state::container::StateContainer;
use hybrid_state::counter::{CounterModel, CounterMsg};
use hybrid_state::dispatcher::UnifiedDispatcher;
use hybrid_state::event::{CounterEvent, TodoEvent};
use hybrid_state::flux::{Action, FluxStore};
use hybrid_state::runtime::HybridRuntime;
use hybrid_state::tea::{Command, TeaModel};
use hybrid_state::todo::{Todo, TodoAction, TodoStore};

fn fresh_container() -> StateContainer {
    StateContainer::new(UnifiedDispatcher::new())
}

#[test]
fn test_add_tea_model() {
    let mut container = fresh_container();
    let handle = container.add_tea(CounterModel::init().0);
    assert_eq!(handle.state(&container).count, 0);
}

#[test]
fn test_tea_dispatch() {
    let mut container = fresh_container();
    let handle = container.add_tea(CounterModel::init().0);

    handle.dispatch(&mut container, CounterMsg::Increment);
    assert_eq!(handle.state(&container).count, 1);

    handle.dispatch(&mut container, CounterMsg::Increment);
    assert_eq!(handle.state(&container).count, 2);

    handle.dispatch(&mut container, CounterMsg::Decrement);
    assert_eq!(handle.state(&container).count, 1);
}

#[test]
fn counter_init_asks_for_no_side_effect() {
    let (model, cmd) = CounterModel::init();
    assert_eq!(model, CounterModel { count: 0 });
    assert!(matches!(cmd, Command::Nothing));
}

#[test]
fn tea_round_trip_through_registry() {
    let mut container = fresh_container();
    container.add_tea(CounterModel { count: 37 });
    let handle = container.get_tea().unwrap();
    assert_eq!(handle.state(&container).count, 37);
}

#[test]
fn flux_round_trip_through_registry() {
    let mut container = fresh_container();
    let mut store = TodoStore::new();
    store.reduce(&TodoAction::Add { text: "water the plants".to_string() });
    let expected = store.state();

    container.add_flux(store);
    let handle = container.get_flux().unwrap();
    assert_eq!(handle.state(&container), expected);
}

#[test]
fn get_on_missing_slot_is_absent() {
    let container = fresh_container();
    assert!(container.get_tea().is_none());
    assert!(container.get_flux().is_none());
}

#[test]
fn readding_replaces_state_without_doubling_delivery() {
    let mut container = fresh_container();
    container.add_tea(CounterModel { count: 10 });
    let handle = container.add_tea(CounterModel { count: 0 });

    // The second add replaced the slot's contents...
    assert_eq!(handle.state(&container).count, 0);

    // ...and did not register a second adapter: one dispatched event
    // increments once, not twice.
    container.dispatch(&CounterEvent { msg: CounterMsg::Increment });
    assert_eq!(handle.state(&container).count, 1);
}

#[test]
fn dispatched_events_reach_the_slot_adapters() {
    let mut container = fresh_container();
    let counter = container.add_tea(CounterModel::init().0);
    let todos = container.add_flux(TodoStore::new());

    container.dispatch(&CounterEvent { msg: CounterMsg::SetTo { value: 8 } });
    container.dispatch(&TodoEvent { action: TodoAction::Add { text: "ship it".to_string() } });

    assert_eq!(counter.state(&container).count, 8);
    let state = todos.state(&container);
    assert_eq!(state.todos.len(), 1);
    assert_eq!(state.todos[0].text, "ship it");
}

#[test]
fn replay_matches_reference_fold() {
    // Dispatching a sequence through the handle must equal applying the
    // same updates directly to a reference model.
    let msgs = vec![
        CounterMsg::Increment,
        CounterMsg::SetTo { value: -3 },
        CounterMsg::Decrement,
        CounterMsg::Decrement,
        CounterMsg::Increment,
        CounterMsg::Reset,
        CounterMsg::Increment,
    ];

    let mut container = fresh_container();
    let handle = container.add_tea(CounterModel::init().0);
    for m in &msgs {
        handle.dispatch(&mut container, *m);
    }

    let mut reference = CounterModel::init().0;
    reference.update_all(&msgs);

    assert_eq!(handle.state(&container).count, reference.state().count);
}

#[test]
fn replay_whole_histories_through_handles() {
    let msgs = vec![
        CounterMsg::Increment,
        CounterMsg::Increment,
        CounterMsg::SetTo { value: 5 },
        CounterMsg::Decrement,
    ];
    let actions = vec![
        TodoAction::Add { text: "one".to_string() },
        TodoAction::Add { text: "two".to_string() },
        TodoAction::Remove { id: 1 },
    ];

    let mut container = fresh_container();
    let counter = container.add_tea(CounterModel::init().0);
    let todos = container.add_flux(TodoStore::new());

    counter.dispatch_all(&mut container, &msgs);
    todos.dispatch_all(&mut container, &actions);

    assert_eq!(counter.state(&container).count, 4);
    let state = todos.state(&container);
    assert_eq!(state.todos.len(), 1);
    assert_eq!(state.todos[0].id, 2);
    assert_eq!(state.todos[0].text, "two");
}

#[test]
fn todo_scenario_reducer_style() {
    let mut container = fresh_container();
    let handle = container.add_flux(TodoStore::new());

    handle.dispatch(&mut container, TodoAction::Add { text: "Learn Rust".to_string() });
    handle.dispatch(&mut container, TodoAction::Add { text: "Build GPUI app".to_string() });
    handle.dispatch(
        &mut container,
        TodoAction::Add { text: "Master Hybrid TEA-Flux".to_string() },
    );
    handle.dispatch(&mut container, TodoAction::Toggle { id: 1 });
    handle.dispatch(&mut container, TodoAction::Remove { id: 2 });

    let state = handle.state(&container);
    assert_eq!(
        state.todos,
        vec![
            Todo { id: 1, text: "Learn Rust".to_string(), completed: true },
            Todo { id: 3, text: "Master Hybrid TEA-Flux".to_string(), completed: false },
        ]
    );
}

#[test]
fn counter_scenario_update_function_style() {
    let mut container = fresh_container();
    let handle = container.add_tea(CounterModel::init().0);

    handle.dispatch(&mut container, CounterMsg::Increment);
    handle.dispatch(&mut container, CounterMsg::Increment);
    handle.dispatch(&mut container, CounterMsg::Decrement);
    handle.dispatch(&mut container, CounterMsg::SetTo { value: 42 });
    handle.dispatch(&mut container, CounterMsg::Reset);

    assert_eq!(handle.state(&container).count, 0);
}

#[test]
fn interleaved_dispatches_do_not_interfere() {
    let mut container = fresh_container();
    let counter = container.add_tea(CounterModel::init().0);
    let todos = container.add_flux(TodoStore::new());

    for i in 0..1000u32 {
        counter.dispatch(&mut container, CounterMsg::Increment);
        todos.dispatch(
            &mut container,
            TodoAction::Add { text: format!("task {}", i) },
        );
    }

    assert_eq!(counter.state(&container).count, 1000);
    let state = todos.state(&container);
    assert_eq!(state.todos.len(), 1000);
    assert_eq!(state.next_id, 1001);
    assert_eq!(state.todos[999].text, "task 999");
}

#[test]
fn queue_has_no_effect_until_runtime_drains() {
    let mut runtime = HybridRuntime::new();
    let handle = runtime.container_mut().add_flux(TodoStore::new());

    runtime
        .container_mut()
        .queue_event(&TodoEvent { action: TodoAction::Add { text: "later".to_string() } });
    assert_eq!(handle.state(runtime.container()).todos.len(), 0);

    runtime.process_events();
    let state = handle.state(runtime.container());
    assert_eq!(state.todos.len(), 1);
    assert_eq!(state.todos[0].text, "later");
    assert!(runtime.dispatcher().queue.is_empty());
}

#[test]
fn snapshot_is_an_independent_copy() {
    let mut store = TodoStore::new();
    store.reduce(&TodoAction::Add { text: "first".to_string() });
    let snapshot = store.state();

    store.reduce(&TodoAction::Add { text: "second".to_string() });

    assert_eq!(snapshot.todos.len(), 1);
    assert_eq!(store.state().todos.len(), 2);
}

#[test]
fn toggle_flips_only_the_first_match_and_missing_ids_do_nothing() {
    let mut store = TodoStore::new();
    store.reduce(&TodoAction::Add { text: "a".to_string() });
    store.reduce(&TodoAction::Add { text: "b".to_string() });

    store.reduce(&TodoAction::Toggle { id: 2 });
    assert!(!store.state().todos[0].completed);
    assert!(store.state().todos[1].completed);

    store.reduce(&TodoAction::Toggle { id: 99 });
    store.reduce(&TodoAction::Remove { id: 99 });
    assert_eq!(store.state().todos.len(), 2);

    store.reduce(&TodoAction::Clear);
    assert_eq!(store.state().todos.len(), 0);
    // Clearing does not reuse identifiers.
    store.reduce(&TodoAction::Add { text: "c".to_string() });
    assert_eq!(store.state().todos[0].id, 3);
}

#[test]
fn counter_wraps_at_the_boundary() {
    let mut model = CounterModel { count: i32::MAX };
    let _ = model.update(CounterMsg::Increment);
    assert_eq!(model.state().count, i32::MIN);
    let _ = model.update(CounterMsg::Decrement);
    assert_eq!(model.state().count, i32::MAX);
}

#[test]
fn action_types_name_their_kind() {
    assert_eq!(TodoAction::Clear.action_type(), "TodoAction");
    assert_eq!(
        hybrid_state::payload::ProbeAction { value: 0 }.action_type(),
        "ProbeAction"
    );
    assert_eq!(
        hybrid_state::payload::StepAction::Increment.action_type(),
        "StepAction"
    );
}

#[test]
fn handle_exposes_the_shared_dispatcher() {
    let mut container = fresh_container();
    let handle = container.add_tea(CounterModel::init().0);
    assert!(handle.dispatcher(&container).log.is_empty());
}
