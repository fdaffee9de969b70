use miniactor::Actor;
use miniactor::ActorError;
use miniactor::Registry;
use miniactor::Status;
use miniactor::MAILBOX_CAPACITY;
use miniactor::sample::CounterMsg;
use miniactor::sample::CounterState;
use miniactor::sample::Messages;
use miniactor::sample::MyState;
use miniactor::sample::Responses;

#[test]
fn create_actor_call_and_cast() {
    let mut registry = Registry::new();

    let mut background_worker = Actor::<MyState, Messages, Responses>::new();
    background_worker.startup(MyState {}).unwrap();

    let res = background_worker.call(Messages::V4);
    let res_next = background_worker.call(Messages::V6);

    background_worker.register(&mut registry);
    let local_ref = Actor::<MyState, Messages, Responses>::fetch_from_registry(&registry);
    assert!(local_ref.is_ok());

    assert!(res.is_ok());
    assert!(res.unwrap() == Responses::V4);

    assert!(res_next.is_ok());
    assert!(res_next.unwrap() == Responses::V6);
}

#[test]
fn scenario_call_cast_call() {
    let mut actor = Actor::<MyState, Messages, Responses>::new();
    actor.startup(MyState {}).unwrap();

    let first = actor.call(Messages::V4);
    assert_eq!(first, Ok(Responses::V4));

    actor.cast(Messages::V4).unwrap();

    let second = actor.call(Messages::V6);
    assert_eq!(second, Ok(Responses::V6));
}

#[test]
fn lifecycle_status() {
    let mut actor = Actor::<MyState, Messages, Responses>::new();
    assert_eq!(actor.status(), Status::Constructed);

    actor.startup(MyState {}).unwrap();
    assert_eq!(actor.status(), Status::Running);

    actor.shutdown();
    assert_eq!(actor.status(), Status::Stopped);
}

#[test]
fn double_startup_fails() {
    let mut actor = Actor::<MyState, Messages, Responses>::new();
    assert_eq!(actor.startup(MyState {}), Ok(()));
    assert_eq!(actor.startup(MyState {}), Err(ActorError::DoubleStartup));
    assert_eq!(actor.status(), Status::Running);
}

#[test]
fn startup_after_shutdown_fails() {
    let mut actor = Actor::<MyState, Messages, Responses>::new();
    actor.startup(MyState {}).unwrap();
    actor.shutdown();
    assert_eq!(actor.startup(MyState {}), Err(ActorError::DoubleStartup));
    assert_eq!(actor.status(), Status::Stopped);
}

#[test]
fn call_and_cast_before_startup_fail() {
    let mut actor = Actor::<MyState, Messages, Responses>::new();
    assert_eq!(actor.call(Messages::V4), Err(ActorError::NotStarted));
    assert_eq!(actor.cast(Messages::V6), Err(ActorError::NotStarted));
    assert_eq!(actor.status(), Status::Constructed);
}

#[test]
fn call_after_shutdown_fails_explicitly() {
    let mut actor = Actor::<MyState, Messages, Responses>::new();
    actor.startup(MyState {}).unwrap();
    actor.shutdown();
    assert_eq!(actor.call(Messages::V4), Err(ActorError::ReplyChannelClosed));
}

#[test]
fn cast_after_shutdown_is_dropped() {
    let mut actor = Actor::<MyState, Messages, Responses>::new();
    actor.startup(MyState {}).unwrap();
    actor.shutdown();
    assert_eq!(actor.cast(Messages::V4), Ok(()));
    assert_eq!(actor.pending_len(), 0);
}

#[test]
fn call_observes_pending_casts_in_order() {
    let mut counter = Actor::<CounterState, CounterMsg, u64>::new();
    counter.startup(CounterState::new()).unwrap();

    counter.cast(CounterMsg::Add(5)).unwrap();
    counter.cast(CounterMsg::Add(7)).unwrap();
    assert_eq!(counter.pending_len(), 2);

    assert_eq!(counter.call(CounterMsg::Get), Ok(12));
    assert_eq!(counter.pending_len(), 0);
}

#[test]
fn fifo_order_of_casts_is_kept() {
    let mut counter = Actor::<CounterState, CounterMsg, u64>::new();
    counter.startup(CounterState::new()).unwrap();

    counter.cast(CounterMsg::Add(5)).unwrap();
    counter.cast(CounterMsg::Reset).unwrap();
    assert_eq!(counter.call(CounterMsg::Get), Ok(0));

    counter.cast(CounterMsg::Reset).unwrap();
    counter.cast(CounterMsg::Add(5)).unwrap();
    assert_eq!(counter.call(CounterMsg::Get), Ok(5));
}

#[test]
fn sequential_calls_observe_earlier_effects() {
    let mut counter = Actor::<CounterState, CounterMsg, u64>::new();
    counter.startup(CounterState::new()).unwrap();

    assert_eq!(counter.call(CounterMsg::Add(5)), Ok(5));
    assert_eq!(counter.call(CounterMsg::Add(7)), Ok(12));
    assert_eq!(counter.call(CounterMsg::Get), Ok(12));
}

#[test]
fn full_mailbox_backpressure_consumes_head() {
    let mut counter = Actor::<CounterState, CounterMsg, u64>::new();
    counter.startup(CounterState::new()).unwrap();

    let mut i = 0;
    while i < MAILBOX_CAPACITY {
        counter.cast(CounterMsg::Add(1)).unwrap();
        i += 1;
    }
    assert_eq!(counter.pending_len(), MAILBOX_CAPACITY);

    counter.cast(CounterMsg::Add(1)).unwrap();
    assert_eq!(counter.pending_len(), MAILBOX_CAPACITY);

    assert_eq!(counter.call(CounterMsg::Get), Ok((MAILBOX_CAPACITY as u64) + 1));
}

#[test]
fn addition_saturates_at_max() {
    let mut counter = Actor::<CounterState, CounterMsg, u64>::new();
    counter.startup(CounterState::new()).unwrap();

    assert_eq!(counter.call(CounterMsg::Add(u64::MAX)), Ok(u64::MAX));
    assert_eq!(counter.call(CounterMsg::Add(1)), Ok(u64::MAX));
    assert_eq!(counter.call(CounterMsg::Get), Ok(u64::MAX));
}

#[test]
fn worker_step_replies_only_to_calls() {
    let mut state = CounterState::new();

    let for_call = miniactor::worker_step(
        &mut state,
        miniactor::Item { message: CounterMsg::Add(3), wants_reply: true },
    );
    assert_eq!(for_call, Some(3));

    let for_cast = miniactor::worker_step(
        &mut state,
        miniactor::Item { message: CounterMsg::Add(4), wants_reply: false },
    );
    assert_eq!(for_cast, None);

    let observed = miniactor::worker_step(
        &mut state,
        miniactor::Item { message: CounterMsg::Get, wants_reply: true },
    );
    assert_eq!(observed, Some(7));
}
