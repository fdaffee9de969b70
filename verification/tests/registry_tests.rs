use miniactor::Actor;
use miniactor::ActorError;
use miniactor::Registry;
use miniactor::Status;
use miniactor::sample::CounterMsg;
use miniactor::sample::CounterState;
use miniactor::sample::Messages;
use miniactor::sample::MyState;
use miniactor::sample::Responses;

#[test]
fn add_child_then_get_child_returns_same_handle() {
    let mut registry = Registry::new();
    registry.add_child(7, 42u64);
    assert_eq!(registry.get_child(7), Some(&42u64));
}

#[test]
fn get_child_of_unregistered_identity_is_none() {
    let mut registry = Registry::new();
    registry.add_child(7, 42u64);
    assert_eq!(registry.get_child(8), None);
}

#[test]
fn later_registration_overwrites_earlier_one() {
    let mut registry = Registry::new();
    registry.add_child(7, 42u64);
    registry.add_child(7, 43u64);
    assert_eq!(registry.get_child(7), Some(&43u64));
}

#[test]
fn register_then_fetch_finds_the_actor() {
    let mut registry = Registry::new();
    let mut actor = Actor::<MyState, Messages, Responses>::new();
    actor.startup(MyState {}).unwrap();
    actor.register(&mut registry);

    let fetched = Actor::<MyState, Messages, Responses>::fetch_from_registry(&registry);
    assert!(fetched.is_ok());
    assert_eq!(fetched.unwrap().status(), Status::Running);
}

#[test]
fn fetch_from_empty_registry_fails_explicitly() {
    let registry = Registry::<Actor<CounterState, CounterMsg, u64>>::new();
    let fetched = Actor::<CounterState, CounterMsg, u64>::fetch_from_registry(&registry);
    assert!(matches!(fetched, Err(ActorError::RegistryMiss)));
}
