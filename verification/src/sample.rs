//! Two small actor instantiations. The echo actor answers each message
//! variant with the response variant of the same name and never touches its
//! state; the counter actor accumulates into its state, so the effect of
//! every earlier message is observable in later responses.

use vstd::prelude::*;
use crate::handler::Handler;

verus! {

/// The private state of the echo actor. It carries no data; handling a
/// message leaves it untouched.
pub struct MyState {}

/// The message set of the echo actor.
#[derive(Clone, Copy, Debug, PartialEq, Eq, Structural)]
pub enum Messages {
    V4,
    V6,
}

/// The response set of the echo actor.
#[derive(Clone, Copy, Debug, PartialEq, Eq, Structural)]
pub enum Responses {
    V4,
    V6,
}

impl Handler<MyState, Responses> for Messages {
    open spec fn key_spec() -> u64 {
        1
    }

    open spec fn handle_spec(self, state: MyState) -> (MyState, Responses) {
        match self {
            Messages::V4 => (state, Responses::V4),
            Messages::V6 => (state, Responses::V6),
        }
    }

    fn type_key() -> u64 {
        1
    }

    fn handle(&self, state: &mut MyState) -> Responses {
        match self {
            Messages::V4 => Responses::V4,
            Messages::V6 => Responses::V6,
        }
    }
}

/// The private state of the counter actor: a running total.
pub struct CounterState {
    pub total: u64,
}

impl CounterState {
    /// A counter starting at zero.
    pub fn new() -> (s: Self)
        ensures
            s.total == 0,
    {
        CounterState { total: 0 }
    }
}

/// The message set of the counter actor: add to the total (saturating at
/// the largest `u64`), clear it, or read it. Each response is the total
/// after the message took effect, so the relative order of messages is
/// observable.
#[derive(Clone, Copy, Debug, PartialEq, Eq, Structural)]
pub enum CounterMsg {
    Add(u64),
    Reset,
    Get,
}

impl Handler<CounterState, u64> for CounterMsg {
    open spec fn key_spec() -> u64 {
        2
    }

    open spec fn handle_spec(self, state: CounterState) -> (CounterState, u64) {
        match self {
            CounterMsg::Add(n) => {
                let total = if state.total + n <= u64::MAX {
                    (state.total + n) as u64
                } else {
                    u64::MAX
                };
                (CounterState { total }, total)
            },
            CounterMsg::Reset => (CounterState { total: 0 }, 0),
            CounterMsg::Get => (state, state.total),
        }
    }

    fn type_key() -> u64 {
        2
    }

    fn handle(&self, state: &mut CounterState) -> u64 {
        match self {
            CounterMsg::Add(n) => {
                if state.total <= u64::MAX - *n {
                    state.total = state.total + *n;
                } else {
                    state.total = u64::MAX;
                }
                state.total
            },
            CounterMsg::Reset => {
                state.total = 0;
                0
            },
            CounterMsg::Get => state.total,
        }
    }
}

} // verus!
