//! The handler capability: the contract a message type fulfills to compute
//! a response given exclusive access to the actor's state, together with
//! the single worker-loop step that dispatches one mailbox item.

use vstd::prelude::*;

verus! {

/// The capability a message set fulfills for an actor over `State` and
/// `Responses`: given exclusive access to the state, compute and return a
/// response. Exactly one implementation exists per `(State, message set,
/// response set)` triple, and the worker loop is its only caller, so no two
/// invocations ever run against the same state at once.
pub trait Handler<State, Responses>: Sized {
    /// The identity of the `(State, message set, response set)`
    /// instantiation, reified as a constant. The registry keys actor
    /// handles by this value.
    spec fn key_spec() -> u64;

    /// What handling a message does: the successor state and the response,
    /// as a pure function of message and state.
    spec fn handle_spec(self, state: State) -> (State, Responses);

    /// The reified type identity, for registering and fetching handles.
    fn type_key() -> (k: u64)
        ensures
            k == Self::key_spec(),
    ;

    /// Handle one message: mutate the state and return the response, doing
    /// exactly what `handle_spec` says.
    fn handle(&self, state: &mut State) -> (r: Responses)
        ensures
            ((*final(state), r)) == (*self).handle_spec(*old(state)),
    ;
}

/// One mailbox item: a message, marked as a call (a caller waits on a reply
/// sink) or a cast (fire-and-forget, no reply expected).
pub struct Item<M> {
    pub message: M,
    pub wants_reply: bool,
}

/// One iteration of an actor's worker loop: handle the dequeued item
/// against the state the worker owns; for a call, hand back the response to
/// deliver to the waiting caller, and for a cast, nothing.
pub fn worker_step<State, M: Handler<State, R>, R>(state: &mut State, item: Item<M>) -> (r: Option<
    R,
>)
    ensures
        ({
            let (s2, resp) = item.message.handle_spec(*old(state));
            &&& *final(state) == s2
            &&& r == (if item.wants_reply {
                Some(resp)
            } else {
                None::<R>
            })
        }),
{
    let response = item.message.handle(state);
    if item.wants_reply {
        Some(response)
    } else {
        None
    }
}

} // verus!
