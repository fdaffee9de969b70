//! The mathematical model of one actor: its lifecycle status, the messages
//! pending in its mailbox, and the state its worker owns, together with the
//! transition that each public operation performs on that model and the
//! laws those transitions obey.

use vstd::prelude::*;
use crate::handler::Handler;

verus! {

/// The fixed bound of a freshly constructed actor's mailbox.
pub const MAILBOX_CAPACITY: usize = 100;

/// Where an actor stands in its lifecycle: constructed but without a
/// worker, running with exactly one worker, or stopped for good after the
/// worker exited. The transfer out of `Constructed` is irreversible.
#[derive(Clone, Copy, Debug, PartialEq, Eq, Structural)]
pub enum Status {
    Constructed,
    Running,
    Stopped,
}

/// The explicit, typed failures of the actor API.
#[derive(Clone, Copy, Debug, PartialEq, Eq, Structural)]
pub enum ActorError {
    /// `startup` was invoked on an actor that is already running or stopped.
    DoubleStartup,
    /// `call` or `cast` was issued before `startup`.
    NotStarted,
    /// The worker exited before answering a `call`.
    ReplyChannelClosed,
    /// No handle is registered under the requested type identity.
    RegistryMiss,
}

/// The model of one actor: its status, the messages waiting in its mailbox
/// in enqueue order (oldest first), and the state owned by its worker,
/// present exactly while the actor runs.
#[verifier::ext_equal]
pub struct ActorModel<State, M> {
    pub status: Status,
    pub pending: Seq<M>,
    pub state: Option<State>,
}

impl<State, M> ActorModel<State, M> {
    /// What holds of every reachable actor: the mailbox respects its bound,
    /// the worker state exists exactly while the actor runs, and only a
    /// running actor has messages waiting.
    pub open spec fn wf(self) -> bool {
        &&& self.pending.len() <= MAILBOX_CAPACITY
        &&& (self.status is Running <==> self.state is Some)
        &&& (!(self.status is Running) ==> self.pending.len() == 0)
    }
}

/// The state after the worker has handled the messages of `q` in order,
/// starting from `s`.
pub open spec fn state_after<State, M: Handler<State, R>, R>(s: State, q: Seq<M>) -> State
    decreases q.len(),
{
    if q.len() == 0 {
        s
    } else {
        state_after::<State, M, R>(q.first().handle_spec(s).0, q.skip(1))
    }
}

/// The responses the worker computes for the messages of `q`, in handling
/// order, starting from `s`.
pub open spec fn responses_after<State, M: Handler<State, R>, R>(s: State, q: Seq<M>) -> Seq<R>
    decreases q.len(),
{
    if q.len() == 0 {
        Seq::empty()
    } else {
        seq![q.first().handle_spec(s).1] + responses_after::<State, M, R>(
            q.first().handle_spec(s).0,
            q.skip(1),
        )
    }
}

/// What `startup` does to the model: from `Constructed` the actor starts
/// running and its worker takes ownership of `init`; from any other status
/// the attempt fails with `DoubleStartup` and changes nothing.
pub open spec fn spec_startup<State, M>(a: ActorModel<State, M>, init: State) -> (ActorModel<
    State,
    M,
>, Result<(), ActorError>) {
    if a.status is Constructed {
        (ActorModel { status: Status::Running, pending: a.pending, state: Some(init) }, Ok(()))
    } else {
        (a, Err(ActorError::DoubleStartup))
    }
}

/// What `call` does to the model: on a running actor the worker first
/// handles every pending message in enqueue order, then handles `m` against
/// the state as it stands at that moment, and the caller receives exactly
/// that response; before `startup` the call fails with `NotStarted`, and
/// after shutdown with `ReplyChannelClosed`.
pub open spec fn spec_call<State, M: Handler<State, R>, R>(a: ActorModel<State, M>, m: M) -> (
    ActorModel<State, M>,
    Result<R, ActorError>,
) {
    match a.status {
        Status::Constructed => (a, Err(ActorError::NotStarted)),
        Status::Stopped => (a, Err(ActorError::ReplyChannelClosed)),
        Status::Running => match a.state {
            Some(s0) => {
                let s1 = state_after::<State, M, R>(s0, a.pending);
                let (s2, resp) = m.handle_spec(s1);
                (
                    ActorModel { status: Status::Running, pending: Seq::empty(), state: Some(s2) },
                    Ok(resp),
                )
            },
            None => (a, Err(ActorError::ReplyChannelClosed)),
        },
    }
}

/// What `cast` does to the model: on a running actor the message joins the
/// back of the mailbox; when the mailbox is at its bound the producer first
/// waits for the worker to consume the head (backpressure). Before
/// `startup` the cast fails with `NotStarted`; after shutdown it is the
/// documented best-effort no-op that drops the message.
pub open spec fn spec_cast<State, M: Handler<State, R>, R>(a: ActorModel<State, M>, m: M) -> (
    ActorModel<State, M>,
    Result<(), ActorError>,
) {
    match a.status {
        Status::Constructed => (a, Err(ActorError::NotStarted)),
        Status::Stopped => (a, Ok(())),
        Status::Running => match a.state {
            Some(s0) => {
                if a.pending.len() < MAILBOX_CAPACITY {
                    (
                        ActorModel {
                            status: Status::Running,
                            pending: a.pending.push(m),
                            state: Some(s0),
                        },
                        Ok(()),
                    )
                } else {
                    (
                        ActorModel {
                            status: Status::Running,
                            pending: a.pending.skip(1).push(m),
                            state: Some(a.pending.first().handle_spec(s0).0),
                        },
                        Ok(()),
                    )
                }
            },
            None => (a, Ok(())),
        },
    }
}

/// What closing the mailbox does to the model: the worker drains what is
/// left, exits, and the state it owned is destroyed; the actor is stopped
/// for good.
pub open spec fn spec_shutdown<State, M>(a: ActorModel<State, M>) -> ActorModel<State, M> {
    ActorModel { status: Status::Stopped, pending: Seq::empty(), state: None }
}

/// Handling a batch extended by one more message first handles the batch,
/// then the extra message against the state the batch leaves.
pub proof fn lemma_state_after_snoc<State, M: Handler<State, R>, R>(s: State, q: Seq<M>, m: M)
    ensures
        state_after::<State, M, R>(s, q.push(m)) == m.handle_spec(
            state_after::<State, M, R>(s, q),
        ).0,
    decreases q.len(),
{
    if q.len() == 0 {
        assert(q.push(m).first() == m);
        assert(q.push(m).skip(1) =~= Seq::<M>::empty());
        assert(state_after::<State, M, R>(m.handle_spec(s).0, Seq::<M>::empty())
            == m.handle_spec(s).0);
        assert(state_after::<State, M, R>(s, q) == s);
    } else {
        let s2 = q.first().handle_spec(s).0;
        assert(q.push(m).first() == q.first());
        assert(q.push(m).skip(1) =~= q.skip(1).push(m));
        lemma_state_after_snoc::<State, M, R>(s2, q.skip(1), m);
        assert(state_after::<State, M, R>(s, q.push(m)) == state_after::<State, M, R>(
            s2,
            q.skip(1).push(m),
        ));
        assert(state_after::<State, M, R>(s, q) == state_after::<State, M, R>(s2, q.skip(1)));
    }
}

/// FIFO delivery: the worker handles two batches enqueued one after the
/// other strictly in order. The responses to the first batch are computed
/// from the starting state and stand before the responses to the second
/// batch, which are computed from the state the first batch leaves; a later
/// enqueue never reorders or disturbs an earlier one.
pub proof fn lemma_fifo_batches<State, M: Handler<State, R>, R>(s: State, q1: Seq<M>, q2: Seq<M>)
    ensures
        state_after::<State, M, R>(s, q1 + q2) == state_after::<State, M, R>(
            state_after::<State, M, R>(s, q1),
            q2,
        ),
        responses_after::<State, M, R>(s, q1 + q2) == responses_after::<State, M, R>(s, q1)
            + responses_after::<State, M, R>(state_after::<State, M, R>(s, q1), q2),
    decreases q1.len(),
{
    if q1.len() == 0 {
        assert(q1 + q2 =~= q2);
        assert(responses_after::<State, M, R>(s, q1) + responses_after::<State, M, R>(
            state_after::<State, M, R>(s, q1),
            q2,
        ) =~= responses_after::<State, M, R>(s, q2));
    } else {
        let s2 = q1.first().handle_spec(s).0;
        assert((q1 + q2).first() == q1.first());
        assert((q1 + q2).skip(1) =~= q1.skip(1) + q2);
        lemma_fifo_batches::<State, M, R>(s2, q1.skip(1), q2);
        assert(responses_after::<State, M, R>(s, q1 + q2) =~= responses_after::<State, M, R>(
            s,
            q1,
        ) + responses_after::<State, M, R>(state_after::<State, M, R>(s, q1), q2));
    }
}

/// Sequential consistency: when `call(m1)` has returned, a following
/// `call(m2)` is computed against exactly the state `m1` left behind — the
/// second call observes every effect of the first, with no reordering and
/// no lost update, and each caller receives exactly the response the
/// handler computed for its own message.
pub proof fn lemma_sequential_consistency<State, M: Handler<State, R>, R>(
    a: ActorModel<State, M>,
    m1: M,
    m2: M,
)
    requires
        a.status is Running,
        a.state is Some,
    ensures
        ({
            let (a1, r1) = spec_call::<State, M, R>(a, m1);
            let (a2, r2) = spec_call::<State, M, R>(a1, m2);
            let s1 = state_after::<State, M, R>(a.state->0, a.pending);
            let (mid, resp1) = m1.handle_spec(s1);
            let (end, resp2) = m2.handle_spec(mid);
            &&& r1 == Ok::<R, ActorError>(resp1)
            &&& a1.state == Some(mid)
            &&& r2 == Ok::<R, ActorError>(resp2)
            &&& a2.state == Some(end)
            &&& a1.pending.len() == 0
            &&& a2.pending.len() == 0
        }),
{
}

/// Single start: the first `startup` on a constructed actor succeeds; a
/// second one fails deterministically with `DoubleStartup` and leaves the
/// actor exactly as it was.
pub proof fn lemma_single_start<State, M>(a: ActorModel<State, M>, s1: State, s2: State)
    requires
        a.status is Constructed,
    ensures
        ({
            let (a1, r1) = spec_startup(a, s1);
            let (a2, r2) = spec_startup(a1, s2);
            &&& r1 == Ok::<(), ActorError>(())
            &&& r2 == Err::<(), ActorError>(ActorError::DoubleStartup)
            &&& a2 == a1
        }),
{
}

/// Post-shutdown behavior: once the worker has exited, a further `call`
/// fails explicitly with `ReplyChannelClosed` rather than hanging, and the
/// stopped actor never changes again.
pub proof fn lemma_post_shutdown_call<State, M: Handler<State, R>, R>(
    a: ActorModel<State, M>,
    m: M,
)
    ensures
        ({
            let a1 = spec_shutdown(a);
            let (a2, r) = spec_call::<State, M, R>(a1, m);
            &&& r == Err::<R, ActorError>(ActorError::ReplyChannelClosed)
            &&& a2 == a1
        }),
{
}

} // verus!
