//! The actor core: a bounded mailbox coupled with the one worker that owns
//! the actor's private state, exposing request/response (`call`) and
//! fire-and-forget (`cast`) interaction.
//!
//! State mutation is strictly sequential because exclusivity is structural:
//! the worker is the single consumer of the mailbox and the sole owner of
//! the state. The public operations perform on the actor exactly the model
//! transitions of [`crate::model`]: the worker dequeues items in FIFO
//! order, handles each against the state as it stands at that moment, and
//! answers a call with exactly the response the handler computed.

use vstd::prelude::*;
use core::marker::PhantomData;
use crate::handler::Handler;
use crate::handler::Item;
use crate::handler::worker_step;
use crate::mailbox::Mailbox;
use crate::model::ActorError;
use crate::model::ActorModel;
use crate::model::MAILBOX_CAPACITY;
use crate::model::Status;
use crate::model::lemma_state_after_snoc;
use crate::model::spec_call;
use crate::model::spec_cast;
use crate::model::spec_shutdown;
use crate::model::spec_startup;
use crate::model::state_after;
use crate::registry::Registry;

verus! {

/// A generic actor over the shape of its private state, its message set
/// and its response set. It holds the mailbox and, from `startup` on, the
/// state its worker owns; the worker exists at most once per actor
/// instance.
pub struct Actor<State, Messages, Responses> {
    status: Status,
    mailbox: Mailbox<Messages>,
    state: Option<State>,
    responses: PhantomData<Responses>,
}

impl<State, Messages, Responses> View for Actor<State, Messages, Responses> {
    type V = ActorModel<State, Messages>;

    closed spec fn view(&self) -> ActorModel<State, Messages> {
        ActorModel { status: self.status, pending: self.mailbox@, state: self.state }
    }
}

impl<State, Messages: Handler<State, Responses>, Responses> Actor<State, Messages, Responses> {
    /// Well-formedness: the mailbox was built with the fixed bound and the
    /// model invariant holds. `new` establishes it and every operation
    /// preserves it.
    pub closed spec fn wf(&self) -> bool {
        &&& self.mailbox.capacity() == MAILBOX_CAPACITY
        &&& self@.wf()
    }

    /// A constructed actor: mailbox allocated with the default bound, no
    /// worker running yet.
    pub fn new() -> (a: Self)
        ensures
            a.wf(),
            a@.wf(),
            a@.status is Constructed,
            a@.pending == Seq::<Messages>::empty(),
            a@.state is None,
    {
        Actor {
            status: Status::Constructed,
            mailbox: Mailbox::new(MAILBOX_CAPACITY),
            state: None,
            responses: PhantomData,
        }
    }

    /// Transition Constructed to Running: the worker takes ownership of
    /// `init` and begins consuming the mailbox. On an actor that is already
    /// running or stopped this fails with `DoubleStartup` and changes
    /// nothing; it never silently spawns a second worker.
    pub fn startup(&mut self, init: State) -> (r: Result<(), ActorError>)
        requires
            old(self).wf(),
        ensures
            final(self).wf(),
            final(self)@ == spec_startup(old(self)@, init).0,
            r == spec_startup(old(self)@, init).1,
    {
        match self.status {
            Status::Constructed => {
                self.status = Status::Running;
                self.state = Some(init);
                proof {
                    assert(self@ =~= spec_startup(old(self)@, init).0);
                }
                Ok(())
            },
            _ => Err(ActorError::DoubleStartup),
        }
    }

    /// Request/response: enqueue the message behind everything already
    /// pending, let the worker handle the backlog and then the message in
    /// FIFO order, and return exactly the response the handler computes for
    /// the state as it stands when the message is dequeued. Fails with
    /// `NotStarted` before `startup` and with `ReplyChannelClosed` once the
    /// worker has exited.
    pub fn call(&mut self, message: Messages) -> (r: Result<Responses, ActorError>)
        requires
            old(self).wf(),
        ensures
            final(self).wf(),
            final(self)@ == spec_call::<State, Messages, Responses>(old(self)@, message).0,
            r == spec_call::<State, Messages, Responses>(old(self)@, message).1,
    {
        match self.status {
            Status::Constructed => Err(ActorError::NotStarted),
            Status::Stopped => Err(ActorError::ReplyChannelClosed),
            Status::Running => {
                let mut st = self.state.take().unwrap();
                let ghost s0 = st;
                let ghost q = self.mailbox@;
                let ghost mut i: int = 0;
                while self.mailbox.len() > 0
                    invariant
                        0 <= i <= q.len(),
                        self.mailbox@ == q.skip(i),
                        self.mailbox.capacity() == MAILBOX_CAPACITY,
                        self.status is Running,
                        self.state is None,
                        st == state_after::<State, Messages, Responses>(s0, q.take(i)),
                    decreases q.len() - i,
                {
                    let next = self.mailbox.dequeue().unwrap();
                    let _delivered = worker_step(&mut st, Item { message: next, wants_reply: false });
                    proof {
                        assert(q.take(i).push(q[i]) =~= q.take(i + 1));
                        lemma_state_after_snoc::<State, Messages, Responses>(s0, q.take(i), q[i]);
                        i = i + 1;
                    }
                }
                proof {
                    assert(q.take(i) =~= q);
                }
                let out = worker_step(&mut st, Item { message, wants_reply: true });
                self.state = Some(st);
                let response = out.unwrap();
                proof {
                    assert(self@ =~= spec_call::<State, Messages, Responses>(
                        old(self)@,
                        message,
                    ).0);
                }
                Ok(response)
            },
        }
    }

    /// Fire-and-forget: enqueue the message at the back of the mailbox and
    /// return without waiting for it to be processed. When the mailbox is
    /// at capacity the producer first waits for the worker to consume the
    /// head (backpressure). Fails with `NotStarted` before `startup`; after
    /// shutdown it is the documented best-effort no-op that drops the
    /// message.
    pub fn cast(&mut self, message: Messages) -> (r: Result<(), ActorError>)
        requires
            old(self).wf(),
        ensures
            final(self).wf(),
            final(self)@ == spec_cast::<State, Messages, Responses>(old(self)@, message).0,
            r == spec_cast::<State, Messages, Responses>(old(self)@, message).1,
    {
        match self.status {
            Status::Constructed => Err(ActorError::NotStarted),
            Status::Stopped => Ok(()),
            Status::Running => {
                if self.mailbox.is_full() {
                    let head = self.mailbox.dequeue().unwrap();
                    let mut st = self.state.take().unwrap();
                    let _delivered = worker_step(&mut st, Item { message: head, wants_reply: false });
                    self.state = Some(st);
                }
                self.mailbox.enqueue(message);
                proof {
                    assert(self@ =~= spec_cast::<State, Messages, Responses>(
                        old(self)@,
                        message,
                    ).0);
                }
                Ok(())
            },
        }
    }

    /// Close the mailbox and stop the actor for good: the worker handles
    /// whatever is still buffered, exits, and the state it owned is
    /// destroyed with it. Later calls fail with `ReplyChannelClosed`; later
    /// casts drop their message.
    pub fn shutdown(&mut self)
        requires
            old(self).wf(),
        ensures
            final(self).wf(),
            final(self)@ == spec_shutdown(old(self)@),
    {
        match self.state.take() {
            Some(st) => {
                let mut local = st;
                while self.mailbox.len() > 0
                    invariant
                        self.mailbox.capacity() == MAILBOX_CAPACITY,
                        self.state is None,
                    decreases self.mailbox@.len(),
                {
                    let next = self.mailbox.dequeue().unwrap();
                    let _delivered = worker_step(
                        &mut local,
                        Item { message: next, wants_reply: false },
                    );
                }
            },
            None => {},
        }
        self.status = Status::Stopped;
        proof {
            assert(self@ =~= spec_shutdown(old(self)@));
        }
    }

    /// The actor's place in its lifecycle.
    pub fn status(&self) -> (s: Status)
        ensures
            s == self@.status,
    {
        self.status
    }

    /// How many messages are waiting in the mailbox.
    pub fn pending_len(&self) -> (n: usize)
        ensures
            n == self@.pending.len(),
    {
        self.mailbox.len()
    }

    /// Move this actor into the registry under the reified identity of its
    /// `(State, message set, response set)` instantiation.
    pub fn register(self, registry: &mut Registry<Actor<State, Messages, Responses>>)
        ensures
            final(registry)@ == old(registry)@.insert(Messages::key_spec(), self),
    {
        let key = Messages::type_key();
        registry.add_child(key, self);
    }

    /// Look up the actor registered under this instantiation's reified
    /// identity. A missing entry fails explicitly with `RegistryMiss`
    /// rather than returning an arbitrary default; because the registry is
    /// typed by the handle it stores, an entry found under the identity is
    /// of the expected concrete type by construction.
    pub fn fetch_from_registry(registry: &Registry<Actor<State, Messages, Responses>>) -> (r:
        Result<&Actor<State, Messages, Responses>, ActorError>)
        ensures
            match r {
                Ok(a) => registry@.contains_key(Messages::key_spec()) && *a
                    == registry@[Messages::key_spec()],
                Err(e) => e == ActorError::RegistryMiss && !registry@.contains_key(
                    Messages::key_spec(),
                ),
            },
    {
        let key = Messages::type_key();
        match registry.get_child(key) {
            Some(a) => Ok(a),
            None => Err(ActorError::RegistryMiss),
        }
    }
}

} // verus!
