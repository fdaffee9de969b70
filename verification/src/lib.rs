//! A minimal in-process actor abstraction: an actor owns private state,
//! processes typed messages one at a time from a bounded FIFO mailbox, and
//! supports request/response (`call`) and fire-and-forget (`cast`)
//! interaction. A companion registry maps a reified type identity to an
//! actor handle, so an actor can be discovered by its type without being
//! threaded through caller code.

pub mod actor;
pub mod handler;
pub mod mailbox;
pub mod model;
pub mod registry;
pub mod sample;

pub use actor::Actor;
pub use handler::Handler;
pub use handler::Item;
pub use handler::worker_step;
pub use mailbox::Mailbox;
pub use model::ActorError;
pub use model::ActorModel;
pub use model::MAILBOX_CAPACITY;
pub use model::Status;
pub use registry::Registry;
