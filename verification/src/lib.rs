//! A bounded multi-producer, single-consumer channel with explicit
//! backpressure and cooperative shutdown detection.
//!
//! Any number of cloneable [`Sender`] handles and one [`Receiver`] handle
//! share a fixed-capacity FIFO buffer. A send or receive attempt never
//! blocks: it either completes, reports that the other side is gone for
//! good, or hands back a `Pending`-style value after registering a wake
//! handle so the caller can retry once progress is possible.
//!
//! The protocol itself is the verified core: [`model`] states it as pure
//! transition functions over an abstract channel state, [`state`] proves
//! that the executable shared state follows those transitions step by step,
//! and [`laws`] proves the protocol's cross-step guarantees. [`channel`]
//! wraps the shared state in a verified lock behind reference-counted
//! handles; [`buffer`] and [`wake`] are the trusted surface over the backing
//! queue and the wake handles.

pub mod buffer;
pub mod channel;
pub mod laws;
pub mod model;
pub mod state;
pub mod wake;

pub use channel::channel;
pub use channel::Receiver;
pub use channel::Sender;
pub use model::PollRecv;
pub use model::PollSend;
