//! Lease-based distributed mutual exclusion over several independent
//! key-value storage instances (the Redlock algorithm), written as a
//! protocol core that performs no I/O of its own.
//!
//! The caller owns the sockets, the clock and the sleeping. This library
//! decides: which commands go to which instance, whether the replies amount to
//! a held lock, what has to be cleaned up, and when a retry loop gives up.
//!
//! - [`lock`]: one acquisition attempt, the handle it yields, and release.
//! - [`acquire`]: the retry loop around the attempts, as a state machine.
//! - [`request`]: the commands for a storage instance, and its replies.
//! - [`token`]: ownership tokens and their text.
//! - [`text`]: decimal numerals.
//! - [`store`]: a model of the storage instances.
//! - [`laws`]: what the protocol guarantees, proved over that model.

pub mod acquire;
pub mod laws;
pub mod lock;
pub mod request;
pub mod store;
pub mod text;
pub mod token;

pub use crate::acquire::{AcquireError, Acquisition, LoopAction, LoopEvent, LoopState};
pub use crate::lock::{Attempt, Outcome, Redlock};
pub use crate::request::{LockRequest, SetReply, UnlockRequest};
