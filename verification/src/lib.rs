//! Request-bound transactions: a lazily begun transaction that is handed from
//! one consumer of a request to the next, and resolved once when the request
//! is done.
//!
//! The crate is built bottom-up:
//!
//! - [`slot`] holds the hand-off primitive. A [`Slot`] owns a value that can
//!   be leased to one other owner at a time through a [`Lease`]; the lease
//!   puts the value back when it is dropped, unless the value was stolen.
//! - [`extension`] holds the [`LazyTransaction`] state machine and the
//!   [`Extension`] that binds one of them to a request.
//! - [`tx`] holds the handles that consumers of a request work with.
//! - [`layer`] holds the decisions taken when a request is done.
//! - [`error`] holds the ways in which obtaining a transaction fails.
//!
//! Beginning and committing a transaction are asynchronous and belong to the
//! caller: the library says when to begin, takes the outcome, and hands back
//! the transaction that is to be committed.

pub mod error;
pub mod extension;
pub mod layer;
mod lease;
pub mod slot;
mod sync;
pub mod tx;

pub use crate::error::Error;
pub use crate::extension::{Extension, LazyTransaction, LazyTransactionState, Step};
pub use crate::layer::{commits, conclude, reply, Reply};
pub use crate::slot::{Lease, Slot};
pub use crate::tx::{Acquire, Pending, Tx};
