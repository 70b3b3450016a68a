//! Remote procedure calls over message transports: the wire messages, the
//! bookkeeping of consumers and producers, the life cycle of request futures
//! and the derivations that the `api` attribute makes from a trait.

pub mod callback;
pub mod consumer;
pub mod derive;
pub mod error;
pub mod naming;
pub mod producer;
pub mod table;
pub mod timeout;

pub use error::{Error, HandlingStrategy, SendError, ShutdownType};
