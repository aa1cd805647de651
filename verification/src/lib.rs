//! A minimal client library for posting structured messages to an
//! incoming-webhook HTTP endpoint.
//!
//! The library builds a message payload from a set of optional fields
//! ([`MMBody`]), serializes it to a compact JSON string with a fully
//! specified wire format, and classifies the outcome of the HTTP exchange
//! ([`MMRSError`]). The network exchange itself is left to the host
//! application; the library states and proves everything that can be said
//! of the bytes and of the classification.

pub mod dispatch;
pub mod error;
pub mod json;
pub mod payload;

pub use dispatch::classify_send_outcome;
pub use error::MMRSError;
pub use payload::MMBody;
