//! Error classification for a peer-to-peer networking layer.
//!
//! Failures raised by the byte-stream, codec, address, channel, timer and
//! connection-management collaborators are turned into one error type,
//! [`NetworkError`], which carries a category tag ([`NetworkErrorKind`]) and
//! the chain of causes that led to it.

pub mod chain;
pub mod convert;
pub mod error;
pub mod kind;
pub mod native;

pub use error::NetworkError;
pub use kind::NetworkErrorKind;
