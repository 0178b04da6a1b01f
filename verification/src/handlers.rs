//! The operation handlers, one per endpoint.
//!
//! Each handler is a pure transformation from a validated request to a
//! result or an `AppError`; the HTTP layer around the library does nothing
//! but JSON and the uniform response envelope.

pub mod keypair;
pub mod message;
pub mod token;
pub mod transfer;
