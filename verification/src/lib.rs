//! A stateless library for a small Solana-facing HTTP service.
//!
//! The service exposes keypair generation, Ed25519 message signing and
//! verification, and the construction (not submission) of SPL-token and
//! system-program instructions. This crate holds the verified core: request
//! validation, base58/base64 codec plumbing, and the assembly of the
//! instruction descriptors that the HTTP layer serialises to JSON.

pub mod address;
pub mod codec;
pub mod crypto;
pub mod error;
pub mod handlers;
pub mod instructions;
pub mod models;
