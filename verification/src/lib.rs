//! Remote-attestation handshake and ephemeral secure-channel establishment
//! between a confidential-computing worker (the enclave), a platform relay
//! (the daemon) and a remote verifier (the tenant).
//!
//! The tenant checks, from first principles, a chain of public-key signatures
//! and hashes over a platform-signed quote; once convinced, the two endpoints
//! agree on a shared secret and exchange an authenticated-encrypted payload.

pub mod cert;
pub mod codec;
pub mod crypto;
pub mod enclave;
pub mod errors;
pub mod key;
pub mod proto;
pub mod quote;
pub mod session;
pub mod sig;
pub mod tenant;
pub mod wasm;
