//! Stateless request handlers over Solana SDK primitives: key generation,
//! SPL token and system instruction construction, and detached Ed25519
//! message signing and verification.
//!
//! Each handler turns one request value into one response envelope. The
//! handlers are verified; the SDK calls they make stand behind small
//! wrappers whose contracts are stated but not proved.

pub mod address;
pub mod codec;
pub mod envelope;
pub mod instruction;
pub mod keypair;
pub mod laws;
pub mod message;
pub mod signing;
pub mod token;
pub mod transfer;
