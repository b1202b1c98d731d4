//! Ed25519 wallet primitives for a Solana-style account model: base58 and
//! base64 codecs, key parsing and generation, message signing and
//! verification, and the token-mint initialization instruction.
pub mod codec;
pub mod instruction;
pub mod keys;
pub mod service;
