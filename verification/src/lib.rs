//! A verified core for a stateless blockchain-instruction API: base58/base64
//! codecs, Ed25519 key material and signatures, associated-address
//! derivation, builders for the native transfer and SPL-token instructions,
//! and the request validator layered in front of them.

pub mod codec;
pub mod derive;
pub mod error;
pub mod instruction;
pub mod keys;
pub mod service;
