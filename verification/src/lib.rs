//! Codec for SSH key material: the wire-format encoding and decoding of the
//! four SSH key algorithms (RSA, DSA, Ed25519, ECDSA), the resolution of each
//! key's wire tag, the projection from private to public keys, and the
//! zeroing of private key fields once their value is no longer needed.

pub mod error;
pub mod wire;
pub mod private_key;
pub mod public_key;
