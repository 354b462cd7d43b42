//! Passphrase-based file encryption: a scrypt-derived key seals the contents
//! with XSalsa20-Poly1305, the sealed box travels in a fixed binary envelope,
//! and the envelope is armored as URL-safe text with a version marker.

pub mod envelope;
pub mod error;
pub mod file_codec;
pub mod passphrase;
pub mod primitives;
pub mod secret;
pub mod secretcrypt;
pub mod varmor;
