//! Typed parameter payloads for cryptographic mechanisms that are handed to a
//! foreign module interface expecting C-compatible parameter structures.

pub mod types;
pub mod aead;
pub mod ekdf;
pub mod vendor;
