//! Ephemeral event payloads.

pub mod typing;
