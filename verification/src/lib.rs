//! Validated event payloads for a federated chat protocol.
//!
//! Untrusted wire JSON is first parsed structurally into a raw envelope,
//! then normalized and validated into a strongly typed event whose content
//! is guaranteed to satisfy every invariant of its kind.

pub mod codec;
pub mod content;
pub mod envelope;
pub mod error;
pub mod event;
pub mod events;
pub mod identifiers;
pub mod json;
pub mod room;
pub mod unsigned;


