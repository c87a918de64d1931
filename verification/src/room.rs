//! Room state event payloads.

pub mod avatar;
pub mod join_rules;
pub mod name;
pub mod raw;
