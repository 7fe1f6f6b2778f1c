//! A small keyed-state engine: greeting and counter operations behind an
//! administrator-controlled configuration gate. All mutable state lives in a
//! two-tier keyed store with time-to-live renewal; every mutating operation
//! runs an ordered validation pipeline before its first write.

pub mod engine;
pub mod errors;
pub mod guard;
pub mod laws;
pub mod pipeline;
pub mod store;
