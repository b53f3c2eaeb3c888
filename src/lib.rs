//! Room registry of a small multi-user service: an in-memory keyed
//! collection of rooms, its byte form, and the computing step of the
//! lock-guarded store that persists it.
pub mod codec;
pub mod config;
pub mod room;
pub mod store;
