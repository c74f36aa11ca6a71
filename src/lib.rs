//! Core of a local encrypted credential store: key derivation, the sealed
//! vault file format, the lock/unlock session state and the unlock rate
//! limiter.

pub mod extension;
pub mod models;
pub mod primitives;
pub mod state;
pub mod text;
pub mod vault;
