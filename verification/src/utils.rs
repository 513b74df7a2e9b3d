//! Helpers for synchronisation built above the storage layer.
pub mod atomic_wait;
