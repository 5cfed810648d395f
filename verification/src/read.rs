//! The read side: raw event history, fully described, for one key.

pub mod engine;
pub mod storage;
