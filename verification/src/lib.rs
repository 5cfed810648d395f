//! An event-sourced inventory core.
//!
//! State is never stored directly: every change is validated into an event,
//! appended to a per-key stream, and current state is reconstructed by
//! replaying that stream from empty. The engine orchestrates replay,
//! validation, persistence and notification over two ports (an event store
//! and a notifier).

pub mod aggregate;
pub mod commands;
pub mod decode;
pub mod engine;
pub mod entity;
pub mod errors;
pub mod event_storage;
pub mod events;
pub mod inmemory_storage;
pub mod notifier;
pub mod read;
