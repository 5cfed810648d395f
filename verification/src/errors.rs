//! The error taxonomy of the core.

use vstd::prelude::*;

verus! {

/// A business-rule rejection. No side effect has occurred when one is
/// returned: the command was checked against the replayed state before
/// anything was written.
#[derive(Debug, Clone, Copy, PartialEq, Eq, Structural)]
pub enum ValidationError {
    /// A removal asked for more stock than the stream currently holds.
    InsufficientStock { requested: i32, available: i32 },
    /// An addition would push the quantity past what the counter can hold.
    QuantityOverflow { requested: i32, available: i32 },
}

/// A failure of the event store port: reading or writing the log did not
/// succeed. Already-appended events are not rolled back.
#[derive(Debug, Clone, PartialEq, Eq)]
pub enum StoreError {
    /// The stream is full: no further sequence number can be assigned.
    CapacityExceeded,
    /// The log holds an event tag the current code does not recognize.
    UnknownEventKind(String),
    /// The backing store itself failed (connectivity, I/O).
    Backend(String),
}

/// A failure of the notifier port. Always non-fatal to the caller.
#[derive(Debug, Clone, Copy, PartialEq, Eq, Structural)]
pub enum NotifyError {
    /// The in-process channel has no receiver any more.
    ChannelClosed,
    /// The adapter has no live connection to its broker.
    NotConnected,
}

/// What `Engine::execute` can return: a validation rejection (atomic, no
/// side effect) or a store failure.
#[derive(Debug, Clone, PartialEq, Eq)]
pub enum EngineError {
    Validation(ValidationError),
    Store(StoreError),
}

} // verus!
