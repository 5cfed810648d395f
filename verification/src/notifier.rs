//! The notifier port: best-effort announcement of newly persisted events.
//!
//! Delivery is fire-and-forget: nothing is promised about it, and the
//! engine treats every failure as non-fatal.

use vstd::prelude::*;

use crate::errors::NotifyError;

verus! {

pub trait Notifier: Sized {
    /// Announce that an event of kind `event_type_id` was durably appended
    /// to the stream of `sku`.
    fn notify_event(&self, sku: &str, event_type_id: &str) -> (r: Result<(), NotifyError>);
}

/// Declares crossbeam_channel::Sender so it can stand in a field: an
/// opaque handle, carried but never inspected here.
#[verifier::external_type_specification]
#[verifier::external_body]
#[verifier::reject_recursive_types(T)]
pub struct ExSender<T>(crossbeam_channel::Sender<T>);

/// Relies on crossbeam_channel::Sender::send: it hands the pair to the
/// channel, and fails exactly when every receiver has been dropped.
#[verifier::external_body]
fn send_pair(
    sender: &crossbeam_channel::Sender<(String, String)>,
    sku: String,
    event_type_id: String,
) -> (r: Result<(), NotifyError>) {
    match sender.send((sku, event_type_id)) {
        Ok(()) => Ok(()),
        Err(_) => Err(NotifyError::ChannelClosed),
    }
}

/// An in-process adapter: announcements go down a channel, for whatever
/// sits at the other end.
pub struct MemoryNotifier {
    pub sender: crossbeam_channel::Sender<(String, String)>,
}

impl Notifier for MemoryNotifier {
    fn notify_event(&self, sku: &str, event_type_id: &str) -> (r: Result<(), NotifyError>) {
        send_pair(&self.sender, sku.to_owned(), event_type_id.to_owned())
    }
}

/// A broker-backed adapter. Delivery over the broker is not wired up here;
/// every call reports that no connection exists.
pub struct RabbitMQNotifier {}

impl Notifier for RabbitMQNotifier {
    fn notify_event(&self, _sku: &str, _event_type_id: &str) -> (r: Result<(), NotifyError>) {
        Err(NotifyError::NotConnected)
    }
}

} // verus!
