//! Graceful shutdown: one broadcaster that every part of the service can subscribe to.

use tokio::sync::broadcast::error::SendError;
use tokio::sync::broadcast::Receiver;
use tokio::sync::broadcast::Sender;
use vstd::prelude::*;

verus! {

#[verifier::external_type_specification]
#[verifier::external_body]
#[verifier::reject_recursive_types(T)]
pub struct ExBroadcastSender<T>(tokio::sync::broadcast::Sender<T>);

#[verifier::external_type_specification]
#[verifier::external_body]
#[verifier::reject_recursive_types(T)]
pub struct ExBroadcastReceiver<T>(tokio::sync::broadcast::Receiver<T>);

#[verifier::external_type_specification]
#[verifier::external_body]
#[verifier::reject_recursive_types(T)]
pub struct ExBroadcastSendError<T>(tokio::sync::broadcast::error::SendError<T>);

/// `tokio::sync::broadcast::channel` makes a channel that keeps up to `capacity` values; it
/// panics when `capacity` is 0 or above `usize::MAX / 2`, which `requires` leaves out. The
/// channel's state is not modelled: nothing is promised of the two ends.
pub assume_specification<T: Clone>[ tokio::sync::broadcast::channel::<T> ](capacity: usize) -> (Sender<T>, Receiver<T>)
    requires
        0 < capacity <= usize::MAX / 2,
;

/// `Sender::subscribe` makes a receiver of the values sent after the call. Its source panics
/// only when `usize::MAX / 4` receivers of the channel are alive at once, a counter limit of
/// the same kind as a reference count's, which `requires` cannot express since the receiver
/// count is not modelled; nothing is promised of the receiver.
pub assume_specification<T>[ Sender::<T>::subscribe ](sender: &Sender<T>) -> Receiver<T>;

/// `Sender::send` hands the value to every receiver alive; its source answers `Ok` with the
/// number of those receivers, which is then at least one, and `Err` when there are none.
pub assume_specification<T>[ Sender::<T>::send ](sender: &Sender<T>, value: T) -> (sent: Result<usize, SendError<T>>)
    ensures
        sent matches Ok(receivers) ==> receivers >= 1,
;

/// `Sender::clone` gives another handle to the same channel; the channel is not modelled, so
/// nothing is promised of the handle.
pub assume_specification<T>[ <Sender<T> as Clone>::clone ](sender: &Sender<T>) -> Sender<T>;

/// The value broadcast when the service is to stop.
#[derive(Clone, Debug)]
pub struct ShutdownSignal;

/// Number of shutdown signals the channel keeps for a receiver that has not read them yet.
pub const SIGNAL_CAPACITY: usize = 1;

/// Coordinates graceful shutdown: whoever subscribed hears when shutdown is triggered.
/// Clones share the same channel.
///
/// No contract here describes the channel: its state is inside tokio and shared by every
/// clone and receiver, so that a subscriber hears a later shutdown is checked by the tests
/// only. Triggering shutdown is not logged here; the application logs it.
#[derive(Clone)]
pub struct GracefulShutdown {
    tx: Sender<ShutdownSignal>,
}

impl GracefulShutdown {
    /// A coordinator with a fresh channel that keeps one signal per receiver.
    pub fn new() -> Self {
        let (tx, _rx) = tokio::sync::broadcast::channel(SIGNAL_CAPACITY);
        GracefulShutdown { tx }
    }

    /// A receiver of the shutdown signals triggered after this call.
    pub fn subscribe(&self) -> Receiver<ShutdownSignal> {
        self.tx.subscribe()
    }

    /// Broadcasts the shutdown signal to every receiver alive; with none alive, nothing
    /// happens.
    pub fn shutdown(&self) {
        let _sent = self.tx.send(ShutdownSignal);
    }
}

impl Default for GracefulShutdown {
    fn default() -> Self {
        Self::new()
    }
}

} // verus!
