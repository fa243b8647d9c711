use vstd::prelude::*;
use tokio::sync::broadcast::{Receiver, Sender};
use tokio::time::Instant;
use crate::models::WsMessage;

verus! {

/// `tokio::sync::broadcast::Sender`, the publishing end of a fan-out
/// channel: carried around, never looked into.
#[verifier::external_type_specification]
#[verifier::external_body]
#[verifier::reject_recursive_types(T)]
pub struct ExSender<T>(Sender<T>);

/// `tokio::sync::broadcast::Receiver`, one subscription to a fan-out
/// channel: carried around, never looked into.
#[verifier::external_type_specification]
#[verifier::external_body]
#[verifier::reject_recursive_types(T)]
pub struct ExReceiver<T>(Receiver<T>);

/// `tokio::time::Instant`, a point in time: carried around, never looked
/// into.
#[verifier::external_type_specification]
#[verifier::external_body]
pub struct ExInstant(Instant);

/// `Clone` of a broadcast `Sender` hands out one more handle on the same
/// channel. Nothing is claimed of it.
pub assume_specification<T>[ <Sender<T> as Clone>::clone ](tx: &Sender<T>) -> (copy: Sender<T>);

/// How many messages a fan-out channel holds for a reader that lags
/// behind, before the oldest is dropped for that reader.
pub const CHANNEL_CAPACITY: usize = 100;

/// Calls `tokio::sync::broadcast::channel`, which makes a channel and its
/// first receiver. It panics on a capacity of zero or above
/// `usize::MAX / 2`, which `requires` leaves out. Nothing is claimed of
/// the two ends.
#[verifier::external_body]
pub(crate) fn open_channel(capacity: usize) -> (ends: (Sender<WsMessage>, Receiver<WsMessage>))
    requires
        0 < capacity <= usize::MAX / 2,
{
    tokio::sync::broadcast::channel(capacity)
}

/// Calls `Sender::send` and says whether it returned `Ok`. The send fails
/// when the channel has no receiver at that moment, which depends on what
/// other tasks have done: nothing is claimed of the result.
#[verifier::external_body]
pub(crate) fn publish(tx: &Sender<WsMessage>, message: WsMessage) -> (delivered: bool) {
    tx.send(message).is_ok()
}

/// Calls `tokio::time::Instant::now`. Nothing is claimed of the time.
#[verifier::external_body]
pub(crate) fn now() -> (instant: Instant) {
    Instant::now()
}

/// Calls `uuid::Uuid::new_v4` and hands the random identifier out as the
/// number that `Uuid::as_u128` gives. Nothing is claimed of it.
#[verifier::external_body]
pub(crate) fn fresh_id() -> (id: u128) {
    uuid::Uuid::new_v4().as_u128()
}

} // verus!
