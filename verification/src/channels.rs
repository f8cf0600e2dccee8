//! The channel handles that carry values between tasks, and the calls that
//! the library makes on them. What a call does to the channel is not proved
//! here: each function says what it assumes.

use vstd::prelude::*;

verus! {

/// `tokio::sync::broadcast::Sender`, the sending handle of a fan-out channel.
/// A handle is carried about as it is: nothing of the channel behind it is
/// known here.
#[verifier::external_type_specification]
#[verifier::external_body]
#[verifier::reject_recursive_types(T)]
pub struct ExBroadcastSender<T>(tokio::sync::broadcast::Sender<T>);

/// `tokio::sync::broadcast::Receiver`, one subscription to a fan-out
/// channel.
#[verifier::external_type_specification]
#[verifier::external_body]
#[verifier::reject_recursive_types(T)]
pub struct ExBroadcastReceiver<T>(tokio::sync::broadcast::Receiver<T>);

/// `tokio::sync::mpsc::Sender`, a sending handle of a bounded queue with a
/// single reader.
#[verifier::external_type_specification]
#[verifier::external_body]
#[verifier::reject_recursive_types(T)]
pub struct ExQueueSender<T>(tokio::sync::mpsc::Sender<T>);

/// `tokio::sync::mpsc::Receiver`, the reading end of a bounded queue.
#[verifier::external_type_specification]
#[verifier::external_body]
#[verifier::reject_recursive_types(T)]
pub struct ExQueueReceiver<T>(tokio::sync::mpsc::Receiver<T>);

/// `tokio::sync::mpsc::UnboundedSender`, a sending handle of a queue without
/// a bound.
#[verifier::external_type_specification]
#[verifier::external_body]
#[verifier::reject_recursive_types(T)]
pub struct ExUnboundedSender<T>(tokio::sync::mpsc::UnboundedSender<T>);

/// `tokio::sync::mpsc::UnboundedReceiver`, the reading end of a queue
/// without a bound.
#[verifier::external_type_specification]
#[verifier::external_body]
#[verifier::reject_recursive_types(T)]
pub struct ExUnboundedReceiver<T>(tokio::sync::mpsc::UnboundedReceiver<T>);

/// `tokio::sync::oneshot::Sender`, the slot for a single value.
#[verifier::external_type_specification]
#[verifier::external_body]
#[verifier::reject_recursive_types(T)]
pub struct ExOneshotSender<T>(tokio::sync::oneshot::Sender<T>);

/// What became of a reply that was handed to a registry.
#[derive(Clone, Copy, Debug, PartialEq, Eq, Structural)]
pub enum Delivery {
    /// A pending entry matched and its channel took the reply.
    Delivered,
    /// A pending entry matched, but nobody listens on its channel any more.
    Abandoned,
    /// No pending entry matched: the reply was dropped.
    Unmatched,
}

/// The outcome of handing a reply to the channel of a matching entry.
pub fn delivery_of(accepted: bool) -> (delivery: Delivery)
    ensures
        delivery == (if accepted {
            Delivery::Delivered
        } else {
            Delivery::Abandoned
        }),
{
    if accepted {
        Delivery::Delivered
    } else {
        Delivery::Abandoned
    }
}

/// Calls `tokio::sync::mpsc::UnboundedSender::send` and tells whether the
/// channel took the value. That depends on whether the receiving half still
/// lives, so nothing is claimed of the result.
#[verifier::external_body]
pub(crate) fn send_unbounded<T>(tx: &tokio::sync::mpsc::UnboundedSender<T>, value: T) -> (accepted:
    bool) {
    tx.send(value).is_ok()
}

/// Calls `tokio::sync::oneshot::Sender::send`, which uses the sender up, and
/// tells whether the receiving half was still there to take the value.
/// Nothing is claimed of the result.
#[verifier::external_body]
pub(crate) fn send_oneshot<T>(tx: tokio::sync::oneshot::Sender<T>, value: T) -> (accepted: bool) {
    tx.send(value).is_ok()
}

/// Calls `tokio::sync::mpsc::unbounded_channel`, which makes a queue without
/// a bound and returns its two halves.
#[verifier::external_body]
pub(crate) fn unbounded_channel<T>() -> (halves: (
    tokio::sync::mpsc::UnboundedSender<T>,
    tokio::sync::mpsc::UnboundedReceiver<T>,
)) {
    tokio::sync::mpsc::unbounded_channel()
}

/// Calls `clone` on a `tokio::sync::mpsc::UnboundedSender`: the result is one
/// more handle on the same queue. Handles are opaque here, so nothing is
/// claimed of it.
#[verifier::external_body]
pub(crate) fn clone_unbounded<T>(tx: &tokio::sync::mpsc::UnboundedSender<T>) -> (handle:
    tokio::sync::mpsc::UnboundedSender<T>) {
    tx.clone()
}

} // verus!
