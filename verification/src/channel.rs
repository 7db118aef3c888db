//! The two kinds of channel between the tick thread and the backend tasks.
//!
//! Nothing in this file is proved: each item states what the library takes
//! for granted about a channel function. What is in a channel at a given
//! moment depends on the other threads, so no contract here speaks of it.

use vstd::prelude::*;

verus! {

/// `async_channel::Sender`, the sending end of an outbound channel. Its
/// inside is not looked at.
#[verifier::external_type_specification]
#[verifier::external_body]
#[verifier::reject_recursive_types(T)]
pub struct ExOutboundSender<T>(async_channel::Sender<T>);

/// `async_channel::Receiver`, the receiving end of an outbound channel. Its
/// inside is not looked at.
#[verifier::external_type_specification]
#[verifier::external_body]
#[verifier::reject_recursive_types(T)]
pub struct ExOutboundReceiver<T>(async_channel::Receiver<T>);

/// `std::sync::mpsc::Sender`, a producer of the action queue. Its inside is
/// not looked at.
#[verifier::external_type_specification]
#[verifier::external_body]
#[verifier::reject_recursive_types(T)]
pub struct ExInboundSender<T>(std::sync::mpsc::Sender<T>);

/// `std::sync::mpsc::Receiver`, the consumer of the action queue. Its
/// inside is not looked at.
#[verifier::external_type_specification]
#[verifier::external_body]
#[verifier::reject_recursive_types(T)]
pub struct ExInboundReceiver<T>(std::sync::mpsc::Receiver<T>);

/// `async_channel::unbounded`: a fresh channel without a capacity limit.
/// Nothing is claimed of the two ends.
pub assume_specification<T>[ async_channel::unbounded::<T> ]() -> (ends: (
    async_channel::Sender<T>,
    async_channel::Receiver<T>,
));

/// `std::sync::mpsc::channel`: a fresh queue with one consumer. Nothing is
/// claimed of the two ends.
pub assume_specification<T>[ std::sync::mpsc::channel::<T> ]() -> (ends: (
    std::sync::mpsc::Sender<T>,
    std::sync::mpsc::Receiver<T>,
));

/// `async_channel::Sender::send_blocking`: hands `data` to the channel. The
/// call fails when the receiving end is gone; the outcome is discarded, so
/// nothing is claimed.
#[verifier::external_body]
pub(crate) fn send_outbound(sender: &async_channel::Sender<Vec<u8>>, data: Vec<u8>) {
    let _ = sender.send_blocking(data);
}

/// `Clone::clone` of `std::sync::mpsc::Sender`: one more producer for the
/// same queue. Nothing is claimed of it.
#[verifier::external_body]
pub(crate) fn clone_inbound<T>(sender: &std::sync::mpsc::Sender<T>) -> (copy: std::sync::mpsc::Sender<T>) {
    sender.clone()
}

/// `std::sync::mpsc::Receiver::try_recv`: the oldest queued value, if one is
/// queued now. Whether one is depends on the producers, so nothing is
/// claimed of the result.
#[verifier::external_body]
pub(crate) fn try_recv_inbound<T>(receiver: &std::sync::mpsc::Receiver<T>) -> (next: Option<T>) {
    receiver.try_recv().ok()
}

} // verus!
