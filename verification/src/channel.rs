//! Trusted surface of the event channels. Tenant subscriptions are flume
//! channels: the manager holds the sender of each subscription and the
//! application holds the receiver. The channel types are opaque here; what
//! the verified core guarantees is which tenants hold a subscription and
//! which subscription each event or terminal marker is sent on, never what a
//! particular channel does with a message — an unbounded send succeeds unless
//! every receiver is gone, which no contract here relies on.

use vstd::prelude::*;

verus! {

/// Sending end of a flume channel, opaque to verification.
#[verifier::external_type_specification]
#[verifier::external_body]
#[verifier::reject_recursive_types(T)]
pub struct ExSender<T>(flume::Sender<T>);

/// Receiving end of a flume channel, opaque to verification.
#[verifier::external_type_specification]
#[verifier::external_body]
#[verifier::reject_recursive_types(T)]
pub struct ExReceiver<T>(flume::Receiver<T>);

/// Error returned by a failed send, carrying the unsent message.
#[verifier::external_type_specification]
#[verifier::external_body]
#[verifier::reject_recursive_types(T)]
pub struct ExSendError<T>(flume::SendError<T>);

/// Relies on flume::unbounded: returns the two ends of a fresh unbounded
/// channel. Nothing further is assumed of the pair.
pub assume_specification<T>[ flume::unbounded::<T> ]() -> (r: (
    flume::Sender<T>,
    flume::Receiver<T>,
));

/// Relies on flume::Sender::send: on an unbounded channel the message is
/// queued without blocking, and an error is returned exactly when every
/// receiver has been dropped. Whether a send succeeds depends on the
/// receiver's liveness, which is outside this crate, so nothing is assumed
/// of the result.
pub assume_specification<T>[ flume::Sender::<T>::send ](s: &flume::Sender<T>, msg: T) -> (r:
    Result<(), flume::SendError<T>>);

} // verus!
