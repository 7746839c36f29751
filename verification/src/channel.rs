//! The channel that carries the result of a coroutine to its join handle:
//! the one-shot channel of the `futures` crate, for use on one thread.

use vstd::prelude::*;
use futures::unsync::oneshot::{Receiver, Sender};
use futures::Canceled;

verus! {

/// The sending end of the channel.
#[verifier::external_type_specification]
#[verifier::external_body]
#[verifier::reject_recursive_types(T)]
pub struct ExSender<T>(Sender<T>);

/// The receiving end of the channel.
#[verifier::external_type_specification]
#[verifier::external_body]
#[verifier::reject_recursive_types(T)]
pub struct ExReceiver<T>(Receiver<T>);

/// What the receiving end answers once the sending end is gone and nothing
/// was sent.
#[verifier::external_type_specification]
#[verifier::external_body]
pub struct ExCanceled(Canceled);

/// Calls `futures::unsync::oneshot::channel`, which makes a channel for one
/// value. The two ends are opaque here, so nothing is stated of them.
#[verifier::external_body]
pub(crate) fn channel<T>() -> (ends: (Sender<T>, Receiver<T>)) {
    futures::unsync::oneshot::channel()
}

/// Calls `futures::unsync::oneshot::Sender::send`. It stores `value` for the
/// receiving end if that end still exists; if not, it hands `value` back as
/// the error. Which of the two happens is not for this side to know, so the
/// contract speaks of the second case only.
#[verifier::external_body]
pub(crate) fn send<T>(sender: Sender<T>, value: T) -> (sent: Result<(), T>)
    ensures
        sent matches Err(returned) ==> returned == value,
{
    sender.send(value)
}

} // verus!
