//! The bounded queues between the stages.

use vstd::prelude::*;

verus! {

#[verifier::external_type_specification]
#[verifier::external_body]
#[verifier::reject_recursive_types(T)]
pub struct ExSender<T>(tokio::sync::mpsc::Sender<T>);

#[verifier::external_type_specification]
#[verifier::external_body]
#[verifier::reject_recursive_types(T)]
pub struct ExReceiver<T>(tokio::sync::mpsc::Receiver<T>);

/// Relies on tokio's `Sender::try_send`: it enqueues without waiting, and
/// fails at once when the queue is full or its receiver is gone. Which of the
/// two happens depends on the other task, so nothing is stated of it.
#[verifier::external_body]
pub(crate) fn try_send<T>(tx: &tokio::sync::mpsc::Sender<T>, message: T) -> (sent: bool) {
    tx.try_send(message).is_ok()
}

} // verus!
