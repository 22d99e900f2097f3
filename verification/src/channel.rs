//! The trusted boundary around the shared task queue.
//!
//! The queue is an unbounded multi-producer multi-consumer channel of an
//! outside crate.  It is shared between threads, so no sequential function of
//! a handle's value can describe its contents; each wrapper below therefore
//! states only what holds of every outcome of its call, and the order and
//! exactly-once guarantees of the pool are stated over ghost state in
//! `crate::model`.

use vstd::prelude::*;

verus! {

#[verifier::external_type_specification]
#[verifier::external_body]
#[verifier::reject_recursive_types(T)]
pub struct ExSender<T>(crossbeam_channel::Sender<T>);

#[verifier::external_type_specification]
#[verifier::external_body]
#[verifier::reject_recursive_types(T)]
pub struct ExReceiver<T>(crossbeam_channel::Receiver<T>);

/// Relies on `crossbeam_channel::unbounded`: returns the two ends of one new
/// channel of unlimited capacity, connected to each other and to nothing else.
#[verifier::external_body]
pub(crate) fn new_channel<T>() -> (crossbeam_channel::Sender<T>, crossbeam_channel::Receiver<T>) {
    crossbeam_channel::unbounded()
}

/// Relies on `crossbeam_channel::Receiver::clone`: the clone is one more
/// consumer handle on the same channel.  The ensures equates the clone with
/// its original: a modeling claim, sound because no contract of this library
/// distinguishes two receiver values, and it is what lets a caller state
/// that every worker was given a handle of one and the same queue.
#[verifier::external_body]
pub(crate) fn clone_receiver<T>(
    receiver: &crossbeam_channel::Receiver<T>,
) -> (r: crossbeam_channel::Receiver<T>)
    ensures
        r == *receiver,
{
    receiver.clone()
}

/// Relies on `crossbeam_channel::Sender::send`: on an unbounded channel it
/// never blocks; it appends the message to the tail of the queue and returns
/// `Ok`, unless every consumer handle has been dropped, in which case it
/// hands the message back unchanged inside the error.
#[verifier::external_body]
pub(crate) fn send_item<T>(sender: &crossbeam_channel::Sender<T>, item: T) -> (r: Result<(), T>)
    ensures
        r is Err ==> r->Err_0 == item,
{
    match sender.send(item) {
        Ok(()) => Ok(()),
        Err(e) => Err(e.0),
    }
}

/// Relies on `crossbeam_channel::Receiver::recv`: blocks until a message is
/// available, returning the head of the queue, or until the channel is both
/// disconnected (every producer handle dropped) and empty, returning an
/// error; so `None` here means the queue was closed and fully drained.
#[verifier::external_body]
pub(crate) fn recv_item<T>(receiver: &crossbeam_channel::Receiver<T>) -> Option<T> {
    receiver.recv().ok()
}

/// Relies on `crossbeam_channel::Sender`'s `Drop`: dropping the last producer
/// handle disconnects the channel, after which every receive on a drained
/// queue reports closure instead of blocking.
#[verifier::external_body]
pub(crate) fn close_sender<T>(sender: crossbeam_channel::Sender<T>) {
    drop(sender);
}

} // verus!
