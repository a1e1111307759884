//! The channel primitives the cross-thread bridge stands on.
//!
//! Channels connect the loop thread and the application thread; what sits
//! in a channel at any moment depends on the other thread, so nothing is
//! promised here of which value comes out — the bridge's logic is written
//! to hold for every outcome. Delivery order within one channel is the
//! FIFO order the channel library documents.

use vstd::prelude::*;

verus! {

#[verifier::external_type_specification]
#[verifier::external_body]
#[verifier::reject_recursive_types(T)]
pub struct ExSender<T>(crossbeam_channel::Sender<T>);

#[verifier::external_type_specification]
#[verifier::external_body]
#[verifier::reject_recursive_types(T)]
pub struct ExReceiver<T>(crossbeam_channel::Receiver<T>);

/// Relies on `crossbeam_channel::unbounded`: a connected channel pair of
/// unbounded capacity.
#[verifier::external_body]
pub fn channel<T>() -> (crossbeam_channel::Sender<T>, crossbeam_channel::Receiver<T>) {
    crossbeam_channel::unbounded()
}

/// Relies on `Sender::send`: the message is queued unless every receiver
/// is gone, in which case the same message comes back.
#[verifier::external_body]
pub fn channel_send<T>(sender: &crossbeam_channel::Sender<T>, message: T) -> (r: Result<(), T>)
    ensures
        r matches Err(m) ==> m == message,
{
    match sender.send(message) {
        Ok(()) => Ok(()),
        Err(e) => Err(e.0),
    }
}

/// Relies on `Sender::clone`: another sending handle to the same channel.
#[verifier::external_body]
pub fn channel_sender_clone<T>(sender: &crossbeam_channel::Sender<T>) -> crossbeam_channel::Sender<
    T,
> {
    sender.clone()
}

/// Relies on `Receiver::recv`: blocks until a message arrives, or reports
/// nothing when the channel is empty and every sender is gone.
#[verifier::external_body]
pub fn channel_recv<T>(receiver: &crossbeam_channel::Receiver<T>) -> (r: Option<T>) {
    receiver.recv().ok()
}

/// Relies on `Receiver::try_iter`: every message currently available, in
/// arrival order, without ever blocking — an empty channel yields an empty
/// vector immediately.
#[verifier::external_body]
pub fn channel_drain<T>(receiver: &crossbeam_channel::Receiver<T>) -> (r: Vec<T>) {
    receiver.try_iter().collect()
}

} // verus!
