//! Trusted boundary to the hand-off channel between the collection and
//! export stages, and the channel-based sleep both schedulers use.
use vstd::prelude::*;

use crate::message::Message;

verus! {

#[verifier::external_type_specification]
#[verifier::external_body]
#[verifier::reject_recursive_types(T)]
pub struct ExSender<T>(crossbeam_channel::Sender<T>);

#[verifier::external_type_specification]
#[verifier::external_body]
#[verifier::reject_recursive_types(T)]
pub struct ExReceiver<T>(crossbeam_channel::Receiver<T>);

/// Relies on crossbeam_channel::unbounded: an unbounded FIFO channel whose
/// receive end reports disconnection once every sender is gone.
#[verifier::external_body]
pub fn message_channel() -> (crossbeam_channel::Sender<Message>, crossbeam_channel::Receiver<
    Message,
>) {
    crossbeam_channel::unbounded()
}

/// Relies on crossbeam_channel::Sender::send: delivery fails only when the
/// receiver is gone, and the failure carries the message back unchanged.
#[verifier::external_body]
pub fn send_message(sender: &crossbeam_channel::Sender<Message>, message: Message) -> (r: Result<
    (),
    Message,
>)
    ensures
        r matches Err(m) ==> m == message,
{
    match sender.send(message) {
        Ok(()) => Ok(()),
        Err(e) => Err(e.0),
    }
}

/// Relies on crossbeam_channel::Receiver::recv: blocks until a message
/// arrives, or returns nothing once the channel is empty and every sender
/// is gone. Nothing is assumed about which message arrives.
#[verifier::external_body]
pub fn recv_message(receiver: &crossbeam_channel::Receiver<Message>) -> (r: Option<Message>) {
    match receiver.recv() {
        Ok(m) => Some(m),
        Err(_) => None,
    }
}

/// Relies on crossbeam_channel::after and Receiver::recv to block the
/// calling thread for about the given number of milliseconds.
#[verifier::external_body]
pub fn sleep_ms(ms: u64) {
    let _ = crossbeam_channel::after(core::time::Duration::from_millis(ms)).recv();
}

} // verus!
