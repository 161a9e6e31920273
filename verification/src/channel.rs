//! A single-owner view of a standard `std::sync::mpsc` channel: both
//! ends are held together in private fields, so every send and every
//! receive goes through a `&mut` borrow of the pair and the queue
//! between them can be named.

use vstd::prelude::*;

verus! {

#[verifier::external_type_specification]
#[verifier::external_body]
#[verifier::reject_recursive_types(T)]
pub struct ExSender<T>(std::sync::mpsc::Sender<T>);

#[verifier::external_type_specification]
#[verifier::external_body]
#[verifier::reject_recursive_types(T)]
pub struct ExReceiver<T>(std::sync::mpsc::Receiver<T>);

/// The values that have been sent on the channel of `receiver` and not
/// yet received, oldest first.
pub uninterp spec fn pending(receiver: std::sync::mpsc::Receiver<u32>) -> Seq<u32>;

/// Both ends of one channel of `u32` values. The fields are private to
/// this module, where only `open_channel` builds a `Channel` and nothing
/// reads, moves or replaces a field but the calls in `channel_send` and
/// `channel_recv`: the sender and the receiver always belong to the same
/// channel, and each end stays alive as long as the other.
struct Channel {
    sender: std::sync::mpsc::Sender<u32>,
    receiver: std::sync::mpsc::Receiver<u32>,
}

/// `std::sync::mpsc::channel`: creates a new asynchronous channel and
/// returns its two ends. The contract claims that a new channel holds
/// nothing.
#[verifier::external_body]
fn open_channel() -> (channel: Channel)
    ensures
        pending(channel.receiver) == Seq::<u32>::empty(),
{
    let (sender, receiver) = std::sync::mpsc::channel::<u32>();
    Channel { sender, receiver }
}

/// `std::sync::mpsc::Sender::send`: queues `value` without blocking.
/// Its documentation says that a send fails only when the receiving end
/// has been dropped, handing the value back, and that values become
/// available on the receiver in the order they were sent. The receiver
/// of the same channel is held in the same `Channel`, so the contract
/// claims success and that `value` joins the back of the queue.
#[verifier::external_body]
fn channel_send(channel: &mut Channel, value: u32) -> (sent: Result<(), u32>)
    ensures
        sent is Ok,
        pending(final(channel).receiver) == pending(old(channel).receiver).push(value),
{
    match channel.sender.send(value) {
        Ok(()) => Ok(()),
        Err(error) => Err(error.0),
    }
}

/// `std::sync::mpsc::Receiver::recv`: takes the oldest queued value.
/// Its documentation says that it blocks while nothing is queued and a
/// sender still exists, and fails only when nothing is queued and every
/// sender is gone; so the call is only made with something queued, and
/// the contract claims that the oldest value comes out and leaves the
/// queue.
#[verifier::external_body]
fn channel_recv(channel: &mut Channel) -> (received: Result<u32, ()>)
    requires
        pending(old(channel).receiver).len() > 0,
    ensures
        received == Ok::<u32, ()>(pending(old(channel).receiver)[0]),
        pending(final(channel).receiver) == pending(old(channel).receiver).drop_first(),
{
    match channel.receiver.recv() {
        Ok(value) => Ok(value),
        Err(_) => Err(()),
    }
}

/// Opens a fresh channel, sends `value` on it and receives once.
/// What comes back is `value`, bit for bit: a receive undoes a send.
pub fn channel_round_trip(value: u32) -> (received: u32)
    ensures
        received == value,
{
    let mut channel = open_channel();
    channel_send(&mut channel, value).unwrap();
    channel_recv(&mut channel).unwrap()
}

} // verus!
