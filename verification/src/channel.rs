//! The bounded buffer-availability channel between the GPU submission
//! thread and the bus's real-time processing thread.
//!
//! The submission thread queues a captured buffer's token for processing;
//! the real-time thread pulls at most one token per invocation.  The channel
//! is bounded so that unconsumed buffers exert backpressure: once it is
//! full, further tokens are rejected and the frame is dropped rather than
//! queued twice or without bound.

use vstd::prelude::*;

use crossbeam_channel::Receiver;
use crossbeam_channel::Sender;

verus! {

/// A bounded FIFO channel of buffer tokens.  Both endpoints are held
/// together, so the channel can never observe disconnection; cross-thread
/// use shares the one value behind the stream's own synchronization.
#[verifier::external_body]
pub struct ProcessChannel {
    sender: Sender<u64>,
    receiver: Receiver<u64>,
}

/// The tokens sitting in the channel, oldest first.
pub uninterp spec fn channel_contents(c: ProcessChannel) -> Seq<u64>;

/// The capacity the channel was created with.
pub uninterp spec fn channel_capacity(c: ProcessChannel) -> nat;

/// Relies on crossbeam_channel::bounded: creates an empty channel that can
/// hold at most `cap` messages.  The capacity bound keeps clear of the
/// documented panic on an over-large capacity.
#[verifier::external_body]
pub fn new_process_channel(cap: usize) -> (c: ProcessChannel)
    requires
        1 <= cap <= 65536,
    ensures
        channel_contents(c) == Seq::<u64>::empty(),
        channel_capacity(c) == cap,
{
    let (sender, receiver) = crossbeam_channel::bounded(cap);
    ProcessChannel { sender, receiver }
}

/// Relies on crossbeam_channel::Sender::try_send: appends at the tail and
/// succeeds exactly when the bounded channel has room; a full channel
/// rejects the message without blocking.  Disconnection cannot occur, as
/// the receiver lives in the same value.
#[verifier::external_body]
pub fn channel_try_send(c: &mut ProcessChannel, token: u64) -> (ok: bool)
    ensures
        channel_capacity(*final(c)) == channel_capacity(*old(c)),
        channel_contents(*old(c)).len() < channel_capacity(*old(c)) ==> ok
            && channel_contents(*final(c)) == channel_contents(*old(c)).push(token),
        channel_contents(*old(c)).len() >= channel_capacity(*old(c)) ==> !ok
            && *final(c) == *old(c),
{
    c.sender.try_send(token).is_ok()
}

/// Relies on crossbeam_channel::Receiver::try_recv: takes the oldest
/// message if there is one, without blocking; an empty channel yields
/// nothing.  Disconnection cannot occur, as the sender lives in the same
/// value.
#[verifier::external_body]
pub fn channel_try_recv(c: &mut ProcessChannel) -> (r: Option<u64>)
    ensures
        channel_capacity(*final(c)) == channel_capacity(*old(c)),
        channel_contents(*old(c)).len() > 0 ==> r == Some(
            channel_contents(*old(c))[0],
        ) && channel_contents(*final(c)) == channel_contents(*old(c)).drop_first(),
        channel_contents(*old(c)).len() == 0 ==> r is None && *final(c) == *old(c),
{
    c.receiver.try_recv().ok()
}

/// Discards every token sitting in the channel, as the pause path does
/// before the stream resumes.
pub fn drain_channel(c: &mut ProcessChannel)
    ensures
        channel_capacity(*final(c)) == channel_capacity(*old(c)),
        channel_contents(*final(c)).len() == 0,
{
    loop
        invariant
            channel_capacity(*c) == channel_capacity(*old(c)),
        ensures
            channel_capacity(*c) == channel_capacity(*old(c)),
            channel_contents(*c).len() == 0,
        decreases channel_contents(*c).len(),
    {
        match channel_try_recv(c) {
            Some(_discarded) => {},
            None => {
                break;
            },
        }
    }
}

} // verus!
