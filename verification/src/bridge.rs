//! The cross-thread message bridge.
//!
//! A stream operation can be requested from any thread as a typed command;
//! the bus's event-loop thread executes it against the live stream object
//! and answers through a rendezvous, so the call site sees ordinary
//! call/return semantics.  The bridge holds only a non-owning reference to
//! the stream — modelled here as the optional target — so a message that
//! arrives after the stream is gone fails silently as a disconnected
//! condition rather than reviving state.

use vstd::prelude::*;

use crate::pool::{BufferHandle, BufferUserHandle};
use crate::stream_core::{
    dequeue_post, queue_post, terminate_post, QueueError, StreamCore,
};

verus! {

/// A command for the stream, constructed on any thread.
#[derive(Clone, Copy, Debug)]
pub enum StreamMessage {
    Terminate,
    DequeueBuffer,
    QueueBufferProcess(BufferHandle),
}

/// What came back over the rendezvous.
#[derive(Clone, Copy, Debug)]
pub enum StreamReply {
    Terminated(Result<(), ()>),
    Dequeued(Option<(BufferHandle, BufferUserHandle)>),
    Queued(Result<(), QueueError>),
    /// The stream was torn down before the message arrived; the command
    /// did nothing.
    Disconnected,
}

/// What dispatching owes: against a gone stream every command is a silent
/// no-op; against a live one each command behaves exactly as the
/// corresponding stream operation states.
pub open spec fn dispatch_post(
    pre: Option<StreamCore>,
    post: Option<StreamCore>,
    msg: StreamMessage,
    reply: StreamReply,
) -> bool {
    match pre {
        None => {
            &&& post is None
            &&& reply == StreamReply::Disconnected
        },
        Some(s0) => {
            &&& post matches Some(s1) && match msg {
                StreamMessage::Terminate => reply matches StreamReply::Terminated(r) && r is Ok
                    && terminate_post(s0, s1),
                StreamMessage::DequeueBuffer => reply matches StreamReply::Dequeued(r)
                    && dequeue_post(s0, s1, r),
                StreamMessage::QueueBufferProcess(b) => reply matches StreamReply::Queued(r)
                    && queue_post(s0, s1, b, r),
            }
        },
    }
}

/// Executes one command against the stream behind the bridge's non-owning
/// reference, as [`dispatch_post`] states.
pub fn dispatch(target: &mut Option<StreamCore>, msg: StreamMessage) -> (reply: StreamReply)
    requires
        (*old(target)) matches Some(s) ==> s.wf(),
    ensures
        (*final(target)) matches Some(s) ==> s.wf(),
        dispatch_post(*old(target), *final(target), msg, reply),
{
    match target {
        None => StreamReply::Disconnected,
        Some(core) => match msg {
            StreamMessage::Terminate => StreamReply::Terminated(core.terminate()),
            StreamMessage::DequeueBuffer => StreamReply::Dequeued(core.dequeue_buffer()),
            StreamMessage::QueueBufferProcess(buffer) => StreamReply::Queued(
                core.queue_buffer_process(buffer),
            ),
        },
    }
}

} // verus!
