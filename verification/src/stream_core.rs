//! The stream connection: one per swapchain.
//!
//! Owns the advertised catalog, the buffer slots of the current pool
//! generation, the queue of buffers the bus can hand out for capture, and
//! the bounded processing channel.  The bus drives it through callbacks;
//! the capture scheduler drives it through the [`StreamMethods`]
//! operations.  A ghost log of pool events ties the add/remove/process
//! lifecycle to the conservation laws stated in [`crate::laws`].

use vstd::prelude::*;

use crate::backend::StreamInfo;
use crate::channel::{
    channel_capacity, channel_contents, channel_try_send, drain_channel, new_process_channel,
    ProcessChannel,
};
use crate::format::{EnumFormatInfo, FixateFormat};
use crate::negotiate::{catalog_view, catalog_wf};
use crate::params::{build_format, objects_view, spec_format_object, PodObject, PodObjectView};
use crate::pool::{BufferHandle, BufferSlot, BufferSlotView, BufferUserHandle};
use crate::MAX_BUFFERS;
use crate::MAX_PROCESS_BUFFERS;

verus! {

/// The bus-visible state of the stream.
#[derive(Clone, Copy, Debug, PartialEq, Eq, Structural)]
pub enum StreamState {
    Unconnected,
    Connecting,
    Paused,
    Streaming,
    Error,
}

/// Queueing a captured buffer for processing failed.
#[derive(Clone, Copy, Debug, PartialEq, Eq, Structural)]
pub enum QueueError {
    /// The processing channel already holds its full backpressure window;
    /// the frame is dropped rather than queued without bound.
    ChannelFull,
}

/// One event of the pool lifecycle, as recorded in the ghost log.
pub enum PoolEvent {
    /// The backend exported a buffer under this handle.
    Added(BufferUserHandle),
    /// The export behind this handle was released.
    Removed(BufferUserHandle),
    /// The buffer behind this handle was delivered to the backend's
    /// process operation.
    Processed(BufferUserHandle),
}

/// The handles whose exports are alive after the events: added and not yet
/// removed since.
pub open spec fn live_handles(events: Seq<PoolEvent>) -> Set<BufferUserHandle>
    decreases events.len(),
{
    if events.len() == 0 {
        Set::empty()
    } else {
        let prev = live_handles(events.drop_last());
        match events.last() {
            PoolEvent::Added(h) => prev.insert(h),
            PoolEvent::Removed(h) => prev.remove(h),
            PoolEvent::Processed(_) => prev,
        }
    }
}

/// Every delivery the log records was of a handle whose export was alive
/// at that moment.
pub open spec fn log_wf(events: Seq<PoolEvent>) -> bool {
    forall|i: int|
        0 <= i < events.len() ==> ((#[trigger] events[i]) matches PoolEvent::Processed(h)
            ==> live_handles(events.take(i)).contains(h))
}

/// Appending an event keeps the log sound, provided a delivery is only
/// recorded for a handle that is alive now.
pub proof fn lemma_log_wf_push(events: Seq<PoolEvent>, e: PoolEvent)
    requires
        log_wf(events),
        e matches PoolEvent::Processed(h) ==> live_handles(events).contains(h),
    ensures
        log_wf(events.push(e)),
{
    let pushed = events.push(e);
    assert forall|i: int| 0 <= i < pushed.len() implies ((#[trigger] pushed[i])
        matches PoolEvent::Processed(h) ==> live_handles(pushed.take(i)).contains(h)) by {
        if i < events.len() {
            assert(pushed.take(i) =~= events.take(i));
            assert(pushed[i] == events[i]);
        } else {
            assert(pushed.take(i) =~= events);
        }
    }
}

/// Spec-level view of a slot sequence.
pub open spec fn slots_view(slots: Seq<BufferSlot>) -> Seq<BufferSlotView> {
    slots.map_values(|s: BufferSlot| s@)
}

/// The handles currently attached to some slot.
pub open spec fn slot_handles(slots: Seq<BufferSlotView>) -> Set<BufferUserHandle> {
    Set::new(
        |h: BufferUserHandle|
            exists|i: int| 0 <= i < slots.len() && slots[i].user_handle == Some(h),
    )
}

/// One stream connection.
pub struct StreamCore {
    /// The bus-visible stream state.
    pub state: StreamState,
    /// Whether this stream paces delivery timing for the consumer.
    pub driving: bool,
    /// Source width advertised at creation.
    pub width: u32,
    /// Source height advertised at creation.
    pub height: u32,
    /// The advertised candidate-format catalog.
    pub enum_formats: Vec<EnumFormatInfo>,
    /// One slot per buffer of the current pool generation.
    pub slots: Vec<BufferSlot>,
    /// Tokens of the buffers the bus can hand out for capture, oldest
    /// first.
    pub available: Vec<u64>,
    /// The bounded channel between the submission thread and the bus's
    /// real-time thread.
    pub channel: ProcessChannel,
    /// The delivery sequence stamped into the next processed buffer.
    pub seq: u64,
    /// The format the last successful negotiation fixated.
    pub fixated: Option<FixateFormat>,
    /// Whether the stream was terminated.
    pub terminated: bool,
    /// How many times the termination callback has run.
    pub terminate_runs: u64,
    /// The pool lifecycle so far.
    pub events: Ghost<Seq<PoolEvent>>,
}

impl StreamCore {
    /// No two slots hold the same capability handle.
    pub open spec fn handles_distinct(self) -> bool {
        forall|i: int, j: int|
            0 <= i < j < self.slots@.len() ==> !(#[trigger] self.slots@[i]@.user_handle is Some
                && self.slots@[i]@.user_handle == #[trigger] self.slots@[j]@.user_handle)
    }

    /// Every available token names a slot, and none is listed twice.
    pub open spec fn available_wf(self) -> bool {
        &&& forall|i: int|
            0 <= i < self.available@.len() ==> (#[trigger] self.available@[i] as int)
                < self.slots@.len()
        &&& forall|i: int, j: int|
            0 <= i < j < self.available@.len() ==> self.available@[i] != self.available@[j]
    }

    /// The stream's structural invariant: the channel has the processing
    /// capacity, the pool respects the advertised bound, tokens are sound,
    /// handles are unambiguous and agree with the ghost log, the
    /// termination callback has run exactly as often as the stream was
    /// terminated, and the catalog is well-formed.
    pub open spec fn wf(self) -> bool {
        &&& channel_capacity(self.channel) == MAX_PROCESS_BUFFERS
        &&& self.slots@.len() <= MAX_BUFFERS as int
        &&& self.available_wf()
        &&& self.handles_distinct()
        &&& slot_handles(slots_view(self.slots@)) == live_handles(self.events@)
        &&& log_wf(self.events@)
        &&& self.terminate_runs == (if self.terminated { 1int } else { 0int })
        &&& catalog_wf(catalog_view(self.enum_formats@))
    }

    /// Creates an unconnected stream for the given source: empty pool,
    /// empty processing channel, nothing fixated, and an empty lifecycle
    /// log.
    pub fn new(info: StreamInfo) -> (r: StreamCore)
        requires
            catalog_wf(catalog_view(info.enum_formats@)),
        ensures
            r.wf(),
            r.state == StreamState::Unconnected,
            r.driving == false,
            r.width == info.width,
            r.height == info.height,
            r.enum_formats@ == info.enum_formats@,
            r.slots@.len() == 0,
            r.available@.len() == 0,
            channel_contents(r.channel).len() == 0,
            r.seq == 0,
            r.fixated is None,
            r.terminated == false,
            r.terminate_runs == 0,
            r.events@ == Seq::<PoolEvent>::empty(),
    {
        let core = StreamCore {
            state: StreamState::Unconnected,
            driving: false,
            width: info.width,
            height: info.height,
            enum_formats: info.enum_formats,
            slots: Vec::new(),
            available: Vec::new(),
            channel: new_process_channel(MAX_PROCESS_BUFFERS),
            seq: 0,
            fixated: None,
            terminated: false,
            terminate_runs: 0,
            events: Ghost(Seq::empty()),
        };
        proof {
            assert(slot_handles(slots_view(core.slots@)) =~= live_handles(core.events@));
        }
        core
    }

    /// The initial advertisement pushed at connection time: one format
    /// object per catalog group, none of them fixating yet.
    pub fn initial_format_params(&self) -> (params: Vec<PodObject>)
        requires
            catalog_wf(catalog_view(self.enum_formats@)),
        ensures
            objects_view(params@) == catalog_view(self.enum_formats@).map_values(
                |g: crate::format::EnumFormatInfoView|
                    spec_format_object(self.width, self.height, g.formats, g.modifiers, false),
            ),
    {
        let mut params: Vec<PodObject> = Vec::new();
        let mut i: usize = 0;
        while i < self.enum_formats.len()
            invariant
                i <= self.enum_formats@.len(),
                catalog_wf(catalog_view(self.enum_formats@)),
                params@.len() == i,
                forall|j: int|
                    0 <= j < i ==> (#[trigger] params@[j])@ == spec_format_object(
                        self.width,
                        self.height,
                        self.enum_formats@[j]@.formats,
                        self.enum_formats@[j]@.modifiers,
                        false,
                    ),
            decreases self.enum_formats@.len() - i,
        {
            proof {
                assert(catalog_view(self.enum_formats@)[i as int] == self.enum_formats@[i as int]@);
                assert(catalog_view(self.enum_formats@)[i as int].formats.len() >= 1);
            }
            let obj = build_format(
                self.width,
                self.height,
                &self.enum_formats[i].formats,
                &self.enum_formats[i].modifiers,
                false,
            );
            params.push(obj);
            i = i + 1;
        }
        proof {
            let goal = catalog_view(self.enum_formats@).map_values(
                |g: crate::format::EnumFormatInfoView|
                    spec_format_object(self.width, self.height, g.formats, g.modifiers, false),
            );
            assert forall|j: int| 0 <= j < params@.len() implies objects_view(params@)[j]
                == goal[j] by {
                assert(objects_view(params@)[j] == params@[j]@);
                assert(catalog_view(self.enum_formats@)[j] == self.enum_formats@[j]@);
                assert(goal[j] == spec_format_object(
                    self.width,
                    self.height,
                    catalog_view(self.enum_formats@)[j].formats,
                    catalog_view(self.enum_formats@)[j].modifiers,
                    false,
                ));
            }
            assert(objects_view(params@) =~~= goal);
        }
        params
    }
}

/// What terminating owes: the stream disconnects, stops driving, the
/// processing channel is drained, and the termination callback has run
/// exactly once over the stream's whole lifetime; the pool and its log are
/// untouched (late remove callbacks still release their exports).
pub open spec fn terminate_post(pre: StreamCore, post: StreamCore) -> bool {
    &&& post.state == StreamState::Unconnected
    &&& post.driving == false
    &&& post.terminated == true
    &&& post.terminate_runs == 1
    &&& channel_contents(post.channel).len() == 0
    &&& channel_capacity(post.channel) == channel_capacity(pre.channel)
    &&& post.width == pre.width
    &&& post.height == pre.height
    &&& post.enum_formats == pre.enum_formats
    &&& post.slots == pre.slots
    &&& post.available == pre.available
    &&& post.seq == pre.seq
    &&& post.fixated == pre.fixated
    &&& post.events == pre.events
}

/// What a dequeue owes: nothing unless the stream is streaming, driving,
/// and a buffer is free; a free buffer whose slot lost its handle is put
/// back at the tail and the call yields nothing; otherwise the oldest free
/// buffer leaves the queue and is handed out with its handle.
pub open spec fn dequeue_post(
    pre: StreamCore,
    post: StreamCore,
    r: Option<(BufferHandle, BufferUserHandle)>,
) -> bool {
    if pre.state != StreamState::Streaming || !pre.driving || pre.available@.len() == 0 {
        &&& r is None
        &&& post == pre
    } else {
        let token = pre.available@[0];
        let slot = pre.slots@[token as int]@;
        &&& match slot.user_handle {
            None => {
                &&& r is None
                &&& post.available@ == pre.available@.drop_first().push(token)
            },
            Some(h) => {
                &&& r == Some((BufferHandle { token }, h))
                &&& post.available@ == pre.available@.drop_first()
            },
        }
        &&& post.state == pre.state
        &&& post.driving == pre.driving
        &&& post.width == pre.width
        &&& post.height == pre.height
        &&& post.enum_formats == pre.enum_formats
        &&& post.slots == pre.slots
        &&& post.channel == pre.channel
        &&& post.seq == pre.seq
        &&& post.fixated == pre.fixated
        &&& post.terminated == pre.terminated
        &&& post.terminate_runs == pre.terminate_runs
        &&& post.events == pre.events
    }
}

/// What queueing a buffer for processing owes: a stream that is not
/// driving succeeds without doing anything; a driving stream appends the
/// buffer's token to the processing channel if its backpressure window has
/// room, and rejects the buffer — never duplicating or displacing one —
/// if it is full.
pub open spec fn queue_post(
    pre: StreamCore,
    post: StreamCore,
    buffer: BufferHandle,
    r: Result<(), QueueError>,
) -> bool {
    &&& if !pre.driving {
        &&& r is Ok
        &&& post == pre
    } else {
        &&& if channel_contents(pre.channel).len() < MAX_PROCESS_BUFFERS as int {
            &&& r is Ok
            &&& channel_contents(post.channel) == channel_contents(pre.channel).push(buffer.token)
        } else {
            &&& r == Err::<(), QueueError>(QueueError::ChannelFull)
            &&& channel_contents(post.channel) == channel_contents(pre.channel)
        }
        &&& channel_capacity(post.channel) == channel_capacity(pre.channel)
        &&& post.state == pre.state
        &&& post.driving == pre.driving
        &&& post.width == pre.width
        &&& post.height == pre.height
        &&& post.enum_formats == pre.enum_formats
        &&& post.slots == pre.slots
        &&& post.available == pre.available
        &&& post.seq == pre.seq
        &&& post.fixated == pre.fixated
        &&& post.terminated == pre.terminated
        &&& post.terminate_runs == pre.terminate_runs
        &&& post.events == pre.events
    }
}

/// The thread-safe operations the capture scheduler invokes on a stream,
/// normally from another thread through the message bridge.
pub trait StreamMethods {
    /// The structural invariant the operations preserve.
    spec fn inv(&self) -> bool;

    /// Disconnects the stream and runs the termination callback exactly
    /// once.
    fn terminate(&mut self) -> (r: Result<(), ()>)
        requires
            old(self).inv(),
        ensures
            final(self).inv(),
            r is Ok,
    ;

    /// Hands out a free exported buffer, or nothing when the stream is not
    /// streaming, not driving, or the pool is exhausted.
    fn dequeue_buffer(&mut self) -> (r: Option<(BufferHandle, BufferUserHandle)>)
        requires
            old(self).inv(),
        ensures
            final(self).inv(),
    ;

    /// Queues a captured buffer for delivery on the bus's real-time
    /// thread.
    fn queue_buffer_process(&mut self, buffer: BufferHandle) -> (r: Result<(), QueueError>)
        requires
            old(self).inv(),
        ensures
            final(self).inv(),
    ;
}

impl StreamCore {
    /// Disconnects the stream, as [`terminate_post`] states.  Terminating
    /// twice is safe: the termination callback does not run again.
    pub fn terminate(&mut self) -> (r: Result<(), ()>)
        requires
            old(self).wf(),
        ensures
            final(self).wf(),
            r is Ok,
            terminate_post(*old(self), *final(self)),
    {
        self.state = StreamState::Unconnected;
        self.driving = false;
        if !self.terminated {
            self.terminated = true;
            self.terminate_runs = self.terminate_runs + 1;
        }
        drain_channel(&mut self.channel);
        Ok(())
    }

    /// Hands out the oldest free exported buffer, as [`dequeue_post`]
    /// states.  A frame for which nothing is free is simply not captured:
    /// this never blocks presentation.
    pub fn dequeue_buffer(&mut self) -> (r: Option<(BufferHandle, BufferUserHandle)>)
        requires
            old(self).wf(),
        ensures
            final(self).wf(),
            dequeue_post(*old(self), *final(self), r),
    {
        if !matches!(self.state, StreamState::Streaming) {
            return None;
        }
        if !self.driving {
            return None;
        }
        if self.available.len() == 0 {
            return None;
        }
        let token = self.available.remove(0);
        let slot_index = token as usize;
        match self.slots[slot_index].user_handle {
            None => {
                // The slot's allocation failed or its export is gone: the
                // buffer is unusable, so it goes back and the frame is
                // dropped.
                self.available.push(token);
                proof {
                    let pre = old(self).available@;
                    let now = self.available@;
                    assert(now =~= pre.drop_first().push(token));
                    assert forall|i: int| 0 <= i < now.len() implies (#[trigger] now[i] as int)
                        < self.slots@.len() by {
                        if i < now.len() - 1 {
                            assert(now[i] == pre[i + 1]);
                        } else {
                            assert(now[i] == token);
                        }
                    }
                    assert forall|i: int, j: int| 0 <= i < j < now.len() implies now[i] != now[j] by {
                        if j < now.len() - 1 {
                            assert(now[i] == pre[i + 1] && now[j] == pre[j + 1]);
                        } else {
                            assert(now[i] == pre[i + 1] && now[j] == pre[0]);
                        }
                    }
                }
                None
            },
            Some(h) => {
                proof {
                    let pre = old(self).available@;
                    let now = self.available@;
                    assert forall|i: int| 0 <= i < now.len() implies (#[trigger] now[i] as int)
                        < self.slots@.len() by {
                        assert(now[i] == pre[i + 1]);
                    }
                    assert forall|i: int, j: int| 0 <= i < j < now.len() implies now[i] != now[j] by {
                        assert(now[i] == pre[i + 1] && now[j] == pre[j + 1]);
                    }
                }
                Some((BufferHandle { token }, h))
            },
        }
    }

    /// Queues a captured buffer for delivery, as [`queue_post`] states.
    /// The bounded channel is the backpressure window: a frame beyond it
    /// is rejected, never queued twice.
    pub fn queue_buffer_process(&mut self, buffer: BufferHandle) -> (r: Result<(), QueueError>)
        requires
            old(self).wf(),
        ensures
            final(self).wf(),
            queue_post(*old(self), *final(self), buffer, r),
    {
        if !self.driving {
            return Ok(());
        }
        let sent = channel_try_send(&mut self.channel, buffer.token);
        if sent {
            Ok(())
        } else {
            Err(QueueError::ChannelFull)
        }
    }

    /// Notes a bus state change.  Entering the paused state flushes the
    /// stream and discards whatever sits unprocessed in the channel, so a
    /// later resume starts from a clean window.
    pub fn on_state_changed(&mut self, new: StreamState)
        requires
            old(self).wf(),
        ensures
            final(self).wf(),
            final(self).state == new,
            new == StreamState::Paused ==> channel_contents(final(self).channel).len() == 0,
            new != StreamState::Paused ==> channel_contents(final(self).channel)
                == channel_contents(old(self).channel),
            channel_capacity(final(self).channel) == channel_capacity(old(self).channel),
            final(self).driving == old(self).driving,
            final(self).width == old(self).width,
            final(self).height == old(self).height,
            final(self).enum_formats == old(self).enum_formats,
            final(self).slots == old(self).slots,
            final(self).available == old(self).available,
            final(self).seq == old(self).seq,
            final(self).fixated == old(self).fixated,
            final(self).terminated == old(self).terminated,
            final(self).terminate_runs == old(self).terminate_runs,
            final(self).events == old(self).events,
    {
        self.state = new;
        if matches!(new, StreamState::Paused) {
            drain_channel(&mut self.channel);
        }
    }

    /// Notes whether the bus put this stream in the driving role.
    pub fn set_driving(&mut self, driving: bool)
        requires
            old(self).wf(),
        ensures
            final(self).wf(),
            *final(self) == (StreamCore { driving, ..*old(self) }),
    {
        self.driving = driving;
    }
}

impl StreamMethods for StreamCore {
    open spec fn inv(&self) -> bool {
        self.wf()
    }

    fn terminate(&mut self) -> Result<(), ()> {
        StreamCore::terminate(self)
    }

    fn dequeue_buffer(&mut self) -> Option<(BufferHandle, BufferUserHandle)> {
        StreamCore::dequeue_buffer(self)
    }

    fn queue_buffer_process(&mut self, buffer: BufferHandle) -> Result<(), QueueError> {
        StreamCore::queue_buffer_process(self, buffer)
    }
}

} // verus!

verus! {

/// Appending an event updates the live-handle set the way the event says.
pub proof fn lemma_live_handles_push(events: Seq<PoolEvent>, e: PoolEvent)
    ensures
        live_handles(events.push(e)) == (match e {
            PoolEvent::Added(h) => live_handles(events).insert(h),
            PoolEvent::Removed(h) => live_handles(events).remove(h),
            PoolEvent::Processed(_) => live_handles(events),
        }),
{
    assert(events.push(e).drop_last() =~= events);
    assert(events.push(e).last() == e);
}

/// Appending a slot extends the attached-handle set by the slot's handle,
/// if it has one.
pub proof fn lemma_slot_handles_push(slots: Seq<BufferSlotView>, slot: BufferSlotView)
    ensures
        slot_handles(slots.push(slot)) == (match slot.user_handle {
            Some(h) => slot_handles(slots).insert(h),
            None => slot_handles(slots),
        }),
{
    let pushed = slots.push(slot);
    let target = match slot.user_handle {
        Some(h) => slot_handles(slots).insert(h),
        None => slot_handles(slots),
    };
    assert forall|x: BufferUserHandle| slot_handles(pushed).contains(x) implies target.contains(
        x,
    ) by {
        let i = choose|i: int| 0 <= i < pushed.len() && pushed[i].user_handle == Some(x);
        if i < slots.len() {
            assert(slots[i].user_handle == Some(x));
        }
    }
    assert forall|x: BufferUserHandle| target.contains(x) implies slot_handles(pushed).contains(
        x,
    ) by {
        if slot_handles(slots).contains(x) {
            let i = choose|i: int| 0 <= i < slots.len() && slots[i].user_handle == Some(x);
            assert(pushed[i].user_handle == Some(x));
        } else {
            assert(slot.user_handle == Some(x));
            assert(pushed[slots.len() as int].user_handle == Some(x));
        }
    }
    assert(slot_handles(pushed) =~= target);
}

/// Two slot sequences with the same handles attach the same handle set.
pub proof fn lemma_slot_handles_same(a: Seq<BufferSlotView>, b: Seq<BufferSlotView>)
    requires
        a.len() == b.len(),
        forall|i: int| 0 <= i < a.len() ==> a[i].user_handle == b[i].user_handle,
    ensures
        slot_handles(a) == slot_handles(b),
{
    assert forall|x: BufferUserHandle| slot_handles(a).contains(x) implies slot_handles(
        b,
    ).contains(x) by {
        let i = choose|i: int| 0 <= i < a.len() && a[i].user_handle == Some(x);
        assert(b[i].user_handle == Some(x));
    }
    assert forall|x: BufferUserHandle| slot_handles(b).contains(x) implies slot_handles(
        a,
    ).contains(x) by {
        let i = choose|i: int| 0 <= i < b.len() && b[i].user_handle == Some(x);
        assert(a[i].user_handle == Some(x));
    }
    assert(slot_handles(a) =~= slot_handles(b));
}

/// Clearing the one slot that holds a handle removes exactly that handle
/// from the attached-handle set.
pub proof fn lemma_slot_handles_clear(slots: Seq<BufferSlotView>, i: int, h: BufferUserHandle)
    requires
        0 <= i < slots.len(),
        slots[i].user_handle == Some(h),
        forall|j: int| 0 <= j < slots.len() && j != i ==> slots[j].user_handle != Some(h),
    ensures
        slot_handles(slots.update(i, (BufferSlotView { user_handle: None, ..slots[i] })))
            == slot_handles(slots).remove(h),
{
    let updated = slots.update(i, (BufferSlotView { user_handle: None, ..slots[i] }));
    assert forall|x: BufferUserHandle| slot_handles(updated).contains(x) implies slot_handles(
        slots,
    ).remove(h).contains(x) by {
        let k = choose|k: int| 0 <= k < updated.len() && updated[k].user_handle == Some(x);
        assert(k != i);
        assert(slots[k].user_handle == Some(x));
        assert(x != h);
    }
    assert forall|x: BufferUserHandle| slot_handles(slots).remove(h).contains(x)
        implies slot_handles(updated).contains(x) by {
        let k = choose|k: int| 0 <= k < slots.len() && slots[k].user_handle == Some(x);
        assert(k != i);
        assert(updated[k].user_handle == Some(x));
    }
    assert(slot_handles(updated) =~= slot_handles(slots).remove(h));
}

/// A fresh slot as [`BufferSlot::new`] creates it: unfilled planes, no
/// handle, a zeroed metadata region.
pub open spec fn fresh_slot_view(n_datas: nat) -> BufferSlotView {
    BufferSlotView {
        datas: Seq::new(n_datas, |j: int| crate::pool::PlaneData::spec_empty()),
        user_handle: None,
        header: Some(crate::pool::MetaHeader::spec_zeroed()),
        size: 0,
    }
}

/// Whether an allocation is taken into the pool: it must exist, fit the
/// bus's plane slots, and carry a handle no live export already uses.
pub open spec fn attach_accepted(
    pre: StreamCore,
    n_datas: nat,
    info: Option<crate::pool::BufferInfoView>,
) -> bool {
    match info {
        Some(i) => i.planes.len() == n_datas && !slot_handles(slots_view(pre.slots@)).contains(
            i.user_handle,
        ),
        None => false,
    }
}

/// What attaching a buffer owes: on a live stream, one new slot at the next
/// token, filled from the allocation when it was accepted and marked
/// invalid otherwise, the token queued as available, and the lifecycle log
/// extended exactly when an export came alive.  A terminated stream takes
/// nothing.
pub open spec fn attach_post(
    pre: StreamCore,
    post: StreamCore,
    n_datas: nat,
    info: Option<crate::pool::BufferInfoView>,
    r: Option<BufferUserHandle>,
) -> bool {
    if pre.terminated {
        &&& post == pre
        &&& r is None
    } else {
        let accepted = attach_accepted(pre, n_datas, info);
        let token = pre.slots@.len();
        &&& post.slots@.len() == pre.slots@.len() + 1
        &&& forall|j: int| 0 <= j < pre.slots@.len() ==> post.slots@[j] == pre.slots@[j]
        &&& crate::pool::fill_slot_post(
            fresh_slot_view(n_datas),
            post.slots@[token as int]@,
            if accepted {
                info
            } else {
                None
            },
        )
        &&& r == post.slots@[token as int]@.user_handle
        &&& (accepted <==> r is Some)
        &&& (accepted ==> (info matches Some(i) && r == Some(i.user_handle) && post.events@
            == pre.events@.push(PoolEvent::Added(i.user_handle))))
        &&& (!accepted ==> post.events@ == pre.events@)
        &&& post.available@ == pre.available@.push(token as u64)
        &&& post.state == pre.state
        &&& post.driving == pre.driving
        &&& post.width == pre.width
        &&& post.height == pre.height
        &&& post.enum_formats == pre.enum_formats
        &&& post.channel == pre.channel
        &&& post.seq == pre.seq
        &&& post.fixated == pre.fixated
        &&& post.terminated == pre.terminated
        &&& post.terminate_runs == pre.terminate_runs
    }
}

impl StreamCore {
    /// Whether some live export already carries this handle.
    pub fn handle_live(&self, h: BufferUserHandle) -> (r: bool)
        ensures
            r == slot_handles(slots_view(self.slots@)).contains(h),
    {
        let mut i: usize = 0;
        while i < self.slots.len()
            invariant
                i <= self.slots@.len(),
                forall|j: int| 0 <= j < i ==> slots_view(self.slots@)[j].user_handle != Some(h),
            decreases self.slots@.len() - i,
        {
            match self.slots[i].user_handle {
                Some(existing) => {
                    if existing == h {
                        proof {
                            assert(slots_view(self.slots@)[i as int].user_handle == Some(h));
                        }
                        return true;
                    }
                },
                None => {},
            }
            proof {
                assert(slots_view(self.slots@)[i as int] == self.slots@[i as int]@);
            }
            i = i + 1;
        }
        proof {
            if slot_handles(slots_view(self.slots@)).contains(h) {
                let k = choose|k: int|
                    0 <= k < slots_view(self.slots@).len() && slots_view(self.slots@)[k].user_handle
                        == Some(h);
                assert(false);
            }
        }
        false
    }

    /// Takes one allocation into the pool, as [`attach_post`] states.  A
    /// missing, ill-fitting, or handle-reusing allocation marks the new
    /// slot permanently invalid; other slots are untouched either way.
    pub fn attach_buffer(&mut self, n_datas: usize, info: Option<crate::pool::BufferInfo>) -> (r:
        Option<BufferUserHandle>)
        requires
            old(self).wf(),
            old(self).slots@.len() < MAX_BUFFERS as int,
        ensures
            final(self).wf(),
            attach_post(
                *old(self),
                *final(self),
                n_datas as nat,
                crate::pool::info_view(info),
                r,
            ),
    {
        if self.terminated {
            return None;
        }

        let usable: Option<crate::pool::BufferInfo> = match info {
            Some(i) => {
                if self.handle_live(i.user_handle) {
                    None
                } else {
                    Some(i)
                }
            },
            None => None,
        };

        let mut slot = BufferSlot::new(n_datas);
        proof {
            assert(slot@.datas =~= fresh_slot_view(n_datas as nat).datas);
            assert(slot@ == fresh_slot_view(n_datas as nat));
        }
        crate::pool::fill_slot(&mut slot, usable);
        let r = slot.user_handle;
        let token: u64 = self.slots.len() as u64;
        let ghost pre_slots = slots_view(self.slots@);
        let ghost slot_view = slot@;
        self.slots.push(slot);
        self.available.push(token);
        match r {
            Some(h) => {
                self.events = Ghost(self.events@.push(PoolEvent::Added(h)));
                proof {
                    lemma_live_handles_push(old(self).events@, PoolEvent::Added(h));
                    lemma_log_wf_push(old(self).events@, PoolEvent::Added(h));
                }
            },
            None => {},
        }
        proof {
            assert(slots_view(self.slots@) =~= pre_slots.push(slot_view));
            lemma_slot_handles_push(pre_slots, slot_view);
            match slot_view.user_handle {
                Some(h) => {
                    assert forall|j: int| 0 <= j < pre_slots.len() implies pre_slots[j].user_handle
                        != Some(h) by {
                        if pre_slots[j].user_handle == Some(h) {
                            assert(slot_handles(pre_slots).contains(h));
                        }
                    }
                },
                None => {},
            }
            assert forall|i: int, j: int| 0 <= i < j < self.slots@.len() implies !(
            #[trigger] self.slots@[i]@.user_handle is Some && self.slots@[i]@.user_handle
                == #[trigger] self.slots@[j]@.user_handle) by {
                assert(self.slots@[i]@ == pre_slots[i]);
                if j < self.slots@.len() - 1 {
                    assert(self.slots@[j]@ == pre_slots[j]);
                } else {
                    assert(self.slots@[j]@ == slot_view);
                }
            }
            let pre_avail = old(self).available@;
            let now = self.available@;
            assert forall|i: int| 0 <= i < now.len() implies (#[trigger] now[i] as int)
                < self.slots@.len() by {
                if i < now.len() - 1 {
                    assert(now[i] == pre_avail[i]);
                } else {
                    assert(now[i] == token);
                }
            }
            assert forall|i: int, j: int| 0 <= i < j < now.len() implies now[i] != now[j] by {
                if j < now.len() - 1 {
                    assert(now[i] == pre_avail[i] && now[j] == pre_avail[j]);
                } else {
                    assert(now[i] == pre_avail[i]);
                    assert(now[j] == token);
                    assert((pre_avail[i] as int) < old(self).slots@.len());
                }
            }
        }
        r
    }

    /// Asks the backend for one exported buffer and takes the answer into
    /// the pool.  After termination the backend is not even asked.
    pub fn on_add_buffer<B: crate::backend::CaptureBackend>(
        &mut self,
        backend: &mut B,
        n_datas: usize,
    ) -> (r: Option<BufferUserHandle>)
        requires
            old(self).wf(),
            old(self).slots@.len() < MAX_BUFFERS as int,
        ensures
            final(self).wf(),
            old(self).terminated ==> *final(self) == *old(self) && r is None,
            !old(self).terminated ==> exists|info: Option<crate::pool::BufferInfoView>|
                #[trigger] attach_post(*old(self), *final(self), n_datas as nat, info, r),
    {
        if self.terminated {
            return None;
        }
        let info = backend.add_buffer();
        let ghost info_v = crate::pool::info_view(info);
        let r = self.attach_buffer(n_datas, info);
        proof {
            assert(attach_post(*old(self), *final(self), n_datas as nat, info_v, r));
        }
        r
    }
}

} // verus!

verus! {

/// What removing a buffer owes: a token outside the pool is ignored; a
/// slot whose handle is already gone stays untouched, so the export behind
/// a handle is released exactly once; otherwise the slot gives up its
/// handle and the lifecycle log records the removal.
pub open spec fn remove_post(
    pre: StreamCore,
    post: StreamCore,
    token: u64,
    removed: Option<BufferUserHandle>,
) -> bool {
    if token as int >= pre.slots@.len() {
        &&& post == pre
        &&& removed is None
    } else {
        let slot = pre.slots@[token as int]@;
        &&& removed == slot.user_handle
        &&& post.slots@.len() == pre.slots@.len()
        &&& post.slots@[token as int]@ == (BufferSlotView { user_handle: None, ..slot })
        &&& forall|j: int|
            0 <= j < pre.slots@.len() && j != token as int ==> post.slots@[j] == pre.slots@[j]
        &&& post.events@ == (match slot.user_handle {
            Some(h) => pre.events@.push(PoolEvent::Removed(h)),
            None => pre.events@,
        })
        &&& post.state == pre.state
        &&& post.driving == pre.driving
        &&& post.width == pre.width
        &&& post.height == pre.height
        &&& post.enum_formats == pre.enum_formats
        &&& post.available == pre.available
        &&& post.channel == pre.channel
        &&& post.seq == pre.seq
        &&& post.fixated == pre.fixated
        &&& post.terminated == pre.terminated
        &&& post.terminate_runs == pre.terminate_runs
    }
}

/// What one real-time processing invocation owes: an empty channel means
/// the invocation was unscheduled and nothing happens; a token whose slot
/// is gone or lost its export is skipped; otherwise the buffer is
/// delivered: the backend observes it, the slot is stamped with the
/// timestamp and the delivery sequence, and the sequence advances.
pub open spec fn process_post(
    pre: StreamCore,
    post: StreamCore,
    pts: i64,
    outcome: ProcessOutcome,
) -> bool {
    if channel_contents(pre.channel).len() == 0 {
        &&& outcome == ProcessOutcome::Unscheduled
        &&& post == pre
    } else {
        let token = channel_contents(pre.channel)[0];
        &&& channel_contents(post.channel) == channel_contents(pre.channel).drop_first()
        &&& channel_capacity(post.channel) == channel_capacity(pre.channel)
        &&& if token as int >= pre.slots@.len() || pre.slots@[token as int]@.user_handle is None {
            &&& outcome == ProcessOutcome::Skipped
            &&& post.slots == pre.slots
            &&& post.seq == pre.seq
            &&& post.events == pre.events
        } else {
            let slot = pre.slots@[token as int]@;
            let h = slot.user_handle->0;
            &&& outcome == ProcessOutcome::Delivered(h)
            &&& post.slots@.len() == pre.slots@.len()
            &&& post.slots@[token as int]@ == (BufferSlotView {
                header: match slot.header {
                    Some(_) => Some(
                        crate::pool::MetaHeader {
                            flags: 0,
                            offset: 0,
                            seq: pre.seq,
                            pts: pts,
                            dts_offset: 0,
                        },
                    ),
                    None => None,
                },
                size: 1,
                ..slot
            })
            &&& forall|j: int|
                0 <= j < pre.slots@.len() && j != token as int ==> post.slots@[j] == pre.slots@[j]
            &&& post.seq == pre.seq + 1
            &&& post.events@ == pre.events@.push(PoolEvent::Processed(h))
        }
        &&& post.state == pre.state
        &&& post.driving == pre.driving
        &&& post.width == pre.width
        &&& post.height == pre.height
        &&& post.enum_formats == pre.enum_formats
        &&& post.available == pre.available
        &&& post.fixated == pre.fixated
        &&& post.terminated == pre.terminated
        &&& post.terminate_runs == pre.terminate_runs
    }
}

/// How one real-time processing invocation went.
#[derive(Clone, Copy, Debug, PartialEq, Eq, Structural)]
pub enum ProcessOutcome {
    /// The buffer behind this handle was stamped and delivered.
    Delivered(BufferUserHandle),
    /// The channel was empty: the invocation was unscheduled.
    Unscheduled,
    /// The queued buffer's slot is gone or lost its export; the delivery
    /// was skipped as a benign race, not an error.
    Skipped,
}

impl StreamCore {
    /// Releases the export behind the slot the bus is taking away, as
    /// [`remove_post`] states.  Duplicate teardown is defensive: a token
    /// already cleared, or never in the pool, is a no-op.
    pub fn on_remove_buffer<B: crate::backend::CaptureBackend>(
        &mut self,
        backend: &mut B,
        token: u64,
    ) -> (removed: Option<BufferUserHandle>)
        requires
            old(self).wf(),
        ensures
            final(self).wf(),
            remove_post(*old(self), *final(self), token, removed),
            removed matches Some(h) ==> live_handles(old(self).events@).contains(h),
    {
        if token >= self.slots.len() as u64 {
            return None;
        }
        let idx = token as usize;
        let ghost pre_slots = slots_view(self.slots@);
        let removed = crate::pool::clear_slot(&mut self.slots[idx]);
        match removed {
            Some(h) => {
                backend.remove_buffer(h);
                self.events = Ghost(self.events@.push(PoolEvent::Removed(h)));
                proof {
                    lemma_live_handles_push(old(self).events@, PoolEvent::Removed(h));
                    lemma_log_wf_push(old(self).events@, PoolEvent::Removed(h));
                    assert(pre_slots[idx as int].user_handle == Some(h));
                    assert(slot_handles(pre_slots).contains(h));
                    assert forall|j: int|
                        0 <= j < pre_slots.len() && j != idx as int implies pre_slots[j].user_handle
                        != Some(h) by {
                        if j < idx as int {
                            assert(old(self).slots@[j]@.user_handle != Some(h));
                        } else {
                            assert(old(self).slots@[idx as int]@.user_handle != Some(
                                old(self).slots@[j]@.user_handle->0,
                            ) || old(self).slots@[j]@.user_handle is None);
                        }
                    }
                    lemma_slot_handles_clear(pre_slots, idx as int, h);
                    assert(slots_view(self.slots@) =~= pre_slots.update(
                        idx as int,
                        (BufferSlotView { user_handle: None, ..pre_slots[idx as int] }),
                    ));
                    assert forall|i: int, j: int| 0 <= i < j < self.slots@.len() implies !(
                    #[trigger] self.slots@[i]@.user_handle is Some && self.slots@[i]@.user_handle
                        == #[trigger] self.slots@[j]@.user_handle) by {
                        if i != idx as int && j != idx as int {
                            assert(self.slots@[i]@ == pre_slots[i]);
                            assert(self.slots@[j]@ == pre_slots[j]);
                        }
                    }
                }
                Some(h)
            },
            None => {
                proof {
                    assert(slots_view(self.slots@) =~= pre_slots);
                    lemma_slot_handles_same(slots_view(self.slots@), pre_slots);
                }
                None
            },
        }
    }

    /// Handles one invocation of the bus's real-time processing thread, as
    /// [`process_post`] states: pulls at most one queued buffer, lets the
    /// backend observe its delivery, and stamps the delivery metadata.  A
    /// buffer whose export was removed while it sat queued is skipped.  A
    /// delivered handle is always live at delivery time.
    pub fn on_process<B: crate::backend::CaptureBackend>(&mut self, backend: &mut B, pts: i64) -> (
        outcome: ProcessOutcome)
        requires
            old(self).wf(),
            old(self).seq < u64::MAX,
        ensures
            final(self).wf(),
            process_post(*old(self), *final(self), pts, outcome),
            outcome matches ProcessOutcome::Delivered(h) ==> live_handles(
                old(self).events@,
            ).contains(h),
    {
        let token = match crate::channel::channel_try_recv(&mut self.channel) {
            None => {
                return ProcessOutcome::Unscheduled;
            },
            Some(t) => t,
        };
        if token >= self.slots.len() as u64 {
            return ProcessOutcome::Skipped;
        }
        let idx = token as usize;
        let h = match self.slots[idx].user_handle {
            None => {
                return ProcessOutcome::Skipped;
            },
            Some(h) => h,
        };
        backend.process_buffer(h);
        let ghost pre_slots = slots_view(self.slots@);
        crate::pool::stamp_slot(&mut self.slots[idx], pts, self.seq);
        self.seq = self.seq + 1;
        self.events = Ghost(self.events@.push(PoolEvent::Processed(h)));
        proof {
            assert(pre_slots[idx as int].user_handle == Some(h));
            assert(slot_handles(pre_slots).contains(h));
            lemma_live_handles_push(old(self).events@, PoolEvent::Processed(h));
            lemma_log_wf_push(old(self).events@, PoolEvent::Processed(h));
            assert(slots_view(self.slots@).len() == pre_slots.len());
            assert forall|i: int| 0 <= i < pre_slots.len() implies slots_view(
                self.slots@,
            )[i].user_handle == pre_slots[i].user_handle by {
                if i != idx as int {
                    assert(self.slots@[i]@ == pre_slots[i]);
                }
            }
            lemma_slot_handles_same(slots_view(self.slots@), pre_slots);
            assert forall|i: int, j: int| 0 <= i < j < self.slots@.len() implies !(
            #[trigger] self.slots@[i]@.user_handle is Some && self.slots@[i]@.user_handle
                == #[trigger] self.slots@[j]@.user_handle) by {
                assert(self.slots@[i]@.user_handle == pre_slots[i].user_handle);
                assert(self.slots@[j]@.user_handle == pre_slots[j].user_handle);
            }
        }
        ProcessOutcome::Delivered(h)
    }

    /// Takes note that the consumer gave a buffer back: its token becomes
    /// available for capture again.  A token outside the pool, or one that
    /// is already available, is ignored.
    pub fn on_buffer_released(&mut self, token: u64) -> (accepted: bool)
        requires
            old(self).wf(),
        ensures
            final(self).wf(),
            accepted == ((token as int) < old(self).slots@.len() && !old(
                self,
            ).available@.contains(token)),
            accepted ==> *final(self) == (StreamCore {
                available: final(self).available,
                ..*old(self)
            }) && final(self).available@ == old(self).available@.push(token),
            !accepted ==> *final(self) == *old(self),
    {
        if token >= self.slots.len() as u64 {
            proof {
                assert(!((token as int) < old(self).slots@.len()));
            }
            return false;
        }
        let mut i: usize = 0;
        while i < self.available.len()
            invariant
                i <= self.available@.len(),
                *self == *old(self),
                old(self).wf(),
                forall|j: int| 0 <= j < i ==> self.available@[j] != token,
            decreases self.available@.len() - i,
        {
            if self.available[i] == token {
                proof {
                    assert(old(self).available@.contains(token));
                }
                return false;
            }
            i = i + 1;
        }
        proof {
            if old(self).available@.contains(token) {
                let k = choose|k: int|
                    0 <= k < old(self).available@.len() && old(self).available@[k] == token;
                assert(false);
            }
        }
        self.available.push(token);
        proof {
            let pre_avail = old(self).available@;
            let now = self.available@;
            assert forall|i2: int| 0 <= i2 < now.len() implies (#[trigger] now[i2] as int)
                < self.slots@.len() by {
                if i2 < now.len() - 1 {
                    assert(now[i2] == pre_avail[i2]);
                } else {
                    assert(now[i2] == token);
                }
            }
            assert forall|i2: int, j2: int| 0 <= i2 < j2 < now.len() implies now[i2] != now[j2] by {
                if j2 < now.len() - 1 {
                    assert(now[i2] == pre_avail[i2] && now[j2] == pre_avail[j2]);
                } else {
                    assert(now[i2] == pre_avail[i2]);
                    assert(now[j2] == token);
                    assert(pre_avail.contains(pre_avail[i2]));
                }
            }
        }
        true
    }
}

} // verus!

verus! {

/// Spec-level view of an optional parameter object.
pub open spec fn param_view(param: Option<&PodObject>) -> Option<PodObjectView> {
    match param {
        Some(p) => Some(p@),
        None => None,
    }
}

/// The action a format-parameter notification decides, given the backend's
/// fixation answer.  A notification that carries no object, is not about
/// the format parameter, fails to parse, or whose answer names an
/// unrepresentable plane count leaves the stream as it is; otherwise
/// [`crate::negotiate::spec_negotiate`] decides.
pub open spec fn param_changed_action(
    pre: StreamCore,
    id: crate::params::ParamId,
    param: Option<PodObjectView>,
    fx: Option<FixateFormat>,
) -> crate::negotiate::NegotiationActionView {
    match param {
        None => crate::negotiate::NegotiationActionView::Unconfigured,
        Some(obj) => {
            if id != crate::params::ParamId::Format {
                crate::negotiate::NegotiationActionView::Unconfigured
            } else {
                match crate::parse::spec_parse_video_raw_info(obj) {
                    Err(_) => crate::negotiate::NegotiationActionView::Unconfigured,
                    Ok(raw) => {
                        if fx matches Some(f) && f.planes > 0x7fff_ffff {
                            crate::negotiate::NegotiationActionView::Unconfigured
                        } else {
                            crate::negotiate::spec_negotiate(
                                pre.width,
                                pre.height,
                                catalog_view(pre.enum_formats@),
                                raw,
                                fx,
                            )
                        }
                    },
                }
            }
        },
    }
}

/// Copies a modifier list.
pub fn copy_tokens(v: &Vec<u64>) -> (r: Vec<u64>)
    ensures
        r@ == v@,
{
    let mut r: Vec<u64> = Vec::new();
    let mut i: usize = 0;
    while i < v.len()
        invariant
            i <= v@.len(),
            r@.len() == i,
            forall|j: int| 0 <= j < i ==> r@[j] == v@[j],
        decreases v@.len() - i,
    {
        r.push(v[i]);
        i = i + 1;
    }
    proof {
        assert(r@ =~= v@);
    }
    r
}

impl StreamCore {
    /// Drives one negotiation round from a format-parameter notification
    /// of the bus: parses the candidate, asks the backend to fixate it,
    /// decides per [`param_changed_action`], and remembers the fixated
    /// format when the round completed with buffer parameters.  Nothing
    /// but the fixated format changes.
    pub fn on_param_changed<B: crate::backend::CaptureBackend>(
        &mut self,
        backend: &mut B,
        id: crate::params::ParamId,
        param: Option<&PodObject>,
    ) -> (action: crate::negotiate::NegotiationAction)
        requires
            old(self).wf(),
        ensures
            final(self).wf(),
            exists|fx: Option<FixateFormat>|
                (#[trigger] param_changed_action(*old(self), id, param_view(param), fx))
                    == action@ && final(self).fixated == (if action@ is UpdateBufferParams {
                    fx
                } else {
                    old(self).fixated
                }),
            final(self).state == old(self).state,
            final(self).driving == old(self).driving,
            final(self).width == old(self).width,
            final(self).height == old(self).height,
            final(self).enum_formats == old(self).enum_formats,
            final(self).slots == old(self).slots,
            final(self).available == old(self).available,
            final(self).channel == old(self).channel,
            final(self).seq == old(self).seq,
            final(self).terminated == old(self).terminated,
            final(self).terminate_runs == old(self).terminate_runs,
            final(self).events == old(self).events,
    {
        let obj = match param {
            None => {
                proof {
                    assert(param_changed_action(
                        *old(self),
                        id,
                        param_view(param),
                        None::<FixateFormat>,
                    ) == crate::negotiate::NegotiationActionView::Unconfigured);
                }
                return crate::negotiate::NegotiationAction::Unconfigured;
            },
            Some(o) => o,
        };
        if !matches!(id, crate::params::ParamId::Format) {
            proof {
                assert(param_changed_action(
                    *old(self),
                    id,
                    param_view(param),
                    None::<FixateFormat>,
                ) == crate::negotiate::NegotiationActionView::Unconfigured);
            }
            return crate::negotiate::NegotiationAction::Unconfigured;
        }
        let raw = match crate::parse::parse_video_raw_info(obj) {
            Err(_e) => {
                proof {
                    assert(param_changed_action(
                        *old(self),
                        id,
                        param_view(param),
                        None::<FixateFormat>,
                    ) == crate::negotiate::NegotiationActionView::Unconfigured);
                }
                return crate::negotiate::NegotiationAction::Unconfigured;
            },
            Ok(r) => r,
        };

        let mut formats: Vec<crate::format::Format> = Vec::new();
        formats.push(raw.format);
        let modifiers = copy_tokens(&raw.modifiers);
        let fx = backend.fixate_format(EnumFormatInfo { formats, modifiers });

        match fx {
            Some(f) => {
                if f.planes > 0x7fff_ffff {
                    proof {
                        assert(param_changed_action(*old(self), id, param_view(param), fx)
                            == crate::negotiate::NegotiationActionView::Unconfigured);
                    }
                    return crate::negotiate::NegotiationAction::Unconfigured;
                }
            },
            None => {},
        }

        let action = crate::negotiate::negotiate_param_change(
            self.width,
            self.height,
            &self.enum_formats,
            &raw,
            fx,
        );
        if matches!(action, crate::negotiate::NegotiationAction::UpdateBufferParams(_)) {
            self.fixated = fx;
        }
        proof {
            assert(param_changed_action(*old(self), id, param_view(param), fx) == action@);
        }
        action
    }
}

} // verus!
