use pw_capture_core::backend::{CaptureBackend, StreamInfo};
use pw_capture_core::bridge::{dispatch, StreamMessage, StreamReply};
use pw_capture_core::format::{EnumFormatInfo, FixateFormat, Format};
use pw_capture_core::pool::{BufferHandle, BufferInfo, BufferPlaneInfo, BufferUserHandle};
use pw_capture_core::stream_core::{ProcessOutcome, QueueError, StreamCore, StreamState};
use pw_capture_core::{MAX_BUFFERS, MAX_PROCESS_BUFFERS};

struct PoolBackend {
    next_handle: u64,
    fail_add: bool,
    add_calls: u64,
    removed: Vec<u64>,
    processed: Vec<u64>,
}

impl PoolBackend {
    fn new() -> PoolBackend {
        PoolBackend { next_handle: 1, fail_add: false, add_calls: 0, removed: Vec::new(), processed: Vec::new() }
    }
}

impl CaptureBackend for PoolBackend {
    fn fixate_format(&mut self, _info: EnumFormatInfo) -> Option<FixateFormat> {
        None
    }

    fn add_buffer(&mut self) -> Option<BufferInfo> {
        self.add_calls += 1;
        if self.fail_add {
            return None;
        }
        let handle = self.next_handle;
        self.next_handle += 1;
        let planes = vec![BufferPlaneInfo { fd: (100 + handle) as i64, offset: 0, size: 4096, stride: 256 }];
        Some(BufferInfo { is_dma_buf: true, planes, user_handle: BufferUserHandle::VkImage(handle) })
    }

    fn remove_buffer(&mut self, user_handle: BufferUserHandle) {
        let BufferUserHandle::VkImage(handle) = user_handle;
        self.removed.push(handle);
    }

    fn process_buffer(&mut self, user_handle: BufferUserHandle) {
        let BufferUserHandle::VkImage(handle) = user_handle;
        self.processed.push(handle);
    }
}

fn fresh_core() -> StreamCore {
    let info = StreamInfo {
        width: 640,
        height: 480,
        enum_formats: vec![EnumFormatInfo { formats: vec![Format::Bgra8], modifiers: vec![0] }],
    };
    StreamCore::new(info)
}

fn streaming_core_with_buffers(backend: &mut PoolBackend, count: usize) -> StreamCore {
    let mut core = fresh_core();
    for _ in 0..count {
        let added = core.on_add_buffer(backend, 1);
        assert!(added.is_some());
    }
    core.on_state_changed(StreamState::Streaming);
    core.set_driving(true);
    core
}

#[test]
fn backpressure_rejects_fifth_unconsumed_buffer() {
    let mut backend = PoolBackend::new();
    let mut core = streaming_core_with_buffers(&mut backend, 5);
    for k in 0..MAX_PROCESS_BUFFERS {
        let r = core.queue_buffer_process(BufferHandle { token: k as u64 });
        assert_eq!(r, Ok(()), "buffer {} must fit the backpressure window", k);
    }
    let fifth = core.queue_buffer_process(BufferHandle { token: 4 });
    assert_eq!(fifth, Err(QueueError::ChannelFull));
    // The rejected buffer was not queued: draining yields exactly the
    // first four tokens, none duplicated.
    let mut backend2 = PoolBackend::new();
    let mut seen = Vec::new();
    loop {
        match core.on_process(&mut backend2, 0) {
            ProcessOutcome::Delivered(BufferUserHandle::VkImage(h)) => seen.push(h),
            ProcessOutcome::Skipped => panic!("queued buffers must still be live"),
            ProcessOutcome::Unscheduled => break,
        }
    }
    assert_eq!(seen.len(), MAX_PROCESS_BUFFERS);
}

#[test]
fn pool_exhaustion_drops_the_next_frame() {
    let mut backend = PoolBackend::new();
    let mut core = streaming_core_with_buffers(&mut backend, MAX_BUFFERS as usize);
    for k in 0..MAX_BUFFERS as usize {
        assert!(core.dequeue_buffer().is_some(), "dequeue {} must succeed", k);
    }
    assert!(core.dequeue_buffer().is_none(), "the dequeue past the pool bound must yield nothing");
    // A consumer return makes capture possible again.
    assert!(core.on_buffer_released(0));
    assert!(core.dequeue_buffer().is_some());
}

#[test]
fn dequeue_requires_streaming_and_driving() {
    let mut backend = PoolBackend::new();
    let mut core = fresh_core();
    assert!(core.on_add_buffer(&mut backend, 1).is_some());
    assert!(core.dequeue_buffer().is_none(), "an unconnected stream hands out nothing");
    core.on_state_changed(StreamState::Streaming);
    assert!(core.dequeue_buffer().is_none(), "a non-driving stream hands out nothing");
    core.set_driving(true);
    assert!(core.dequeue_buffer().is_some());
}

#[test]
fn broken_slot_is_requeued_and_skipped() {
    let mut backend = PoolBackend::new();
    backend.fail_add = true;
    let mut core = streaming_core_with_buffers(&mut backend, 0);
    let added = core.on_add_buffer(&mut backend, 1);
    assert!(added.is_none(), "a failed allocation marks the slot invalid");
    assert_eq!(core.slots.len(), 1, "the invalid slot still exists; the pool is not failed");
    assert!(core.dequeue_buffer().is_none());
    assert_eq!(core.available.len(), 1, "the broken buffer goes back to the queue");
}

#[test]
fn pool_conservation_under_adds_and_removes() {
    let mut backend = PoolBackend::new();
    let mut core = streaming_core_with_buffers(&mut backend, 3);
    let h2 = BufferUserHandle::VkImage(2);
    assert!(core.handle_live(h2));
    let removed = core.on_remove_buffer(&mut backend, 1);
    assert_eq!(removed, Some(h2));
    assert!(!core.handle_live(h2));
    assert!(core.handle_live(BufferUserHandle::VkImage(1)));
    assert!(core.handle_live(BufferUserHandle::VkImage(3)));
    assert_eq!(backend.removed, vec![2]);
}

#[test]
fn no_delivery_after_removal() {
    let mut backend = PoolBackend::new();
    let mut core = streaming_core_with_buffers(&mut backend, 2);
    let (buffer, _handle) = core.dequeue_buffer().expect("a buffer must be free");
    assert_eq!(core.queue_buffer_process(buffer), Ok(()));
    // The export behind the queued buffer is removed before the bus's
    // real-time thread runs: the delivery is skipped, not an error, and
    // the backend never sees the dead handle.
    core.on_remove_buffer(&mut backend, buffer.token);
    assert_eq!(core.on_process(&mut backend, 1000), ProcessOutcome::Skipped);
    assert!(backend.processed.is_empty());
}

#[test]
fn process_stamps_delivery_metadata() {
    let mut backend = PoolBackend::new();
    let mut core = streaming_core_with_buffers(&mut backend, 2);
    let (buffer, handle) = core.dequeue_buffer().expect("a buffer must be free");
    assert_eq!(core.queue_buffer_process(buffer), Ok(()));
    let outcome = core.on_process(&mut backend, 123_456_789);
    assert_eq!(outcome, ProcessOutcome::Delivered(handle));
    let slot = &core.slots[buffer.token as usize];
    let header = slot.header.expect("the delivery header must exist");
    assert_eq!(header.pts, 123_456_789);
    assert_eq!(header.seq, 0);
    assert_eq!(header.flags, 0);
    assert_eq!(header.offset, 0);
    assert_eq!(header.dts_offset, 0);
    assert_eq!(slot.size, 1);
    assert_eq!(core.seq, 1, "the delivery sequence advances once per delivery");
    let BufferUserHandle::VkImage(h) = handle;
    assert_eq!(backend.processed, vec![h]);
}

#[test]
fn unscheduled_process_is_benign() {
    let mut backend = PoolBackend::new();
    let mut core = streaming_core_with_buffers(&mut backend, 1);
    assert_eq!(core.on_process(&mut backend, 0), ProcessOutcome::Unscheduled);
    assert_eq!(core.seq, 0);
}

#[test]
fn pause_drains_unprocessed_buffers() {
    let mut backend = PoolBackend::new();
    let mut core = streaming_core_with_buffers(&mut backend, 3);
    assert_eq!(core.queue_buffer_process(BufferHandle { token: 0 }), Ok(()));
    assert_eq!(core.queue_buffer_process(BufferHandle { token: 1 }), Ok(()));
    core.on_state_changed(StreamState::Paused);
    assert_eq!(core.on_process(&mut backend, 0), ProcessOutcome::Unscheduled);
    assert!(backend.processed.is_empty());
}

#[test]
fn terminate_runs_callback_exactly_once() {
    let mut backend = PoolBackend::new();
    let mut core = streaming_core_with_buffers(&mut backend, 2);
    assert_eq!(core.terminate(), Ok(()));
    assert!(core.terminated);
    assert_eq!(core.terminate_runs, 1);
    assert_eq!(core.state, StreamState::Unconnected);
    assert_eq!(core.terminate(), Ok(()));
    assert_eq!(core.terminate_runs, 1, "the termination callback must not run again");
}

#[test]
fn stray_callbacks_after_terminate_are_safe() {
    let mut backend = PoolBackend::new();
    let mut core = streaming_core_with_buffers(&mut backend, 2);
    assert_eq!(core.terminate(), Ok(()));

    // A stray add callback takes nothing into the pool.
    assert!(core.on_add_buffer(&mut backend, 1).is_none());
    assert_eq!(core.slots.len(), 2);

    // A stray remove for a pre-termination handle still releases the
    // export — exactly once, even when it comes again.
    let removed = core.on_remove_buffer(&mut backend, 0);
    assert_eq!(removed, Some(BufferUserHandle::VkImage(1)));
    assert_eq!(backend.removed, vec![1]);
    assert_eq!(core.on_remove_buffer(&mut backend, 0), None);
    assert_eq!(backend.removed, vec![1], "the descriptors behind the handle close exactly once");

    // A stray process finds the channel drained.
    assert_eq!(core.on_process(&mut backend, 0), ProcessOutcome::Unscheduled);
}

#[test]
fn dispatch_reaches_the_live_stream_and_fails_silently_after_drop() {
    let mut backend = PoolBackend::new();
    let core = streaming_core_with_buffers(&mut backend, 1);
    let mut target = Some(core);

    match dispatch(&mut target, StreamMessage::DequeueBuffer) {
        StreamReply::Dequeued(Some((buffer, BufferUserHandle::VkImage(h)))) => {
            assert_eq!(buffer.token, 0);
            assert_eq!(h, 1);
        }
        other => panic!("expected a dequeued buffer, got {:?}", other),
    }
    match dispatch(&mut target, StreamMessage::Terminate) {
        StreamReply::Terminated(Ok(())) => {}
        other => panic!("expected a termination reply, got {:?}", other),
    }

    let mut gone: Option<StreamCore> = None;
    assert!(matches!(
        dispatch(&mut gone, StreamMessage::QueueBufferProcess(BufferHandle { token: 0 })),
        StreamReply::Disconnected
    ));
}

#[test]
fn duplicate_handles_are_not_attached_twice() {
    let mut backend = PoolBackend::new();
    let mut core = streaming_core_with_buffers(&mut backend, 1);
    backend.next_handle = 1;  // the next allocation reuses handle 1
    let added = core.on_add_buffer(&mut backend, 1);
    assert!(added.is_none(), "an already-live handle must not be attached again");
    assert_eq!(core.slots.len(), 2);
    assert!(core.slots[1].user_handle.is_none());
}

#[test]
fn initial_advertisement_covers_the_catalog() {
    let core = fresh_core();
    let params = core.initial_format_params();
    assert_eq!(params.len(), 1);
    assert_eq!(params[0].properties.len(), 6);
}
