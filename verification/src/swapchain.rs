//! The per-swapchain capture scheduler.
//!
//! Invoked on the GPU submission thread once per presented image: it
//! dequeues a free exported buffer through the message bridge, waits for
//! the source image's previous capture to complete, re-records and submits
//! the copy, records the new generation against the exported buffer's
//! last-writer entry, and queues the buffer for delivery.  A frame that
//! cannot be captured is dropped; presentation is never blocked.

use vstd::prelude::*;

use dashmap::DashMap;

use crate::bridge::{dispatch, StreamMessage, StreamReply};
use crate::format::Format;
use crate::pool::{BufferHandle, BufferUserHandle};
use crate::registry::{
    export_map_contains, export_map_contents, export_map_insert, export_map_new,
    export_map_remove, WriterRecord,
};
use crate::stream_core::{copy_tokens, dequeue_post, queue_post, terminate_post, StreamCore};

verus! {

/// The capture state of one source image: its completion semaphores,
/// whether a submitted capture is still in flight (the completion fence
/// has not been waited and reset), and the generation sequence of its
/// latest capture.
#[derive(Clone, Debug)]
pub struct ImageCaptureState {
    pub semaphores: Vec<u64>,
    pub fence_pending: bool,
    pub seq: u64,
}

/// Spec-level value of an [`ImageCaptureState`].
#[verifier::ext_equal]
pub struct ImageCaptureStateView {
    pub semaphores: Seq<u64>,
    pub fence_pending: bool,
    pub seq: u64,
}

impl View for ImageCaptureState {
    type V = ImageCaptureStateView;

    open spec fn view(&self) -> ImageCaptureStateView {
        ImageCaptureStateView {
            semaphores: self.semaphores@,
            fence_pending: self.fence_pending,
            seq: self.seq,
        }
    }
}

impl ImageCaptureState {
    /// Waits for this image's previous capture to complete and resets its
    /// completion fence.  This is the one point where the scheduler may
    /// block, bounded by GPU completion latency, never by the consumer.
    pub fn wait_and_reset_fence(&mut self)
        ensures
            final(self)@ == (ImageCaptureStateView { fence_pending: false, ..old(self)@ }),
    {
        self.fence_pending = false;
    }

    /// Records the capture commands anew and submits them, advancing the
    /// generation sequence and arming the completion fence.  The command
    /// buffer may only be re-recorded once the previous capture's fence
    /// has been waited and reset; the `requires` clause is that guarantee.
    pub fn record_and_submit(&mut self)
        requires
            !old(self).fence_pending,
            old(self).seq < u64::MAX,
        ensures
            final(self)@ == (ImageCaptureStateView {
                fence_pending: true,
                seq: (old(self)@.seq + 1) as u64,
                ..old(self)@
            }),
    {
        self.fence_pending = true;
        self.seq = self.seq + 1;
    }
}

/// Everything one swapchain needs for capture: its geometry and format,
/// the fixated export format once negotiation settled one, the per-image
/// capture states, the concurrent last-writer registry of the exported
/// buffers, and the stream connection.
pub struct SwapchainCapture {
    pub width: u32,
    pub height: u32,
    pub format: Format,
    pub export_format: Option<Format>,
    pub images: Vec<ImageCaptureState>,
    pub export_images: DashMap<u64, WriterRecord>,
    pub stream: Option<StreamCore>,
}

impl SwapchainCapture {
    /// The scheduler's structural invariant: a connected stream is
    /// well-formed.
    pub open spec fn wf(self) -> bool {
        self.stream matches Some(s) ==> s.wf()
    }

    /// All generation sequences still have room to advance.
    pub open spec fn seqs_in_range(self) -> bool {
        forall|k: int| 0 <= k < self.images@.len() ==> (#[trigger] self.images@[k])@.seq < u64::MAX
    }

    /// Creates the capture state for a swapchain: one image state per
    /// completion semaphore, nothing in flight, no export yet, and no
    /// stream until one is attached.
    pub fn new(width: u32, height: u32, format: Format, image_semaphores: &Vec<u64>) -> (r:
        SwapchainCapture)
        ensures
            r.wf(),
            r.width == width,
            r.height == height,
            r.format == format,
            r.export_format is None,
            r.images@.len() == image_semaphores@.len(),
            forall|k: int|
                0 <= k < image_semaphores@.len() ==> (#[trigger] r.images@[k])@
                    == (ImageCaptureStateView {
                    semaphores: seq![image_semaphores@[k]],
                    fence_pending: false,
                    seq: 0,
                }),
            export_map_contents(r.export_images) == crate::registry::export_map_empty(),
            r.stream is None,
    {
        let mut images: Vec<ImageCaptureState> = Vec::new();
        let mut k: usize = 0;
        while k < image_semaphores.len()
            invariant
                k <= image_semaphores@.len(),
                images@.len() == k,
                forall|j: int|
                    0 <= j < k ==> (#[trigger] images@[j])@ == (ImageCaptureStateView {
                        semaphores: seq![image_semaphores@[j]],
                        fence_pending: false,
                        seq: 0,
                    }),
            decreases image_semaphores@.len() - k,
        {
            let mut semaphores: Vec<u64> = Vec::new();
            semaphores.push(image_semaphores[k]);
            images.push(ImageCaptureState { semaphores, fence_pending: false, seq: 0 });
            k = k + 1;
        }
        SwapchainCapture {
            width,
            height,
            format,
            export_format: None,
            images,
            export_images: export_map_new(),
            stream: None,
        }
    }

    /// Connects the stream this swapchain captures into.
    pub fn attach_stream(&mut self, stream: StreamCore)
        requires
            stream.wf(),
        ensures
            final(self).wf(),
            *final(self) == (SwapchainCapture { stream: Some(stream), ..*old(self) }),
    {
        self.stream = Some(stream);
    }

    /// Whether delivering into the export format takes a converting blit
    /// rather than a same-format copy.
    pub fn needs_blit(&self) -> (r: bool)
        requires
            self.export_format is Some,
        ensures
            r == (self.export_format->0 != self.format),
    {
        match self.export_format {
            Some(ef) => ef != self.format,
            None => false,
        }
    }
}

/// What one capture attempt owes.  The stream is driven through the
/// bridge, so its part is stated by composing [`dequeue_post`] and
/// [`queue_post`] over the intermediate stream states; everything the
/// scheduler itself touches — the image's fence and generation, and the
/// last-writer registry — is pinned exactly.  Every failure path hands
/// back no semaphores and leaves presentation to proceed unmodified.
pub open spec fn capture_swapchain_post(
    pre: SwapchainCapture,
    post: SwapchainCapture,
    image_index: int,
    r: Option<Vec<u64>>,
) -> bool {
    match pre.stream {
        None => {
            &&& post == pre
            &&& r is None
        },
        Some(s0) => {
            exists|s1: StreamCore, dq: Option<(BufferHandle, BufferUserHandle)>|
                #[trigger] dequeue_post(s0, s1, dq) && match dq {
                    None => {
                        &&& post == (SwapchainCapture { stream: Some(s1), ..pre })
                        &&& r is None
                    },
                    Some((buffer, handle)) => {
                        let e = handle->0;
                        if pre.export_format is None || image_index >= pre.images@.len()
                            || !export_map_contents(pre.export_images).dom().contains(e) {
                            &&& post == (SwapchainCapture { stream: Some(s1), ..pre })
                            &&& r is None
                        } else {
                            let new_seq = (pre.images@[image_index]@.seq + 1) as u64;
                            &&& post.images@.len() == pre.images@.len()
                            &&& post.images@[image_index]@ == (ImageCaptureStateView {
                                fence_pending: true,
                                seq: new_seq,
                                ..pre.images@[image_index]@
                            })
                            &&& forall|k: int|
                                0 <= k < pre.images@.len() && k != image_index
                                    ==> post.images@[k] == pre.images@[k]
                            &&& export_map_contents(post.export_images) == export_map_contents(
                                pre.export_images,
                            ).insert(e, (image_index as u64, new_seq))
                            &&& exists|s2: StreamCore, qr: Result<(), crate::stream_core::QueueError>|
                                #[trigger] queue_post(s1, s2, buffer, qr) && post.stream == Some(s2)
                                    && (match qr {
                                    Ok(_) => r matches Some(sems) && sems@ == pre.images@[
                                        image_index
                                    ]@.semaphores,
                                    Err(_) => r is None,
                                })
                            &&& post.width == pre.width
                            &&& post.height == pre.height
                            &&& post.format == pre.format
                            &&& post.export_format == pre.export_format
                        }
                    },
                }
        },
    }
}

impl SwapchainCapture {
    /// Captures the presented source image into a free exported buffer, as
    /// [`capture_swapchain_post`] states: dequeue through the bridge (a
    /// drop-frame policy — nothing free means no capture), wait-and-reset
    /// the source image's previous completion fence, re-record and submit,
    /// record the new generation as the buffer's last writer, and queue the
    /// buffer for delivery.  Returns the semaphores the presentation should
    /// wait on instead of the application's own, or nothing when this
    /// frame went uncaptured.
    pub fn capture_swapchain(&mut self, image_index: usize) -> (r: Option<Vec<u64>>)
        requires
            old(self).wf(),
            old(self).seqs_in_range(),
        ensures
            final(self).wf(),
            capture_swapchain_post(*old(self), *final(self), image_index as int, r),
    {
        if self.stream.is_none() {
            return None;
        }

        let reply = dispatch(&mut self.stream, StreamMessage::DequeueBuffer);
        let (buffer, user_handle) = match reply {
            StreamReply::Dequeued(Some(pair)) => pair,
            _ => {
                return None;
            },
        };
        let export_image: u64 = match user_handle {
            BufferUserHandle::VkImage(image) => image,
        };

        if self.export_format.is_none() {
            return None;
        }
        if image_index >= self.images.len() {
            return None;
        }
        if !export_map_contains(&self.export_images, export_image) {
            return None;
        }

        self.images[image_index].wait_and_reset_fence();
        self.images[image_index].record_and_submit();
        let new_seq = self.images[image_index].seq;

        let _displaced = export_map_insert(
            &mut self.export_images,
            export_image,
            (image_index as u64, new_seq),
        );

        let reply2 = dispatch(&mut self.stream, StreamMessage::QueueBufferProcess(buffer));
        match reply2 {
            StreamReply::Queued(Ok(())) => {},
            _ => {
                return None;
            },
        }

        let sems = copy_tokens(&self.images[image_index].semaphores);
        Some(sems)
    }

    /// Waits out a just-acquired source image's previous capture before
    /// the application may render into it again, as the acquire path
    /// does.  An index outside the image set reports failure and changes
    /// nothing.
    pub fn wait_image(&mut self, image_index: usize) -> (ok: bool)
        requires
            old(self).wf(),
        ensures
            final(self).wf(),
            ok == (image_index < old(self).images@.len()),
            ok ==> {
                &&& final(self).images@.len() == old(self).images@.len()
                &&& final(self).images@[image_index as int]@ == (ImageCaptureStateView {
                    fence_pending: false,
                    ..old(self).images@[image_index as int]@
                })
                &&& forall|k: int|
                    0 <= k < old(self).images@.len() && k != image_index as int
                        ==> final(self).images@[k] == old(self).images@[k]
                &&& final(self).export_images == old(self).export_images
                &&& final(self).stream == old(self).stream
                &&& final(self).width == old(self).width
                &&& final(self).height == old(self).height
                &&& final(self).format == old(self).format
                &&& final(self).export_format == old(self).export_format
            },
            !ok ==> *final(self) == *old(self),
    {
        if image_index >= self.images.len() {
            return false;
        }
        self.images[image_index].wait_and_reset_fence();
        true
    }

    /// The backend's view of a delivery: whether the exported buffer's
    /// last writer has completed.
    pub fn on_delivery(&mut self, export_image: u64) -> (r: DeliveryCheck)
        requires
            old(self).wf(),
        ensures
            final(self).wf(),
            delivery_post(*old(self), *final(self), export_image, r),
    {
        let record = match crate::registry::export_map_get(&self.export_images, export_image) {
            None => {
                return DeliveryCheck::AlreadyRemoved;
            },
            Some(rec) => rec,
        };
        let (src, generation) = record;
        if src >= self.images.len() as u64 {
            return DeliveryCheck::SourceGone;
        }
        let idx = src as usize;
        if generation == self.images[idx].seq {
            self.images[idx].wait_and_reset_fence();
            DeliveryCheck::Waited
        } else {
            DeliveryCheck::NotLastWriter
        }
    }

    /// Releases the last-writer entry of an exported buffer on the remove
    /// path.  A handle already gone is a no-op, so the entry — like the
    /// export behind it — is given back exactly once.
    pub fn release_export(&mut self, export_image: u64) -> (removed: bool)
        requires
            old(self).wf(),
        ensures
            final(self).wf(),
            removed == export_map_contents(old(self).export_images).dom().contains(export_image),
            export_map_contents(final(self).export_images) == export_map_contents(
                old(self).export_images,
            ).remove(export_image),
            final(self).images == old(self).images,
            final(self).stream == old(self).stream,
            final(self).width == old(self).width,
            final(self).height == old(self).height,
            final(self).format == old(self).format,
            final(self).export_format == old(self).export_format,
    {
        match export_map_remove(&mut self.export_images, export_image) {
            Some(_record) => true,
            None => false,
        }
    }

    /// Records the last-writer entry of a freshly exported buffer: no
    /// writer yet, generation zero.
    pub fn register_export(&mut self, export_image: u64)
        requires
            old(self).wf(),
        ensures
            final(self).wf(),
            export_map_contents(final(self).export_images) == export_map_contents(
                old(self).export_images,
            ).insert(export_image, (0u64, 0u64)),
            final(self).images == old(self).images,
            final(self).stream == old(self).stream,
            final(self).width == old(self).width,
            final(self).height == old(self).height,
            final(self).format == old(self).format,
            final(self).export_format == old(self).export_format,
    {
        let _displaced = export_map_insert(&mut self.export_images, export_image, (0, 0));
    }

    /// Tears the swapchain's capture down in the strict order: terminate
    /// the stream — which stops new captures, drains the processing
    /// channel, and runs the termination callback exactly once — then
    /// fence-wait every outstanding GPU submission, and only then drop the
    /// connection, so late messages find a disconnected bridge.  Freeing
    /// the command resources and the exports follows through the remove
    /// callbacks and the backend.
    pub fn teardown(&mut self)
        requires
            old(self).wf(),
        ensures
            final(self).wf(),
            final(self).stream is None,
            old(self).stream matches Some(s0) ==> exists|s1: StreamCore|
                #[trigger] terminate_post(s0, s1),
            final(self).images@.len() == old(self).images@.len(),
            forall|k: int|
                0 <= k < old(self).images@.len() ==> (#[trigger] final(self).images@[k])@
                    == (ImageCaptureStateView {
                    fence_pending: false,
                    ..old(self).images@[k]@
                }),
            final(self).export_images == old(self).export_images,
            final(self).width == old(self).width,
            final(self).height == old(self).height,
            final(self).format == old(self).format,
            final(self).export_format == old(self).export_format,
    {
        let _reply = dispatch(&mut self.stream, StreamMessage::Terminate);
        let mut k: usize = 0;
        while k < self.images.len()
            invariant
                k <= self.images@.len(),
                self.images@.len() == old(self).images@.len(),
                forall|j: int|
                    0 <= j < k ==> (#[trigger] self.images@[j])@ == (ImageCaptureStateView {
                        fence_pending: false,
                        ..old(self).images@[j]@
                    }),
                forall|j: int|
                    k <= j < self.images@.len() ==> self.images@[j] == old(self).images@[j],
                self.export_images == old(self).export_images,
                self.width == old(self).width,
                self.height == old(self).height,
                self.format == old(self).format,
                self.export_format == old(self).export_format,
                self.wf(),
                old(self).stream matches Some(s0) ==> exists|s1: StreamCore|
                    #[trigger] terminate_post(s0, s1),
            decreases self.images@.len() - k,
        {
            self.images[k].wait_and_reset_fence();
            k = k + 1;
        }
        self.stream = None;
    }
}

/// How a delivery check went.
#[derive(Clone, Copy, Debug, PartialEq, Eq, Structural)]
pub enum DeliveryCheck {
    /// The exported buffer was removed while the delivery was queued: a
    /// benign race, the delivery is skipped.
    AlreadyRemoved,
    /// The recorded source image no longer exists.
    SourceGone,
    /// The buffer holds the source image's latest capture: its completion
    /// fence was waited and reset.
    Waited,
    /// A newer capture of the source image has been submitted since; no
    /// wait is needed for this delivery.
    NotLastWriter,
}

/// What a delivery check owes: a removed buffer or a gone source changes
/// nothing; the last writer's delivery waits out that image's fence;
/// an out-generation delivery changes nothing.
pub open spec fn delivery_post(
    pre: SwapchainCapture,
    post: SwapchainCapture,
    export_image: u64,
    r: DeliveryCheck,
) -> bool {
    let contents = export_map_contents(pre.export_images);
    if !contents.dom().contains(export_image) {
        &&& r == DeliveryCheck::AlreadyRemoved
        &&& post == pre
    } else {
        let (src, generation) = contents[export_image];
        if src as int >= pre.images@.len() {
            &&& r == DeliveryCheck::SourceGone
            &&& post == pre
        } else if generation == pre.images@[src as int]@.seq {
            &&& r == DeliveryCheck::Waited
            &&& post.images@.len() == pre.images@.len()
            &&& post.images@[src as int]@ == (ImageCaptureStateView {
                fence_pending: false,
                ..pre.images@[src as int]@
            })
            &&& forall|k: int|
                0 <= k < pre.images@.len() && k != src as int ==> post.images@[k]
                    == pre.images@[k]
            &&& post.export_images == pre.export_images
            &&& post.stream == pre.stream
            &&& post.width == pre.width
            &&& post.height == pre.height
            &&& post.format == pre.format
            &&& post.export_format == pre.export_format
        } else {
            &&& r == DeliveryCheck::NotLastWriter
            &&& post == pre
        }
    }
}

/// The semaphores a capture round hands the presentation: those of each
/// captured swapchain, in order.
pub open spec fn collect_semaphores(rs: Seq<Option<Vec<u64>>>) -> Seq<u64>
    decreases rs.len(),
{
    if rs.len() == 0 {
        Seq::empty()
    } else {
        collect_semaphores(rs.drop_last()).add(
            match rs.last() {
                Some(v) => v@,
                None => Seq::empty(),
            },
        )
    }
}

/// Runs one capture round over every presented swapchain.  A failed or
/// skipped capture never stops the round: the remaining swapchains are
/// still captured, and only the semaphores of the successful ones are
/// collected for presentation.
pub fn capture(swapchains: &mut Vec<SwapchainCapture>, image_indices: &Vec<usize>) -> (
    new_semaphores: Vec<u64>)
    requires
        old(swapchains)@.len() == image_indices@.len(),
        forall|i: int|
            0 <= i < old(swapchains)@.len() ==> (#[trigger] old(swapchains)@[i]).wf() && old(
                swapchains,
            )@[i].seqs_in_range(),
    ensures
        final(swapchains)@.len() == old(swapchains)@.len(),
        forall|i: int| 0 <= i < final(swapchains)@.len() ==> (#[trigger] final(swapchains)@[i]).wf(),
        exists|rs: Seq<Option<Vec<u64>>>|
            {
                &&& rs.len() == old(swapchains)@.len()
                &&& (forall|i: int|
                    0 <= i < rs.len() ==> #[trigger] capture_swapchain_post(
                        old(swapchains)@[i],
                        final(swapchains)@[i],
                        image_indices@[i] as int,
                        rs[i],
                    ))
                &&& new_semaphores@ == collect_semaphores(rs)
            },
{
    let mut new_semaphores: Vec<u64> = Vec::new();
    let ghost mut rs: Seq<Option<Vec<u64>>> = Seq::empty();
    let mut i: usize = 0;
    while i < swapchains.len()
        invariant
            i <= swapchains@.len(),
            swapchains@.len() == old(swapchains)@.len(),
            image_indices@.len() == old(swapchains)@.len(),
            forall|k: int|
                0 <= k < old(swapchains)@.len() ==> (#[trigger] old(swapchains)@[k]).wf() && old(
                    swapchains,
                )@[k].seqs_in_range(),
            forall|k: int|
                (i as int) <= k < swapchains@.len() ==> #[trigger] swapchains@[k] == old(
                    swapchains,
                )@[k],
            forall|k: int| 0 <= k < swapchains@.len() ==> (#[trigger] swapchains@[k]).wf(),
            rs.len() == i,
            forall|k: int|
                0 <= k < i ==> #[trigger] capture_swapchain_post(
                    old(swapchains)@[k],
                    swapchains@[k],
                    image_indices@[k] as int,
                    rs[k],
                ),
            new_semaphores@ == collect_semaphores(rs),
        decreases swapchains@.len() - i,
    {
        let image_index = image_indices[i];
        let r = swapchains[i].capture_swapchain(image_index);
        proof {
            let prev = rs;
            rs = rs.push(r);
            assert(rs.drop_last() =~= prev);
            assert(rs.last() == r);
        }
        match &r {
            Some(sems) => {
                proof {
                    assert(sems@.subrange(0, 0) =~= Seq::<u64>::empty());
                    assert(collect_semaphores(rs.drop_last()).add(Seq::<u64>::empty())
                        =~= collect_semaphores(rs.drop_last()));
                }
                let mut j: usize = 0;
                while j < sems.len()
                    invariant
                        j <= sems@.len(),
                        new_semaphores@ == collect_semaphores(rs.drop_last()).add(
                            sems@.subrange(0, j as int),
                        ),
                        rs.last() == Some(*sems),
                        rs.len() >= 1,
                    decreases sems@.len() - j,
                {
                    new_semaphores.push(sems[j]);
                    proof {
                        assert(sems@.subrange(0, j as int + 1) =~= sems@.subrange(
                            0,
                            j as int,
                        ).push(sems@[j as int]));
                    }
                    j = j + 1;
                }
                proof {
                    assert(sems@.subrange(0, sems@.len() as int) =~= sems@);
                    assert(new_semaphores@ =~= collect_semaphores(rs));
                }
            },
            None => {
                proof {
                    assert(new_semaphores@ =~= collect_semaphores(rs));
                }
            },
        }
        i = i + 1;
    }
    new_semaphores
}

/// The wait-semaphore list the real presentation uses: the capture round's
/// semaphores when any capture succeeded, and the application's own list
/// unchanged otherwise.
pub fn present_wait_semaphores(original: &Vec<u64>, captured: &Vec<u64>) -> (r: Vec<u64>)
    ensures
        r@ == if captured@.len() > 0 {
            captured@
        } else {
            original@
        },
{
    if captured.len() > 0 {
        copy_tokens(captured)
    } else {
        copy_tokens(original)
    }
}

} // verus!
