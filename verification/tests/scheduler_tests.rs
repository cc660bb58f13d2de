use pw_capture_core::backend::{CaptureBackend, StreamInfo};
use pw_capture_core::format::{EnumFormatInfo, FixateFormat, Format, TransferFunction};
use pw_capture_core::pool::{BufferInfo, BufferPlaneInfo, BufferUserHandle};
use pw_capture_core::select::{
    build_enum_formats, candidate_formats, choose_modifier, choose_queue, order_modifiers,
    plan_fixation, should_reuse_commands, CommandResources, DrmModifierProps, FixationPlan,
    FormatModifiers, QueueCaps, VkFormatInfo,
};
use pw_capture_core::stream_core::{StreamCore, StreamState};
use pw_capture_core::swapchain::{capture, present_wait_semaphores, DeliveryCheck, SwapchainCapture};

const NV_MODIFIER: u64 = 72057594037927953;

struct SchedBackend {
    next_handle: u64,
}

impl CaptureBackend for SchedBackend {
    fn fixate_format(&mut self, _info: EnumFormatInfo) -> Option<FixateFormat> {
        Some(FixateFormat { modifier: Some(NV_MODIFIER), planes: 1 })
    }

    fn add_buffer(&mut self) -> Option<BufferInfo> {
        let handle = self.next_handle;
        self.next_handle += 1;
        let planes = vec![BufferPlaneInfo { fd: (100 + handle) as i64, offset: 0, size: 4096, stride: 256 }];
        Some(BufferInfo { is_dma_buf: true, planes, user_handle: BufferUserHandle::VkImage(handle) })
    }

    fn remove_buffer(&mut self, _user_handle: BufferUserHandle) {}

    fn process_buffer(&mut self, _user_handle: BufferUserHandle) {}
}

fn ready_swapchain(buffers: usize) -> SwapchainCapture {
    let mut backend = SchedBackend { next_handle: 1 };
    let info = StreamInfo {
        width: 1920,
        height: 1080,
        enum_formats: vec![EnumFormatInfo { formats: vec![Format::Bgra8], modifiers: vec![0] }],
    };
    let mut core = StreamCore::new(info);
    for _ in 0..buffers {
        assert!(core.on_add_buffer(&mut backend, 1).is_some());
    }
    core.on_state_changed(StreamState::Streaming);
    core.set_driving(true);

    let semaphores = vec![501, 502, 503];
    let mut swap = SwapchainCapture::new(1920, 1080, Format::Bgra8, &semaphores);
    swap.export_format = Some(Format::Bgra8);
    for handle in 1..=buffers as u64 {
        swap.register_export(handle);
    }
    swap.attach_stream(core);
    swap
}

#[test]
fn capture_waits_then_submits_one_generation() {
    let mut swap = ready_swapchain(2);
    let sems = swap.capture_swapchain(0).expect("the first capture must succeed");
    assert_eq!(sems, vec![501], "presentation waits on the image's completion semaphores");
    assert!(swap.images[0].fence_pending, "a capture is in flight for image 0");
    assert_eq!(swap.images[0].seq, 1);
    assert!(!swap.images[1].fence_pending);
}

#[test]
fn capture_without_stream_skips_the_frame() {
    let mut swap = ready_swapchain(1);
    swap.teardown();
    assert!(swap.capture_swapchain(0).is_none());
}

#[test]
fn capture_without_fixated_format_skips_the_frame() {
    let mut swap = ready_swapchain(1);
    swap.export_format = None;
    assert!(swap.capture_swapchain(0).is_none());
}

#[test]
fn delivery_of_last_writer_waits_out_the_fence() {
    let mut swap = ready_swapchain(2);
    assert!(swap.capture_swapchain(0).is_some());
    // The dequeued buffer carried handle 1: its last writer is image 0 at
    // generation 1, which is still the image's current generation.
    assert_eq!(swap.on_delivery(1), DeliveryCheck::Waited);
    assert!(!swap.images[0].fence_pending);
}

#[test]
fn delivery_of_stale_generation_does_not_wait() {
    let mut swap = ready_swapchain(2);
    assert!(swap.capture_swapchain(0).is_some());
    swap.on_delivery(1);
    // A second capture of image 0 lands in buffer 2 at generation 2;
    // buffer 1 still records generation 1 and is no longer the last
    // writer.
    assert!(swap.capture_swapchain(0).is_some());
    assert_eq!(swap.on_delivery(1), DeliveryCheck::NotLastWriter);
    assert!(swap.images[0].fence_pending, "a stale delivery must not reset the fence");
}

#[test]
fn delivery_of_removed_export_is_benign() {
    let mut swap = ready_swapchain(1);
    assert!(swap.release_export(1));
    assert!(!swap.release_export(1), "the entry leaves the registry exactly once");
    assert_eq!(swap.on_delivery(1), DeliveryCheck::AlreadyRemoved);
}

#[test]
fn capture_round_collects_only_successful_swapchains() {
    let ready = ready_swapchain(1);
    let mut torn_down = ready_swapchain(1);
    torn_down.teardown();
    let mut swapchains = vec![ready, torn_down];
    let image_indices = vec![0, 0];
    let collected = capture(&mut swapchains, &image_indices);
    assert_eq!(collected, vec![501], "only the captured swapchain contributes semaphores");

    let original = vec![7, 8];
    assert_eq!(present_wait_semaphores(&original, &collected), vec![501]);
    let nothing: Vec<u64> = vec![];
    assert_eq!(
        present_wait_semaphores(&original, &nothing),
        vec![7, 8],
        "an uncaptured present keeps the application's own semaphores"
    );
}

#[test]
fn exhausted_pool_drops_the_frame_but_not_presentation() {
    let mut swap = ready_swapchain(1);
    assert!(swap.capture_swapchain(0).is_some());
    // The only buffer is now in flight: the next frame is dropped.
    assert!(swap.capture_swapchain(1).is_none());
    assert_eq!(swap.images[1].seq, 0, "a dropped frame submits no GPU work");
}

#[test]
fn modifier_choice_takes_first_supported_offer() {
    let supported = vec![
        DrmModifierProps { modifier: 7, plane_count: 3 },
        DrmModifierProps { modifier: NV_MODIFIER, plane_count: 2 },
        DrmModifierProps { modifier: 0, plane_count: 1 },
    ];
    let offered = vec![NV_MODIFIER, 0];
    assert_eq!(
        choose_modifier(&supported, &offered),
        Some(DrmModifierProps { modifier: NV_MODIFIER, plane_count: 2 })
    );
    let nothing: Vec<u64> = vec![99];
    assert_eq!(choose_modifier(&supported, &nothing), None);
}

#[test]
fn queue_choice_mirrors_the_backend_preference() {
    let queues = vec![
        QueueCaps { graphics: true, transfer: true },
        QueueCaps { graphics: false, transfer: true },
        QueueCaps { graphics: true, transfer: true },
    ];
    // A converting blit takes the first graphics queue.
    assert_eq!(choose_queue(&queues, true), Some(0));
    // A same-format copy prefers the transfer-only queue.
    assert_eq!(choose_queue(&queues, false), Some(1));
    // Without a transfer-only queue, the last transfer queue wins.
    let graphics_only = vec![
        QueueCaps { graphics: true, transfer: true },
        QueueCaps { graphics: true, transfer: true },
    ];
    assert_eq!(choose_queue(&graphics_only, false), Some(1));
    let none: Vec<QueueCaps> = vec![];
    assert_eq!(choose_queue(&none, false), None);
}

#[test]
fn command_resources_are_reused_only_when_they_fit() {
    let previous = Some(CommandResources { queue: 3, buffer_count: 4 });
    assert!(should_reuse_commands(&previous, 3, 4));
    assert!(should_reuse_commands(&previous, 3, 3));
    assert!(!should_reuse_commands(&previous, 3, 5));
    assert!(!should_reuse_commands(&previous, 4, 4));
    assert!(!should_reuse_commands(&None, 3, 4));
}

#[test]
fn implicit_modifier_moves_to_the_front() {
    let modifiers = vec![7, 0, NV_MODIFIER];
    assert_eq!(order_modifiers(&modifiers), vec![0, 7, NV_MODIFIER]);
    let untouched = vec![7, NV_MODIFIER];
    assert_eq!(order_modifiers(&untouched), vec![7, NV_MODIFIER]);
}

#[test]
fn catalog_groups_formats_by_modifier_list() {
    let candidates = vec![
        FormatModifiers { format: Format::Bgra8, modifiers: vec![7, 0] },
        FormatModifiers { format: Format::Rgba8, modifiers: vec![0, 7] },
        FormatModifiers { format: Format::Bgrx8, modifiers: vec![] },
        FormatModifiers { format: Format::Rgbx8, modifiers: vec![NV_MODIFIER] },
    ];
    let catalog = build_enum_formats(&candidates);
    assert_eq!(catalog.len(), 2);
    assert_eq!(catalog[0].formats, vec![Format::Bgra8, Format::Rgba8]);
    assert_eq!(catalog[0].modifiers, vec![0, 7]);
    assert_eq!(catalog[1].formats, vec![Format::Rgbx8]);
    assert_eq!(catalog[1].modifiers, vec![NV_MODIFIER]);
}

#[test]
fn candidate_formats_match_the_transfer_function() {
    let table = vec![
        VkFormatInfo { vk_format: 44, format: Format::Bgra8, transfer: TransferFunction::Linear },
        VkFormatInfo { vk_format: 50, format: Format::Rgba8, transfer: TransferFunction::Srgb },
        VkFormatInfo { vk_format: 37, format: Format::Rgba8, transfer: TransferFunction::Linear },
    ];
    let src = VkFormatInfo { vk_format: 44, format: Format::Bgra8, transfer: TransferFunction::Linear };
    assert_eq!(
        candidate_formats(&table, src),
        vec![
            src,
            VkFormatInfo { vk_format: 37, format: Format::Rgba8, transfer: TransferFunction::Linear },
        ]
    );
    let unknown = VkFormatInfo { vk_format: 99, format: Format::Unknown, transfer: TransferFunction::Srgb };
    assert_eq!(
        candidate_formats(&table, unknown),
        vec![VkFormatInfo { vk_format: 50, format: Format::Rgba8, transfer: TransferFunction::Srgb }]
    );
}

#[test]
fn fixation_plan_composes_the_backend_decisions() {
    let supported = vec![
        DrmModifierProps { modifier: NV_MODIFIER, plane_count: 2 },
        DrmModifierProps { modifier: 0, plane_count: 1 },
    ];
    let offered = vec![NV_MODIFIER];
    let queues = vec![
        QueueCaps { graphics: true, transfer: true },
        QueueCaps { graphics: false, transfer: true },
    ];
    let queue_handles = vec![900, 901];
    let previous = Some(CommandResources { queue: 901, buffer_count: 3 });

    let plan = plan_fixation(&supported, &offered, &queues, &queue_handles, false, &previous, 3)
        .expect("a supported offer must fixate");
    assert_eq!(
        plan,
        FixationPlan {
            fixated: FixateFormat { modifier: Some(NV_MODIFIER), planes: 2 },
            queue_index: 1,
            reuse_commands: true,
        }
    );

    // A blit needs graphics, so the first graphics queue wins and the old
    // transfer-queue resources no longer fit.
    let blit_plan = plan_fixation(&supported, &offered, &queues, &queue_handles, true, &previous, 3)
        .expect("a supported offer must fixate");
    assert_eq!(blit_plan.queue_index, 0);
    assert!(!blit_plan.reuse_commands);

    // Memory-mapped export (no modifiers) is unsupported: the candidate is
    // rejected rather than guessed at.
    let empty: Vec<u64> = vec![];
    assert!(plan_fixation(&supported, &empty, &queues, &queue_handles, false, &previous, 3).is_none());
}

#[test]
fn blit_is_needed_exactly_when_formats_differ() {
    let mut swap = ready_swapchain(1);
    assert!(!swap.needs_blit(), "matching formats take a same-format copy");
    swap.export_format = Some(Format::Rgba8);
    assert!(swap.needs_blit(), "a differing export format takes a converting blit");
}

#[test]
fn teardown_fence_waits_every_image() {
    let mut swap = ready_swapchain(2);
    assert!(swap.capture_swapchain(0).is_some());
    assert!(swap.images[0].fence_pending);
    swap.teardown();
    assert!(swap.stream.is_none());
    assert!(!swap.images[0].fence_pending, "teardown drains in-flight GPU work");
    assert!(!swap.images[1].fence_pending);
}
