use pw_capture_core::backend::{CaptureBackend, StreamInfo};
use pw_capture_core::format::{EnumFormatInfo, FixateFormat, VideoRawInfo};
use pw_capture_core::negotiate::{negotiate_param_change, NegotiationAction};
use pw_capture_core::params::{build_format, build_stream_params, ParamId, PodValue};
use pw_capture_core::parse::{parse_video_raw_info, ParseError};
use pw_capture_core::pool::{BufferInfo, BufferPlaneInfo, BufferUserHandle};
use pw_capture_core::stream_core::{StreamCore, StreamState};

const NV_MODIFIER: u64 = 72057594037927953;

struct MockBackend {
    fixate_result: Option<FixateFormat>,
    fixate_calls: u64,
    add_calls: u64,
    next_handle: u64,
    plane_count: usize,
}

impl MockBackend {
    fn new(fixate_result: Option<FixateFormat>, plane_count: usize) -> MockBackend {
        MockBackend { fixate_result, fixate_calls: 0, add_calls: 0, next_handle: 1, plane_count }
    }
}

impl CaptureBackend for MockBackend {
    fn fixate_format(&mut self, _info: EnumFormatInfo) -> Option<FixateFormat> {
        self.fixate_calls += 1;
        self.fixate_result
    }

    fn add_buffer(&mut self) -> Option<BufferInfo> {
        self.add_calls += 1;
        let handle = self.next_handle;
        self.next_handle += 1;
        let mut planes = Vec::new();
        for plane in 0..self.plane_count {
            planes.push(BufferPlaneInfo {
                fd: (100 + handle) as i64,
                offset: (plane as u32) * 4096,
                size: 4096,
                stride: 256,
            });
        }
        Some(BufferInfo { is_dma_buf: true, planes, user_handle: BufferUserHandle::VkImage(handle) })
    }

    fn remove_buffer(&mut self, _user_handle: BufferUserHandle) {}

    fn process_buffer(&mut self, _user_handle: BufferUserHandle) {}
}

fn catalog() -> Vec<EnumFormatInfo> {
    vec![EnumFormatInfo { formats: vec![pw_capture_core::format::Format::Bgra8], modifiers: vec![
        0, NV_MODIFIER,
    ] }]
}

#[test]
fn advertised_format_parses_back() {
    let formats = vec![pw_capture_core::format::Format::Bgra8];
    let modifiers: Vec<u64> = vec![0, NV_MODIFIER];
    let obj = build_format(1920, 1080, &formats, &modifiers, false);
    let raw = parse_video_raw_info(&obj).expect("advertisement must parse");
    assert_eq!(raw.format, pw_capture_core::format::Format::Bgra8);
    assert_eq!(raw.modifiers, vec![0, NV_MODIFIER]);
    assert!(raw.dont_fixate_modifier);
}

#[test]
fn pinned_format_parses_without_dont_fixate() {
    let formats = vec![pw_capture_core::format::Format::Bgra8];
    let modifiers: Vec<u64> = vec![NV_MODIFIER];
    let obj = build_format(1920, 1080, &formats, &modifiers, true);
    let raw = parse_video_raw_info(&obj).expect("pinned advertisement must parse");
    assert_eq!(raw.modifiers, vec![NV_MODIFIER]);
    assert!(!raw.dont_fixate_modifier);
}

#[test]
fn parse_rejects_non_format_objects() {
    let params = build_stream_params(1, true);
    assert!(matches!(parse_video_raw_info(&params[0]), Err(ParseError::NotFormatObject)));
}

#[test]
fn parse_rejects_missing_format_property() {
    let formats = vec![pw_capture_core::format::Format::Bgra8];
    let modifiers: Vec<u64> = vec![];
    let mut obj = build_format(16, 16, &formats, &modifiers, false);
    obj.properties.remove(2);
    assert!(matches!(parse_video_raw_info(&obj), Err(ParseError::MissingFormat)));
}

#[test]
fn rejected_candidate_leaves_stream_unconfigured() {
    let raw = VideoRawInfo {
        format: pw_capture_core::format::Format::Bgra8,
        modifiers: vec![NV_MODIFIER],
        dont_fixate_modifier: false,
    };
    let action = negotiate_param_change(1920, 1080, &catalog(), &raw, None);
    assert!(matches!(action, NegotiationAction::Unconfigured));
}

#[test]
fn discovery_round_readvertises_pinned_plus_catalog() {
    let raw = VideoRawInfo {
        format: pw_capture_core::format::Format::Bgra8,
        modifiers: vec![0, NV_MODIFIER],
        dont_fixate_modifier: true,
    };
    let fixated = Some(FixateFormat { modifier: Some(NV_MODIFIER), planes: 2 });
    let action = negotiate_param_change(1920, 1080, &catalog(), &raw, fixated);
    match action {
        NegotiationAction::UpdateFormatParams(params) => {
            assert_eq!(params.len(), 1 + catalog().len());
            let pinned = &params[0];
            let modifier_prop = &pinned.properties[5];
            assert!(matches!(modifier_prop.value, PodValue::Long(m) if m == NV_MODIFIER as i64));
            assert!(!modifier_prop.flags.dont_fixate);
        }
        other => panic!("expected a re-advertisement, got {:?}", other),
    }
}

#[test]
fn fixation_pushes_buffer_params_for_plane_count() {
    let raw = VideoRawInfo {
        format: pw_capture_core::format::Format::Bgra8,
        modifiers: vec![NV_MODIFIER],
        dont_fixate_modifier: false,
    };
    let fixated = Some(FixateFormat { modifier: Some(NV_MODIFIER), planes: 2 });
    let action = negotiate_param_change(1920, 1080, &catalog(), &raw, fixated);
    match action {
        NegotiationAction::UpdateBufferParams(params) => {
            assert_eq!(params.len(), 2);
            assert!(matches!(params[0].properties[1].value, PodValue::Int(2)));
        }
        other => panic!("expected buffer parameters, got {:?}", other),
    }
}

#[test]
fn redelivered_notification_decides_the_same_and_allocates_nothing() {
    let info = StreamInfo { width: 1920, height: 1080, enum_formats: catalog() };
    let mut core = StreamCore::new(info);
    let mut backend = MockBackend::new(
        Some(FixateFormat { modifier: Some(NV_MODIFIER), planes: 2 }),
        2,
    );

    let formats = vec![pw_capture_core::format::Format::Bgra8];
    let modifiers: Vec<u64> = vec![NV_MODIFIER];
    let notification = build_format(1920, 1080, &formats, &modifiers, true);

    let first = core.on_param_changed(&mut backend, ParamId::Format, Some(&notification));
    let fixated_after_first = core.fixated;
    let second = core.on_param_changed(&mut backend, ParamId::Format, Some(&notification));

    assert!(matches!(first, NegotiationAction::UpdateBufferParams(_)));
    assert!(matches!(second, NegotiationAction::UpdateBufferParams(_)));
    assert_eq!(core.fixated, fixated_after_first);
    assert_eq!(core.fixated, Some(FixateFormat { modifier: Some(NV_MODIFIER), planes: 2 }));
    assert_eq!(backend.add_calls, 0, "negotiation must not allocate buffers");
    assert_eq!(backend.fixate_calls, 2);
}

#[test]
fn ignored_parameter_ids_change_nothing() {
    let info = StreamInfo { width: 1920, height: 1080, enum_formats: catalog() };
    let mut core = StreamCore::new(info);
    let mut backend = MockBackend::new(None, 1);
    let formats = vec![pw_capture_core::format::Format::Bgra8];
    let modifiers: Vec<u64> = vec![];
    let notification = build_format(1920, 1080, &formats, &modifiers, false);
    let action = core.on_param_changed(&mut backend, ParamId::Buffers, Some(&notification));
    assert!(matches!(action, NegotiationAction::Unconfigured));
    assert_eq!(backend.fixate_calls, 0);
    assert_eq!(core.fixated, None);
}

#[test]
fn full_negotiation_scenario_fills_pool_before_streaming() {
    // Catalog with one group: BGRA8 under the implicit and one vendor
    // modifier.  The consumer answers with only the vendor modifier and no
    // don't-fixate flag, so fixation picks it; the plane count follows the
    // DRM layout; and the bus then allocates the advertised default number
    // of buffers before the stream starts.
    let info = StreamInfo { width: 1920, height: 1080, enum_formats: catalog() };
    let mut core = StreamCore::new(info);
    let mut backend = MockBackend::new(
        Some(FixateFormat { modifier: Some(NV_MODIFIER), planes: 2 }),
        2,
    );

    let formats = vec![pw_capture_core::format::Format::Bgra8];
    let modifiers: Vec<u64> = vec![NV_MODIFIER];
    // The don't-fixate flag is unset: the consumer committed to the single
    // vendor modifier.
    let notification = build_format(1920, 1080, &formats, &modifiers, true);
    let action = core.on_param_changed(&mut backend, ParamId::Format, Some(&notification));

    let blocks = match action {
        NegotiationAction::UpdateBufferParams(params) => match params[0].properties[1].value {
            PodValue::Int(blocks) => blocks,
            ref other => panic!("expected a block count, got {:?}", other),
        },
        other => panic!("expected buffer parameters, got {:?}", other),
    };
    assert_eq!(blocks, 2, "plane count must follow the DRM layout");
    assert_eq!(core.fixated, Some(FixateFormat { modifier: Some(NV_MODIFIER), planes: 2 }));

    // The bus honours the advertised default buffer count.
    let buffer_count = pw_capture_core::DEFAULT_BUFFER_COUNT as usize;
    for _ in 0..buffer_count {
        let added = core.on_add_buffer(&mut backend, blocks as usize);
        assert!(added.is_some());
    }
    assert_eq!(backend.add_calls as usize, buffer_count);
    assert_eq!(core.slots.len(), buffer_count);

    core.on_state_changed(StreamState::Streaming);
    core.set_driving(true);
    assert!(core.dequeue_buffer().is_some());
}
