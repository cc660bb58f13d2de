use pw_capture_core::format::Format;
use pw_capture_core::params::{
    build_format, build_stream_params, BufferDataType, IdValue, ObjectKind, ParamId, ParamKey,
    PodValue, META_HEADER_SIZE,
};
use pw_capture_core::{DEFAULT_BUFFER_COUNT, MAX_BUFFERS, MAX_PROCESS_BUFFERS};

#[test]
fn constants_match_policy() {
    assert_eq!(MAX_BUFFERS, 64);
    assert_eq!(MAX_PROCESS_BUFFERS, 4);
    assert_eq!(DEFAULT_BUFFER_COUNT, 8);
    assert_eq!(META_HEADER_SIZE, 32);
}

#[test]
fn stream_params_hold_buffer_bounds_and_meta() {
    let params = build_stream_params(2, true);
    assert_eq!(params.len(), 2);

    let buffers = &params[0];
    assert_eq!(buffers.kind, ObjectKind::ParamBuffers);
    assert_eq!(buffers.id, ParamId::Buffers);
    assert_eq!(buffers.properties.len(), 3);

    assert_eq!(buffers.properties[0].key, ParamKey::BuffersCount);
    assert!(matches!(
        buffers.properties[0].value,
        PodValue::RangeInt { default: 8, min: 1, max: 64 }
    ));

    assert_eq!(buffers.properties[1].key, ParamKey::BuffersBlocks);
    assert!(matches!(buffers.properties[1].value, PodValue::Int(2)));

    assert_eq!(buffers.properties[2].key, ParamKey::BuffersDataType);
    assert!(matches!(
        buffers.properties[2].value,
        PodValue::FlagsDataType { default: BufferDataType::DmaBuf }
    ));

    let meta = &params[1];
    assert_eq!(meta.kind, ObjectKind::ParamMeta);
    assert_eq!(meta.id, ParamId::Meta);
    assert_eq!(meta.properties.len(), 2);
    assert_eq!(meta.properties[0].key, ParamKey::MetaType);
    assert!(matches!(meta.properties[0].value, PodValue::Id(IdValue::MetaHeader)));
    assert_eq!(meta.properties[1].key, ParamKey::MetaSize);
    assert!(matches!(meta.properties[1].value, PodValue::Int(32)));
}

#[test]
fn stream_params_clamp_blocks_to_one() {
    let params = build_stream_params(0, false);
    assert!(matches!(params[0].properties[1].value, PodValue::Int(1)));
    assert!(matches!(
        params[0].properties[2].value,
        PodValue::FlagsDataType { default: BufferDataType::MemFd }
    ));
}

#[test]
fn format_object_single_format_without_modifiers() {
    let formats = vec![Format::Bgra8];
    let modifiers: Vec<u64> = vec![];
    let obj = build_format(1920, 1080, &formats, &modifiers, false);
    assert_eq!(obj.kind, ObjectKind::Format);
    assert_eq!(obj.id, ParamId::EnumFormat);
    assert_eq!(obj.properties.len(), 5);

    assert_eq!(obj.properties[0].key, ParamKey::MediaType);
    assert!(matches!(obj.properties[0].value, PodValue::Id(IdValue::MediaTypeVideo)));
    assert_eq!(obj.properties[1].key, ParamKey::MediaSubtype);
    assert!(matches!(obj.properties[1].value, PodValue::Id(IdValue::MediaSubtypeRaw)));
    assert_eq!(obj.properties[2].key, ParamKey::VideoFormat);
    assert!(matches!(
        obj.properties[2].value,
        PodValue::Id(IdValue::VideoFormat(Format::Bgra8))
    ));
    assert_eq!(obj.properties[3].key, ParamKey::VideoSize);
    assert!(matches!(
        obj.properties[3].value,
        PodValue::Rectangle { width: 1920, height: 1080 }
    ));
    assert_eq!(obj.properties[4].key, ParamKey::VideoFramerate);
    assert!(matches!(obj.properties[4].value, PodValue::Fraction { num: 0, denom: 1 }));
}

#[test]
fn format_object_offers_alternatives_under_dont_fixate() {
    let formats = vec![Format::Bgra8, Format::Rgba8];
    let modifiers: Vec<u64> = vec![0, 72057594037927953];
    let obj = build_format(640, 480, &formats, &modifiers, false);
    assert_eq!(obj.properties.len(), 6);

    match &obj.properties[2].value {
        PodValue::EnumId { default, alternatives } => {
            assert_eq!(*default, IdValue::VideoFormat(Format::Bgra8));
            assert_eq!(
                alternatives.as_slice(),
                &[
                    IdValue::VideoFormat(Format::Bgra8),
                    IdValue::VideoFormat(Format::Rgba8)
                ]
            );
        }
        other => panic!("expected an enumerated format choice, got {:?}", other),
    }

    let modifier_prop = &obj.properties[5];
    assert_eq!(modifier_prop.key, ParamKey::VideoModifier);
    assert!(modifier_prop.flags.mandatory);
    assert!(modifier_prop.flags.dont_fixate);
    match &modifier_prop.value {
        PodValue::EnumLong { default, alternatives } => {
            assert_eq!(*default, 0);
            assert_eq!(alternatives.as_slice(), &[0i64, 72057594037927953i64]);
        }
        other => panic!("expected an enumerated modifier choice, got {:?}", other),
    }
}

#[test]
fn format_object_pins_single_modifier_when_fixating() {
    let formats = vec![Format::Bgra8];
    let modifiers: Vec<u64> = vec![72057594037927953];
    let obj = build_format(640, 480, &formats, &modifiers, true);
    assert_eq!(obj.properties.len(), 6);
    let modifier_prop = &obj.properties[5];
    assert!(modifier_prop.flags.mandatory);
    assert!(!modifier_prop.flags.dont_fixate);
    assert!(matches!(modifier_prop.value, PodValue::Long(72057594037927953)));
}
