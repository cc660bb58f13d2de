//! The typed property-list objects exchanged with the bus during
//! negotiation, and the builders that produce them.
//!
//! The bus speaks in parameter objects: an object kind plus a parameter id,
//! and a list of properties whose values are fixed integers, 64-bit
//! integers, id values, rectangles, fractions, or "choice" values (a range,
//! an enumeration, or a flag set, each with a default).  The binary encoding
//! of these objects is the serialization library's business; this module
//! models them as plain data and pins down exactly which objects the
//! pipeline sends.

use vstd::prelude::*;

use crate::format::Format;
use crate::DEFAULT_BUFFER_COUNT;
use crate::MAX_BUFFERS;

verus! {

/// The kind of a parameter object.
#[derive(Clone, Copy, Debug, PartialEq, Eq, Structural)]
pub enum ObjectKind {
    Format,
    ParamBuffers,
    ParamMeta,
}

/// The parameter id a parameter object is filed under.
#[derive(Clone, Copy, Debug, PartialEq, Eq, Structural)]
pub enum ParamId {
    EnumFormat,
    Format,
    Buffers,
    Meta,
}

/// The key of one property inside a parameter object.
#[derive(Clone, Copy, Debug, PartialEq, Eq, Structural)]
pub enum ParamKey {
    MediaType,
    MediaSubtype,
    VideoFormat,
    VideoSize,
    VideoFramerate,
    VideoModifier,
    BuffersCount,
    BuffersBlocks,
    BuffersDataType,
    MetaType,
    MetaSize,
}

/// An id value carried by a property.
#[derive(Clone, Copy, Debug, PartialEq, Eq, Structural)]
pub enum IdValue {
    MediaTypeVideo,
    MediaSubtypeRaw,
    MetaHeader,
    VideoFormat(Format),
}

/// How an exported buffer's memory is shared with the consumer.
#[derive(Clone, Copy, Debug, PartialEq, Eq, Structural)]
pub enum BufferDataType {
    MemPtr,
    MemFd,
    DmaBuf,
}

/// Flags on one property.  A mandatory property must be honoured by the
/// consumer; a property flagged "don't fixate" advertises alternatives
/// without committing to the default yet.
#[derive(Clone, Copy, Debug, PartialEq, Eq, Structural)]
pub struct PropertyFlags {
    pub mandatory: bool,
    pub dont_fixate: bool,
}

impl PropertyFlags {
    /// No flags set.
    pub open spec fn spec_none() -> PropertyFlags {
        PropertyFlags { mandatory: false, dont_fixate: false }
    }

    /// Returns the empty flag set.
    pub fn none() -> (r: PropertyFlags)
        ensures
            r == PropertyFlags::spec_none(),
    {
        PropertyFlags { mandatory: false, dont_fixate: false }
    }
}

/// The value of one property.
#[derive(Clone, Debug)]
pub enum PodValue {
    Int(i32),
    Long(i64),
    Id(IdValue),
    Rectangle { width: u32, height: u32 },
    Fraction { num: u32, denom: u32 },
    /// A choice over a contiguous integer range, with a default.
    RangeInt { default: i32, min: i32, max: i32 },
    /// A flag-set choice over buffer data types, with a default.
    FlagsDataType { default: BufferDataType },
    /// An enumerated choice of id values, with a default.
    EnumId { default: IdValue, alternatives: Vec<IdValue> },
    /// An enumerated choice of 64-bit values, with a default.
    EnumLong { default: i64, alternatives: Vec<i64> },
}

/// Spec-level value of a [`PodValue`].
#[verifier::ext_equal]
pub enum PodValueView {
    Int(i32),
    Long(i64),
    Id(IdValue),
    Rectangle { width: u32, height: u32 },
    Fraction { num: u32, denom: u32 },
    RangeInt { default: i32, min: i32, max: i32 },
    FlagsDataType { default: BufferDataType },
    EnumId { default: IdValue, alternatives: Seq<IdValue> },
    EnumLong { default: i64, alternatives: Seq<i64> },
}

impl View for PodValue {
    type V = PodValueView;

    open spec fn view(&self) -> PodValueView {
        match self {
            PodValue::Int(i) => PodValueView::Int(*i),
            PodValue::Long(l) => PodValueView::Long(*l),
            PodValue::Id(id) => PodValueView::Id(*id),
            PodValue::Rectangle { width, height } => PodValueView::Rectangle {
                width: *width,
                height: *height,
            },
            PodValue::Fraction { num, denom } => PodValueView::Fraction {
                num: *num,
                denom: *denom,
            },
            PodValue::RangeInt { default, min, max } => PodValueView::RangeInt {
                default: *default,
                min: *min,
                max: *max,
            },
            PodValue::FlagsDataType { default } => PodValueView::FlagsDataType {
                default: *default,
            },
            PodValue::EnumId { default, alternatives } => PodValueView::EnumId {
                default: *default,
                alternatives: alternatives@,
            },
            PodValue::EnumLong { default, alternatives } => PodValueView::EnumLong {
                default: *default,
                alternatives: alternatives@,
            },
        }
    }
}

/// One keyed property of a parameter object.
#[derive(Clone, Debug)]
pub struct PodProperty {
    pub key: ParamKey,
    pub flags: PropertyFlags,
    pub value: PodValue,
}

/// Spec-level value of a [`PodProperty`].
#[verifier::ext_equal]
pub struct PodPropertyView {
    pub key: ParamKey,
    pub flags: PropertyFlags,
    pub value: PodValueView,
}

impl View for PodProperty {
    type V = PodPropertyView;

    open spec fn view(&self) -> PodPropertyView {
        PodPropertyView { key: self.key, flags: self.flags, value: self.value@ }
    }
}

/// A whole parameter object as pushed to or received from the bus.
#[derive(Clone, Debug)]
pub struct PodObject {
    pub kind: ObjectKind,
    pub id: ParamId,
    pub properties: Vec<PodProperty>,
}

/// Spec-level value of a [`PodObject`].
#[verifier::ext_equal]
pub struct PodObjectView {
    pub kind: ObjectKind,
    pub id: ParamId,
    pub properties: Seq<PodPropertyView>,
}

impl View for PodObject {
    type V = PodObjectView;

    open spec fn view(&self) -> PodObjectView {
        PodObjectView {
            kind: self.kind,
            id: self.id,
            properties: self.properties@.map_values(|p: PodProperty| p@),
        }
    }
}

/// Spec-level view of a sequence of parameter objects.
pub open spec fn objects_view(v: Seq<PodObject>) -> Seq<PodObjectView> {
    v.map_values(|o: PodObject| o@)
}

/// Size in bytes of the delivery-metadata header stamped into each buffer:
/// flags and offset (4 bytes each), presentation and decode timestamps
/// (8 bytes each), and the sequence number (8 bytes).
pub const META_HEADER_SIZE: i32 = 32;

/// The buffer-parameter object: how many buffers the pool may hold (a
/// bounded choice), how many memory blocks each carries, and how the memory
/// is shared.
pub open spec fn spec_buffers_object(blocks: u32, is_dma_buf: bool) -> PodObjectView {
    PodObjectView {
        kind: ObjectKind::ParamBuffers,
        id: ParamId::Buffers,
        properties: seq![
            PodPropertyView {
                key: ParamKey::BuffersCount,
                flags: PropertyFlags::spec_none(),
                value: PodValueView::RangeInt {
                    default: DEFAULT_BUFFER_COUNT,
                    min: 1,
                    max: MAX_BUFFERS as i32,
                },
            },
            PodPropertyView {
                key: ParamKey::BuffersBlocks,
                flags: PropertyFlags::spec_none(),
                value: PodValueView::Int(if blocks >= 1 { blocks as i32 } else { 1i32 }),
            },
            PodPropertyView {
                key: ParamKey::BuffersDataType,
                flags: PropertyFlags::spec_none(),
                value: PodValueView::FlagsDataType {
                    default: if is_dma_buf {
                        BufferDataType::DmaBuf
                    } else {
                        BufferDataType::MemFd
                    },
                },
            },
        ],
    }
}

/// The metadata-parameter object: asks the bus to reserve a delivery-header
/// region of [`META_HEADER_SIZE`] bytes in each buffer.
pub open spec fn spec_meta_header_object() -> PodObjectView {
    PodObjectView {
        kind: ObjectKind::ParamMeta,
        id: ParamId::Meta,
        properties: seq![
            PodPropertyView {
                key: ParamKey::MetaType,
                flags: PropertyFlags::spec_none(),
                value: PodValueView::Id(IdValue::MetaHeader),
            },
            PodPropertyView {
                key: ParamKey::MetaSize,
                flags: PropertyFlags::spec_none(),
                value: PodValueView::Int(META_HEADER_SIZE),
            },
        ],
    }
}

/// The authoritative buffer parameters pushed to the bus once a format is
/// fixated: the buffer-pool bounds for `blocks` memory blocks per buffer
/// (at least one), followed by the delivery-metadata request.
pub open spec fn spec_stream_params(blocks: u32, is_dma_buf: bool) -> Seq<PodObjectView> {
    seq![spec_buffers_object(blocks, is_dma_buf), spec_meta_header_object()]
}

/// Builds the buffer parameters that follow a successful fixation: buffer
/// count bounded by 1..=[`MAX_BUFFERS`] with default
/// [`DEFAULT_BUFFER_COUNT`], block count `max(blocks, 1)`, and the data-type
/// flag set naming DMA-buffer or memory-mapped sharing.
pub fn build_stream_params(blocks: u32, is_dma_buf: bool) -> (params: Vec<PodObject>)
    requires
        blocks <= 0x7fff_ffff,
    ensures
        objects_view(params@) == spec_stream_params(blocks, is_dma_buf),
{
    let data_type = if is_dma_buf {
        BufferDataType::DmaBuf
    } else {
        BufferDataType::MemFd
    };
    let blocks_value: i32 = if blocks >= 1 { blocks as i32 } else { 1 };

    let mut buffer_props: Vec<PodProperty> = Vec::new();
    buffer_props.push(PodProperty {
        key: ParamKey::BuffersCount,
        flags: PropertyFlags::none(),
        value: PodValue::RangeInt { default: DEFAULT_BUFFER_COUNT, min: 1, max: MAX_BUFFERS as i32 },
    });
    buffer_props.push(PodProperty {
        key: ParamKey::BuffersBlocks,
        flags: PropertyFlags::none(),
        value: PodValue::Int(blocks_value),
    });
    buffer_props.push(PodProperty {
        key: ParamKey::BuffersDataType,
        flags: PropertyFlags::none(),
        value: PodValue::FlagsDataType { default: data_type },
    });
    let buffers = PodObject {
        kind: ObjectKind::ParamBuffers,
        id: ParamId::Buffers,
        properties: buffer_props,
    };

    let mut meta_props: Vec<PodProperty> = Vec::new();
    meta_props.push(PodProperty {
        key: ParamKey::MetaType,
        flags: PropertyFlags::none(),
        value: PodValue::Id(IdValue::MetaHeader),
    });
    meta_props.push(PodProperty {
        key: ParamKey::MetaSize,
        flags: PropertyFlags::none(),
        value: PodValue::Int(META_HEADER_SIZE),
    });
    let meta_header = PodObject {
        kind: ObjectKind::ParamMeta,
        id: ParamId::Meta,
        properties: meta_props,
    };

    let mut params: Vec<PodObject> = Vec::new();
    params.push(buffers);
    params.push(meta_header);
    proof {
        assert(params@[0]@.properties =~= spec_buffers_object(blocks, is_dma_buf).properties);
        assert(params@[1]@.properties =~= spec_meta_header_object().properties);
        assert(objects_view(params@) =~~= spec_stream_params(blocks, is_dma_buf));
    }
    params
}

} // verus!

verus! {

/// The format property's value: the single format, or an enumerated choice
/// defaulting to the first when several are offered.
pub open spec fn spec_format_value(formats: Seq<Format>) -> PodValueView {
    if formats.len() > 1 {
        PodValueView::EnumId {
            default: IdValue::VideoFormat(formats[0]),
            alternatives: formats.map_values(|f: Format| IdValue::VideoFormat(f)),
        }
    } else {
        PodValueView::Id(IdValue::VideoFormat(formats[0]))
    }
}

/// The modifier property: pinned to the first modifier when fixating, else a
/// mandatory, don't-fixate-yet choice over all offered modifiers.
pub open spec fn spec_modifier_property(modifiers: Seq<u64>, fixate: bool) -> PodPropertyView {
    if fixate {
        PodPropertyView {
            key: ParamKey::VideoModifier,
            flags: PropertyFlags { mandatory: true, dont_fixate: false },
            value: PodValueView::Long(modifiers[0] as i64),
        }
    } else {
        PodPropertyView {
            key: ParamKey::VideoModifier,
            flags: PropertyFlags { mandatory: true, dont_fixate: true },
            value: PodValueView::EnumLong {
                default: modifiers[0] as i64,
                alternatives: modifiers.map_values(|m: u64| m as i64),
            },
        }
    }
}

/// The format-parameter object advertised to (or re-advertised at) the bus:
/// raw video of the given size, the offered formats, and — when exporting
/// with modifiers — the modifier property of [`spec_modifier_property`].
pub open spec fn spec_format_object(
    width: u32,
    height: u32,
    formats: Seq<Format>,
    modifiers: Seq<u64>,
    fixate: bool,
) -> PodObjectView {
    let base = seq![
        PodPropertyView {
            key: ParamKey::MediaType,
            flags: PropertyFlags::spec_none(),
            value: PodValueView::Id(IdValue::MediaTypeVideo),
        },
        PodPropertyView {
            key: ParamKey::MediaSubtype,
            flags: PropertyFlags::spec_none(),
            value: PodValueView::Id(IdValue::MediaSubtypeRaw),
        },
        PodPropertyView {
            key: ParamKey::VideoFormat,
            flags: PropertyFlags::spec_none(),
            value: spec_format_value(formats),
        },
        PodPropertyView {
            key: ParamKey::VideoSize,
            flags: PropertyFlags::spec_none(),
            value: PodValueView::Rectangle { width, height },
        },
        PodPropertyView {
            key: ParamKey::VideoFramerate,
            flags: PropertyFlags::spec_none(),
            value: PodValueView::Fraction { num: 0, denom: 1 },
        },
    ];
    PodObjectView {
        kind: ObjectKind::Format,
        id: ParamId::EnumFormat,
        properties: if modifiers.len() > 0 {
            base.push(spec_modifier_property(modifiers, fixate))
        } else {
            base
        },
    }
}

/// Builds one format-parameter object for a candidate group.  With `fixate`
/// the single chosen modifier is pinned; without it the whole modifier list
/// is offered under a don't-fixate flag for the discovery round.
pub fn build_format(
    width: u32,
    height: u32,
    formats: &Vec<Format>,
    modifiers: &Vec<u64>,
    fixate: bool,
) -> (obj: PodObject)
    requires
        formats@.len() >= 1,
    ensures
        obj@ == spec_format_object(width, height, formats@, modifiers@, fixate),
{
    let format_value: PodValue = if formats.len() > 1 {
        let mut alternatives: Vec<IdValue> = Vec::new();
        let mut i: usize = 0;
        while i < formats.len()
            invariant
                i <= formats@.len(),
                alternatives@.len() == i,
                forall|j: int|
                    0 <= j < i ==> alternatives@[j] == IdValue::VideoFormat(formats@[j]),
            decreases formats@.len() - i,
        {
            alternatives.push(IdValue::VideoFormat(formats[i]));
            i = i + 1;
        }
        proof {
            assert(alternatives@ =~= formats@.map_values(|f: Format| IdValue::VideoFormat(f)));
        }
        PodValue::EnumId { default: IdValue::VideoFormat(formats[0]), alternatives }
    } else {
        PodValue::Id(IdValue::VideoFormat(formats[0]))
    };

    let mut properties: Vec<PodProperty> = Vec::new();
    properties.push(PodProperty {
        key: ParamKey::MediaType,
        flags: PropertyFlags::none(),
        value: PodValue::Id(IdValue::MediaTypeVideo),
    });
    properties.push(PodProperty {
        key: ParamKey::MediaSubtype,
        flags: PropertyFlags::none(),
        value: PodValue::Id(IdValue::MediaSubtypeRaw),
    });
    properties.push(PodProperty {
        key: ParamKey::VideoFormat,
        flags: PropertyFlags::none(),
        value: format_value,
    });
    properties.push(PodProperty {
        key: ParamKey::VideoSize,
        flags: PropertyFlags::none(),
        value: PodValue::Rectangle { width, height },
    });
    properties.push(PodProperty {
        key: ParamKey::VideoFramerate,
        flags: PropertyFlags::none(),
        value: PodValue::Fraction { num: 0, denom: 1 },
    });

    if modifiers.len() > 0 {
        let prop: PodProperty = if fixate {
            PodProperty {
                key: ParamKey::VideoModifier,
                flags: PropertyFlags { mandatory: true, dont_fixate: false },
                value: PodValue::Long(modifiers[0] as i64),
            }
        } else {
            let mut alternatives: Vec<i64> = Vec::new();
            let mut i: usize = 0;
            while i < modifiers.len()
                invariant
                    i <= modifiers@.len(),
                    alternatives@.len() == i,
                    forall|j: int| 0 <= j < i ==> alternatives@[j] == modifiers@[j] as i64,
                decreases modifiers@.len() - i,
            {
                alternatives.push(modifiers[i] as i64);
                i = i + 1;
            }
            proof {
                assert(alternatives@ =~= modifiers@.map_values(|m: u64| m as i64));
            }
            PodProperty {
                key: ParamKey::VideoModifier,
                flags: PropertyFlags { mandatory: true, dont_fixate: true },
                value: PodValue::EnumLong { default: modifiers[0] as i64, alternatives },
            }
        };
        properties.push(prop);
    }

    let obj = PodObject { kind: ObjectKind::Format, id: ParamId::EnumFormat, properties };
    proof {
        assert(obj@.properties =~~= spec_format_object(
            width,
            height,
            formats@,
            modifiers@,
            fixate,
        ).properties);
        assert(obj@ =~~= spec_format_object(width, height, formats@, modifiers@, fixate));
    }
    obj
}

} // verus!
