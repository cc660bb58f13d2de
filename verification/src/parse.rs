//! Parsing a format-parameter notification of the bus into a raw video
//! candidate.
//!
//! The bus answers an advertisement with a format object of its own: the
//! format it settled on (or still a choice), the modifiers the consumer can
//! take, and the don't-fixate flag when it expects a second round.  This
//! module reads such an object back into a [`VideoRawInfo`].

use vstd::prelude::*;

use crate::format::{Format, VideoRawInfo, VideoRawInfoView};
use crate::params::{
    IdValue, ObjectKind, ParamKey, PodObject, PodObjectView, PodProperty, PodPropertyView,
    PodValue, PodValueView,
};

verus! {

/// Why a parameter object could not be read as a raw video candidate.
#[derive(Clone, Copy, Debug, PartialEq, Eq, Structural)]
pub enum ParseError {
    /// The object is not a format object at all.
    NotFormatObject,
    /// The media type is missing or not video.
    NotVideo,
    /// The media subtype is missing or not raw.
    NotRaw,
    /// No format property is present.
    MissingFormat,
    /// The format property's value has the wrong shape.
    BadFormatValue,
    /// The modifier property's value has the wrong shape.
    BadModifierValue,
}

/// The first property under `key`, if any.
pub open spec fn find_prop(props: Seq<PodPropertyView>, key: ParamKey) -> Option<PodPropertyView>
    decreases props.len(),
{
    if props.len() == 0 {
        None
    } else if props[0].key == key {
        Some(props[0])
    } else {
        find_prop(props.drop_first(), key)
    }
}

/// What parsing a parameter object yields: the media type and subtype must
/// name raw video, the format comes from the format property (the default of
/// a choice), and the modifier property — when present — gives the modifier
/// list and the don't-fixate flag.
pub open spec fn spec_parse_video_raw_info(obj: PodObjectView) -> Result<
    VideoRawInfoView,
    ParseError,
> {
    if obj.kind != ObjectKind::Format {
        Err(ParseError::NotFormatObject)
    } else if !(find_prop(obj.properties, ParamKey::MediaType) matches Some(p)
        && p.value == PodValueView::Id(IdValue::MediaTypeVideo)) {
        Err(ParseError::NotVideo)
    } else if !(find_prop(obj.properties, ParamKey::MediaSubtype) matches Some(p)
        && p.value == PodValueView::Id(IdValue::MediaSubtypeRaw)) {
        Err(ParseError::NotRaw)
    } else {
        match find_prop(obj.properties, ParamKey::VideoFormat) {
            None => Err(ParseError::MissingFormat),
            Some(fp) => match fp.value {
                PodValueView::Id(IdValue::VideoFormat(f)) => spec_parse_modifiers(obj, f),
                PodValueView::EnumId {
                    default: IdValue::VideoFormat(f),
                    alternatives: _,
                } => spec_parse_modifiers(obj, f),
                _ => Err(ParseError::BadFormatValue),
            },
        }
    }
}

/// The modifier part of [`spec_parse_video_raw_info`], once the format is
/// known.
pub open spec fn spec_parse_modifiers(obj: PodObjectView, f: Format) -> Result<
    VideoRawInfoView,
    ParseError,
> {
    match find_prop(obj.properties, ParamKey::VideoModifier) {
        None => Ok(
            VideoRawInfoView { format: f, modifiers: seq![], dont_fixate_modifier: false },
        ),
        Some(mp) => match mp.value {
            PodValueView::Long(m) => Ok(
                VideoRawInfoView {
                    format: f,
                    modifiers: seq![m as u64],
                    dont_fixate_modifier: mp.flags.dont_fixate,
                },
            ),
            PodValueView::EnumLong { default: _, alternatives } => Ok(
                VideoRawInfoView {
                    format: f,
                    modifiers: alternatives.map_values(|m: i64| m as u64),
                    dont_fixate_modifier: mp.flags.dont_fixate,
                },
            ),
            _ => Err(ParseError::BadModifierValue),
        },
    }
}

/// Spec-level view of a parse result.
pub open spec fn parse_result_view(r: Result<VideoRawInfo, ParseError>) -> Result<
    VideoRawInfoView,
    ParseError,
> {
    match r {
        Ok(v) => Ok(v@),
        Err(e) => Err(e),
    }
}

/// Finds the index of the first property under `key`.
fn find_property(props: &Vec<PodProperty>, key: ParamKey) -> (r: Option<usize>)
    ensures
        match r {
            Some(i) => i < props@.len() && find_prop(
                props@.map_values(|p: PodProperty| p@),
                key,
            ) == Some(props@[i as int]@),
            None => find_prop(props@.map_values(|p: PodProperty| p@), key) is None,
        },
{
    let ghost view = props@.map_values(|p: PodProperty| p@);
    proof {
        assert(view.subrange(0, view.len() as int) =~= view);
    }
    let mut i: usize = 0;
    while i < props.len()
        invariant
            i <= props@.len(),
            view == props@.map_values(|p: PodProperty| p@),
            find_prop(view, key) == find_prop(view.subrange(i as int, view.len() as int), key),
            forall|j: int| 0 <= j < i ==> props@[j]@.key != key,
        decreases props@.len() - i,
    {
        if props[i].key == key {
            proof {
                let suffix = view.subrange(i as int, view.len() as int);
                assert(suffix[0] == view[i as int]);
            }
            return Some(i);
        }
        proof {
            let suffix = view.subrange(i as int, view.len() as int);
            assert(suffix[0] == view[i as int]);
            assert(suffix.drop_first() =~= view.subrange(i as int + 1, view.len() as int));
        }
        i = i + 1;
    }
    proof {
        assert(view.subrange(i as int, view.len() as int) =~= Seq::<PodPropertyView>::empty());
    }
    None
}

/// Reads a parameter object as a raw video candidate, as
/// [`spec_parse_video_raw_info`] describes, returning the error that names
/// the first missing or ill-shaped part.
pub fn parse_video_raw_info(obj: &PodObject) -> (r: Result<VideoRawInfo, ParseError>)
    ensures
        parse_result_view(r) == spec_parse_video_raw_info(obj@),
{
    if !matches!(obj.kind, ObjectKind::Format) {
        return Err(ParseError::NotFormatObject);
    }

    let media_type = find_property(&obj.properties, ParamKey::MediaType);
    let media_type_ok: bool = match media_type {
        Some(i) => matches!(obj.properties[i].value, PodValue::Id(IdValue::MediaTypeVideo)),
        None => false,
    };
    if !media_type_ok {
        return Err(ParseError::NotVideo);
    }

    let media_subtype = find_property(&obj.properties, ParamKey::MediaSubtype);
    let media_subtype_ok: bool = match media_subtype {
        Some(i) => matches!(obj.properties[i].value, PodValue::Id(IdValue::MediaSubtypeRaw)),
        None => false,
    };
    if !media_subtype_ok {
        return Err(ParseError::NotRaw);
    }

    let format: Format = match find_property(&obj.properties, ParamKey::VideoFormat) {
        None => {
            return Err(ParseError::MissingFormat);
        },
        Some(i) => match &obj.properties[i].value {
            PodValue::Id(IdValue::VideoFormat(f)) => *f,
            PodValue::EnumId { default: IdValue::VideoFormat(f), alternatives: _ } => *f,
            _ => {
                return Err(ParseError::BadFormatValue);
            },
        },
    };

    match find_property(&obj.properties, ParamKey::VideoModifier) {
        None => Ok(
            VideoRawInfo { format, modifiers: Vec::new(), dont_fixate_modifier: false },
        ),
        Some(i) => {
            let dont_fixate = obj.properties[i].flags.dont_fixate;
            match &obj.properties[i].value {
                PodValue::Long(m) => {
                    let mut modifiers: Vec<u64> = Vec::new();
                    modifiers.push(*m as u64);
                    proof {
                        assert(modifiers@ =~= seq![*m as u64]);
                    }
                    Ok(VideoRawInfo { format, modifiers, dont_fixate_modifier: dont_fixate })
                },
                PodValue::EnumLong { default: _, alternatives } => {
                    let mut modifiers: Vec<u64> = Vec::new();
                    let mut k: usize = 0;
                    while k < alternatives.len()
                        invariant
                            k <= alternatives@.len(),
                            modifiers@.len() == k,
                            forall|j: int|
                                0 <= j < k ==> modifiers@[j] == alternatives@[j] as u64,
                        decreases alternatives@.len() - k,
                    {
                        modifiers.push(alternatives[k] as u64);
                        k = k + 1;
                    }
                    proof {
                        assert(modifiers@ =~= alternatives@.map_values(|m: i64| m as u64));
                    }
                    Ok(VideoRawInfo { format, modifiers, dont_fixate_modifier: dont_fixate })
                },
                _ => Err(ParseError::BadModifierValue),
            }
        },
    }
}

} // verus!

verus! {

/// Round trip of the negotiation wire: a format object built for an
/// advertisement parses back to exactly the candidate it advertises — the
/// first format as the default, the single pinned modifier when fixating
/// or the whole list when not, and the don't-fixate flag exactly when the
/// discovery round asked for it.
pub proof fn lemma_advertised_format_parses(
    width: u32,
    height: u32,
    formats: Seq<Format>,
    modifiers: Seq<u64>,
    fixate: bool,
)
    requires
        formats.len() >= 1,
    ensures
        ({
            let obj = crate::params::spec_format_object(width, height, formats, modifiers, fixate);
            spec_parse_video_raw_info(obj) == Ok::<VideoRawInfoView, ParseError>(
                VideoRawInfoView {
                    format: formats[0],
                    modifiers: if modifiers.len() == 0 {
                        Seq::empty()
                    } else if fixate {
                        seq![modifiers[0]]
                    } else {
                        modifiers
                    },
                    dont_fixate_modifier: modifiers.len() > 0 && !fixate,
                },
            )
        }),
{
    reveal_with_fuel(find_prop, 9);
    let obj = crate::params::spec_format_object(width, height, formats, modifiers, fixate);
    let props = obj.properties;
    assert(props[0].key == ParamKey::MediaType);
    assert(find_prop(props, ParamKey::MediaType) == Some(props[0]));
    assert(props.drop_first()[0] == props[1]);
    assert(find_prop(props, ParamKey::MediaSubtype) == Some(props[1]));
    assert(props.drop_first().drop_first()[0] == props[2]);
    assert(find_prop(props, ParamKey::VideoFormat) == Some(props[2]));
    assert(props.drop_first().drop_first().drop_first()[0] == props[3]);
    assert(props.drop_first().drop_first().drop_first().drop_first()[0] == props[4]);
    if modifiers.len() == 0 {
        assert(props.len() == 5);
        assert(props.drop_first().drop_first().drop_first().drop_first().drop_first().len() == 0);
        assert(find_prop(props, ParamKey::VideoModifier) is None);
    } else {
        assert(props.drop_first().drop_first().drop_first().drop_first().drop_first()[0]
            == props[5]);
        assert(props[5].key == ParamKey::VideoModifier);
        assert(find_prop(props, ParamKey::VideoModifier) == Some(props[5]));
        assert forall|m: u64| #[trigger] ((m as i64) as u64) == m by {
            assert(((m as i64) as u64) == m) by (bit_vector);
        }
        if !fixate {
            let alternatives = modifiers.map_values(|m: u64| m as i64);
            assert(alternatives.map_values(|m: i64| m as u64) =~= modifiers);
        } else {
            assert(seq![(modifiers[0] as i64) as u64] =~= seq![modifiers[0]]);
        }
    }
}

} // verus!
