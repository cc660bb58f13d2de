//! Pixel formats, DRM modifiers, and the format data exchanged during
//! negotiation with the bus.

use vstd::prelude::*;

verus! {

/// A pixel format identifier as the bus names it.
#[derive(Clone, Copy, Debug, PartialEq, Eq, Structural)]
pub enum Format {
    Unknown,
    Bgra8,
    Rgba8,
    Bgrx8,
    Rgbx8,
    Abgr8,
    Argb8,
}

/// The transfer function a pixel format encodes with; a blit target must
/// match the source here even when the channel order differs.
#[derive(Clone, Copy, Debug, PartialEq, Eq, Structural)]
pub enum TransferFunction {
    Linear,
    Srgb,
}

/// One advertised candidate group: a set of pixel formats that all share the
/// same sequence of acceptable DRM modifiers.  Immutable once advertised in a
/// negotiation round.
#[derive(Clone, Debug)]
pub struct EnumFormatInfo {
    pub formats: Vec<Format>,
    pub modifiers: Vec<u64>,
}

/// Spec-level value of an [`EnumFormatInfo`].
#[verifier::ext_equal]
pub struct EnumFormatInfoView {
    pub formats: Seq<Format>,
    pub modifiers: Seq<u64>,
}

impl View for EnumFormatInfo {
    type V = EnumFormatInfoView;

    open spec fn view(&self) -> EnumFormatInfoView {
        EnumFormatInfoView { formats: self.formats@, modifiers: self.modifiers@ }
    }
}

/// The outcome of fixation: the single agreed modifier (if exporting with
/// one) and the plane count that drives the buffer layout of the following
/// pool generation.
#[derive(Clone, Copy, Debug, PartialEq, Eq, Structural)]
pub struct FixateFormat {
    pub modifier: Option<u64>,
    pub planes: u32,
}

/// A raw video-format candidate parsed from a format-parameter notification
/// of the bus: one format, the modifiers the consumer can take, and whether
/// the consumer asked to postpone fixation for a second round.
#[derive(Clone, Debug)]
pub struct VideoRawInfo {
    pub format: Format,
    pub modifiers: Vec<u64>,
    pub dont_fixate_modifier: bool,
}

/// Spec-level value of a [`VideoRawInfo`].
#[verifier::ext_equal]
pub struct VideoRawInfoView {
    pub format: Format,
    pub modifiers: Seq<u64>,
    pub dont_fixate_modifier: bool,
}

impl View for VideoRawInfo {
    type V = VideoRawInfoView;

    open spec fn view(&self) -> VideoRawInfoView {
        VideoRawInfoView {
            format: self.format,
            modifiers: self.modifiers@,
            dont_fixate_modifier: self.dont_fixate_modifier,
        }
    }
}

} // verus!
