//! The interface the graphics backend implements for the capture core.
//!
//! The stream drives the backend through four operations: fixate a format
//! candidate, allocate an exported buffer for the fixated layout, release
//! one, and observe a buffer's delivery.  The capture core depends only on
//! this interface, never on concrete backend types; nothing is assumed
//! about what an implementation returns beyond its type.

use vstd::prelude::*;

use crate::format::{EnumFormatInfo, FixateFormat};
use crate::pool::{BufferInfo, BufferUserHandle};

verus! {

/// The four operations a graphics backend supplies at stream creation.
pub trait CaptureBackend {
    /// Picks a concrete format, modifier, and plane count from a candidate
    /// group, or rejects it.
    fn fixate_format(&mut self, info: EnumFormatInfo) -> Option<FixateFormat>;

    /// Allocates GPU memory and per-plane descriptors for one exported
    /// buffer of the fixated layout, or reports that this slot failed.
    fn add_buffer(&mut self) -> Option<BufferInfo>;

    /// Releases the export behind the handle: GPU memory, image, and every
    /// plane descriptor.
    fn remove_buffer(&mut self, user_handle: BufferUserHandle);

    /// Observes the delivery of the buffer behind the handle on the bus's
    /// real-time thread; must not allocate or block.
    fn process_buffer(&mut self, user_handle: BufferUserHandle);
}

/// What the graphics-interception collaborator supplies when a stream is
/// created: the source geometry and the candidate-format catalog.  The four
/// backend operations come separately, as a [`CaptureBackend`].
#[derive(Clone, Debug)]
pub struct StreamInfo {
    pub width: u32,
    pub height: u32,
    pub enum_formats: Vec<EnumFormatInfo>,
}

} // verus!
