//! Exported-buffer slots and their add/remove/process lifecycle.
//!
//! The bus allocates one slot per buffer of the negotiated pool.  Filling a
//! slot publishes the backend's exported GPU memory — one file descriptor,
//! offset, size and stride per plane — to the consumer; a failed allocation
//! marks the slot permanently invalid instead of failing the pool.  A
//! removed slot gives its capability handle back exactly once.

use vstd::prelude::*;

verus! {

/// The opaque capability handle the backend attaches to an exported buffer:
/// the GPU image the buffer's memory belongs to.
#[derive(Clone, Copy, Debug, Hash, PartialEq, Eq, Structural)]
pub enum BufferUserHandle {
    VkImage(u64),
}

/// Identifies one buffer of the pool towards the stream: the slot index the
/// bus handed out for it.
#[derive(Clone, Copy, Debug, Hash, PartialEq, Eq, Structural)]
pub struct BufferHandle {
    pub token: u64,
}

/// One plane of an exported buffer as the backend describes it.
#[derive(Clone, Copy, Debug, PartialEq, Eq, Structural)]
pub struct BufferPlaneInfo {
    pub fd: i64,
    pub offset: u32,
    pub size: u32,
    pub stride: i32,
}

/// What the backend allocated for one exported buffer.
#[derive(Clone, Debug)]
pub struct BufferInfo {
    pub is_dma_buf: bool,
    pub planes: Vec<BufferPlaneInfo>,
    pub user_handle: BufferUserHandle,
}

/// Spec-level value of a [`BufferInfo`].
#[verifier::ext_equal]
pub struct BufferInfoView {
    pub is_dma_buf: bool,
    pub planes: Seq<BufferPlaneInfo>,
    pub user_handle: BufferUserHandle,
}

impl View for BufferInfo {
    type V = BufferInfoView;

    open spec fn view(&self) -> BufferInfoView {
        BufferInfoView {
            is_dma_buf: self.is_dma_buf,
            planes: self.planes@,
            user_handle: self.user_handle,
        }
    }
}

/// How one plane's memory is typed towards the consumer.
#[derive(Clone, Copy, Debug, PartialEq, Eq, Structural)]
pub enum PlaneDataType {
    /// The slot's allocation failed; this plane must never be used.
    Invalid,
    MemFd,
    DmaBuf,
}

/// One plane slot of a bus buffer: the shared descriptor and the chunk
/// layout the consumer reads.
#[derive(Clone, Copy, Debug, PartialEq, Eq, Structural)]
pub struct PlaneData {
    pub fd: i64,
    pub data_type: PlaneDataType,
    pub mapoffset: u32,
    pub maxsize: u32,
    pub chunk_offset: u32,
    pub chunk_size: u32,
    pub chunk_stride: i32,
}

impl PlaneData {
    /// A plane slot as the bus hands it over, before any fill.
    pub open spec fn spec_empty() -> PlaneData {
        PlaneData {
            fd: -1i64,
            data_type: PlaneDataType::Invalid,
            mapoffset: 0,
            maxsize: 0,
            chunk_offset: 0,
            chunk_size: 0,
            chunk_stride: 0,
        }
    }

    /// Returns an unfilled plane slot.
    pub fn empty() -> (r: PlaneData)
        ensures
            r == PlaneData::spec_empty(),
    {
        PlaneData {
            fd: -1i64,
            data_type: PlaneDataType::Invalid,
            mapoffset: 0,
            maxsize: 0,
            chunk_offset: 0,
            chunk_size: 0,
            chunk_stride: 0,
        }
    }
}

/// The delivery-metadata header stamped into a buffer just before it
/// becomes visible to the consumer.
#[derive(Clone, Copy, Debug, PartialEq, Eq, Structural)]
pub struct MetaHeader {
    pub flags: u32,
    pub offset: u32,
    pub seq: u64,
    pub pts: i64,
    pub dts_offset: i64,
}

impl MetaHeader {
    /// A zeroed header, as the bus provides it.
    pub open spec fn spec_zeroed() -> MetaHeader {
        MetaHeader { flags: 0, offset: 0, seq: 0, pts: 0, dts_offset: 0 }
    }

    /// Returns a zeroed header.
    pub fn zeroed() -> (r: MetaHeader)
        ensures
            r == MetaHeader::spec_zeroed(),
    {
        MetaHeader { flags: 0, offset: 0, seq: 0, pts: 0, dts_offset: 0 }
    }
}

/// One buffer slot of the pool, as the bus owns it: its plane slots, the
/// capability handle of the backing export while the export is alive, the
/// optional delivery-metadata region, and the frame-size field.
#[derive(Clone, Debug)]
pub struct BufferSlot {
    pub datas: Vec<PlaneData>,
    pub user_handle: Option<BufferUserHandle>,
    pub header: Option<MetaHeader>,
    pub size: u32,
}

/// Spec-level value of a [`BufferSlot`].
#[verifier::ext_equal]
pub struct BufferSlotView {
    pub datas: Seq<PlaneData>,
    pub user_handle: Option<BufferUserHandle>,
    pub header: Option<MetaHeader>,
    pub size: u32,
}

impl View for BufferSlot {
    type V = BufferSlotView;

    open spec fn view(&self) -> BufferSlotView {
        BufferSlotView {
            datas: self.datas@,
            user_handle: self.user_handle,
            header: self.header,
            size: self.size,
        }
    }
}

impl BufferSlot {
    /// Returns a fresh slot with `n_datas` unfilled planes and a zeroed
    /// delivery-metadata region.
    pub fn new(n_datas: usize) -> (r: BufferSlot)
        ensures
            r@.datas.len() == n_datas,
            forall|j: int| 0 <= j < n_datas ==> r@.datas[j] == PlaneData::spec_empty(),
            r@.user_handle is None,
            r@.header == Some(MetaHeader::spec_zeroed()),
            r@.size == 0,
    {
        let mut datas: Vec<PlaneData> = Vec::new();
        let mut i: usize = 0;
        while i < n_datas
            invariant
                i <= n_datas,
                datas@.len() == i,
                forall|j: int| 0 <= j < i ==> datas@[j] == PlaneData::spec_empty(),
            decreases n_datas - i,
        {
            datas.push(PlaneData::empty());
            i = i + 1;
        }
        BufferSlot { datas, user_handle: None, header: Some(MetaHeader::zeroed()), size: 0 }
    }
}

/// A slot marked permanently invalid: every plane holds a null descriptor
/// and the invalid data type, nothing else of the plane is touched, and no
/// capability handle is attached.
pub open spec fn slot_marked_invalid(pre: BufferSlotView, post: BufferSlotView) -> bool {
    &&& post.datas.len() == pre.datas.len()
    &&& forall|j: int|
        0 <= j < pre.datas.len() ==> post.datas[j] == (PlaneData {
            fd: -1i64,
            data_type: PlaneDataType::Invalid,
            ..pre.datas[j]
        })
    &&& post.user_handle is None
    &&& post.header == pre.header
    &&& post.size == pre.size
}

/// A slot filled from the backend's allocation: plane `j` publishes the
/// descriptor, offset, size and stride of `info.planes[j]` under the
/// allocation's data type, and the capability handle is attached.
pub open spec fn slot_filled(pre: BufferSlotView, post: BufferSlotView, info: BufferInfoView) -> bool {
    let data_type = if info.is_dma_buf {
        PlaneDataType::DmaBuf
    } else {
        PlaneDataType::MemFd
    };
    &&& post.datas.len() == pre.datas.len()
    &&& forall|j: int|
        0 <= j < pre.datas.len() ==> post.datas[j] == (PlaneData {
            fd: info.planes[j].fd,
            data_type: data_type,
            mapoffset: info.planes[j].offset,
            maxsize: info.planes[j].size,
            chunk_offset: info.planes[j].offset,
            chunk_size: info.planes[j].size,
            chunk_stride: info.planes[j].stride,
        })
    &&& post.user_handle == Some(info.user_handle)
    &&& post.header == pre.header
    &&& post.size == pre.size
}

/// The outcome [`fill_slot`] owes: a slot filled from the allocation when
/// one arrived with a plane count matching the bus's plane slots, and a
/// slot marked invalid otherwise.
pub open spec fn fill_slot_post(
    pre: BufferSlotView,
    post: BufferSlotView,
    info: Option<BufferInfoView>,
) -> bool {
    match info {
        Some(i) => {
            if i.planes.len() == pre.datas.len() {
                slot_filled(pre, post, i)
            } else {
                slot_marked_invalid(pre, post)
            }
        },
        None => slot_marked_invalid(pre, post),
    }
}

/// Spec-level view of an optional allocation.
pub open spec fn info_view(info: Option<BufferInfo>) -> Option<BufferInfoView> {
    match info {
        Some(i) => Some(i@),
        None => None,
    }
}

/// Fills a slot from the backend's allocation, or marks it permanently
/// invalid when the allocation failed or does not fit the slot's plane
/// count.  Only this slot is affected; other slots of the pool remain
/// usable.
pub fn fill_slot(slot: &mut BufferSlot, info: Option<BufferInfo>)
    ensures
        fill_slot_post(old(slot)@, final(slot)@, info_view(info)),
{
    slot.user_handle = None;

    let usable = match &info {
        Some(i) => i.planes.len() == slot.datas.len(),
        None => false,
    };

    if !usable {
        let mut j: usize = 0;
        while j < slot.datas.len()
            invariant
                j <= slot@.datas.len(),
                slot@.datas.len() == old(slot)@.datas.len(),
                slot@.user_handle is None,
                slot@.header == old(slot)@.header,
                slot@.size == old(slot)@.size,
                forall|k: int|
                    0 <= k < j ==> slot@.datas[k] == (PlaneData {
                        fd: -1i64,
                        data_type: PlaneDataType::Invalid,
                        ..old(slot)@.datas[k]
                    }),
                forall|k: int| j <= k < slot@.datas.len() ==> slot@.datas[k] == old(slot)@.datas[k],
            decreases slot@.datas.len() - j,
        {
            let prior = slot.datas[j];
            slot.datas.set(
                j,
                PlaneData { fd: -1i64, data_type: PlaneDataType::Invalid, ..prior },
            );
            j = j + 1;
        }
        return ;
    }

    let buffer_info = match info {
        Some(i) => i,
        None => {
            return ;  // unreachable: usable implies an allocation is present
        },
    };
    let data_type = if buffer_info.is_dma_buf {
        PlaneDataType::DmaBuf
    } else {
        PlaneDataType::MemFd
    };

    let mut j: usize = 0;
    while j < slot.datas.len()
        invariant
            j <= slot@.datas.len(),
            slot@.datas.len() == old(slot)@.datas.len(),
            buffer_info@.planes.len() == slot@.datas.len(),
            slot@.user_handle is None,
            slot@.header == old(slot)@.header,
            slot@.size == old(slot)@.size,
            data_type == if buffer_info@.is_dma_buf {
                PlaneDataType::DmaBuf
            } else {
                PlaneDataType::MemFd
            },
            forall|k: int|
                0 <= k < j ==> slot@.datas[k] == (PlaneData {
                    fd: buffer_info@.planes[k].fd,
                    data_type: data_type,
                    mapoffset: buffer_info@.planes[k].offset,
                    maxsize: buffer_info@.planes[k].size,
                    chunk_offset: buffer_info@.planes[k].offset,
                    chunk_size: buffer_info@.planes[k].size,
                    chunk_stride: buffer_info@.planes[k].stride,
                }),
        decreases slot@.datas.len() - j,
    {
        let plane = buffer_info.planes[j];
        slot.datas.set(
            j,
            PlaneData {
                fd: plane.fd,
                data_type: data_type,
                mapoffset: plane.offset,
                maxsize: plane.size,
                chunk_offset: plane.offset,
                chunk_size: plane.size,
                chunk_stride: plane.stride,
            },
        );
        j = j + 1;
    }
    slot.user_handle = Some(buffer_info.user_handle);
}

/// Takes the slot's capability handle out, if it still has one.  A slot
/// whose handle is already gone is left untouched, so a duplicate removal
/// is a no-op and the handle is given back exactly once.
pub fn clear_slot(slot: &mut BufferSlot) -> (removed: Option<BufferUserHandle>)
    ensures
        removed == old(slot)@.user_handle,
        final(slot)@.user_handle is None,
        final(slot)@.datas == old(slot)@.datas,
        final(slot)@.header == old(slot)@.header,
        final(slot)@.size == old(slot)@.size,
{
    let removed = slot.user_handle;
    slot.user_handle = None;
    removed
}

/// Stamps the delivery metadata into a slot on its way to the consumer: the
/// monotonic presentation timestamp and the delivery sequence number, with
/// the remaining header fields cleared, and the frame-size field set.
pub fn stamp_slot(slot: &mut BufferSlot, pts: i64, seq: u64)
    ensures
        final(slot)@.header == match old(slot)@.header {
            Some(_) => Some(MetaHeader { flags: 0, offset: 0, seq: seq, pts: pts, dts_offset: 0 }),
            None => None::<MetaHeader>,
        },
        final(slot)@.size == 1,
        final(slot)@.datas == old(slot)@.datas,
        final(slot)@.user_handle == old(slot)@.user_handle,
{
    if slot.header.is_some() {
        slot.header = Some(MetaHeader { flags: 0, offset: 0, seq, pts, dts_offset: 0 });
    }
    slot.size = 1;
}

} // verus!
