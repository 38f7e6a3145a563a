//! The staged host-to-device transfer protocol, over a byte-level model of
//! device memory. An upload allocates a host-visible staging buffer, fills it
//! through a bounds-checked mapped write, allocates the device-local
//! destination marked as a transfer target, copies the full byte range with a
//! one-shot submission, and destroys the staging allocation before returning:
//! the staging buffer never outlives the call that created it.

use vstd::prelude::*;

use crate::memory::{
    find_memory_type_index, some_type_qualifies, type_qualifies, MemTypeProps,
};
use crate::EngineError;

verus! {

/// What a buffer is for; a closed set so that an unintended combination is a
/// type error rather than a runtime validation failure.
#[derive(Clone, Copy, Debug, PartialEq, Eq, Structural)]
pub enum BufferUsage {
    Vertex,
    Index,
    Uniform,
}

/// Transfer capabilities of an allocation.
#[derive(Clone, Copy, Debug, PartialEq, Eq, Structural)]
pub struct TransferFlags {
    /// The allocation may be the source of a device copy.
    pub transfer_src: bool,
    /// The allocation may be the destination of a device copy.
    pub transfer_dst: bool,
}

/// One live allocation: its bytes, the index of the memory type it was taken
/// from, that type's properties, and its transfer capabilities.
pub struct Allocation {
    pub bytes: Vec<u8>,
    pub type_index: usize,
    pub props: MemTypeProps,
    pub flags: TransferFlags,
}

/// The device memory model: allocations by identifier, `None` once freed.
/// Identifiers are never reused, so a freed slot stays `None`.
pub struct Heap {
    pub allocs: Vec<Option<Allocation>>,
}

/// Allocation `id` exists and has not been freed.
pub open spec fn alloc_live(allocs: Seq<Option<Allocation>>, id: int) -> bool {
    0 <= id < allocs.len() && allocs[id] is Some
}

/// The bytes of allocation `id` (meaningful only when live).
pub open spec fn alloc_bytes(allocs: Seq<Option<Allocation>>, id: int) -> Seq<u8> {
    allocs[id]->0.bytes@
}

/// The memory-type index of allocation `id` (meaningful only when live).
pub open spec fn alloc_type(allocs: Seq<Option<Allocation>>, id: int) -> int {
    allocs[id]->0.type_index as int
}

/// Copy of `base` with `src` written at `offset`.
fn splice_bytes(base: &Vec<u8>, offset: usize, src: &Vec<u8>) -> (r: Vec<u8>)
    requires
        offset + src@.len() <= base@.len(),
    ensures
        r@.len() == base@.len(),
        forall|k: int|
            0 <= k < base@.len() ==> r@[k] == (if offset <= k < offset + src@.len() {
                src@[k - offset]
            } else {
                base@[k]
            }),
{
    let mut r: Vec<u8> = Vec::new();
    let mut k: usize = 0;
    while k < base.len()
        invariant
            offset + src@.len() <= base@.len(),
            k <= base@.len(),
            r@.len() == k,
            forall|j: int|
                0 <= j < k ==> r@[j] == (if offset <= j < offset + src@.len() {
                    src@[j - offset]
                } else {
                    base@[j]
                }),
        decreases base@.len() - k,
    {
        let v: u8 = if k >= offset && k - offset < src.len() {
            src[k - offset]
        } else {
            base[k]
        };
        r.push(v);
        k = k + 1;
    }
    r
}

/// Byte-for-byte copy of `v`.
fn clone_bytes(v: &Vec<u8>) -> (r: Vec<u8>)
    ensures
        r@ == v@,
{
    let mut r: Vec<u8> = Vec::new();
    let mut k: usize = 0;
    while k < v.len()
        invariant
            k <= v@.len(),
            r@ == v@.subrange(0, k as int),
        decreases v@.len() - k,
    {
        r.push(v[k]);
        proof {
            assert(r@ =~= v@.subrange(0, k + 1 as int));
        }
        k = k + 1;
    }
    proof {
        assert(v@.subrange(0, v@.len() as int) =~= v@);
    }
    r
}

/// Zero-filled buffer of `size` bytes.
fn zero_bytes(size: usize) -> (r: Vec<u8>)
    ensures
        r@ == Seq::new(size as nat, |k: int| 0u8),
{
    let mut r: Vec<u8> = Vec::new();
    let mut k: usize = 0;
    while k < size
        invariant
            k <= size,
            r@.len() == k,
            forall|j: int| 0 <= j < k ==> r@[j] == 0u8,
        decreases size - k,
    {
        r.push(0u8);
        k = k + 1;
    }
    proof {
        assert(r@ =~= Seq::new(size as nat, |k: int| 0u8));
    }
    r
}

impl Heap {
    /// An empty heap with no allocations.
    pub fn new() -> (h: Heap)
        ensures
            h.allocs@.len() == 0,
    {
        Heap { allocs: Vec::new() }
    }

    /// Allocate `size` zeroed bytes from memory type `type_index`; the new
    /// identifier is the previous allocation count, and every earlier
    /// allocation is untouched.
    pub fn allocate(&mut self, size: usize, type_index: usize, props: MemTypeProps, flags: TransferFlags) -> (id: usize)
        ensures
            id == old(self).allocs@.len(),
            final(self).allocs@.len() == old(self).allocs@.len() + 1,
            forall|j: int|
                0 <= j < old(self).allocs@.len() ==> final(self).allocs@[j] == old(
                    self,
                ).allocs@[j],
            alloc_live(final(self).allocs@, id as int),
            alloc_bytes(final(self).allocs@, id as int) == Seq::new(size as nat, |k: int| 0u8),
            alloc_type(final(self).allocs@, id as int) == type_index,
            final(self).allocs@[id as int]->0.props == props,
            final(self).allocs@[id as int]->0.flags == flags,
    {
        let bytes = zero_bytes(size);
        let id = self.allocs.len();
        self.allocs.push(Some(Allocation { bytes, type_index, props, flags }));
        id
    }

    /// Bounds-checked byte copy into a mapped view of allocation `id`: the
    /// write succeeds exactly when the allocation is live, its memory type is
    /// host-visible, and the range fits; nothing changes on failure.
    pub fn write(&mut self, id: usize, offset: usize, src: &Vec<u8>) -> (r: Result<
        (),
        EngineError,
    >)
        ensures
            r is Ok <==> (alloc_live(old(self).allocs@, id as int) && old(self).allocs@[id as int]->0.props.host_visible
                && offset + src@.len() <= alloc_bytes(old(self).allocs@, id as int).len()),
            r is Err ==> *final(self) == *old(self) && r->Err_0 == EngineError::AllocationFailed,
            r is Ok ==> {
                &&& final(self).allocs@.len() == old(self).allocs@.len()
                &&& forall|j: int|
                    0 <= j < old(self).allocs@.len() && j != id ==> final(self).allocs@[j] == old(
                        self,
                    ).allocs@[j]
                &&& alloc_live(final(self).allocs@, id as int)
                &&& final(self).allocs@[id as int]->0.type_index == old(self).allocs@[id as int]->0.type_index
                &&& final(self).allocs@[id as int]->0.props == old(self).allocs@[id as int]->0.props
                &&& final(self).allocs@[id as int]->0.flags == old(self).allocs@[id as int]->0.flags
                &&& alloc_bytes(final(self).allocs@, id as int).len() == alloc_bytes(
                    old(self).allocs@,
                    id as int,
                ).len()
                &&& forall|k: int|
                    0 <= k < alloc_bytes(old(self).allocs@, id as int).len() ==> alloc_bytes(
                        final(self).allocs@,
                        id as int,
                    )[k] == (if offset <= k < offset + src@.len() {
                        src@[k - offset]
                    } else {
                        alloc_bytes(old(self).allocs@, id as int)[k]
                    })
            },
    {
        if id >= self.allocs.len() {
            return Err(EngineError::AllocationFailed);
        }
        let new_entry: Option<Allocation> = match &self.allocs[id] {
            Some(a) => {
                if a.props.host_visible && offset <= a.bytes.len() && src.len() <= a.bytes.len()
                    - offset {
                    let bytes = splice_bytes(&a.bytes, offset, src);
                    Some(
                        Allocation {
                            bytes,
                            type_index: a.type_index,
                            props: a.props,
                            flags: a.flags,
                        },
                    )
                } else {
                    None
                }
            },
            None => None,
        };
        match new_entry {
            Some(entry) => {
                self.allocs[id] = Some(entry);
                Ok(())
            },
            None => Err(EngineError::AllocationFailed),
        }
    }

    /// One-shot device copy of the full source range into the destination,
    /// modelling the recorded copy command, its submission and the queue-idle
    /// wait: it succeeds exactly when both allocations are live, the source
    /// may be read and the destination written by transfers, and the source
    /// fits; nothing changes on failure.
    pub fn transfer(&mut self, src_id: usize, dst_id: usize) -> (r: Result<(), EngineError>)
        ensures
            r is Ok <==> (alloc_live(old(self).allocs@, src_id as int) && alloc_live(
                old(self).allocs@,
                dst_id as int,
            ) && old(self).allocs@[src_id as int]->0.flags.transfer_src && old(
                self,
            ).allocs@[dst_id as int]->0.flags.transfer_dst && alloc_bytes(
                old(self).allocs@,
                src_id as int,
            ).len() <= alloc_bytes(old(self).allocs@, dst_id as int).len()),
            r is Err ==> *final(self) == *old(self) && r->Err_0 == EngineError::AllocationFailed,
            r is Ok ==> {
                &&& final(self).allocs@.len() == old(self).allocs@.len()
                &&& forall|j: int|
                    0 <= j < old(self).allocs@.len() && j != dst_id ==> final(self).allocs@[j]
                        == old(self).allocs@[j]
                &&& alloc_live(final(self).allocs@, dst_id as int)
                &&& final(self).allocs@[dst_id as int]->0.type_index == old(self).allocs@[dst_id as int]->0.type_index
                &&& final(self).allocs@[dst_id as int]->0.props == old(self).allocs@[dst_id as int]->0.props
                &&& final(self).allocs@[dst_id as int]->0.flags == old(self).allocs@[dst_id as int]->0.flags
                &&& alloc_bytes(final(self).allocs@, dst_id as int).len() == alloc_bytes(
                    old(self).allocs@,
                    dst_id as int,
                ).len()
                &&& forall|k: int|
                    0 <= k < alloc_bytes(old(self).allocs@, dst_id as int).len() ==> alloc_bytes(
                        final(self).allocs@,
                        dst_id as int,
                    )[k] == (if k < alloc_bytes(old(self).allocs@, src_id as int).len() {
                        alloc_bytes(old(self).allocs@, src_id as int)[k]
                    } else {
                        alloc_bytes(old(self).allocs@, dst_id as int)[k]
                    })
            },
    {
        if src_id >= self.allocs.len() || dst_id >= self.allocs.len() {
            return Err(EngineError::AllocationFailed);
        }
        let src_bytes: Option<Vec<u8>> = match &self.allocs[src_id] {
            Some(a) => {
                if a.flags.transfer_src {
                    Some(clone_bytes(&a.bytes))
                } else {
                    None
                }
            },
            None => None,
        };
        let bytes = match src_bytes {
            Some(bytes) => bytes,
            None => {
                return Err(EngineError::AllocationFailed);
            },
        };
        let new_entry: Option<Allocation> = match &self.allocs[dst_id] {
            Some(a) => {
                if a.flags.transfer_dst && bytes.len() <= a.bytes.len() {
                    let merged = splice_bytes(&a.bytes, 0, &bytes);
                    Some(
                        Allocation {
                            bytes: merged,
                            type_index: a.type_index,
                            props: a.props,
                            flags: a.flags,
                        },
                    )
                } else {
                    None
                }
            },
            None => None,
        };
        match new_entry {
            Some(entry) => {
                self.allocs[dst_id] = Some(entry);
                Ok(())
            },
            None => Err(EngineError::AllocationFailed),
        }
    }

    /// Destroy an allocation and free its memory; its identifier is retired,
    /// never reused.
    pub fn free(&mut self, id: usize) -> (r: Result<(), EngineError>)
        ensures
            r is Ok <==> alloc_live(old(self).allocs@, id as int),
            r is Err ==> *final(self) == *old(self) && r->Err_0 == EngineError::AllocationFailed,
            r is Ok ==> final(self).allocs@ == old(self).allocs@.update(
                id as int,
                Option::<Allocation>::None,
            ),
    {
        if id >= self.allocs.len() {
            return Err(EngineError::AllocationFailed);
        }
        let live = self.allocs[id].is_some();
        if !live {
            return Err(EngineError::AllocationFailed);
        }
        self.allocs[id] = None;
        Ok(())
    }

    /// Read an allocation back through a host-visible mirror.
    pub fn read_back(&self, id: usize) -> (r: Option<Vec<u8>>)
        ensures
            match r {
                Some(v) => alloc_live(self.allocs@, id as int) && v@ == alloc_bytes(
                    self.allocs@,
                    id as int,
                ),
                None => !alloc_live(self.allocs@, id as int),
            },
    {
        if id >= self.allocs.len() {
            return None;
        }
        match &self.allocs[id] {
            Some(a) => Some(clone_bytes(&a.bytes)),
            None => None,
        }
    }
}

/// The memory properties a staging buffer needs: host-visible so it can be
/// mapped, host-coherent so the write needs no explicit flush.
pub open spec fn staging_required_props() -> MemTypeProps {
    MemTypeProps { device_local: false, host_visible: true, host_coherent: true }
}

/// The memory properties the destination buffer needs: device-local.
pub open spec fn device_required_props() -> MemTypeProps {
    MemTypeProps { device_local: true, host_visible: false, host_coherent: false }
}

/// A device-local buffer produced by `upload`: the allocation holding its
/// bytes, what it is for, and its size in bytes.
#[derive(Clone, Copy, Debug, PartialEq, Eq, Structural)]
pub struct DeviceBuffer {
    pub alloc_id: usize,
    pub usage: BufferUsage,
    pub size: usize,
}

/// Everything a completed upload guarantees about the heap. `pre` is the
/// allocation table before the call, `post` after it: the staging buffer (the
/// first new identifier) has been destroyed, the device-local destination
/// (the second) holds exactly the uploaded bytes, was taken from the first
/// qualifying device-local memory type, is a transfer destination, and every
/// earlier allocation is untouched.
pub open spec fn upload_complete(
    pre: Seq<Option<Allocation>>,
    post: Seq<Option<Allocation>>,
    buf: DeviceBuffer,
    data: Seq<u8>,
    types: Seq<MemTypeProps>,
    filter: u32,
    usage: BufferUsage,
) -> bool {
    &&& post.len() == pre.len() + 2
    &&& forall|j: int| 0 <= j < pre.len() ==> post[j] == pre[j]
    &&& post[pre.len() as int] is None
    &&& buf.alloc_id == pre.len() + 1
    &&& buf.usage == usage
    &&& buf.size == data.len()
    &&& alloc_live(post, buf.alloc_id as int)
    &&& alloc_bytes(post, buf.alloc_id as int) == data
    &&& type_qualifies(types, filter, device_required_props(), alloc_type(post, buf.alloc_id as int))
    &&& post[buf.alloc_id as int]->0.flags == (TransferFlags { transfer_src: false, transfer_dst: true })
}

/// Populate a device-local buffer with `data` through a staging buffer. The
/// staging buffer is host-visible and host-coherent and a transfer source;
/// the destination is device-local and a transfer destination with the given
/// usage; both memory types are the first qualifying entries of the table.
/// The call blocks until the device has finished the copy and destroys the
/// staging buffer before returning, so on success exactly one new live
/// allocation remains. It fails, leaving the heap untouched, exactly when the
/// table offers no qualifying memory type for one of the two buffers.
pub fn upload(
    heap: &mut Heap,
    types: &Vec<MemTypeProps>,
    filter: u32,
    data: &Vec<u8>,
    usage: BufferUsage,
) -> (r: Result<DeviceBuffer, EngineError>)
    requires
        types@.len() <= 32,
    ensures
        r is Ok <==> (some_type_qualifies(types@, filter, staging_required_props())
            && some_type_qualifies(types@, filter, device_required_props())),
        r is Err ==> *final(heap) == *old(heap) && r->Err_0 == EngineError::MissingCapability,
        r is Ok ==> upload_complete(
            old(heap).allocs@,
            final(heap).allocs@,
            r->Ok_0,
            data@,
            types@,
            filter,
            usage,
        ),
{
    let staging_req = MemTypeProps { device_local: false, host_visible: true, host_coherent: true };
    let device_req = MemTypeProps { device_local: true, host_visible: false, host_coherent: false };
    let staging_type = match find_memory_type_index(types, filter, staging_req) {
        Some(i) => i,
        None => {
            return Err(EngineError::MissingCapability);
        },
    };
    let device_type = match find_memory_type_index(types, filter, device_req) {
        Some(i) => i,
        None => {
            return Err(EngineError::MissingCapability);
        },
    };
    let staging_id = heap.allocate(
        data.len(),
        staging_type,
        types[staging_type],
        TransferFlags { transfer_src: true, transfer_dst: false },
    );
    match heap.write(staging_id, 0, data) {
        Ok(_) => (),
        Err(_) => {
            return vstd::pervasive::unreached();
        },
    };
    let dest_id = heap.allocate(
        data.len(),
        device_type,
        types[device_type],
        TransferFlags { transfer_src: false, transfer_dst: true },
    );
    match heap.transfer(staging_id, dest_id) {
        Ok(_) => (),
        Err(_) => {
            return vstd::pervasive::unreached();
        },
    };
    match heap.free(staging_id) {
        Ok(_) => (),
        Err(_) => {
            return vstd::pervasive::unreached();
        },
    };
    proof {
        assert(alloc_bytes(heap.allocs@, dest_id as int) =~= data@);
    }
    Ok(DeviceBuffer { alloc_id: dest_id, usage, size: data.len() })
}

/// Round trip: a completed upload leaves the device-local buffer holding
/// exactly the uploaded bytes, and the staging allocation no longer exists.
pub proof fn lemma_upload_round_trip(
    pre: Seq<Option<Allocation>>,
    post: Seq<Option<Allocation>>,
    buf: DeviceBuffer,
    data: Seq<u8>,
    types: Seq<MemTypeProps>,
    filter: u32,
    usage: BufferUsage,
)
    requires
        upload_complete(pre, post, buf, data, types, filter, usage),
    ensures
        alloc_live(post, buf.alloc_id as int),
        alloc_bytes(post, buf.alloc_id as int) == data,
        !alloc_live(post, pre.len() as int),
{
}

} // verus!
