//! Memory-type selection: the device exposes a table of memory types, each
//! with a set of property flags, and a buffer's requirements name the
//! admissible types as a bitmask. Allocation must use the first table index
//! whose bit is set in the mask and whose properties include everything the
//! caller asked for; if no index qualifies, that is a fatal configuration
//! error.

use vstd::prelude::*;

verus! {

/// The properties of one entry of the device's memory-type table.
#[derive(Clone, Copy, Debug, PartialEq, Eq, Structural)]
pub struct MemTypeProps {
    /// Memory local to the device, fastest for rendering reads.
    pub device_local: bool,
    /// Memory the host can map.
    pub host_visible: bool,
    /// Mapped writes become visible without explicit flushes.
    pub host_coherent: bool,
}

/// `t` offers every property that `req` demands.
pub open spec fn props_include(t: MemTypeProps, req: MemTypeProps) -> bool {
    &&& (req.device_local ==> t.device_local)
    &&& (req.host_visible ==> t.host_visible)
    &&& (req.host_coherent ==> t.host_coherent)
}

/// Table index `i` is admissible for requirement mask `filter` and wanted
/// properties `req`.
pub open spec fn type_qualifies(
    types: Seq<MemTypeProps>,
    filter: u32,
    req: MemTypeProps,
    i: int,
) -> bool {
    &&& 0 <= i < types.len()
    &&& filter & (1u32 << (i as u32)) != 0
    &&& props_include(types[i], req)
}

/// Some admissible index exists in the table.
pub open spec fn some_type_qualifies(types: Seq<MemTypeProps>, filter: u32, req: MemTypeProps) -> bool {
    exists|i: int| type_qualifies(types, filter, req, i)
}

/// Scan the memory-type table and return the first index whose bit is set in
/// `filter` and whose properties include `req`; `None` when no index
/// qualifies.
pub fn find_memory_type_index(types: &Vec<MemTypeProps>, filter: u32, req: MemTypeProps) -> (r:
    Option<usize>)
    requires
        types@.len() <= 32,
    ensures
        match r {
            Some(i) => {
                &&& type_qualifies(types@, filter, req, i as int)
                &&& forall|j: int| 0 <= j < i ==> !type_qualifies(types@, filter, req, j)
            },
            None => !some_type_qualifies(types@, filter, req),
        },
{
    let mut i: usize = 0;
    while i < types.len()
        invariant
            types@.len() <= 32,
            i <= types@.len(),
            forall|j: int| 0 <= j < i ==> !type_qualifies(types@, filter, req, j),
        decreases types@.len() - i,
    {
        let t = types[i];
        let bit_set = filter & (1u32 << (i as u32)) != 0;
        let included = (!req.device_local || t.device_local) && (!req.host_visible
            || t.host_visible) && (!req.host_coherent || t.host_coherent);
        if bit_set && included {
            return Some(i);
        }
        i = i + 1;
    }
    None
}

} // verus!
