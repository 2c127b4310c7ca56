//! The fixed-layout buffer record exchanged with the host, modeled as plain
//! values.
//!
//! On the wire the record is a fixed-capacity array of per-channel sample
//! pointers, a 32-bit frame count and a 64-bit timestamp; each non-null
//! pointer addresses exactly `frames` contiguous 32-bit samples, and unused
//! slots are null. Here every slot of the plane array is held as an
//! `Option`: a populated slot carries its samples as a vector of raw 32-bit
//! sample words, a null slot is `None`. The raw pointers themselves are
//! left to the layer that owns the host memory.

use vstd::prelude::*;

verus! {

/// Capacity of the record's plane array: the most channels the host's
/// buffer layout can carry, and the length the wire-level array always
/// reports.
pub const MAX_AV_PLANES: usize = 8;

/// A sample plane viewed deeply is the plane's own sample sequence.
pub broadcast proof fn lemma_plane_deep_view(v: Vec<u32>)
    ensures
        #[trigger] v.deep_view() == v@,
{
    assert(v.deep_view() =~= v@);
}

/// Indexing the deep view of the plane-slot vector reads that slot: the
/// samples of a populated slot, nothing for a null one.
pub broadcast proof fn lemma_planes_deep_view_index(planes: Vec<Option<Vec<u32>>>, k: int)
    requires
        0 <= k < planes@.len(),
    ensures
        #[trigger] planes.deep_view()[k] == (if planes@[k] is Some {
            Some(planes@[k].unwrap()@)
        } else {
            None
        }),
{
    if planes@[k] is Some {
        lemma_plane_deep_view(planes@[k].unwrap());
    }
}

/// A host audio buffer record as plain values: the full plane-slot array
/// in channel order, the frame count and the timestamp.
pub struct AudioDataRecord {
    /// The plane slots. A populated slot holds one vector of raw 32-bit
    /// sample words; a null slot holds nothing. A well-formed record has
    /// exactly `MAX_AV_PLANES` slots.
    pub planes: Vec<Option<Vec<u32>>>,
    /// Samples per populated channel plane.
    pub frames: u32,
    /// Host clock units.
    pub timestamp: u64,
}

impl AudioDataRecord {
    /// The plane slots as sequences: the sample words of each populated
    /// slot, nothing for each null one.
    pub open spec fn planes_seq(&self) -> Seq<Option<Seq<u32>>> {
        self.planes.deep_view()
    }

    /// What the host's buffer layout guarantees of a record: the plane
    /// array has exactly its fixed capacity of slots, and every populated
    /// slot holds exactly one sample word per frame.
    pub open spec fn wf(&self) -> bool {
        &&& self.planes.len() == MAX_AV_PLANES
        &&& forall|i: int|
            0 <= i < self.planes_seq().len() && (#[trigger] self.planes_seq()[i]) is Some
                ==> self.planes_seq()[i].unwrap().len() == self.frames
    }
}

} // verus!
