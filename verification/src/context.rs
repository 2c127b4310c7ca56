//! A bounds-checked view over a host audio buffer record, giving
//! per-channel mutable sample access, frame count, and timestamp
//! read/write.

use vstd::prelude::*;

use crate::record::AudioDataRecord;
use crate::record::MAX_AV_PLANES;

verus! {

/// A view over one host audio buffer record.
///
/// The view lives only as long as the call that supplied the record: the
/// host owns the underlying buffer, and `into_raw` hands the record —
/// with whatever was changed through the view — back for return to it.
pub struct AudioDataContext {
    record: AudioDataRecord,
}

impl AudioDataContext {
    /// The plane slots of the viewed record: the sample words of each
    /// populated slot, nothing for each null one.
    pub closed spec fn spec_planes(&self) -> Seq<Option<Seq<u32>>> {
        self.record.planes_seq()
    }

    /// The frame count of the viewed record.
    pub closed spec fn spec_frames(&self) -> u32 {
        self.record.frames
    }

    /// The timestamp of the viewed record.
    pub closed spec fn spec_timestamp(&self) -> u64 {
        self.record.timestamp
    }

    /// The host's guarantee on the viewed record: the plane array has
    /// exactly its fixed capacity of slots and every populated slot holds
    /// one sample word per frame.
    pub open spec fn wf(&self) -> bool {
        &&& self.spec_planes().len() == MAX_AV_PLANES
        &&& forall|i: int|
            0 <= i < self.spec_planes().len() && (#[trigger] self.spec_planes()[i]) is Some
                ==> self.spec_planes()[i].unwrap().len() == self.spec_frames()
    }

    /// Wraps a buffer record handed over by the host. The host guarantees
    /// the record is well formed for the duration of the call.
    pub fn from_raw(record: AudioDataRecord) -> (c: Self)
        requires
            record.wf(),
        ensures
            c.wf(),
            c.spec_planes() == record.planes_seq(),
            c.spec_frames() == record.frames,
            c.spec_timestamp() == record.timestamp,
    {
        Self { record }
    }

    /// Unwraps the view, handing the record — with whatever was changed
    /// through the view — back, for return to the host.
    pub fn into_raw(self) -> (r: AudioDataRecord)
        ensures
            r.planes_seq() == self.spec_planes(),
            r.frames == self.spec_frames(),
            r.timestamp == self.spec_timestamp(),
            self.wf() ==> r.wf(),
    {
        self.record
    }

    /// Returns the frame count stored in the record: the number of samples
    /// in each populated channel plane.
    pub fn frames(&self) -> (r: usize)
        ensures
            r == self.spec_frames() as usize,
    {
        self.record.frames as usize
    }

    /// Returns the number of channel-plane slots in the record: the plane
    /// array's reported length, not a count of its non-null entries. For a
    /// well-formed record this is `MAX_AV_PLANES`, however many slots are
    /// populated.
    pub fn channels(&self) -> (r: usize)
        ensures
            r == self.spec_planes().len(),
    {
        self.record.planes.len()
    }

    /// Reads the record's timestamp.
    pub fn timestamp(&self) -> (r: u64)
        ensures
            r == self.spec_timestamp(),
    {
        self.record.timestamp
    }

    /// Writes the record's timestamp in place, visible to every later read
    /// through this view and handed back to the host with the record.
    pub fn set_timestamp(&mut self, timestamp: u64)
        ensures
            final(self).spec_timestamp() == timestamp,
            final(self).spec_planes() == old(self).spec_planes(),
            final(self).spec_frames() == old(self).spec_frames(),
    {
        self.record.timestamp = timestamp;
    }

    /// Mutable access to one channel's samples: a slice of exactly
    /// `frames()` sample words for every channel index whose slot is
    /// populated, and `None` both for an index at or beyond `channels()`
    /// and for an in-range slot that is null.
    pub fn get_channel_as_mut_slice(&mut self, channel: usize) -> (r: Option<&mut [u32]>)
        requires
            old(self).wf(),
        ensures
            channel >= old(self).spec_planes().len() ==> r is None,
            channel < old(self).spec_planes().len() && old(self).spec_planes()[channel as int]
                is None ==> r is None,
            r is None ==> {
                &&& final(self).spec_planes() =~~= old(self).spec_planes()
                &&& final(self).spec_frames() == old(self).spec_frames()
                &&& final(self).spec_timestamp() == old(self).spec_timestamp()
            },
            channel < old(self).spec_planes().len() && old(self).spec_planes()[channel as int]
                is Some ==> {
                &&& r is Some
                &&& r.unwrap()@ == old(self).spec_planes()[channel as int].unwrap()
                &&& r.unwrap()@.len() == old(self).spec_frames()
                &&& final(self).spec_planes() =~~= old(self).spec_planes().update(
                    channel as int,
                    Some(final(r.unwrap())@),
                )
                &&& final(self).spec_frames() == old(self).spec_frames()
                &&& final(self).spec_timestamp() == old(self).spec_timestamp()
            },
    {
        if channel >= self.record.planes.len() {
            return None;
        }
        match &mut self.record.planes[channel] {
            Some(plane) => Some(plane.as_mut_slice()),
            None => None,
        }
    }
}

/// A timestamp written through the view is what the next read returns:
/// `set_timestamp` leaves the view holding the written value, and
/// `timestamp` returns exactly the value the view holds.
///
/// The first premise is what `set_timestamp(written)` ensures of the view
/// it leaves behind; the second is what `timestamp` ensures of its result
/// on that view.
pub proof fn lemma_set_timestamp_visible(v: AudioDataContext, written: u64, read: u64)
    requires
        v.spec_timestamp() == written,
        read == v.spec_timestamp(),
    ensures
        read == written,
{
}

} // verus!
