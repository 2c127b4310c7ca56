//! An owned, channel-major audio buffer that can be allocated fresh,
//! shaped like an existing view, mutated freely, and serialized into the
//! host's record layout.

use vstd::prelude::*;

use crate::context::AudioDataContext;
use crate::record::AudioDataRecord;
use crate::record::MAX_AV_PLANES;

verus! {

/// The all-zero sample plane of a given length. The zero word is the
/// silent sample in the host's sample format.
pub open spec fn zero_samples(frames: nat) -> Seq<u32> {
    Seq::new(frames, |j: int| 0u32)
}

/// `channels` all-zero planes of `frames` samples each.
pub open spec fn zero_planes(channels: nat, frames: nat) -> Seq<Seq<u32>> {
    Seq::new(channels, |i: int| zero_samples(frames))
}

/// Builds one zero-filled sample plane.
fn zero_channel(frames: usize) -> (v: Vec<u32>)
    ensures
        v@ == zero_samples(frames as nat),
{
    let mut v: Vec<u32> = Vec::new();
    let mut j: usize = 0;
    while j < frames
        invariant
            j <= frames,
            v@ == zero_samples(j as nat),
        decreases frames - j,
    {
        v.push(0);
        j = j + 1;
        proof {
            assert(v@ =~= zero_samples(j as nat));
        }
    }
    v
}

/// An owned audio buffer: one vector of raw 32-bit sample words per
/// channel, a frame count and a timestamp.
pub struct AudioData {
    /// The channel planes, in channel order.
    pub data: Vec<Vec<u32>>,
    /// Samples per channel.
    pub frames: usize,
    /// Host clock units.
    pub timestamp: u64,
}

impl AudioData {
    /// The per-channel sample words, one inner sequence per channel.
    pub open spec fn planes_seq(&self) -> Seq<Seq<u32>> {
        self.data.deep_view()
    }

    /// Shape invariant: every channel plane holds exactly one sample word
    /// per frame.
    pub open spec fn wf(&self) -> bool {
        forall|i: int|
            0 <= i < self.planes_seq().len() ==> #[trigger] self.planes_seq()[i].len()
                == self.frames
    }

    /// Allocates `channels` channels, each zero-filled to `frames` samples,
    /// stamped with `timestamp`.
    pub fn new(channels: usize, frames: usize, timestamp: u64) -> (r: Self)
        ensures
            r.planes_seq() == zero_planes(channels as nat, frames as nat),
            r.frames == frames,
            r.timestamp == timestamp,
            r.wf(),
    {
        let mut data: Vec<Vec<u32>> = Vec::new();
        let mut i: usize = 0;
        while i < channels
            invariant
                i <= channels,
                data@.len() == i,
                forall|k: int| 0 <= k < i ==> (#[trigger] data@[k])@ == zero_samples(frames as nat),
            decreases channels - i,
        {
            data.push(zero_channel(frames));
            i = i + 1;
        }
        proof {
            broadcast use crate::record::lemma_planes_deep_view_index;

            assert(data.deep_view() =~~= zero_planes(channels as nat, frames as nat));
        }
        Self { data, frames, timestamp }
    }

    /// Allocates a zero-filled buffer shaped like an existing view: one
    /// channel per plane slot the view reports, each of the view's frame
    /// count. The timestamp is not copied from the view — it is zero, to
    /// be set by whoever produces the new audio before handing the buffer
    /// back.
    pub fn new_like(data: &AudioDataContext) -> (r: Self)
        ensures
            r.planes_seq() == zero_planes(data.spec_planes().len(), data.spec_frames() as nat),
            r.planes_seq().len() == data.spec_planes().len(),
            r.frames == data.spec_frames() as usize,
            r.timestamp == 0,
            r.wf(),
    {
        let channels = data.channels();
        let frames = data.frames();
        Self::new(channels, frames, 0)
    }

    /// Serializes this buffer into the host's record layout: a plane
    /// array of exactly `MAX_AV_PLANES` slots whose first `channels`
    /// slots carry this buffer's planes in order and whose remaining
    /// slots are null, the frame count narrowed to the record's 32-bit
    /// field, and the timestamp.
    ///
    /// A buffer with more channels than the record layout can carry cannot
    /// be serialized; the host ABI limit is a precondition, as is the
    /// record's 32-bit frame field.
    pub fn to_raw(&self) -> (r: AudioDataRecord)
        requires
            self.data.len() <= MAX_AV_PLANES,
            self.frames <= u32::MAX,
        ensures
            r.planes_seq().len() == MAX_AV_PLANES,
            forall|k: int|
                0 <= k < self.planes_seq().len() ==> #[trigger] r.planes_seq()[k] == Some(
                    self.planes_seq()[k],
                ),
            forall|k: int|
                self.planes_seq().len() <= k < MAX_AV_PLANES ==> #[trigger] r.planes_seq()[k]
                    is None,
            r.frames == self.frames as u32,
            r.timestamp == self.timestamp,
            self.wf() ==> r.wf(),
    {
        let channels = self.data.len();
        let mut planes: Vec<Option<Vec<u32>>> = Vec::new();
        let mut i: usize = 0;
        while i < MAX_AV_PLANES
            invariant
                i <= MAX_AV_PLANES,
                channels == self.data@.len() <= MAX_AV_PLANES,
                planes@.len() == i,
                forall|k: int|
                    0 <= k < i && k < channels ==> (#[trigger] planes@[k]) is Some
                        && planes@[k].unwrap()@ == self.data@[k]@,
                forall|k: int| channels <= k < i ==> (#[trigger] planes@[k]) is None,
            decreases MAX_AV_PLANES - i,
        {
            if i < channels {
                let plane = self.data[i].clone();
                proof {
                    assert(plane@ =~= self.data@[i as int]@);
                }
                planes.push(Some(plane));
            } else {
                planes.push(None);
            }
            i = i + 1;
        }
        let r = AudioDataRecord { planes, frames: self.frames as u32, timestamp: self.timestamp };
        proof {
            broadcast use crate::record::lemma_planes_deep_view_index;
            broadcast use crate::record::lemma_plane_deep_view;

            assert forall|k: int|
                0 <= k < self.planes_seq().len() implies #[trigger] r.planes_seq()[k] == Some(
                self.planes_seq()[k],
            ) by {
                assert(self.planes_seq()[k] == self.data@[k].deep_view());
                assert(r.planes_seq()[k] == Some(r.planes@[k].unwrap()@));
            }
        }
        r
    }
}

/// Round trip: a record serialized from an owned buffer, viewed through a
/// context built over that record, shows the buffer's own frame count,
/// timestamp and per-channel sample values — each of the buffer's planes
/// in its populated slot, every further slot null.
///
/// The premises on `r` are what `AudioData::to_raw` ensures of its result,
/// and those on `c` are what `AudioDataContext::from_raw` ensures of a
/// context built over `r`.
pub proof fn lemma_serialize_round_trip(b: AudioData, r: AudioDataRecord, c: AudioDataContext)
    requires
        b.frames <= u32::MAX,
        b.planes_seq().len() <= MAX_AV_PLANES,
        r.planes_seq().len() == MAX_AV_PLANES,
        forall|k: int|
            0 <= k < b.planes_seq().len() ==> #[trigger] r.planes_seq()[k] == Some(
                b.planes_seq()[k],
            ),
        forall|k: int|
            b.planes_seq().len() <= k < MAX_AV_PLANES ==> #[trigger] r.planes_seq()[k] is None,
        r.frames == b.frames as u32,
        r.timestamp == b.timestamp,
        c.spec_planes() == r.planes_seq(),
        c.spec_frames() == r.frames,
        c.spec_timestamp() == r.timestamp,
    ensures
        c.spec_planes().len() == MAX_AV_PLANES,
        forall|k: int|
            0 <= k < b.planes_seq().len() ==> #[trigger] c.spec_planes()[k] == Some(
                b.planes_seq()[k],
            ),
        forall|k: int|
            b.planes_seq().len() <= k < MAX_AV_PLANES ==> #[trigger] c.spec_planes()[k] is None,
        c.spec_frames() as usize == b.frames,
        c.spec_timestamp() == b.timestamp,
{
}

} // verus!
