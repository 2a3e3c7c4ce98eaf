//! Activity identifiers: the 16-byte values that tie the events of a span
//! together and to the span's parent.

use crate::bytes::{
    le_bytes, le_value, lemma_le_bytes_len, lemma_le_round_trip, pow256, u64_le_bytes,
};
use vstd::prelude::*;

verus! {

/// The identifier that a process seed and a span id give.
///
/// A span id of zero stands for "no span": the identifier is the seed with its
/// first byte cleared. Otherwise the first byte is 1, bytes 1 to 7 are the
/// seed's, and bytes 8 to 15 are the span id, least significant byte first.
pub open spec fn activity_bytes(seed: Seq<u8>, span_id: u64) -> Seq<u8>
    recommends
        seed.len() == 16,
{
    if span_id == 0 {
        seed.update(0, 0u8)
    } else {
        seq![1u8] + seed.subrange(1, 8) + le_bytes(span_id as nat, 8)
    }
}

/// The activity id of a span and the id of its parent.
#[derive(Clone, Copy, Debug)]
pub struct Activities {
    pub activity_id: [u8; 16],
    pub related_activity_id: [u8; 16],
}

impl Default for Activities {
    fn default() -> (out: Activities)
        ensures
            out.activity_id@ == Seq::new(16, |i: int| 0u8),
            out.related_activity_id@ == Seq::new(16, |i: int| 0u8),
    {
        let out = Activities { activity_id: [0u8; 16], related_activity_id: [0u8; 16] };
        assert(out.activity_id@ =~= Seq::new(16, |i: int| 0u8));
        assert(out.related_activity_id@ =~= Seq::new(16, |i: int| 0u8));
        out
    }
}

impl Activities {
    /// Whether this pair is the one that `seed`, `span_id` and `parent_span_id` give.
    pub open spec fn is_generated(
        self,
        seed: Seq<u8>,
        span_id: u64,
        parent_span_id: u64,
    ) -> bool {
        &&& self.activity_id@ == activity_bytes(seed, span_id)
        &&& self.related_activity_id@ == activity_bytes(seed, parent_span_id)
    }

    /// Derives the activity id and the related activity id of a span from the
    /// process seed, the span's own id and its parent's id (zero for none).
    pub fn generate(seed: &[u8; 16], span_id: u64, parent_span_id: u64) -> (out: Activities)
        ensures
            out.is_generated(seed@, span_id, parent_span_id),
    {
        Activities {
            activity_id: activity_id_bytes(seed, span_id),
            related_activity_id: activity_id_bytes(seed, parent_span_id),
        }
    }

    /// The activity id to attach to an event, if the span is present.
    pub fn activity(&self) -> (out: Option<[u8; 16]>)
        ensures
            out == if self.activity_id@[0] != 0 {
                Some(self.activity_id)
            } else {
                None
            },
    {
        if self.activity_id[0] != 0 {
            Some(self.activity_id)
        } else {
            None
        }
    }

    /// The two ids to attach to an event: the activity id if the span is
    /// present, and with it the related activity id if there is a parent. An
    /// event without an activity has no related activity either.
    pub fn write_ids(&self) -> (out: (Option<[u8; 16]>, Option<[u8; 16]>))
        ensures
            out.0 == if self.activity_id@[0] != 0 {
                Some(self.activity_id)
            } else {
                None
            },
            out.1 == if self.activity_id@[0] != 0 && self.related_activity_id@[0] != 0 {
                Some(self.related_activity_id)
            } else {
                None
            },
    {
        match self.activity() {
            Some(own) => (Some(own), self.related()),
            None => (None, None),
        }
    }

    /// The related activity id to attach to an event, if there is a parent.
    pub fn related(&self) -> (out: Option<[u8; 16]>)
        ensures
            out == if self.related_activity_id@[0] != 0 {
                Some(self.related_activity_id)
            } else {
                None
            },
    {
        if self.related_activity_id[0] != 0 {
            Some(self.related_activity_id)
        } else {
            None
        }
    }
}

/// One identifier: see [`activity_bytes`].
pub fn activity_id_bytes(seed: &[u8; 16], span_id: u64) -> (out: [u8; 16])
    ensures
        out@ == activity_bytes(seed@, span_id),
{
    let mut out: [u8; 16] = *seed;
    if span_id == 0 {
        out[0] = 0;
        assert(out@ =~= activity_bytes(seed@, span_id));
    } else {
        let id = u64_le_bytes(span_id);
        out[0] = 1;
        let mut k: usize = 0;
        while k < 8
            invariant
                k <= 8,
                out@.len() == 16,
                id@.len() == 8,
                out@.subrange(0, 8) == seq![1u8] + seed@.subrange(1, 8),
                out@.subrange(8, 8 + k as int) == id@.subrange(0, k as int),
            decreases 8 - k,
        {
            let ghost before = out@;
            out[8 + k] = id[k];
            proof {
                assert(out@.subrange(0, 8) =~= before.subrange(0, 8));
                assert(out@.subrange(8, 8 + k as int + 1) =~= before.subrange(8, 8 + k as int).push(
                    id@[k as int],
                ));
                assert(id@.subrange(0, k as int + 1) =~= id@.subrange(0, k as int).push(
                    id@[k as int],
                ));
            }
            k = k + 1;
        }
        proof {
            assert(id@.subrange(0, 8) =~= id@);
            assert(out@ =~= out@.subrange(0, 8) + out@.subrange(8, 16));
        }
    }
    out
}

/// The process seed that a clock reading gives: the two 64-bit halves of the
/// nanosecond count are or-ed together and stored, least significant byte
/// first, in bytes 0 to 7; byte 0 is then cleared. Bytes 8 to 15 are zero.
pub open spec fn seed_bytes(mixed: u64) -> Seq<u8> {
    (le_bytes(mixed as nat, 8) + Seq::new(8, |i: int| 0u8)).update(0, 0u8)
}

/// The two halves of a 128-bit nanosecond count, or-ed together.
pub open spec fn mix_nanos(nanos: u128) -> u64 {
    ((nanos >> 64) as u64) | (nanos as u64)
}

/// Builds the process seed from the nanoseconds since the epoch.
pub fn seed_from_nanos(nanos: u128) -> (seed: [u8; 16])
    ensures
        seed@ == seed_bytes(mix_nanos(nanos)),
        seed@[0] == 0,
{
    let hi: u64 = (nanos >> 64) as u64;
    let lo: u64 = #[verifier::truncate]
    (nanos as u64);
    let mixed: u64 = hi | lo;
    let low = u64_le_bytes(mixed);
    let mut seed: [u8; 16] = [0u8; 16];
    let mut k: usize = 1;
    while k < 8
        invariant
            1 <= k <= 8,
            seed@.len() == 16,
            low@.len() == 8,
            seed@[0] == 0,
            forall|i: int| 1 <= i < k ==> seed@[i] == low@[i],
            forall|i: int| k <= i < 16 ==> seed@[i] == 0,
        decreases 8 - k,
    {
        seed[k] = low[k];
        k = k + 1;
    }
    proof {
        assert(seed@ =~= seed_bytes(mixed));
    }
    seed
}

/// Generating twice from the same seed and ids gives the same identifiers.
pub proof fn lemma_generate_deterministic(
    seed: Seq<u8>,
    span_id: u64,
    parent_span_id: u64,
    first: Activities,
    second: Activities,
)
    requires
        first.is_generated(seed, span_id, parent_span_id),
        second.is_generated(seed, span_id, parent_span_id),
    ensures
        first == second,
{
    assert(first.activity_id@ =~= second.activity_id@);
    assert(first.related_activity_id@ =~= second.related_activity_id@);
    assert(first.activity_id == second.activity_id);
    assert(first.related_activity_id == second.related_activity_id);
}

/// The first byte of the related activity id says whether there is a parent,
/// and with a parent bytes 8 to 15 decode, least significant byte first, to
/// the parent's id. The same holds of the activity id and the span's own id.
pub proof fn lemma_presence_byte(seed: Seq<u8>, span_id: u64, parent_span_id: u64, ids: Activities)
    requires
        seed.len() == 16,
        ids.is_generated(seed, span_id, parent_span_id),
    ensures
        parent_span_id == 0 ==> ids.related_activity_id@[0] == 0,
        parent_span_id != 0 ==> ids.related_activity_id@[0] == 1 && le_value(
            ids.related_activity_id@.subrange(8, 16),
        ) == parent_span_id,
        span_id == 0 ==> ids.activity_id@[0] == 0,
        span_id != 0 ==> ids.activity_id@[0] == 1 && le_value(ids.activity_id@.subrange(8, 16))
            == span_id,
{
    lemma_present_id(seed, span_id);
    lemma_present_id(seed, parent_span_id);
}

proof fn lemma_present_id(seed: Seq<u8>, id: u64)
    requires
        seed.len() == 16,
    ensures
        id == 0 ==> activity_bytes(seed, id)[0] == 0,
        id != 0 ==> activity_bytes(seed, id)[0] == 1 && le_value(
            activity_bytes(seed, id).subrange(8, 16),
        ) == id,
        activity_bytes(seed, id).len() == 16,
{
    lemma_le_bytes_len(id as nat, 8);
    if id != 0 {
        lemma_le_round_trip(id as nat, 8);
        assert(pow256(8) == 0x1_0000_0000_0000_0000) by {
            reveal_with_fuel(pow256, 9);
        }
        assert(activity_bytes(seed, id).subrange(8, 16) =~= le_bytes(id as nat, 8));
    }
}

} // verus!
