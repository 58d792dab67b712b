//! The chunk-size sample ring and the shared cursor over it.
//!
//! The ring is a fixed-length, immutable sequence of non-negative token
//! counts computed once at startup. Each streaming session claims one
//! starting offset from the shared cursor — the only shared mutable state in
//! the engine — and then reads entries at `(offset + i) mod ring length`
//! privately, so the per-chunk path costs no synchronisation and no
//! random-number generation.

use vstd::prelude::*;

verus! {

/// A raw rounded sample clamped to a non-negative token count.
pub open spec fn spec_clamp_sample(v: int) -> nat {
    if v < 0 {
        0
    } else {
        v as nat
    }
}

/// Clamp one raw rounded sample: a negative draw becomes 0, never a negative
/// chunk size.
pub fn clamp_sample(v: isize) -> (t: usize)
    ensures
        t as nat == spec_clamp_sample(v as int),
{
    if v < 0 {
        0
    } else {
        v as usize
    }
}

/// A raw rounded sample clamped to at least one token, for response totals.
pub open spec fn spec_min_one_tokens(v: int) -> nat {
    if v < 1 {
        1
    } else {
        v as nat
    }
}

/// Clamp one raw rounded sample to at least one token.
pub fn clamp_min_one(v: isize) -> (t: usize)
    ensures
        t as nat == spec_min_one_tokens(v as int),
{
    if v < 1 {
        1
    } else {
        v as usize
    }
}

/// Build the immutable sample ring from raw rounded samples: entry for
/// entry, negative samples clamp to zero.
pub fn build_sample_ring(raw: &Vec<isize>) -> (ring: Vec<usize>)
    ensures
        ring@.len() == raw@.len(),
        forall|i: int|
            0 <= i < raw@.len() ==> ring@[i] as nat == spec_clamp_sample(raw@[i] as int),
{
    let mut ring: Vec<usize> = Vec::new();
    let n = raw.len();
    let mut k: usize = 0;
    while k < n
        invariant
            k <= n,
            n == raw@.len(),
            ring@.len() == k,
            forall|i: int|
                0 <= i < k ==> ring@[i] as nat == spec_clamp_sample(raw@[i] as int),
        decreases n - k,
    {
        ring.push(clamp_sample(raw[k]));
        k = k + 1;
    }
    ring
}

/// Read the ring entry for a session's private index, wrapping modulo the
/// ring length.
pub fn ring_entry(ring: &Vec<usize>, idx: usize) -> (t: usize)
    requires
        ring@.len() > 0,
    ensures
        t == ring@[(idx as int) % (ring@.len() as int)],
{
    ring[idx % ring.len()]
}

/// The shared cursor that hands each new streaming session a distinct
/// starting offset into the sample ring. Only this one claim is shared
/// between sessions; afterwards a session advances a private index without
/// further synchronisation.
pub struct RingCursor {
    pub next_offset: usize,
}

/// What one claim does: it returns the counter's value and advances it by
/// one.
pub open spec fn claim_step(pre: RingCursor, post: RingCursor, offset: usize) -> bool {
    offset == pre.next_offset && post.next_offset == pre.next_offset + 1
}

impl RingCursor {
    /// A cursor that will hand out offsets starting at 0.
    pub fn new() -> (c: RingCursor)
        ensures
            c.next_offset == 0,
    {
        RingCursor { next_offset: 0 }
    }

    /// Claim the next starting offset: returns the current counter and
    /// advances it.
    pub fn claim(&mut self) -> (offset: usize)
        requires
            old(self).next_offset < usize::MAX,
        ensures
            claim_step(*old(self), *final(self), offset),
    {
        let offset = self.next_offset;
        self.next_offset = self.next_offset + 1;
        offset
    }
}

/// Law: offsets claimed from the shared ring cursor are pairwise distinct,
/// however many sessions claim against it. Any two claims are ordered —
/// one of them sees a counter at least as large as the other left behind —
/// and the later one returns a strictly larger offset, so no two sessions
/// ever receive the same starting offset.
pub proof fn lemma_claims_distinct(
    pre1: RingCursor,
    post1: RingCursor,
    off1: usize,
    pre2: RingCursor,
    post2: RingCursor,
    off2: usize,
)
    requires
        claim_step(pre1, post1, off1),
        claim_step(pre2, post2, off2),
        post1.next_offset <= pre2.next_offset,
    ensures
        off1 < off2,
{
}

} // verus!
