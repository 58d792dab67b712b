//! The per-request streaming session state machine.
//!
//! A session walks one article by character position, pulling a chunk size
//! from the shared sample ring at a private index, cutting the next chunk
//! boundary-safely, and decrementing a fixed character budget. When the
//! budget or the article is exhausted it emits exactly one terminal marker,
//! and afterwards it produces nothing: the event sequence is lazy, strictly
//! ordered, finite, and not restartable.

use vstd::prelude::*;
use vstd::string::*;

use crate::convert::spec_tokens_to_chars;
use crate::convert::tokens_to_chars;
use crate::convert::AVG_CHARS_PER_TOKEN;
use crate::ring::clamp_min_one;
use crate::ring::ring_entry;
use crate::ring::spec_min_one_tokens;
use crate::slicer::lemma_chunk_end_range;
use crate::slicer::slice_chunk;
use crate::slicer::spec_chunk_end;

verus! {

/// One event of a streaming response: a chunk of text, or the terminal
/// marker that ends the stream.
pub enum StreamEvent {
    Chunk(String),
    Done,
}

/// The total token budget of a response: the sampled total clamped to at
/// least one token, then capped by the caller's maximum if one was given.
pub open spec fn spec_total_tokens(sampled: int, max_tokens: Option<usize>) -> nat {
    let t = spec_min_one_tokens(sampled);
    match max_tokens {
        Some(m) => if t > m as nat {
            m as nat
        } else {
            t
        },
        None => t,
    }
}

/// Compute the total token budget for one response.
pub fn total_tokens(sampled: isize, max_tokens: Option<usize>) -> (t: usize)
    ensures
        t as nat == spec_total_tokens(sampled as int, max_tokens),
{
    let t = clamp_min_one(sampled);
    match max_tokens {
        Some(m) => if t > m {
            m
        } else {
            t
        },
        None => t,
    }
}

/// The character budget that the next ring entry asks of one chunk: the
/// entry's token count in characters, clamped to the remaining budget.
pub open spec fn spec_chunk_want(ring: Seq<usize>, idx: int, remaining: int) -> int {
    let budget = spec_tokens_to_chars(ring[idx % (ring.len() as int)] as nat) as int;
    if budget <= remaining {
        budget
    } else {
        remaining
    }
}

/// Per-request streaming state. The article and the sample ring are shared
/// immutable values passed to each step; only the initial ring offset was
/// claimed from the shared cursor, after which `sample_idx` advances
/// privately.
pub struct StreamingSession {
    /// Characters still to emit before the stream drains.
    pub chars_remaining: usize,
    /// Current character position in the chosen article.
    pub char_pos: usize,
    /// Private index into the sample ring.
    pub sample_idx: usize,
    /// Whether the terminal marker has already been emitted.
    pub done_sent: bool,
    /// History of the chunks emitted so far, oldest first.
    pub emitted: Ghost<Seq<Seq<char>>>,
}

impl StreamingSession {
    /// Well-formed with respect to the article the session walks: the
    /// cursor is inside the article, and the chunks emitted so far
    /// concatenate, in order, to exactly the first `char_pos` characters of
    /// it — every emission is a prefix of the article.
    pub open spec fn wf(self, article: Seq<char>) -> bool {
        &&& self.char_pos <= article.len()
        &&& self.emitted@.flatten() == article.take(self.char_pos as int)
    }

    /// Whether the session still has characters to emit.
    pub open spec fn active(self, article: Seq<char>) -> bool {
        self.chars_remaining > 0 && (self.char_pos as int) < article.len()
    }

    /// Start a session: the character budget is fixed up front from the
    /// sampled total (clamped to at least one token, capped by
    /// `max_tokens`), and the ring offset is the one claimed from the
    /// shared cursor.
    pub fn start(sampled: isize, max_tokens: Option<usize>, offset: usize) -> (s: StreamingSession)
        requires
            spec_tokens_to_chars(spec_total_tokens(sampled as int, max_tokens)) <= usize::MAX,
        ensures
            s.chars_remaining as nat == spec_tokens_to_chars(
                spec_total_tokens(sampled as int, max_tokens),
            ),
            s.char_pos == 0,
            s.sample_idx == offset,
            !s.done_sent,
            s.emitted@ == Seq::<Seq<char>>::empty(),
            forall|article: Seq<char>| #[trigger] s.wf(article),
    {
        let s = StreamingSession {
            chars_remaining: tokens_to_chars(total_tokens(sampled, max_tokens)),
            char_pos: 0,
            sample_idx: offset,
            done_sent: false,
            emitted: Ghost(Seq::empty()),
        };
        proof {
            assert forall|article: Seq<char>| #[trigger] s.wf(article) by {
                assert(s.emitted@.flatten() =~= article.take(0));
            }
        }
        s
    }

    /// Produce the next event of the session's event sequence.
    ///
    /// While characters remain and the article is not exhausted, the next
    /// ring entry (at the private index, which advances by one) sets the
    /// chunk's character budget, clamped to the remaining budget; the chunk
    /// is cut boundary-safely at the character cursor and always advances
    /// it. When the budget or the article is exhausted, the one terminal
    /// marker is emitted; after that the session produces nothing and its
    /// state no longer changes.
    pub fn next_event(&mut self, article: &str, ring: &Vec<usize>) -> (ev: Option<StreamEvent>)
        requires
            old(self).wf(article@),
            ring@.len() > 0,
            old(self).active(article@) ==> old(self).sample_idx < usize::MAX,
        ensures
            final(self).wf(article@),
            old(self).done_sent ==> ev is None && *final(self) == *old(self),
            !old(self).done_sent && !old(self).active(article@) ==> {
                &&& ev == Some(StreamEvent::Done)
                &&& final(self).done_sent
                &&& final(self).chars_remaining == old(self).chars_remaining
                &&& final(self).char_pos == old(self).char_pos
                &&& final(self).sample_idx == old(self).sample_idx
                &&& final(self).emitted@ == old(self).emitted@
            },
            !old(self).done_sent && old(self).active(article@) ==> {
                let want = spec_chunk_want(
                    ring@,
                    old(self).sample_idx as int,
                    old(self).chars_remaining as int,
                );
                let end = spec_chunk_end(article@, old(self).char_pos as int, want);
                &&& ev matches Some(StreamEvent::Chunk(c)) && c@ == article@.subrange(
                    old(self).char_pos as int,
                    end,
                )
                &&& old(self).char_pos < final(self).char_pos
                &&& final(self).char_pos == end
                &&& final(self).chars_remaining == old(self).chars_remaining - (end - old(
                    self,
                ).char_pos)
                &&& final(self).sample_idx == old(self).sample_idx + 1
                &&& !final(self).done_sent
                &&& final(self).emitted@ == old(self).emitted@.push(
                    article@.subrange(old(self).char_pos as int, end),
                )
            },
    {
        if self.done_sent {
            return None;
        }
        let article_chars = article.unicode_len();
        if self.chars_remaining == 0 || self.char_pos >= article_chars {
            self.done_sent = true;
            return Some(StreamEvent::Done);
        }
        let tokens = ring_entry(ring, self.sample_idx);
        let ghost old_idx = self.sample_idx as int;
        let ghost old_pos = self.char_pos as int;
        let ghost old_rem = self.chars_remaining as int;
        self.sample_idx = self.sample_idx + 1;
        // the entry's character budget, clamped to what remains, computed
        // without overflowing `tokens * 4`
        let want = if tokens <= self.chars_remaining / AVG_CHARS_PER_TOKEN {
            tokens * AVG_CHARS_PER_TOKEN
        } else {
            self.chars_remaining
        };
        proof {
            assert(want as int == spec_chunk_want(ring@, old_idx, old_rem));
        }
        let chunk = slice_chunk(article, self.char_pos, want);
        let sent = chunk.unicode_len();
        proof {
            lemma_chunk_end_range(article@, old_pos, want as int);
        }
        self.char_pos = self.char_pos + sent;
        self.chars_remaining = self.chars_remaining - sent;
        let owned = chunk.to_owned();
        proof {
            let ghost end = spec_chunk_end(article@, old_pos, want as int);
            old(self).emitted@.lemma_flatten_push(article@.subrange(old_pos, end));
            assert(article@.take(old_pos) + article@.subrange(old_pos, end) =~= article@.take(
                end,
            ));
        }
        self.emitted = Ghost(self.emitted@.push(chunk@));
        Some(StreamEvent::Chunk(owned))
    }

    /// Drive a session to completion, collecting every event it produces:
    /// chunks are emitted until the character budget or the article is
    /// exhausted, then the terminal marker.
    ///
    /// Law: a session with a fixed character budget emits a strictly
    /// ordered, finite sequence of chunk events whose concatenation
    /// reconstructs a prefix of the source article, followed by exactly one
    /// terminal marker, with no events after it; when it ends, the budget
    /// or the article is spent, and the private ring index has advanced by
    /// one per chunk.
    pub fn run_to_end(&mut self, article: &str, ring: &Vec<usize>) -> (evs: Vec<StreamEvent>)
        requires
            old(self).wf(article@),
            !old(self).done_sent,
            ring@.len() > 0,
            old(self).sample_idx as int + old(self).chars_remaining as int <= usize::MAX,
        ensures
            final(self).done_sent,
            final(self).wf(article@),
            !final(self).active(article@),
            final(self).emitted@.flatten() == article@.take(final(self).char_pos as int),
            evs@.len() >= 1,
            evs@.last() == StreamEvent::Done,
            forall|i: int| 0 <= i < evs@.len() - 1 ==> evs@[i] is Chunk,
            final(self).emitted@.len() == old(self).emitted@.len() + evs@.len() - 1,
            final(self).sample_idx as int == old(self).sample_idx as int + evs@.len() - 1,
            forall|i: int|
                0 <= i < evs@.len() - 1 ==> (#[trigger] evs@[i] matches StreamEvent::Chunk(c)
                    && c@ == final(self).emitted@[old(self).emitted@.len() + i]),
    {
        let mut evs: Vec<StreamEvent> = Vec::new();
        loop
            invariant
                self.wf(article@),
                !self.done_sent,
                ring@.len() > 0,
                self.sample_idx as int + self.chars_remaining as int <= usize::MAX,
                self.sample_idx as int == old(self).sample_idx as int + evs@.len(),
                self.emitted@.len() == old(self).emitted@.len() + evs@.len(),
                forall|i: int|
                    0 <= i < evs@.len() ==> (#[trigger] evs@[i] matches StreamEvent::Chunk(c)
                        && c@ == self.emitted@[old(self).emitted@.len() + i]),
            decreases self.chars_remaining,
        {
            let ev = self.next_event(article, ring);
            match ev {
                Some(e) => {
                    match e {
                        StreamEvent::Chunk(c) => {
                            evs.push(StreamEvent::Chunk(c));
                        },
                        StreamEvent::Done => {
                            evs.push(StreamEvent::Done);
                            return evs;
                        },
                    }
                },
                None => {
                    // unreachable: the session was not yet terminated
                    proof {
                        assert(false);
                    }
                    return evs;
                },
            }
        }
    }
}

} // verus!
