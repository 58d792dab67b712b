//! Conversion between the abstract token unit and character counts.
//!
//! A token is mapped to a fixed number of characters; the reverse direction
//! rounds up, so the two functions are deliberately not exact inverses:
//! round-tripping a token count returns it unchanged, but round-tripping a
//! character count may not.

use vstd::prelude::*;

verus! {

/// Number of characters that one abstract token stands for.
pub const AVG_CHARS_PER_TOKEN: usize = 4;

/// The character budget that a token count stands for: `tokens * 4`.
pub open spec fn spec_tokens_to_chars(tokens: nat) -> nat {
    tokens * (AVG_CHARS_PER_TOKEN as nat)
}

/// The token count that a character count is reported as: `ceil(chars / 4)`.
pub open spec fn spec_chars_to_tokens(chars: nat) -> nat {
    (chars + (AVG_CHARS_PER_TOKEN - 1) as nat) / (AVG_CHARS_PER_TOKEN as nat)
}

/// Convert a token count to its character budget.
pub fn tokens_to_chars(tokens: usize) -> (chars: usize)
    requires
        tokens * AVG_CHARS_PER_TOKEN <= usize::MAX,
    ensures
        chars == spec_tokens_to_chars(tokens as nat),
{
    tokens * AVG_CHARS_PER_TOKEN
}

/// Convert a character count to the token count it is reported as.
pub fn chars_to_tokens(chars: usize) -> (tokens: usize)
    ensures
        tokens == spec_chars_to_tokens(chars as nat),
{
    chars / AVG_CHARS_PER_TOKEN + if chars % AVG_CHARS_PER_TOKEN == 0 {
        0
    } else {
        1
    }
}

/// Law: converting a token count to characters and back returns the same
/// count, for every non-negative token count.
pub proof fn lemma_token_char_round_trip(tokens: nat)
    ensures
        spec_chars_to_tokens(spec_tokens_to_chars(tokens)) == tokens,
{
}

} // verus!
