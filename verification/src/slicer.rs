//! Boundary-safe slicing of text.
//!
//! All cutting is done at character granularity: a multi-byte character
//! counts as one unit and a cut can never land inside one. Cuts prefer the
//! nearest preceding space so that words are not split, and whole-text slices
//! are trimmed of surrounding whitespace, falling back to the untrimmed
//! prefix when trimming would leave nothing.

use vstd::prelude::*;
use vstd::string::*;
use vstd::utf8::*;

use crate::convert::spec_tokens_to_chars;
use crate::convert::AVG_CHARS_PER_TOKEN;

verus! {

broadcast use vstd::slice::axiom_spec_len;

/// Whitespace characters recognised when trimming a slice: the Unicode
/// White_Space set.
pub open spec fn is_wspace(c: char) -> bool {
    let u = c as u32;
    (0x09 <= u && u <= 0x0D) || u == 0x20 || u == 0x85 || u == 0xA0 || u == 0x1680 || (0x2000
        <= u && u <= 0x200A) || u == 0x2028 || u == 0x2029 || u == 0x202F || u == 0x205F || u
        == 0x3000
}

/// Position of the last space strictly before `end`, or -1 if there is none.
pub open spec fn spec_last_space(s: Seq<char>, end: int) -> int
    decreases end,
{
    if end <= 0 {
        -1
    } else if s[end - 1] == ' ' {
        end - 1
    } else {
        spec_last_space(s, end - 1)
    }
}

/// Position of the first non-whitespace character in `[i, end)`, or `end`.
pub open spec fn spec_first_non_ws(s: Seq<char>, i: int, end: int) -> int
    decreases end - i,
{
    if i >= end {
        end
    } else if is_wspace(s[i]) {
        spec_first_non_ws(s, i + 1, end)
    } else {
        i
    }
}

/// One past the last non-whitespace character in `[0, j)`, or 0.
pub open spec fn spec_last_non_ws_end(s: Seq<char>, j: int) -> int
    decreases j,
{
    if j <= 0 {
        0
    } else if is_wspace(s[j - 1]) {
        spec_last_non_ws_end(s, j - 1)
    } else {
        j
    }
}

/// The character range `(start, end)` that whole-text slicing selects: the
/// whole text when it fits the budget; otherwise the prefix of at most
/// `tokens * 4` characters, cut back to the last space when one exists, then
/// trimmed of surrounding whitespace, with the untrimmed prefix as fallback
/// when trimming would leave nothing.
pub open spec fn spec_whole_slice_range(s: Seq<char>, tokens: nat) -> (int, int) {
    let needed = spec_tokens_to_chars(tokens) as int;
    if s.len() <= needed {
        (0, s.len() as int)
    } else {
        let p = spec_last_space(s, needed);
        let cut = if p >= 0 {
            p
        } else {
            needed
        };
        let a = spec_first_non_ws(s, 0, cut);
        let b = spec_last_non_ws_end(s, cut);
        if a >= b {
            (0, needed)
        } else {
            (a, b)
        }
    }
}

/// The characters that whole-text slicing returns.
pub open spec fn spec_whole_slice(s: Seq<char>, tokens: nat) -> Seq<char> {
    s.subrange(spec_whole_slice_range(s, tokens).0, spec_whole_slice_range(s, tokens).1)
}

/// The byte offset of the character at position `char_pos` (clamped to the
/// text's length): the length of the UTF-8 encoding of the preceding
/// characters.
pub open spec fn spec_char_pos_to_byte_idx(s: Seq<char>, char_pos: int) -> int {
    let p = if char_pos <= s.len() {
        char_pos
    } else {
        s.len() as int
    };
    encode_utf8(s.take(p)).len() as int
}

/// The UTF-8 encoding of a character sequence splits at any character
/// position.
pub proof fn lemma_encode_utf8_split(s: Seq<char>, p: int)
    requires
        0 <= p <= s.len(),
    ensures
        encode_utf8(s) == encode_utf8(s.take(p)) + encode_utf8(s.skip(p)),
    decreases p,
{
    if p == 0 {
        assert(s.take(0) =~= Seq::<char>::empty());
        assert(s.skip(0) =~= s);
        assert(encode_utf8(s) =~= encode_utf8(s.take(0)) + encode_utf8(s.skip(0)));
    } else {
        let rest = s.drop_first();
        lemma_encode_utf8_split(rest, p - 1);
        assert(s.take(p).drop_first() =~= rest.take(p - 1));
        assert(s.skip(p) =~= rest.skip(p - 1));
        assert(s.take(p)[0] == s[0]);
        assert(encode_utf8(s) =~= encode_utf8(s.take(p)) + encode_utf8(s.skip(p)));
    }
}

/// Law: a cut at a character position is a character boundary of the UTF-8
/// encoding, so no slice produced at character granularity starts or ends in
/// the middle of a multi-byte character.
pub proof fn lemma_char_cut_is_byte_boundary(s: Seq<char>, p: int)
    requires
        0 <= p <= s.len(),
    ensures
        is_char_boundary(encode_utf8(s), encode_utf8(s.take(p)).len() as int),
    decreases p,
{
    broadcast use encode_utf8_valid_utf8;

    if p == 0 {
        assert(s.take(0) =~= Seq::<char>::empty());
    } else {
        let bytes = encode_utf8(s);
        let rest = s.drop_first();
        encode_utf8_first_scalar(s);
        assert(pop_first_scalar(bytes) =~= encode_utf8(rest));
        let first_len = encode_scalar(s[0] as u32).len() as int;
        assert(first_len >= 1);
        assert(s.take(p).drop_first() =~= rest.take(p - 1));
        assert(s.take(p)[0] == s[0]);
        assert(encode_utf8(s.take(p)) == encode_scalar(s[0] as u32) + encode_utf8(
            rest.take(p - 1),
        ));
        let idx = encode_utf8(s.take(p)).len() as int;
        lemma_encode_utf8_split(rest, p - 1);
        assert(idx <= bytes.len());
        lemma_char_cut_is_byte_boundary(rest, p - 1);
        assert(is_char_boundary(bytes, idx));
    }
}

/// The last-space position is -1 or a space position strictly before `end`.
pub proof fn lemma_last_space_range(s: Seq<char>, end: int)
    requires
        0 <= end,
    ensures
        -1 <= spec_last_space(s, end) < end,
        spec_last_space(s, end) >= 0 ==> s[spec_last_space(s, end)] == ' ',
    decreases end,
{
    if end > 0 && s[end - 1] != ' ' {
        lemma_last_space_range(s, end - 1);
    }
}

/// The first non-whitespace position lies in `[i, end]`, and points at a
/// non-whitespace character unless it is `end`.
pub proof fn lemma_first_non_ws_range(s: Seq<char>, i: int, end: int)
    requires
        0 <= i <= end,
    ensures
        i <= spec_first_non_ws(s, i, end) <= end,
        spec_first_non_ws(s, i, end) < end ==> !is_wspace(s[spec_first_non_ws(s, i, end)]),
    decreases end - i,
{
    if i < end && is_wspace(s[i]) {
        lemma_first_non_ws_range(s, i + 1, end);
    }
}

/// The trimmed end lies in `[0, j]`, and the character before it is
/// non-whitespace unless it is 0.
pub proof fn lemma_last_non_ws_end_range(s: Seq<char>, j: int)
    requires
        0 <= j,
    ensures
        0 <= spec_last_non_ws_end(s, j) <= j,
        spec_last_non_ws_end(s, j) > 0 ==> !is_wspace(s[spec_last_non_ws_end(s, j) - 1]),
    decreases j,
{
    if j > 0 && is_wspace(s[j - 1]) {
        lemma_last_non_ws_end_range(s, j - 1);
    }
}

/// Law: for any text and a budget of at least one token, the whole-text slice
/// has at most `tokens * 4` characters, and it is non-empty whenever the text
/// is non-empty.
pub proof fn lemma_whole_slice_bounds(s: Seq<char>, tokens: nat)
    requires
        tokens >= 1,
    ensures
        spec_whole_slice(s, tokens).len() <= spec_tokens_to_chars(tokens),
        s.len() > 0 ==> spec_whole_slice(s, tokens).len() > 0,
{
    let needed = spec_tokens_to_chars(tokens) as int;
    assert(needed >= 4);
    if s.len() > needed {
        let p = spec_last_space(s, needed);
        lemma_last_space_range(s, needed);
        let cut = if p >= 0 {
            p
        } else {
            needed
        };
        lemma_first_non_ws_range(s, 0, cut);
        lemma_last_non_ws_end_range(s, cut);
    }
}

/// Law: the whole-text slice is a contiguous run of whole characters of the
/// source text: it never starts or ends inside a character. Together with
/// `lemma_char_cut_is_byte_boundary`, its byte encoding begins and ends on
/// character boundaries of the source's UTF-8 encoding.
pub proof fn lemma_whole_slice_char_aligned(s: Seq<char>, tokens: nat)
    ensures
        exists|a: int, b: int|
            0 <= a <= b <= s.len() && spec_whole_slice(s, tokens) == s.subrange(a, b),
{
    let needed = spec_tokens_to_chars(tokens) as int;
    let (a0, b0) = spec_whole_slice_range(s, tokens);
    if s.len() > needed {
        lemma_last_space_range(s, needed);
        let p = spec_last_space(s, needed);
        let cut = if p >= 0 {
            p
        } else {
            needed
        };
        lemma_first_non_ws_range(s, 0, cut);
        lemma_last_non_ws_end_range(s, cut);
    }
    assert(0 <= a0 <= b0 <= s.len() && spec_whole_slice(s, tokens) == s.subrange(a0, b0));
}

/// Convert a 0-based character position to a byte offset into the text's
/// UTF-8 encoding; positions past the end give the total byte length. The
/// result is always a character boundary of the encoding.
pub fn char_pos_to_byte_idx(s: &str, char_pos: usize) -> (idx: usize)
    ensures
        idx as int == spec_char_pos_to_byte_idx(s@, char_pos as int),
        is_char_boundary(s.spec_bytes(), idx as int),
{
    let n = s.unicode_len();
    let p = if char_pos < n {
        char_pos
    } else {
        n
    };
    let prefix = s.substring_char(0, p);
    proof {
        assert(prefix@ =~= s@.take(p as int));
        lemma_char_cut_is_byte_boundary(s@, p as int);
    }
    let bytes = prefix.as_bytes();
    bytes.len()
}

/// True exactly when the character is recognised whitespace for trimming.
fn wspace_char(c: char) -> (b: bool)
    ensures
        b == is_wspace(c),
{
    let u = c as u32;
    (0x09 <= u && u <= 0x0D) || u == 0x20 || u == 0x85 || u == 0xA0 || u == 0x1680 || (0x2000
        <= u && u <= 0x200A) || u == 0x2028 || u == 0x2029 || u == 0x202F || u == 0x205F || u
        == 0x3000
}

/// Position of the last space strictly before `end`, if any.
fn last_space_before(s: &str, end: usize) -> (r: Option<usize>)
    requires
        end as int <= s@.len(),
    ensures
        match r {
            Some(p) => spec_last_space(s@, end as int) == p as int && p < end,
            None => spec_last_space(s@, end as int) == -1,
        },
{
    let mut i = end;
    while i > 0
        invariant
            i <= end,
            end as int <= s@.len(),
            spec_last_space(s@, end as int) == spec_last_space(s@, i as int),
        decreases i,
    {
        let c = s.get_char(i - 1);
        if c == ' ' {
            return Some(i - 1);
        }
        i = i - 1;
    }
    None
}

/// First position in `[0, end)` holding a non-whitespace character, or `end`.
fn trim_start_pos(s: &str, end: usize) -> (a: usize)
    requires
        end as int <= s@.len(),
    ensures
        a as int == spec_first_non_ws(s@, 0, end as int),
        a <= end,
{
    let mut i: usize = 0;
    while i < end
        invariant
            i <= end,
            end as int <= s@.len(),
            spec_first_non_ws(s@, 0, end as int) == spec_first_non_ws(s@, i as int, end as int),
        decreases end - i,
    {
        if !wspace_char(s.get_char(i)) {
            return i;
        }
        i = i + 1;
    }
    end
}

/// One past the last non-whitespace character in `[0, end)`, or 0.
fn trim_end_pos(s: &str, end: usize) -> (b: usize)
    requires
        end as int <= s@.len(),
    ensures
        b as int == spec_last_non_ws_end(s@, end as int),
        b <= end,
{
    let mut j = end;
    while j > 0
        invariant
            j <= end,
            end as int <= s@.len(),
            spec_last_non_ws_end(s@, end as int) == spec_last_non_ws_end(s@, j as int),
        decreases j,
    {
        if !wspace_char(s.get_char(j - 1)) {
            return j;
        }
        j = j - 1;
    }
    0
}

/// The character position where a streaming chunk starting at `pos` with a
/// character budget `want` ends: at most `want` characters further, cut back
/// to the last space in range when that still makes progress, and at least
/// one character forward when the text is not yet exhausted, so a session
/// always advances.
pub open spec fn spec_chunk_end(s: Seq<char>, pos: int, want: int) -> int {
    let end0 = if pos + want <= s.len() {
        pos + want
    } else {
        s.len() as int
    };
    let p = spec_last_space(s, end0);
    let end1 = if end0 < s.len() && p > pos {
        p
    } else {
        end0
    };
    if end1 > pos {
        end1
    } else if pos + 1 <= s.len() {
        pos + 1
    } else {
        s.len() as int
    }
}

/// The chunk cut always advances by at least one character and never moves
/// past the end of the text nor further than the budget (or one character
/// when the budget is zero).
pub proof fn lemma_chunk_end_range(s: Seq<char>, pos: int, want: int)
    requires
        0 <= pos < s.len(),
        0 <= want,
    ensures
        pos < spec_chunk_end(s, pos, want) <= s.len(),
        spec_chunk_end(s, pos, want) - pos <= if want >= 1 {
            want
        } else {
            1
        },
{
    let end0 = if pos + want <= s.len() {
        pos + want
    } else {
        s.len() as int
    };
    lemma_last_space_range(s, end0);
}

/// Cut the next streaming chunk: the characters from `pos` to the chunk end
/// for the given character budget.
pub fn slice_chunk<'a>(s: &'a str, pos: usize, want: usize) -> (r: &'a str)
    requires
        (pos as int) < s@.len(),
    ensures
        r@ == s@.subrange(pos as int, spec_chunk_end(s@, pos as int, want as int)),
{
    let total = s.unicode_len();
    let end0 = if want >= total - pos {
        total
    } else {
        pos + want
    };
    let mut end1 = end0;
    if end0 < total {
        match last_space_before(s, end0) {
            Some(p) => {
                if p > pos {
                    end1 = p;
                }
            },
            None => {},
        }
    }
    let endf = if end1 > pos {
        end1
    } else {
        pos + 1
    };
    proof {
        lemma_chunk_end_range(s@, pos as int, want as int);
        assert(endf as int == spec_chunk_end(s@, pos as int, want as int));
    }
    s.substring_char(pos, endf)
}

/// Slice text down to a token budget for a whole (non-streaming) response:
/// the longest prefix of at most `tokens * 4` characters, preferring a cut at
/// the last space in range and trimming surrounding whitespace, with the
/// untrimmed prefix as fallback so that a non-empty text never yields an
/// empty slice when at least one token is requested.
pub fn slice_text_by_tokens<'a>(s: &'a str, tokens: usize) -> (r: &'a str)
    ensures
        r@ == spec_whole_slice(s@, tokens as nat),
{
    let total = s.unicode_len();
    if total == 0 {
        return s;
    }
    if tokens > 0 && (total - 1) / AVG_CHARS_PER_TOKEN < tokens {
        // total <= tokens * 4: the whole text fits the budget
        assert(s@.len() <= spec_tokens_to_chars(tokens as nat));
        return s;
    }
    let needed = tokens * AVG_CHARS_PER_TOKEN;
    assert(s@.len() > spec_tokens_to_chars(tokens as nat));
    let cut = match last_space_before(s, needed) {
        Some(p) => p,
        None => needed,
    };
    let a = trim_start_pos(s, cut);
    let b = trim_end_pos(s, cut);
    if a >= b {
        let r = s.substring_char(0, needed);
        proof {
            assert(r@ =~= spec_whole_slice(s@, tokens as nat));
        }
        r
    } else {
        let r = s.substring_char(a, b);
        proof {
            assert(r@ =~= spec_whole_slice(s@, tokens as nat));
        }
        r
    }
}

} // verus!
