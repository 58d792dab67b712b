//! The article pool: immutable pre-generated text blocks, built once at
//! startup and shared read-only by every request that selects one.
//!
//! An article's length is driven by a sampled token count clamped to at
//! least one token; the filler text itself comes from an outside generator.
//! Selection is uniform over the pool, and an empty pool falls back to a
//! fixed short text instead of failing.

use rand::Rng;
use std::sync::Arc;
use vstd::prelude::*;

use crate::convert::spec_tokens_to_chars;
use crate::convert::tokens_to_chars;
use crate::ring::clamp_min_one;
use crate::ring::spec_min_one_tokens;

verus! {

/// The characters of the fixed fallback text used when the pool is empty.
pub open spec fn spec_fallback_article() -> Seq<char> {
    "Lorem ipsum dolor sit amet"@
}

/// The fixed fallback text used when the pool is empty.
pub fn fallback_article() -> (a: String)
    ensures
        a@ == spec_fallback_article(),
{
    "Lorem ipsum dolor sit amet".to_owned()
}

/// Estimated word count for a character budget: characters divided by six
/// (an average word plus its space), rounded, and at least one word.
pub open spec fn spec_words_for_chars(chars: nat) -> nat {
    let rounded = chars / 6 + if chars % 6 >= 3 {
        1nat
    } else {
        0nat
    };
    if rounded >= 1 {
        rounded
    } else {
        1nat
    }
}

/// Estimate how many filler words fill a character budget.
pub fn words_for_chars(chars: usize) -> (w: usize)
    ensures
        w as nat == spec_words_for_chars(chars as nat),
{
    let rounded = chars / 6 + if chars % 6 >= 3 {
        1
    } else {
        0
    };
    if rounded >= 1 {
        rounded
    } else {
        1
    }
}

/// What the filler-text generator returns for a word count. The generator
/// runs a deterministically seeded chain over a fixed corpus, so the text
/// depends on the word count alone.
pub uninterp spec fn filler_of(words: nat) -> Seq<char>;

/// Relies on lipsum::lipsum_words: the text is sampled deterministically
/// (a fixed-seed generator over a fixed corpus, the same on every run), so
/// it is a function of the word count alone; one or more words always
/// yields non-empty text ending in a sentence, zero words empty text.
#[verifier::external_body]
fn filler_text(words: usize) -> (r: String)
    ensures
        r@ == filler_of(words as nat),
        words >= 1 ==> r@.len() > 0,
        words == 0 ==> r@.len() == 0,
{
    lipsum::lipsum_words(words)
}

/// Build one article from a raw rounded token-count sample: the sample is
/// clamped to at least one token, converted to a character budget, and
/// filled with synthetic text of the word count estimated from that budget.
/// The result is never empty.
pub fn build_article(sampled: isize) -> (a: Arc<String>)
    requires
        spec_tokens_to_chars(spec_min_one_tokens(sampled as int)) <= usize::MAX,
    ensures
        a@ == filler_of(
            spec_words_for_chars(spec_tokens_to_chars(spec_min_one_tokens(sampled as int))),
        ),
        a@.len() > 0,
{
    let tokens = clamp_min_one(sampled);
    let chars = tokens_to_chars(tokens);
    let words = words_for_chars(chars);
    assert(words >= 1);
    Arc::new(filler_text(words))
}

/// Relies on std::sync::Arc::clone: returns a new reference to the same
/// shared string, without copying the text.
#[verifier::external_body]
fn share_article(a: &Arc<String>) -> (r: Arc<String>)
    ensures
        r@ == a@,
{
    Arc::clone(a)
}

/// Relies on rand::Rng::gen_range on the thread-local generator: a uniform
/// draw strictly below the given positive bound.
#[verifier::external_body]
fn random_below(n: usize) -> (r: usize)
    requires
        n > 0,
    ensures
        r < n,
{
    rand::thread_rng().gen_range(0..n)
}

/// Choose one article uniformly at random from the pool. An empty pool
/// yields the fixed fallback text instead of failing or returning an empty
/// result.
pub fn choose_article(articles: &[Arc<String>]) -> (a: Arc<String>)
    ensures
        articles@.len() == 0 ==> a@ == spec_fallback_article(),
        articles@.len() > 0 ==> exists|i: int| 0 <= i < articles@.len() && a@ == articles@[i]@,
{
    if articles.len() == 0 {
        Arc::new(fallback_article())
    } else {
        let idx = random_below(articles.len());
        let chosen = &articles[idx];
        let r = share_article(chosen);
        proof {
            assert(r@ == articles@[idx as int]@);
        }
        r
    }
}

} // verus!
