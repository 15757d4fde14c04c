//! Fuzzy scoring through `nucleo-matcher`, the engine shared by the file
//! finder and the preview's line filter.
use vstd::prelude::*;

use nucleo_matcher::pattern::{CaseMatching, Normalization, Pattern};
use nucleo_matcher::{Config, Matcher, Utf32Str};

verus! {

/// `nucleo_matcher::Matcher`, carried through the library as an opaque value:
/// its scratch memory is reused from one scoring to the next.
#[verifier::external_type_specification]
#[verifier::external_body]
pub struct ExMatcher(Matcher);

/// The score that `nucleo-matcher` gives `text` for `query`, the query
/// parsed with smart case matching and smart normalization and the text
/// matched with the default configuration; `None` where the text does not
/// match.
pub uninterp spec fn spec_fuzzy_score(query: Seq<char>, text: Seq<char>) -> Option<u32>;

/// Calls `Matcher::new(Config::DEFAULT)`. The library builds every matcher
/// here, so each one carries the default configuration.
#[verifier::external_body]
pub(crate) fn new_matcher() -> Matcher {
    Matcher::new(Config::DEFAULT)
}

/// The number of words of a query: maximal runs of characters other than
/// the space.
pub open spec fn query_words(q: Seq<char>) -> nat
    decreases q.len(),
{
    if q.len() == 0 {
        0
    } else {
        query_words(q.drop_last()) + if q.last() != ' ' && (q.len() == 1 || q[q.len() - 2] == ' ') {
            1nat
        } else {
            0nat
        }
    }
}

/// The most words a query may have: the matcher adds one `u16` score per
/// word into a `u32`, and 65537 * 65535 still fits.
pub const MAX_QUERY_WORDS: u64 = 65537;

/// A query the matcher can score without its sum overflowing.
pub open spec fn query_fits(q: Seq<char>) -> bool {
    query_words(q) <= MAX_QUERY_WORDS
}

/// Whether the matcher can take `query` (see `query_fits`).
pub fn fuzzy_query_fits(query: &str) -> (r: bool)
    ensures
        r == query_fits(query@),
{
    let cs = crate::text::chars_of(query);
    let mut n: u64 = 0;
    let mut i: usize = 0;
    while i < cs.len()
        invariant
            cs@ == query@,
            i <= cs@.len(),
            n == query_words(cs@.take(i as int)),
            n <= i,
        decreases cs@.len() - i,
    {
        proof {
            assert(cs@.take(i + 1).drop_last() =~= cs@.take(i as int));
        }
        if cs[i] != ' ' && (i == 0 || cs[i - 1] == ' ') {
            n = n + 1;
        }
        i = i + 1;
    }
    proof {
        assert(cs@.take(cs@.len() as int) =~= cs@);
    }
    n <= MAX_QUERY_WORDS
}

/// Calls `Pattern::parse(query, CaseMatching::Smart, Normalization::Smart)`
/// and then `Pattern::score` on `Utf32Str::new(text, ..)` with `matcher`.
/// The contract claims that the result is a function of `query` and `text`
/// alone, named by `spec_fuzzy_score`: the matcher's memory is scratch space
/// and its configuration is always the default one (see `new_matcher`).
/// The bounds keep out the inputs on which the crate panics: a haystack
/// longer than `u32::MAX` characters, and a query with so many words that the
/// `u32` sum of their `u16` scores could overflow (the pattern's atoms are
/// its pieces between unescaped spaces, so there are no more of them than
/// `query_words` counts).
#[verifier::external_body]
pub(crate) fn fuzzy_score(matcher: &mut Matcher, query: &str, text: &str) -> (r: Option<u32>)
    requires
        query_fits(query@),
        text@.len() <= u32::MAX,
    ensures
        r == spec_fuzzy_score(query@, text@),
{
    let pattern = Pattern::parse(query, CaseMatching::Smart, Normalization::Smart);
    let mut buf = Vec::new();
    pattern.score(Utf32Str::new(text, &mut buf), matcher)
}

} // verus!
