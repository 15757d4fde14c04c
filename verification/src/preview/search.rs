//! In-file search: smart case, which matcher a query compiles to, the
//! compiled search, and the match ranges of a literal query.
use vstd::prelude::*;

use regex::bytes::{Regex, RegexBuilder};

use crate::text::{char_is_uppercase, chars_of, concat, find_from, spec_is_uppercase};

verus! {

/// How a search query is interpreted.
#[derive(Debug, Clone, Copy, PartialEq, Eq, Structural)]
pub enum SearchKind {
    Literal,
    Regex,
}

impl SearchKind {
    pub open spec fn spec_label(self) -> Seq<char> {
        match self {
            SearchKind::Literal => "literal"@,
            SearchKind::Regex => "regex"@,
        }
    }

    pub fn label(self) -> (r: &'static str)
        ensures
            r@ == self.spec_label(),
    {
        match self {
            SearchKind::Literal => "literal",
            SearchKind::Regex => "regex",
        }
    }

    pub fn toggled(self) -> (r: SearchKind)
        ensures
            r != self,
    {
        match self {
            SearchKind::Literal => SearchKind::Regex,
            SearchKind::Regex => SearchKind::Literal,
        }
    }
}

/// Some character of `s` is uppercase.
pub open spec fn any_uppercase(s: Seq<char>) -> bool {
    exists|i: int| 0 <= i < s.len() && spec_is_uppercase(#[trigger] s[i])
}

pub fn has_uppercase(s: &str) -> (r: bool)
    ensures
        r == any_uppercase(s@),
{
    let cs = chars_of(s);
    let mut i: usize = 0;
    while i < cs.len()
        invariant
            i <= cs.len(),
            cs@ == s@,
            forall|j: int| 0 <= j < i ==> !spec_is_uppercase(#[trigger] cs@[j]),
        decreases cs.len() - i,
    {
        if char_is_uppercase(cs[i]) {
            return true;
        }
        i = i + 1;
    }
    false
}

/// The matcher a query compiles to. Literal queries with no uppercase letter
/// (and all regex queries) match case-insensitively (smart case); a
/// case-sensitive literal uses a substring finder; every other case compiles
/// to a byte regex, an escaped one for a literal.
#[derive(Debug, Clone, Copy, PartialEq, Eq, Structural)]
pub enum MatcherPlan {
    Literal,
    Regex { escaped: bool, case_insensitive: bool },
}

pub open spec fn spec_matcher_plan(query: Seq<char>, kind: SearchKind) -> MatcherPlan {
    let ci = !any_uppercase(query);
    match kind {
        SearchKind::Literal => if !ci {
            MatcherPlan::Literal
        } else {
            MatcherPlan::Regex { escaped: true, case_insensitive: true }
        },
        SearchKind::Regex => MatcherPlan::Regex { escaped: false, case_insensitive: ci },
    }
}

pub fn matcher_plan(query: &str, kind: SearchKind) -> (r: MatcherPlan)
    ensures
        r == spec_matcher_plan(query@, kind),
{
    let ci = !has_uppercase(query);
    match kind {
        SearchKind::Literal => if !ci {
            MatcherPlan::Literal
        } else {
            MatcherPlan::Regex { escaped: true, case_insensitive: true }
        },
        SearchKind::Regex => MatcherPlan::Regex { escaped: false, case_insensitive: ci },
    }
}

/// Start positions of the non-overlapping occurrences of `needle` in `hay`
/// from `i` on, left to right (an empty needle occurs at every position).
pub open spec fn occurrences_from(hay: Seq<u8>, needle: Seq<u8>, i: int) -> Seq<int>
    decreases hay.len() + 1 - i,
{
    let step = if needle.len() > 0 {
        needle.len() as int
    } else {
        1
    };
    match find_from(hay, needle, i) {
        Some(j) => if j >= i && j + step <= hay.len() + 1 {
            seq![j] + occurrences_from(hay, needle, j + step)
        } else {
            Seq::empty()
        },
        None => Seq::empty(),
    }
}

/// Calls `memchr::memmem::find_iter`: the start of every non-overlapping
/// occurrence of `needle` in `hay`, left to right, where an occurrence is
/// followed by the next search `needle.len()` bytes on (one byte on for an
/// empty needle).
#[verifier::external_body]
fn memmem_find_all(hay: &[u8], needle: &[u8]) -> (r: Vec<usize>)
    ensures
        r@.map_values(|x: usize| x as int) == occurrences_from(hay@, needle@, 0),
{
    memchr::memmem::find_iter(hay, needle).collect()
}

/// `(start, end)` byte ranges of the non-overlapping occurrences of a
/// literal (case-sensitive) query in a line, for highlighting.
#[verifier::spinoff_prover]
pub fn literal_match_ranges(query: &[u8], line: &[u8]) -> (r: Vec<(usize, usize)>)
    ensures
        r@.len() == occurrences_from(line@, query@, 0).len(),
        forall|k: int|
            0 <= k < r@.len() ==> r@[k].0 == occurrences_from(line@, query@, 0)[k] && r@[k].1
                == r@[k].0 + query@.len(),
{
    let starts = memmem_find_all(line, query);
    let ghost occ = occurrences_from(line@, query@, 0);
    proof {
        lemma_occurrences_in_range(line@, query@, 0);
        assert(starts@.map_values(|x: usize| x as int).len() == starts@.len());
    }
    let line_len = line.len();
    let query_len = query.len();
    let mut out: Vec<(usize, usize)> = Vec::new();
    let mut i: usize = 0;
    while i < starts.len()
        invariant
            i <= starts.len(),
            starts@.len() == occ.len(),
            out@.len() == i,
            line_len == line@.len(),
            query_len == query@.len(),
            starts@.map_values(|x: usize| x as int) == occ,
            occ == occurrences_from(line@, query@, 0),
            forall|k: int|
                0 <= k < occ.len() ==> 0 <= #[trigger] occ[k] && occ[k] + query@.len()
                    <= line@.len(),
            forall|k: int|
                0 <= k < i ==> out@[k].0 == occ[k] && out@[k].1 == out@[k].0 + query@.len(),
        decreases starts.len() - i,
    {
        let s = starts[i];
        proof {
            assert(starts@.map_values(|x: usize| x as int)[i as int] == s as int);
            assert(occ[i as int] == s as int);
        }
        assert(s + query_len <= line_len);
        let e = s + query_len;
        let ghost prev = out@;
        out.push((s, e));
        assert(out@[i as int] == (s, e));
        assert forall|k: int| 0 <= k < i implies out@[k] == prev[k] by {}
        i = i + 1;
    }
    out
}

/// Occurrences end inside the haystack.
pub proof fn lemma_occurrences_in_range(hay: Seq<u8>, needle: Seq<u8>, i: int)
    ensures
        forall|k: int|
            0 <= k < occurrences_from(hay, needle, i).len() ==> 0 <= #[trigger] occurrences_from(
                hay,
                needle,
                i,
            )[k] && occurrences_from(hay, needle, i)[k] + needle.len() <= hay.len(),
    decreases hay.len() + 1 - i,
{
    match find_from(hay, needle, i) {
        Some(j) => {
            crate::text::lemma_find_from_occurs(hay, needle, i);
            let step = if needle.len() > 0 {
                needle.len() as int
            } else {
                1
            };
            if j >= i && j + step <= hay.len() + 1 {
                lemma_occurrences_in_range(hay, needle, j + step);
                let rest = occurrences_from(hay, needle, j + step);
                assert forall|k: int|
                    0 <= k < occurrences_from(hay, needle, i).len() implies 0
                    <= #[trigger] occurrences_from(hay, needle, i)[k] && occurrences_from(
                    hay,
                    needle,
                    i,
                )[k] + needle.len() <= hay.len() by {
                    if k > 0 {
                        assert(occurrences_from(hay, needle, i)[k] == rest[k - 1]);
                    }
                }
            }
        },
        None => {},
    }
}

/// Whether the literal occurs in the line.
pub fn literal_line_matches(query: &[u8], line: &[u8]) -> (r: bool)
    ensures
        r == (occurrences_from(line@, query@, 0).len() > 0),
{
    let rs = literal_match_ranges(query, line);
    rs.len() > 0
}

/// The ranges that are not empty (a regex that can match the empty text
/// must not yield zero-width highlights).
pub fn nonempty_ranges(ranges: &Vec<(usize, usize)>) -> (r: Vec<(usize, usize)>)
    ensures
        r@ == ranges@.filter(|p: (usize, usize)| p.1 > p.0),
{
    let mut out: Vec<(usize, usize)> = Vec::new();
    let mut i: usize = 0;
    while i < ranges.len()
        invariant
            i <= ranges.len(),
            out@ == ranges@.take(i as int).filter(|p: (usize, usize)| p.1 > p.0),
        decreases ranges.len() - i,
    {
        proof {
            reveal_with_fuel(Seq::filter, 1);
            assert(ranges@.take(i + 1).drop_last() =~= ranges@.take(i as int));
        }
        let p = ranges[i];
        if p.1 > p.0 {
            out.push(p);
        }
        i = i + 1;
    }
    proof {
        assert(ranges@.take(ranges.len() as int) =~= ranges@);
    }
    out
}

// ---------------------------------------------------------------------------
// The compiled search
// ---------------------------------------------------------------------------

/// `regex::bytes::Regex`, a compiled byte regex, carried as an opaque value.
#[verifier::external_type_specification]
#[verifier::external_body]
pub struct ExRegex(Regex);

/// The characters `regex::escape` puts a backslash before
/// (`regex_syntax::is_meta_character`).
pub open spec fn regex_meta(c: char) -> bool {
    c == '\\' || c == '.' || c == '+' || c == '*' || c == '?' || c == '(' || c == ')' || c == '|'
        || c == '[' || c == ']' || c == '{' || c == '}' || c == '^' || c == '$' || c == '#' || c
        == '&' || c == '-' || c == '~'
}

/// What `regex::escape` gives for a text: the text with a backslash before
/// every regex meta character.
pub open spec fn spec_regex_escape(q: Seq<char>) -> Seq<char>
    decreases q.len(),
{
    if q.len() == 0 {
        Seq::empty()
    } else {
        spec_regex_escape(q.drop_last()) + if regex_meta(q.last()) {
            seq!['\\', q.last()]
        } else {
            seq![q.last()]
        }
    }
}

/// Whether `RegexBuilder::new(pattern).case_insensitive(ci).build()` succeeds.
pub uninterp spec fn spec_regex_builds(pattern: Seq<char>, case_insensitive: bool) -> bool;

/// The text of the error that the same build gives where it fails.
pub uninterp spec fn spec_regex_error(pattern: Seq<char>, case_insensitive: bool) -> Seq<char>;

/// Calls `regex::escape`, which is `regex_syntax::escape`: each character
/// of `q` in turn, after a backslash where it is a meta character.
#[verifier::external_body]
fn regex_escape(q: &str) -> (r: String)
    ensures
        r@ == spec_regex_escape(q@),
{
    regex::escape(q)
}

/// Whether a regex built from `pattern` (matching case-insensitively where
/// `case_insensitive`) matches somewhere in `hay`, as `Regex::is_match` says.
pub uninterp spec fn spec_regex_is_match(pattern: Seq<char>, case_insensitive: bool, hay: Seq<u8>) -> bool;

/// The `(start, end)` byte ranges of the successive non-overlapping matches
/// that `Regex::find_iter` gives in `hay` for a regex built from `pattern`.
pub uninterp spec fn spec_regex_find_all(pattern: Seq<char>, case_insensitive: bool, hay: Seq<u8>) -> Seq<(usize, usize)>;

/// A compiled byte regex together with what it was built from: the pattern
/// and the case flag. Only `regex_build` makes one, so `source` is always
/// the pattern and flag that the regex was compiled with.
struct CompiledRegex {
    re: Regex,
    source: Ghost<(Seq<char>, bool)>,
}

/// Calls `RegexBuilder::new(pattern).case_insensitive(ci).build()`; the error
/// comes back as its `Display` text. Whether the build succeeds, and the
/// text, are named; both depend on the pattern and the flag alone. A built
/// regex is kept with the pattern and flag it came from.
#[verifier::external_body]
fn regex_build(pattern: &str, case_insensitive: bool) -> (r: Result<CompiledRegex, String>)
    ensures
        r is Ok <==> spec_regex_builds(pattern@, case_insensitive),
        r matches Err(m) ==> m@ == spec_regex_error(pattern@, case_insensitive),
        r matches Ok(c) ==> c.source@ == (pattern@, case_insensitive),
{
    match RegexBuilder::new(pattern).case_insensitive(case_insensitive).build() {
        Ok(re) => Ok(CompiledRegex { re, source: Ghost((pattern@, case_insensitive)) }),
        Err(e) => Err(e.to_string()),
    }
}

/// Calls `Regex::is_match`: whether the regex matches somewhere in `hay`,
/// named by `spec_regex_is_match` over the pattern and flag it was built
/// from.
#[verifier::external_body]
fn regex_is_match(re: &CompiledRegex, hay: &[u8]) -> (r: bool)
    ensures
        r == spec_regex_is_match(re.source@.0, re.source@.1, hay@),
{
    re.re.is_match(hay)
}

/// Calls `Regex::find_iter`, each match as its `(start, end)` byte range:
/// the ranges are named by `spec_regex_find_all` over the pattern and flag
/// the regex was built from, and each lies within the haystack, start not
/// after end (the crate's `Match` documents `start <= end <= haystack.len()`).
#[verifier::external_body]
fn regex_find_all(re: &CompiledRegex, hay: &[u8]) -> (r: Vec<(usize, usize)>)
    ensures
        r@ == spec_regex_find_all(re.source@.0, re.source@.1, hay@),
        forall|k: int| 0 <= k < r@.len() ==> (#[trigger] r@[k]).0 <= r@[k].1 <= hay@.len(),
{
    re.re.find_iter(hay).map(|m| (m.start(), m.end())).collect()
}

/// The pattern a regex plan compiles.
pub open spec fn regex_pattern(query: Seq<char>, escaped: bool) -> Seq<char> {
    if escaped {
        spec_regex_escape(query)
    } else {
        query
    }
}

enum SearchMatcher {
    Literal(Vec<u8>),
    Regex(CompiledRegex),
}

/// Whether a search for `query` read as `kind` matches `line`: the query's
/// bytes occur in the line's for a case-sensitive literal; else the
/// plan's regex (see `spec_matcher_plan`) matches somewhere in it.
pub open spec fn line_hit(query: Seq<char>, kind: SearchKind, line: Seq<char>) -> bool {
    match spec_matcher_plan(query, kind) {
        MatcherPlan::Literal => occurrences_from(
            vstd::utf8::encode_utf8(line),
            vstd::utf8::encode_utf8(query),
            0,
        ).len() > 0,
        MatcherPlan::Regex { escaped, case_insensitive } => spec_regex_is_match(
            regex_pattern(query, escaped),
            case_insensitive,
            vstd::utf8::encode_utf8(line),
        ),
    }
}

/// A compiled search. Literal queries with no uppercase letter (and all regex
/// queries) are matched case-insensitively (smart case), mirroring the file
/// finder. A case-sensitive literal uses a fast `memchr` substring finder; all
/// other cases compile to a byte regex.
pub struct Search {
    query: String,
    kind: SearchKind,
    matcher: SearchMatcher,
}

impl Search {
    /// The query and how it is read.
    pub closed spec fn spec_query(&self) -> Seq<char> {
        self.query@
    }

    pub closed spec fn spec_kind(&self) -> SearchKind {
        self.kind
    }

    /// The matcher is the one the query's plan compiles to.
    #[verifier::type_invariant]
    closed spec fn compiled(&self) -> bool {
        match spec_matcher_plan(self.query@, self.kind) {
            MatcherPlan::Literal => self.matcher matches SearchMatcher::Literal(q) && q@
                == vstd::utf8::encode_utf8(self.query@),
            MatcherPlan::Regex { escaped, case_insensitive } => self.matcher matches SearchMatcher::Regex(
                c,
            ) && c.source@ == (regex_pattern(self.query@, escaped), case_insensitive),
        }
    }

    /// Compile `query`. Returns `Err(message)` for an invalid regex.
    pub fn new(query: &str, kind: SearchKind) -> (r: Result<Search, String>)
        ensures
            match spec_matcher_plan(query@, kind) {
                MatcherPlan::Literal => r is Ok,
                MatcherPlan::Regex { escaped, case_insensitive } => {
                    let pat = regex_pattern(query@, escaped);
                    &&& r is Ok <==> spec_regex_builds(pat, case_insensitive)
                    &&& r matches Err(m) ==> m@ == "invalid regex: "@ + spec_regex_error(
                        pat,
                        case_insensitive,
                    )
                },
            },
            r matches Ok(s) ==> s.spec_query() == query@ && s.spec_kind() == kind,
    {
        let plan = matcher_plan(query, kind);
        let matcher = match plan {
            MatcherPlan::Literal => SearchMatcher::Literal(slice_bytes(query)),
            MatcherPlan::Regex { escaped, case_insensitive } => {
                let pattern = if escaped {
                    regex_escape(query)
                } else {
                    String::from_str(query)
                };
                match regex_build(pattern.as_str(), case_insensitive) {
                    Ok(re) => SearchMatcher::Regex(re),
                    Err(e) => return Err(concat("invalid regex: ", e.as_str())),
                }
            },
        };
        Ok(Search { query: String::from_str(query), kind, matcher })
    }

    pub fn query(&self) -> (r: &str)
        ensures
            r@ == self.spec_query(),
    {
        self.query.as_str()
    }

    pub fn kind(&self) -> (r: SearchKind)
        ensures
            r == self.spec_kind(),
    {
        self.kind
    }

    /// Whether the line holds a match (see `line_hit`).
    pub fn line_matches(&self, line: &str) -> (r: bool)
        ensures
            r == line_hit(self.spec_query(), self.spec_kind(), line@),
    {
        proof {
            use_type_invariant(self);
        }
        match &self.matcher {
            SearchMatcher::Literal(q) => literal_line_matches(q.as_slice(), line.as_bytes()),
            SearchMatcher::Regex(re) => regex_is_match(re, line.as_bytes()),
        }
    }

    /// Byte ranges of every (non-overlapping) match in `line`, for
    /// highlighting: each non-empty and within the line. For a case-sensitive
    /// literal search, exactly the query's occurrences; else the regex's
    /// matches with the empty ones left out.
    pub fn match_ranges(&self, line: &str) -> (r: Vec<(usize, usize)>)
        ensures
            forall|k: int|
                0 <= k < r@.len() ==> (#[trigger] r@[k]).0 < r@[k].1 <= vstd::utf8::encode_utf8(line@).len(),
            match spec_matcher_plan(self.spec_query(), self.spec_kind()) {
                MatcherPlan::Literal => {
                    let occ = occurrences_from(vstd::utf8::encode_utf8(line@), vstd::utf8::encode_utf8(self.spec_query()), 0);
                    &&& r@.len() == occ.len()
                    &&& forall|k: int|
                        0 <= k < r@.len() ==> r@[k].0 == occ[k] && r@[k].1 == r@[k].0
                            + vstd::utf8::encode_utf8(self.spec_query()).len()
                },
                MatcherPlan::Regex { escaped, case_insensitive } => r@ == spec_regex_find_all(
                    regex_pattern(self.spec_query(), escaped),
                    case_insensitive,
                    vstd::utf8::encode_utf8(line@),
                ).filter(|p: (usize, usize)| p.1 > p.0),
            },
    {
        proof {
            use_type_invariant(self);
        }
        let bytes = line.as_bytes();
        match &self.matcher {
            SearchMatcher::Literal(q) => {
                proof {
                    // a literal plan's query holds an uppercase letter
                    lemma_uppercase_nonempty(self.query@);
                    lemma_encode_nonempty(self.query@);
                }
                let rs = literal_match_ranges(q.as_slice(), bytes);
                proof {
                    lemma_occurrences_in_range(bytes@, q@, 0);
                    let occ = occurrences_from(bytes@, q@, 0);
                    assert forall|k: int| 0 <= k < rs@.len() implies (#[trigger] rs@[k]).0
                        < rs@[k].1 <= bytes@.len() by {
                        assert(rs@[k].0 == occ[k]);
                        assert(occ[k] + q@.len() <= bytes@.len());
                    }
                }
                rs
            },
            SearchMatcher::Regex(re) => {
                let found = regex_find_all(re, bytes);
                let rs = nonempty_ranges(&found);
                proof {
                    assert forall|k: int| 0 <= k < rs@.len() implies (#[trigger] rs@[k]).0
                        < rs@[k].1 <= bytes@.len() by {
                        broadcast use vstd::seq_lib::group_filter_ensures;

                        let p = rs@[k];
                        assert(found@.filter(|p: (usize, usize)| p.1 > p.0).contains(p));
                        found@.lemma_filter_contains_rev(|p: (usize, usize)| p.1 > p.0, p);
                        assert(found@.contains(p));
                        let j = choose|j: int| 0 <= j < found@.len() && found@[j] == p;
                        assert(found@[j].0 <= found@[j].1 <= bytes@.len());
                    }
                }
                rs
            },
        }
    }
}

/// A non-empty text has non-empty UTF-8 bytes.
proof fn lemma_encode_nonempty(q: Seq<char>)
    requires
        q.len() > 0,
    ensures
        vstd::utf8::encode_utf8(q).len() > 0,
{
    assert(vstd::utf8::encode_scalar(q[0] as u32).len() >= 1);
}

/// A text with an uppercase letter is not empty.
proof fn lemma_uppercase_nonempty(q: Seq<char>)
    requires
        any_uppercase(q),
    ensures
        q.len() > 0,
{
}

/// The bytes of a text.
fn slice_bytes(s: &str) -> (r: Vec<u8>)
    ensures
        r@ == vstd::utf8::encode_utf8(s@),
{
    let b = s.as_bytes();
    let mut out: Vec<u8> = Vec::new();
    let mut i: usize = 0;
    while i < b.len()
        invariant
            i <= b@.len(),
            out@ == b@.take(i as int),
        decreases b@.len() - i,
    {
        out.push(b[i]);
        proof {
            assert(b@.take(i + 1) =~= b@.take(i as int).push(b@[i as int]));
        }
        i = i + 1;
    }
    proof {
        assert(b@.take(b@.len() as int) =~= b@);
    }
    out
}

} // verus!
