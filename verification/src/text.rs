//! Character-level helpers shared by the library: conversions between `str`
//! and character vectors, lexicographic comparison, decimal formatting, and
//! the few std text and path functions that the library calls.
use vstd::prelude::*;

verus! {

// ---------------------------------------------------------------------------
// std functions without a vstd specification
// ---------------------------------------------------------------------------

/// What `str::to_lowercase` returns for a string (full Unicode case mapping).
pub uninterp spec fn spec_to_lowercase(s: Seq<char>) -> Seq<char>;

/// Unicode `White_Space`, what `char::is_whitespace` says of a character:
/// tab to carriage return, space, next line, no-break space, ogham space
/// mark, the spaces from en quad to hair space, the line and paragraph
/// separators, narrow no-break space, medium mathematical space and
/// ideographic space.
pub open spec fn spec_is_whitespace(c: char) -> bool {
    let v = c as u32;
    ||| 0x9 <= v <= 0xD
    ||| v == 0x20
    ||| v == 0x85
    ||| v == 0xA0
    ||| v == 0x1680
    ||| 0x2000 <= v <= 0x200A
    ||| v == 0x2028
    ||| v == 0x2029
    ||| v == 0x202F
    ||| v == 0x205F
    ||| v == 0x3000
}

/// What `char::is_uppercase` says of a character (Unicode `Uppercase`).
pub uninterp spec fn spec_is_uppercase(c: char) -> bool;

/// What `Path::extension` gives for a path, the empty text where it gives
/// nothing.
pub uninterp spec fn spec_path_extension(p: Seq<char>) -> Seq<char>;

/// What `Path::parent` gives for a path.
pub uninterp spec fn spec_path_parent(p: Seq<char>) -> Option<Seq<char>>;

/// What `Path::file_name` gives for a path.
pub uninterp spec fn spec_path_file_name(p: Seq<char>) -> Option<Seq<char>>;

/// What `Path::join` gives for a base path and a further path.
pub uninterp spec fn spec_path_join(base: Seq<char>, rest: Seq<char>) -> Seq<char>;

/// What `Path::is_absolute` says of a path on Unix: it starts at the root.
pub open spec fn spec_path_is_absolute(p: Seq<char>) -> bool {
    p.len() > 0 && p[0] == '/'
}

/// What `Path::starts_with` says of a path and a base (whole components).
pub uninterp spec fn spec_path_starts_with(p: Seq<char>, base: Seq<char>) -> bool;

/// What `Path::strip_prefix` gives for a path and a base (whole components).
pub uninterp spec fn spec_path_strip_prefix(p: Seq<char>, base: Seq<char>) -> Option<Seq<char>>;

/// What `Path::eq` says of two paths (component-wise equality).
pub uninterp spec fn spec_path_eq(a: Seq<char>, b: Seq<char>) -> bool;

/// What `String::from_utf8_lossy` gives for a byte sequence.
pub uninterp spec fn spec_utf8_lossy(b: Seq<u8>) -> Seq<char>;

/// Calls `str::to_lowercase`; the result is named by `spec_to_lowercase`.
#[verifier::external_body]
pub(crate) fn to_lowercase(s: &str) -> (r: String)
    ensures
        r@ == spec_to_lowercase(s@),
{
    s.to_lowercase()
}

/// Whether `c` is Unicode white space (see `spec_is_whitespace`).
pub(crate) fn char_is_whitespace(c: char) -> (r: bool)
    ensures
        r == spec_is_whitespace(c),
{
    let v = c as u32;
    (0x9 <= v && v <= 0xD) || v == 0x20 || v == 0x85 || v == 0xA0 || v == 0x1680 || (0x2000 <= v
        && v <= 0x200A) || v == 0x2028 || v == 0x2029 || v == 0x202F || v == 0x205F || v == 0x3000
}

/// Calls `char::is_uppercase`; the result is named by `spec_is_uppercase`.
#[verifier::external_body]
pub(crate) fn char_is_uppercase(c: char) -> (r: bool)
    ensures
        r == spec_is_uppercase(c),
{
    c.is_uppercase()
}

/// Calls `Path::extension` (then `OsStr::to_str`, lossless on a path made
/// from a `str`); no extension gives the empty text.
#[verifier::external_body]
pub(crate) fn path_extension(p: &str) -> (r: String)
    ensures
        r@ == spec_path_extension(p@),
{
    std::path::Path::new(p).extension().and_then(|e| e.to_str()).unwrap_or("").to_string()
}

/// Calls `Path::parent`.
#[verifier::external_body]
pub(crate) fn path_parent(p: &str) -> (r: Option<String>)
    ensures
        r is Some <==> spec_path_parent(p@) is Some,
        r matches Some(q) ==> q@ == spec_path_parent(p@)->0,
{
    std::path::Path::new(p).parent().map(|q| q.to_string_lossy().into_owned())
}

/// Calls `Path::file_name`.
#[verifier::external_body]
pub(crate) fn path_file_name(p: &str) -> (r: Option<String>)
    ensures
        r is Some <==> spec_path_file_name(p@) is Some,
        r matches Some(q) ==> q@ == spec_path_file_name(p@)->0,
{
    std::path::Path::new(p).file_name().map(|q| q.to_string_lossy().into_owned())
}

/// Calls `Path::join`.
#[verifier::external_body]
pub(crate) fn path_join(base: &str, rest: &str) -> (r: String)
    ensures
        r@ == spec_path_join(base@, rest@),
{
    std::path::Path::new(base).join(rest).to_string_lossy().into_owned()
}

/// Whether a path is absolute, as `Path::is_absolute` says on Unix: it
/// starts at the root.
pub(crate) fn path_is_absolute(p: &str) -> (r: bool)
    ensures
        r == spec_path_is_absolute(p@),
{
    let cs = chars_of(p);
    cs.len() > 0 && cs[0] == '/'
}

/// Calls `Path::starts_with`.
#[verifier::external_body]
pub(crate) fn path_starts_with(p: &str, base: &str) -> (r: bool)
    ensures
        r == spec_path_starts_with(p@, base@),
{
    std::path::Path::new(p).starts_with(base)
}

/// Calls `Path::strip_prefix`.
#[verifier::external_body]
pub(crate) fn path_strip_prefix(p: &str, base: &str) -> (r: Option<String>)
    ensures
        r is Some <==> spec_path_strip_prefix(p@, base@) is Some,
        r matches Some(q) ==> q@ == spec_path_strip_prefix(p@, base@)->0,
{
    std::path::Path::new(p).strip_prefix(base).ok().map(|q| q.to_string_lossy().into_owned())
}

/// Calls `Path::eq`.
#[verifier::external_body]
pub(crate) fn path_eq(a: &str, b: &str) -> (r: bool)
    ensures
        r == spec_path_eq(a@, b@),
{
    std::path::Path::new(a) == std::path::Path::new(b)
}

/// Calls `String::from_utf8_lossy`. Its result is named; as std documents,
/// bytes that are valid UTF-8 come back as the text they encode.
#[verifier::external_body]
pub(crate) fn utf8_lossy(b: &[u8]) -> (r: String)
    ensures
        r@ == spec_utf8_lossy(b@),
        vstd::utf8::valid_utf8(b@) ==> r@ == vstd::utf8::decode_utf8(b@),
{
    String::from_utf8_lossy(b).into_owned()
}

/// Calls `String::push`: appends one character.
#[verifier::external_body]
pub(crate) fn string_push(s: &mut String, c: char)
    ensures
        final(s)@ == old(s)@.push(c),
{
    s.push(c);
}

/// Calls `String::pop`: drops the last character, if there is one.
#[verifier::external_body]
pub(crate) fn string_pop(s: &mut String)
    ensures
        final(s)@ == if old(s)@.len() > 0 {
            old(s)@.drop_last()
        } else {
            old(s)@
        },
{
    s.pop();
}

// ---------------------------------------------------------------------------
// Conversions
// ---------------------------------------------------------------------------

/// The characters of `s`.
pub fn chars_of(s: &str) -> (r: Vec<char>)
    ensures
        r@ == s@,
{
    let mut r: Vec<char> = Vec::new();
    for c in it: s.chars()
        invariant
            r@ == it.seq().take(it.index() as int),
    {
        r.push(c);
    }
    r
}

/// A `String` holding the characters of `cs`.
pub fn string_of(cs: &Vec<char>) -> (r: String)
    ensures
        r@ == cs@,
{
    let mut r = String::new();
    let mut i: usize = 0;
    while i < cs.len()
        invariant
            i <= cs.len(),
            r@ == cs@.take(i as int),
        decreases cs.len() - i,
    {
        string_push(&mut r, cs[i]);
        i = i + 1;
        assert(r@ =~= cs@.take(i as int));
    }
    assert(cs@.take(cs.len() as int) =~= cs@);
    r
}

/// `a` followed by `b`.
pub fn concat(a: &str, b: &str) -> (r: String)
    ensures
        r@ == a@ + b@,
{
    let mut s = String::from_str(a);
    s.append(b);
    s
}

/// Whether two texts hold the same characters.
pub fn str_eq(a: &str, b: &str) -> (r: bool)
    ensures
        r == (a@ == b@),
{
    let ca = chars_of(a);
    let cb = chars_of(b);
    chars_eq(&ca, &cb)
}

/// Whether two character vectors are equal.
pub fn chars_eq(a: &Vec<char>, b: &Vec<char>) -> (r: bool)
    ensures
        r == (a@ == b@),
{
    if a.len() != b.len() {
        return false;
    }
    let mut i: usize = 0;
    while i < a.len()
        invariant
            a.len() == b.len(),
            i <= a.len(),
            forall|k: int| 0 <= k < i ==> a@[k] == b@[k],
        decreases a.len() - i,
    {
        if a[i] != b[i] {
            return false;
        }
        i = i + 1;
    }
    assert(a@ =~= b@);
    true
}

// ---------------------------------------------------------------------------
// Lexicographic order of character sequences (for UTF-8 text this is the
// byte order that `String` comparison uses)
// ---------------------------------------------------------------------------

/// -1, 0 or 1 as `a` sorts before, equal to, or after `b`.
pub open spec fn lex_order(a: Seq<char>, b: Seq<char>) -> int
    decreases a.len(),
{
    if a.len() == 0 {
        if b.len() == 0 {
            0
        } else {
            -1
        }
    } else if b.len() == 0 {
        1
    } else if (a[0] as int) < (b[0] as int) {
        -1
    } else if (a[0] as int) > (b[0] as int) {
        1
    } else {
        lex_order(a.drop_first(), b.drop_first())
    }
}

pub proof fn lemma_lex_order_range(a: Seq<char>, b: Seq<char>)
    ensures
        -1 <= lex_order(a, b) <= 1,
    decreases a.len(),
{
    if a.len() > 0 && b.len() > 0 && a[0] == b[0] {
        lemma_lex_order_range(a.drop_first(), b.drop_first());
    }
}

pub proof fn lemma_lex_order_antisym(a: Seq<char>, b: Seq<char>)
    ensures
        lex_order(a, b) == -lex_order(b, a),
    decreases a.len(),
{
    if a.len() > 0 && b.len() > 0 && a[0] == b[0] {
        lemma_lex_order_antisym(a.drop_first(), b.drop_first());
    }
}

pub proof fn lemma_lex_order_eq(a: Seq<char>, b: Seq<char>)
    ensures
        lex_order(a, b) == 0 <==> a == b,
    decreases a.len(),
{
    if a.len() > 0 && b.len() > 0 && a[0] == b[0] {
        lemma_lex_order_eq(a.drop_first(), b.drop_first());
        if a.drop_first() == b.drop_first() {
            assert(a =~= seq![a[0]] + a.drop_first());
            assert(b =~= seq![b[0]] + b.drop_first());
        }
        if a == b {
            assert(a.drop_first() =~= b.drop_first());
        }
    } else if a.len() > 0 && b.len() > 0 {
        assert((a[0] as int) != (b[0] as int));
        if a == b {
            assert(a[0] == b[0]);
        }
    } else if a.len() != b.len() {
        assert(a != b);
    } else {
        assert(a =~= b);
    }
}

pub proof fn lemma_lex_order_trans(a: Seq<char>, b: Seq<char>, c: Seq<char>)
    requires
        lex_order(a, b) <= 0,
        lex_order(b, c) <= 0,
    ensures
        lex_order(a, c) <= 0,
        (lex_order(a, b) < 0 || lex_order(b, c) < 0) ==> lex_order(a, c) < 0,
    decreases a.len(),
{
    if a.len() > 0 && b.len() > 0 && c.len() > 0 && a[0] == b[0] && b[0] == c[0] {
        lemma_lex_order_trans(a.drop_first(), b.drop_first(), c.drop_first());
    }
}

/// Compare two character vectors lexicographically.
pub fn compare_chars(a: &Vec<char>, b: &Vec<char>) -> (r: i8)
    ensures
        r as int == lex_order(a@, b@),
{
    let mut i: usize = 0;
    assert(a@.skip(0) =~= a@);
    assert(b@.skip(0) =~= b@);
    while i < a.len() && i < b.len()
        invariant
            i <= a.len(),
            i <= b.len(),
            lex_order(a@, b@) == lex_order(a@.skip(i as int), b@.skip(i as int)),
        decreases a.len() - i,
    {
        if a[i] < b[i] {
            return -1;
        }
        if a[i] > b[i] {
            return 1;
        }
        assert(a@.skip(i as int).drop_first() =~= a@.skip(i + 1));
        assert(b@.skip(i as int).drop_first() =~= b@.skip(i + 1));
        i = i + 1;
    }
    if i == a.len() && i == b.len() {
        0
    } else if i == a.len() {
        -1
    } else {
        1
    }
}

// ---------------------------------------------------------------------------
// Substrings
// ---------------------------------------------------------------------------

/// `needle` occurs in `hay` at position `i`.
pub open spec fn occurs_at<A>(hay: Seq<A>, needle: Seq<A>, i: int) -> bool {
    0 <= i && i + needle.len() <= hay.len() && hay.subrange(i, i + needle.len()) == needle
}

/// `needle` occurs somewhere in `hay` (the meaning of `str::contains`).
pub open spec fn contains_seq<A>(hay: Seq<A>, needle: Seq<A>) -> bool {
    exists|i: int| occurs_at(hay, needle, i)
}

/// Whether `needle` occurs in `hay` at position `i`.
pub fn matches_at(hay: &Vec<char>, needle: &Vec<char>, i: usize) -> (r: bool)
    ensures
        r == occurs_at(hay@, needle@, i as int),
{
    if i > hay.len() || needle.len() > hay.len() - i {
        return false;
    }
    let mut k: usize = 0;
    while k < needle.len()
        invariant
            i + needle.len() <= hay.len(),
            k <= needle.len(),
            forall|j: int| 0 <= j < k ==> hay@[i + j] == needle@[j],
        decreases needle.len() - k,
    {
        if hay[i + k] != needle[k] {
            assert(hay@.subrange(i as int, i + needle.len())[k as int] != needle@[k as int]);
            return false;
        }
        k = k + 1;
    }
    assert(hay@.subrange(i as int, i + needle.len()) =~= needle@);
    true
}

/// Whether `needle` occurs in `hay`.
pub fn contains_chars(hay: &Vec<char>, needle: &Vec<char>) -> (r: bool)
    ensures
        r == contains_seq(hay@, needle@),
{
    if needle.len() > hay.len() {
        return false;
    }
    let last = hay.len() - needle.len();
    let mut i: usize = 0;
    while i < last
        invariant
            last == hay.len() - needle.len(),
            i <= last,
            forall|j: int| 0 <= j < i ==> !occurs_at(hay@, needle@, j),
        decreases last - i,
    {
        if matches_at(hay, needle, i) {
            return true;
        }
        i = i + 1;
    }
    if matches_at(hay, needle, last) {
        return true;
    }
    assert forall|j: int| !occurs_at(hay@, needle@, j) by {
        if 0 <= j && j + needle.len() <= hay.len() {
            assert(j <= last);
        }
    }
    false
}

/// Whether `hay` begins with `prefix`.
pub open spec fn starts_with_seq<A>(hay: Seq<A>, prefix: Seq<A>) -> bool {
    occurs_at(hay, prefix, 0)
}

// ---------------------------------------------------------------------------
// ASCII case and decimal digits
// ---------------------------------------------------------------------------

/// `char::to_ascii_lowercase`.
pub open spec fn ascii_lower(c: char) -> char {
    if 'A' <= c && c <= 'Z' {
        ((c as u32) + 32) as char
    } else {
        c
    }
}

/// `str::to_ascii_lowercase`.
pub open spec fn ascii_lower_seq(s: Seq<char>) -> Seq<char> {
    Seq::new(s.len(), |i: int| ascii_lower(s[i]))
}

pub fn to_ascii_lower_char(c: char) -> (r: char)
    ensures
        r == ascii_lower(c),
{
    if 'A' <= c && c <= 'Z' {
        let v: u32 = (c as u32) + 32;
        let r = char_from_ascii(v);
        r
    } else {
        c
    }
}

/// The character with code `v`, for `v` in the ASCII range.
pub fn char_from_ascii(v: u32) -> (r: char)
    requires
        v < 128,
    ensures
        r == v as char,
        r as u32 == v,
{
    let b: u8 = v as u8;
    b as char
}

pub fn to_ascii_lower_chars(s: &Vec<char>) -> (r: Vec<char>)
    ensures
        r@ == ascii_lower_seq(s@),
{
    let mut r: Vec<char> = Vec::new();
    let mut i: usize = 0;
    while i < s.len()
        invariant
            i <= s.len(),
            r@ == ascii_lower_seq(s@.take(i as int)),
        decreases s.len() - i,
    {
        let c = to_ascii_lower_char(s[i]);
        r.push(c);
        i = i + 1;
        assert(r@ =~= ascii_lower_seq(s@.take(i as int)));
    }
    assert(s@.take(s.len() as int) =~= s@);
    r
}

/// The decimal digit character for `d < 10`.
pub open spec fn digit_char(d: nat) -> char {
    ((d + 48) as u32) as char
}

/// Decimal notation of `n`, as `u64::to_string` writes it.
pub open spec fn decimal(n: nat) -> Seq<char>
    decreases n,
{
    if n < 10 {
        seq![digit_char(n)]
    } else {
        decimal(n / 10).push(digit_char(n % 10))
    }
}

/// `n` written in decimal.
pub fn decimal_string(n: u64) -> (r: String)
    ensures
        r@ == decimal(n as nat),
{
    // digits, least significant first
    let mut rev: Vec<char> = Vec::new();
    let mut m: u64 = n;
    let ghost mut tail: Seq<char> = Seq::empty();
    assert(decimal(n as nat) =~= decimal(m as nat) + tail);
    while m >= 10
        invariant
            decimal(n as nat) == decimal(m as nat) + tail,
            rev@ == tail.reverse(),
        decreases m,
    {
        let d = (m % 10) as u32;
        let c = char_from_ascii(d + 48);
        rev.push(c);
        proof {
            assert(decimal(m as nat) == decimal((m / 10) as nat).push(c));
            let old_tail = tail;
            tail = seq![c] + old_tail;
            assert(decimal((m / 10) as nat).push(c) + old_tail =~= decimal((m / 10) as nat) + tail);
            assert(tail.reverse() =~= rev@) by {
                assert forall|k: int| 0 <= k < tail.len() implies tail.reverse()[k] == rev@[k] by {}
            }
        }
        m = m / 10;
    }
    let d = m as u32;
    let c = char_from_ascii(d + 48);
    rev.push(c);
    proof {
        assert(decimal(m as nat) == seq![c]);
        tail = seq![c] + tail;
        assert(tail.reverse() =~= rev@) by {
            assert forall|k: int| 0 <= k < tail.len() implies tail.reverse()[k] == rev@[k] by {}
        }
    }
    assert(decimal(n as nat) =~= tail);
    let mut out: Vec<char> = Vec::new();
    let mut i: usize = rev.len();
    while i > 0
        invariant
            i <= rev.len(),
            rev@ == tail.reverse(),
            out@ == tail.take(rev.len() - i),
        decreases i,
    {
        i = i - 1;
        out.push(rev[i]);
        assert(out@ =~= tail.take(rev.len() - i));
    }
    assert(out@ =~= tail);
    string_of(&out)
}

// ---------------------------------------------------------------------------
// Trimming and splitting
// ---------------------------------------------------------------------------

/// `s` without its leading whitespace.
pub open spec fn trim_start_seq(s: Seq<char>) -> Seq<char>
    decreases s.len(),
{
    if s.len() > 0 && spec_is_whitespace(s[0]) {
        trim_start_seq(s.drop_first())
    } else {
        s
    }
}

/// `s` without its trailing whitespace.
pub open spec fn trim_end_seq(s: Seq<char>) -> Seq<char>
    decreases s.len(),
{
    if s.len() > 0 && spec_is_whitespace(s.last()) {
        trim_end_seq(s.drop_last())
    } else {
        s
    }
}

/// `str::trim`: `s` without leading and trailing whitespace.
pub open spec fn trim_seq(s: Seq<char>) -> Seq<char> {
    trim_end_seq(trim_start_seq(s))
}

/// `v[from..to]`.
pub fn sub_chars(v: &Vec<char>, from: usize, to: usize) -> (r: Vec<char>)
    requires
        from <= to <= v.len(),
    ensures
        r@ == v@.subrange(from as int, to as int),
{
    let mut r: Vec<char> = Vec::new();
    let mut i: usize = from;
    while i < to
        invariant
            from <= i <= to <= v.len(),
            r@ == v@.subrange(from as int, i as int),
        decreases to - i,
    {
        r.push(v[i]);
        i = i + 1;
        assert(r@ =~= v@.subrange(from as int, i as int));
    }
    r
}

/// `s` trimmed of leading and trailing whitespace.
pub fn trim_chars(v: &Vec<char>) -> (r: Vec<char>)
    ensures
        r@ == trim_seq(v@),
{
    let n = v.len();
    let mut i: usize = 0;
    assert(v@.skip(0) =~= v@);
    while i < n && char_is_whitespace(v[i])
        invariant
            n == v.len(),
            i <= n,
            trim_start_seq(v@) == trim_start_seq(v@.skip(i as int)),
        decreases n - i,
    {
        assert(v@.skip(i as int).drop_first() =~= v@.skip(i + 1));
        i = i + 1;
    }
    assert(trim_start_seq(v@) =~= v@.subrange(i as int, n as int)) by {
        assert(v@.skip(i as int) =~= v@.subrange(i as int, n as int));
    }
    let mut j: usize = n;
    while j > i && char_is_whitespace(v[j - 1])
        invariant
            n == v.len(),
            i <= j <= n,
            trim_seq(v@) == trim_end_seq(v@.subrange(i as int, j as int)),
        decreases j,
    {
        assert(v@.subrange(i as int, j as int).drop_last() =~= v@.subrange(i as int, j - 1));
        j = j - 1;
    }
    sub_chars(v, i, j)
}

/// The first position of `c` in `s` at or after `i`, or `s.len()`.
pub open spec fn index_of_from(s: Seq<char>, c: char, i: int) -> int
    decreases s.len() - i,
{
    if i >= s.len() {
        s.len() as int
    } else if s[i] == c {
        i
    } else {
        index_of_from(s, c, i + 1)
    }
}

/// The first position of `c` in `v`, or `v.len()`.
pub fn index_of_char(v: &Vec<char>, c: char) -> (r: usize)
    ensures
        r as int == index_of_from(v@, c, 0),
        r <= v.len(),
{
    let mut i: usize = 0;
    while i < v.len()
        invariant
            i <= v.len(),
            index_of_from(v@, c, 0) == index_of_from(v@, c, i as int),
        decreases v.len() - i,
    {
        if v[i] == c {
            return i;
        }
        i = i + 1;
    }
    i
}

/// The first position at or after `i` where `needle` occurs in `hay`.
pub open spec fn find_from<A>(hay: Seq<A>, needle: Seq<A>, i: int) -> Option<int>
    decreases hay.len() + 1 - i,
{
    if 0 <= i && i + needle.len() <= hay.len() {
        if occurs_at(hay, needle, i) {
            Some(i)
        } else {
            find_from(hay, needle, i + 1)
        }
    } else {
        None
    }
}

/// The first position where `needle` occurs in `hay`.
pub fn find_chars(hay: &Vec<char>, needle: &Vec<char>) -> (r: Option<usize>)
    ensures
        r is None <==> find_from(hay@, needle@, 0) is None,
        r matches Some(i) ==> find_from(hay@, needle@, 0) == Some(i as int) && occurs_at(
            hay@,
            needle@,
            i as int,
        ),
{
    if needle.len() > hay.len() {
        return None;
    }
    let last = hay.len() - needle.len();
    let mut i: usize = 0;
    while i < last
        invariant
            last == hay.len() - needle.len(),
            i <= last,
            find_from(hay@, needle@, 0) == find_from(hay@, needle@, i as int),
        decreases last - i,
    {
        if matches_at(hay, needle, i) {
            return Some(i);
        }
        i = i + 1;
    }
    if matches_at(hay, needle, last) {
        return Some(last);
    }
    assert(find_from(hay@, needle@, last + 1) is None);
    None
}

/// A position `find_from` gives is an occurrence.
pub proof fn lemma_find_from_occurs<A>(hay: Seq<A>, needle: Seq<A>, i: int)
    requires
        find_from(hay, needle, i) is Some,
    ensures
        occurs_at(hay, needle, find_from(hay, needle, i)->0),
        i <= find_from(hay, needle, i)->0,
    decreases hay.len() + 1 - i,
{
    if !occurs_at(hay, needle, i) {
        lemma_find_from_occurs(hay, needle, i + 1);
    }
}

} // verus!
