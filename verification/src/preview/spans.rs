//! A preview line's styled pieces with the active search's matches laid over
//! them. Each piece carries the key of its plain style and the key of its
//! highlighted style; a character takes the highlighted one where a match
//! covers its first byte, and runs of one key become one span.
use vstd::prelude::*;

use crate::text::{chars_of, string_push};

verus! {

/// The bytes a character takes in UTF-8.
pub open spec fn utf8_len(c: char) -> nat {
    if (c as u32) < 0x80 {
        1
    } else if (c as u32) < 0x800 {
        2
    } else if (c as u32) < 0x10000 {
        3
    } else {
        4
    }
}

/// The bytes a text takes in UTF-8.
pub open spec fn byte_len(t: Seq<char>) -> nat
    decreases t.len(),
{
    if t.len() == 0 {
        0
    } else {
        byte_len(t.drop_last()) + utf8_len(t.last())
    }
}

/// Some match range covers byte `at` of the line.
pub open spec fn covered(ranges: Seq<(usize, usize)>, at: int) -> bool {
    exists|i: int| 0 <= i < ranges.len() && (#[trigger] ranges[i]).0 <= at < ranges[i].1
}

/// A piece as text and style keys: plain, then highlighted.
pub open spec fn piece_view(p: (String, u32, u32)) -> (Seq<char>, u32, u32) {
    (p.0@, p.1, p.2)
}

/// A span as text and style key.
pub open spec fn span_view(q: (String, u32)) -> (Seq<char>, u32) {
    (q.0@, q.1)
}

/// Each character of `t`, which starts at byte `off` of the line, with the
/// key of its style.
pub open spec fn keyed_chars(
    t: Seq<char>,
    off: int,
    plain: u32,
    lit: u32,
    ranges: Seq<(usize, usize)>,
) -> Seq<(char, u32)>
    decreases t.len(),
{
    if t.len() == 0 {
        Seq::empty()
    } else {
        let at = off + byte_len(t.drop_last());
        keyed_chars(t.drop_last(), off, plain, lit, ranges).push(
            (
                t.last(),
                if covered(ranges, at) {
                    lit
                } else {
                    plain
                },
            ),
        )
    }
}

/// The bytes of the pieces together.
pub open spec fn pieces_len(ps: Seq<(Seq<char>, u32, u32)>) -> nat
    decreases ps.len(),
{
    if ps.len() == 0 {
        0
    } else {
        pieces_len(ps.drop_last()) + byte_len(ps.last().0)
    }
}

/// Every character of the line with the key of its style.
pub open spec fn keyed_line(ps: Seq<(Seq<char>, u32, u32)>, ranges: Seq<(usize, usize)>) -> Seq<
    (char, u32),
>
    decreases ps.len(),
{
    if ps.len() == 0 {
        Seq::empty()
    } else {
        let p = ps.last();
        keyed_line(ps.drop_last(), ranges) + keyed_chars(
            p.0,
            pieces_len(ps.drop_last()) as int,
            p.1,
            p.2,
            ranges,
        )
    }
}

/// The maximal runs of characters with one key.
pub open spec fn runs(s: Seq<(char, u32)>) -> Seq<(Seq<char>, u32)>
    decreases s.len(),
{
    if s.len() == 0 {
        Seq::empty()
    } else {
        let r = runs(s.drop_last());
        let x = s.last();
        if r.len() > 0 && r.last().1 == x.1 {
            r.update(r.len() - 1, (r.last().0.push(x.0), x.1))
        } else {
            r.push((seq![x.0], x.1))
        }
    }
}

/// The spans of a line: the pieces as they are when there is no match
/// range, else the runs of the keyed characters.
pub open spec fn spans_of(ps: Seq<(Seq<char>, u32, u32)>, ranges: Seq<(usize, usize)>) -> Seq<
    (Seq<char>, u32),
> {
    if ranges.len() == 0 {
        ps.map_values(|p: (Seq<char>, u32, u32)| (p.0, p.1))
    } else {
        runs(keyed_line(ps, ranges))
    }
}

/// The texts of spans, one after the other.
pub open spec fn texts(rs: Seq<(Seq<char>, u32)>) -> Seq<char>
    decreases rs.len(),
{
    if rs.len() == 0 {
        Seq::empty()
    } else {
        texts(rs.drop_last()) + rs.last().0
    }
}

/// Grouping characters into runs keeps every character in order, makes no
/// empty run, and never puts two runs of one key side by side; each run's
/// characters all have its key.
pub proof fn lemma_runs(s: Seq<(char, u32)>)
    ensures
        texts(runs(s)) == s.map_values(|x: (char, u32)| x.0),
        forall|i: int| 0 <= i < runs(s).len() ==> #[trigger] runs(s)[i].0.len() > 0,
        forall|i: int| 0 < i < runs(s).len() ==> runs(s)[i - 1].1 != #[trigger] runs(s)[i].1,
        runs(s).len() > 0 ==> runs(s).last().1 == s.last().1,
    decreases s.len(),
{
    if s.len() > 0 {
        let p = s.drop_last();
        lemma_runs(p);
        let r = runs(p);
        let x = s.last();
        assert(s.map_values(|y: (char, u32)| y.0) =~= p.map_values(|y: (char, u32)| y.0).push(
            x.0,
        ));
        if r.len() > 0 && r.last().1 == x.1 {
            let n = r.update(r.len() - 1, (r.last().0.push(x.0), x.1));
            assert(n.drop_last() =~= r.drop_last());
            assert(texts(r) == texts(r.drop_last()) + r.last().0);
            assert(texts(n) =~= texts(r).push(x.0));
        } else {
            let n = r.push((seq![x.0], x.1));
            assert(n.drop_last() =~= r);
            assert(texts(n) =~= texts(r).push(x.0));
        }
    }
}

/// The line's text: the pieces' texts one after the other.
pub open spec fn line_text(ps: Seq<(Seq<char>, u32, u32)>) -> Seq<char>
    decreases ps.len(),
{
    if ps.len() == 0 {
        Seq::empty()
    } else {
        line_text(ps.drop_last()) + ps.last().0
    }
}

proof fn lemma_keyed_chars_text(t: Seq<char>, off: int, plain: u32, lit: u32, ranges: Seq<(usize, usize)>)
    ensures
        keyed_chars(t, off, plain, lit, ranges).map_values(|x: (char, u32)| x.0) == t,
    decreases t.len(),
{
    if t.len() > 0 {
        lemma_keyed_chars_text(t.drop_last(), off, plain, lit, ranges);
        assert(keyed_chars(t, off, plain, lit, ranges).map_values(|x: (char, u32)| x.0)
            =~= keyed_chars(t.drop_last(), off, plain, lit, ranges).map_values(
            |x: (char, u32)| x.0,
        ).push(t.last()));
        assert(t.drop_last().push(t.last()) =~= t);
    }
}

proof fn lemma_keyed_line_text(ps: Seq<(Seq<char>, u32, u32)>, ranges: Seq<(usize, usize)>)
    ensures
        keyed_line(ps, ranges).map_values(|x: (char, u32)| x.0) == line_text(ps),
    decreases ps.len(),
{
    if ps.len() > 0 {
        let p = ps.last();
        let off = pieces_len(ps.drop_last()) as int;
        lemma_keyed_line_text(ps.drop_last(), ranges);
        lemma_keyed_chars_text(p.0, off, p.1, p.2, ranges);
        assert(keyed_line(ps, ranges).map_values(|x: (char, u32)| x.0) =~= keyed_line(
            ps.drop_last(),
            ranges,
        ).map_values(|x: (char, u32)| x.0) + keyed_chars(p.0, off, p.1, p.2, ranges).map_values(
            |x: (char, u32)| x.0,
        ));
    }
}

proof fn lemma_pieces_text(ps: Seq<(Seq<char>, u32, u32)>)
    ensures
        texts(ps.map_values(|p: (Seq<char>, u32, u32)| (p.0, p.1))) == line_text(ps),
    decreases ps.len(),
{
    if ps.len() > 0 {
        lemma_pieces_text(ps.drop_last());
        assert(ps.map_values(|p: (Seq<char>, u32, u32)| (p.0, p.1)).drop_last() =~= ps.drop_last().map_values(
            |p: (Seq<char>, u32, u32)| (p.0, p.1),
        ));
    }
}

/// Laying the matches over a line never changes the text drawn: the spans'
/// texts, one after the other, are the pieces' texts.
pub proof fn lemma_spans_keep_text(ps: Seq<(Seq<char>, u32, u32)>, ranges: Seq<(usize, usize)>)
    ensures
        texts(spans_of(ps, ranges)) == line_text(ps),
{
    if ranges.len() == 0 {
        lemma_pieces_text(ps);
    } else {
        lemma_runs(keyed_line(ps, ranges));
        lemma_keyed_line_text(ps, ranges);
    }
}

proof fn lemma_byte_len_step(t: Seq<char>, k: int)
    requires
        0 <= k < t.len(),
    ensures
        byte_len(t.take(k + 1)) == byte_len(t.take(k)) + utf8_len(t[k]),
{
    assert(t.take(k + 1).drop_last() =~= t.take(k));
}

proof fn lemma_byte_len_prefix(t: Seq<char>, k: int)
    requires
        0 <= k <= t.len(),
    ensures
        byte_len(t.take(k)) <= byte_len(t),
    decreases t.len() - k,
{
    if k < t.len() {
        lemma_byte_len_step(t, k);
        lemma_byte_len_prefix(t, k + 1);
    } else {
        assert(t.take(k) =~= t);
    }
}

proof fn lemma_pieces_len_prefix(ps: Seq<(Seq<char>, u32, u32)>, j: int)
    requires
        0 <= j <= ps.len(),
    ensures
        pieces_len(ps.take(j)) <= pieces_len(ps),
    decreases ps.len() - j,
{
    if j < ps.len() {
        assert(ps.take(j + 1).drop_last() =~= ps.take(j));
        lemma_pieces_len_prefix(ps, j + 1);
    } else {
        assert(ps.take(j) =~= ps);
    }
}

/// The bytes of `c` in UTF-8.
fn char_bytes(c: char) -> (r: usize)
    ensures
        r == utf8_len(c),
{
    let v = c as u32;
    if v < 0x80 {
        1
    } else if v < 0x800 {
        2
    } else if v < 0x10000 {
        3
    } else {
        4
    }
}

/// Whether some range covers byte `at`.
fn covers(ranges: &[(usize, usize)], at: usize) -> (r: bool)
    ensures
        r == covered(ranges@, at as int),
{
    let mut i: usize = 0;
    while i < ranges.len()
        invariant
            i <= ranges@.len(),
            forall|q: int| 0 <= q < i ==> !((#[trigger] ranges@[q]).0 <= at < ranges@[q].1),
        decreases ranges@.len() - i,
    {
        if ranges[i].0 <= at && at < ranges[i].1 {
            return true;
        }
        i = i + 1;
    }
    false
}

/// The spans to draw a line with (see `spans_of`): `pieces` are the line's
/// texts with their plain and highlighted style keys, `ranges` the byte
/// ranges of the line that the active search matches.
pub fn highlight_pieces(pieces: &[(String, u32, u32)], ranges: &[(usize, usize)]) -> (r: Vec<
    (String, u32),
>)
    requires
        pieces_len(pieces@.map_values(|p: (String, u32, u32)| piece_view(p))) <= usize::MAX,
    ensures
        r@.map_values(|q: (String, u32)| span_view(q)) == spans_of(
            pieces@.map_values(|p: (String, u32, u32)| piece_view(p)),
            ranges@,
        ),
{
    let ghost ps = pieces@.map_values(|p: (String, u32, u32)| piece_view(p));
    let n = pieces.len();
    let mut out: Vec<(String, u32)> = Vec::new();
    if ranges.len() == 0 {
        let mut j: usize = 0;
        while j < n
            invariant
                n == pieces@.len(),
                ps == pieces@.map_values(|p: (String, u32, u32)| piece_view(p)),
                ps.len() == n,
                j <= n,
                out@.map_values(|q: (String, u32)| span_view(q)) == ps.take(j as int).map_values(
                    |p: (Seq<char>, u32, u32)| (p.0, p.1),
                ),
            decreases n - j,
        {
            let t = pieces[j].0.clone();
            let ghost before = out@.map_values(|q: (String, u32)| span_view(q));
            out.push((t, pieces[j].1));
            proof {
                assert(ps[j as int] == piece_view(pieces@[j as int]));
                assert(ps.take(j + 1).map_values(|p: (Seq<char>, u32, u32)| (p.0, p.1)) =~= ps.take(
                    j as int,
                ).map_values(|p: (Seq<char>, u32, u32)| (p.0, p.1)).push((ps[j as int].0, ps[j as int].1)));
                assert(out@.map_values(|q: (String, u32)| span_view(q)) =~= before.push(
                    (ps[j as int].0, ps[j as int].1),
                ));
            }
            j = j + 1;
        }
        proof {
            assert(ps.take(n as int) =~= ps);
        }
        return out;
    }
    let mut cur = String::new();
    let mut cur_key: Option<u32> = None;
    let mut abs: usize = 0;
    let mut j: usize = 0;
    while j < n
        invariant
            n == pieces@.len(),
            ranges@.len() > 0,
            ps == pieces@.map_values(|p: (String, u32, u32)| piece_view(p)),
            pieces_len(ps) <= usize::MAX,
            ps.len() == n,
            j <= n,
            abs == pieces_len(ps.take(j as int)),
            cur_key is None ==> out@.len() == 0 && cur@.len() == 0,
            out@.map_values(|q: (String, u32)| span_view(q)) + match cur_key {
                Some(k) => seq![(cur@, k)],
                None => Seq::empty(),
            } == runs(keyed_line(ps.take(j as int), ranges@)),
        decreases n - j,
    {
        let cs = chars_of(pieces[j].0.as_str());
        let plain = pieces[j].1;
        let lit = pieces[j].2;
        let ghost before = keyed_line(ps.take(j as int), ranges@);
        let ghost base = abs as int;
        proof {
            assert(ps.take(j + 1).drop_last() =~= ps.take(j as int));
            lemma_pieces_len_prefix(ps, j + 1);
        }
        let mut k: usize = 0;
        while k < cs.len()
            invariant
                n == pieces@.len(),
                j < n,
                ps.len() == n,
                ranges@.len() > 0,
                cs@ == ps[j as int].0,
                plain == ps[j as int].1,
                lit == ps[j as int].2,
                base + byte_len(cs@) <= usize::MAX,
                k <= cs@.len(),
                abs == base + byte_len(cs@.take(k as int)),
                cur_key is None ==> out@.len() == 0 && cur@.len() == 0,
                out@.map_values(|q: (String, u32)| span_view(q)) + match cur_key {
                    Some(kk) => seq![(cur@, kk)],
                    None => Seq::empty(),
                } == runs(before + keyed_chars(cs@.take(k as int), base, plain, lit, ranges@)),
            decreases cs@.len() - k,
        {
            let c = cs[k];
            let key = if covers(ranges, abs) {
                lit
            } else {
                plain
            };
            let ghost prev = before + keyed_chars(cs@.take(k as int), base, plain, lit, ranges@);
            let ghost old_out = out@.map_values(|q: (String, u32)| span_view(q));
            let ghost old_cur = cur@;
            proof {
                assert(cs@.take(k + 1).drop_last() =~= cs@.take(k as int));
                lemma_byte_len_step(cs@, k as int);
                lemma_byte_len_prefix(cs@, k + 1);
                assert(before + keyed_chars(cs@.take(k + 1), base, plain, lit, ranges@) =~= prev.push(
                    (c, key),
                ));
                assert(prev.push((c, key)).drop_last() =~= prev);
            }
            let same = match cur_key {
                Some(ck) => ck == key,
                None => false,
            };
            if same {
                string_push(&mut cur, c);
                proof {
                    let r = runs(prev);
                    assert(r =~= old_out.push((old_cur, key)));
                    assert(out@.map_values(|q: (String, u32)| span_view(q)) + seq![(cur@, key)]
                        =~= r.update(r.len() - 1, (r.last().0.push(c), key)));
                }
            } else {
                if let Some(ck) = cur_key {
                    let mut done = String::new();
                    std::mem::swap(&mut done, &mut cur);
                    out.push((done, ck));
                    string_push(&mut cur, c);
                    proof {
                        let r = runs(prev);
                        assert(r =~= old_out.push((old_cur, ck)));
                        assert(cur@ =~= seq![c]);
                        assert(out@.map_values(|q: (String, u32)| span_view(q)) =~= old_out.push(
                            (old_cur, ck),
                        ));
                        assert(out@.map_values(|q: (String, u32)| span_view(q)) + seq![(cur@, key)]
                            =~= r.push((seq![c], key)));
                    }
                } else {
                    string_push(&mut cur, c);
                    proof {
                        let r = runs(prev);
                        assert(r =~= old_out + Seq::empty());
                        assert(r.len() == 0);
                        assert(cur@ =~= seq![c]);
                        assert(out@.map_values(|q: (String, u32)| span_view(q)) + seq![(cur@, key)]
                            =~= r.push((seq![c], key)));
                    }
                }
                cur_key = Some(key);
            }
            abs = abs + char_bytes(c);
            k = k + 1;
        }
        proof {
            assert(cs@.take(cs@.len() as int) =~= cs@);
            assert(ps.take(j + 1).last() == ps[j as int]);
            assert(keyed_line(ps.take(j + 1), ranges@) == before + keyed_chars(
                cs@,
                base,
                plain,
                lit,
                ranges@,
            ));
        }
        j = j + 1;
    }
    let ghost last_out = out@.map_values(|q: (String, u32)| span_view(q));
    if let Some(ck) = cur_key {
        let ghost last_cur = cur@;
        out.push((cur, ck));
        proof {
            assert(out@.map_values(|q: (String, u32)| span_view(q)) =~= last_out + seq![
                (last_cur, ck),
            ]);
        }
    } else {
        proof {
            assert(out@.map_values(|q: (String, u32)| span_view(q)) =~= last_out + Seq::empty());
        }
    }
    proof {
        assert(ps.take(n as int) =~= ps);
    }
    out
}

} // verus!
