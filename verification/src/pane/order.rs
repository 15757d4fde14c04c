//! The order of a pane's listing: directories first, then by the sort key,
//! ascending or descending; ties keep the order in which the entries came
//! (a stable sort).
use vstd::prelude::*;

use super::{FileEntry, SortBy};
use crate::text::{
    compare_chars, lemma_lex_order_antisym, lemma_lex_order_eq, lemma_lex_order_range,
    lemma_lex_order_trans, lex_order, path_extension, spec_path_extension, spec_to_lowercase,
    to_lowercase,
};

verus! {

/// -1, 0 or 1 as `a < b`, `a == b`, `a > b`.
pub open spec fn int_order(a: int, b: int) -> int {
    if a < b {
        -1
    } else if a > b {
        1
    } else {
        0
    }
}

/// The order of `Option`: `None` first, then by the value.
pub open spec fn opt_order(a: Option<i128>, b: Option<i128>) -> int {
    match (a, b) {
        (None, None) => 0,
        (None, Some(_)) => -1,
        (Some(_), None) => 1,
        (Some(x), Some(y)) => int_order(x as int, y as int),
    }
}

/// The lower-cased name of an entry.
pub open spec fn lower_name(e: FileEntry) -> Seq<char> {
    spec_to_lowercase(e.name@)
}

/// The lower-cased extension of an entry's path.
pub open spec fn lower_ext(e: FileEntry) -> Seq<char> {
    spec_to_lowercase(spec_path_extension(e.path@))
}

/// Order of two entries by the sort key alone.
pub open spec fn key_order(a: FileEntry, b: FileEntry, by: SortBy) -> int {
    match by {
        SortBy::Name => lex_order(lower_name(a), lower_name(b)),
        SortBy::Size => int_order(a.size as int, b.size as int),
        SortBy::Date => opt_order(a.modified, b.modified),
        SortBy::Extension => {
            let e = lex_order(lower_ext(a), lower_ext(b));
            if e != 0 {
                e
            } else {
                lex_order(lower_name(a), lower_name(b))
            }
        },
    }
}

/// Order of two entries in a listing: directories before everything else,
/// then by the key, reversed when not ascending.
pub open spec fn entry_order(a: FileEntry, b: FileEntry, by: SortBy, ascending: bool) -> int {
    if a.is_dir && !b.is_dir {
        -1
    } else if !a.is_dir && b.is_dir {
        1
    } else if ascending {
        key_order(a, b, by)
    } else {
        -key_order(a, b, by)
    }
}

/// Entry `i` of `es` comes before entry `j` in the stable order.
pub open spec fn before(es: Seq<FileEntry>, by: SortBy, ascending: bool, i: int, j: int) -> bool {
    let c = entry_order(es[i], es[j], by, ascending);
    c < 0 || (c == 0 && i < j)
}

/// `p` lists each of `0..n` once.
pub open spec fn is_perm(p: Seq<int>, n: int) -> bool {
    &&& p.len() == n
    &&& forall|i: int| 0 <= i < n ==> 0 <= #[trigger] p[i] < n
    &&& forall|i: int, j: int| 0 <= i < j < n ==> p[i] != p[j]
}

/// `out` is `inp` rearranged by `p` into the stable order.
pub open spec fn sorted_by_witness(
    p: Seq<int>,
    out: Seq<FileEntry>,
    inp: Seq<FileEntry>,
    by: SortBy,
    ascending: bool,
) -> bool {
    &&& is_perm(p, inp.len() as int)
    &&& out.len() == inp.len()
    &&& forall|i: int| 0 <= i < out.len() ==> out[i] == inp[#[trigger] p[i]]
    &&& forall|i: int, j: int|
        0 <= i < j < out.len() ==> #[trigger] before(inp, by, ascending, p[i], p[j])
}

/// `out` is `inp` stably sorted by `entry_order`.
pub open spec fn stable_sorted(
    out: Seq<FileEntry>,
    inp: Seq<FileEntry>,
    by: SortBy,
    ascending: bool,
) -> bool {
    exists|p: Seq<int>| #[trigger] sorted_by_witness(p, out, inp, by, ascending)
}

// ---------------------------------------------------------------------------
// entry_order is a total preorder
// ---------------------------------------------------------------------------

proof fn lemma_key_order_props(a: FileEntry, b: FileEntry, by: SortBy)
    ensures
        key_order(a, b, by) == -key_order(b, a, by),
        -1 <= key_order(a, b, by) <= 1,
{
    lemma_lex_order_antisym(lower_name(a), lower_name(b));
    lemma_lex_order_antisym(lower_ext(a), lower_ext(b));
    lemma_lex_order_range(lower_name(a), lower_name(b));
    lemma_lex_order_range(lower_ext(a), lower_ext(b));
}

proof fn lemma_key_order_trans(a: FileEntry, b: FileEntry, c: FileEntry, by: SortBy)
    requires
        key_order(a, b, by) <= 0,
        key_order(b, c, by) <= 0,
    ensures
        key_order(a, c, by) <= 0,
        (key_order(a, b, by) < 0 || key_order(b, c, by) < 0) ==> key_order(a, c, by) < 0,
{
    match by {
        SortBy::Name => {
            lemma_lex_order_trans(lower_name(a), lower_name(b), lower_name(c));
        },
        SortBy::Size => {},
        SortBy::Date => {},
        SortBy::Extension => {
            let (ea, eb, ec) = (lower_ext(a), lower_ext(b), lower_ext(c));
            let (na, nb, nc) = (lower_name(a), lower_name(b), lower_name(c));
            lemma_lex_order_eq(ea, eb);
            lemma_lex_order_eq(eb, ec);
            lemma_lex_order_eq(ea, ec);
            lemma_lex_order_range(ea, eb);
            lemma_lex_order_range(eb, ec);
            lemma_lex_order_range(ea, ec);
            if lex_order(ea, eb) == 0 && lex_order(eb, ec) == 0 {
                lemma_lex_order_trans(na, nb, nc);
            } else if lex_order(ea, eb) == 0 {
                assert(ea == eb);
            } else if lex_order(eb, ec) == 0 {
                assert(eb == ec);
            } else {
                lemma_lex_order_trans(ea, eb, ec);
            }
        },
    }
}

pub proof fn lemma_entry_order_antisym(a: FileEntry, b: FileEntry, by: SortBy, ascending: bool)
    ensures
        entry_order(a, b, by, ascending) == -entry_order(b, a, by, ascending),
        -1 <= entry_order(a, b, by, ascending) <= 1,
{
    lemma_key_order_props(a, b, by);
}

pub proof fn lemma_entry_order_trans(
    a: FileEntry,
    b: FileEntry,
    c: FileEntry,
    by: SortBy,
    ascending: bool,
)
    requires
        entry_order(a, b, by, ascending) <= 0,
        entry_order(b, c, by, ascending) <= 0,
    ensures
        entry_order(a, c, by, ascending) <= 0,
        (entry_order(a, b, by, ascending) < 0 || entry_order(b, c, by, ascending) < 0)
            ==> entry_order(a, c, by, ascending) < 0,
{
    if a.is_dir == b.is_dir && b.is_dir == c.is_dir {
        if ascending {
            lemma_key_order_trans(a, b, c, by);
        } else {
            lemma_key_order_props(a, b, by);
            lemma_key_order_props(b, c, by);
            lemma_key_order_props(a, c, by);
            lemma_key_order_trans(c, b, a, by);
        }
    }
}

// ---------------------------------------------------------------------------
// Executable comparison on precomputed keys
// ---------------------------------------------------------------------------

/// The parts of an entry its order depends on, computed once per sort.
pub struct SortKey {
    pub is_dir: bool,
    pub lname: Vec<char>,
    pub size: u64,
    pub modified: Option<i128>,
    pub lext: Vec<char>,
}

pub open spec fn key_of(k: SortKey, e: FileEntry) -> bool {
    &&& k.is_dir == e.is_dir
    &&& k.lname@ == lower_name(e)
    &&& k.size == e.size
    &&& k.modified == e.modified
    &&& k.lext@ == lower_ext(e)
}

pub fn sort_key(e: &FileEntry) -> (k: SortKey)
    ensures
        key_of(k, *e),
{
    let lname = to_lowercase(e.name.as_str());
    let ext = path_extension(e.path.as_str());
    let lext = to_lowercase(ext.as_str());
    SortKey {
        is_dir: e.is_dir,
        lname: crate::text::chars_of(lname.as_str()),
        size: e.size,
        modified: e.modified,
        lext: crate::text::chars_of(lext.as_str()),
    }
}

fn compare_u64(a: u64, b: u64) -> (r: i8)
    ensures
        r as int == int_order(a as int, b as int),
{
    if a < b {
        -1
    } else if a > b {
        1
    } else {
        0
    }
}

fn compare_opt(a: Option<i128>, b: Option<i128>) -> (r: i8)
    ensures
        r as int == opt_order(a, b),
{
    match (a, b) {
        (None, None) => 0,
        (None, Some(_)) => -1,
        (Some(_), None) => 1,
        (Some(x), Some(y)) => if x < y {
            -1
        } else if x > y {
            1
        } else {
            0
        },
    }
}

/// `entry_order` of the entries that `a` and `b` are the keys of.
pub fn compare_keys(
    a: &SortKey,
    b: &SortKey,
    by: SortBy,
    ascending: bool,
    Ghost(ea): Ghost<FileEntry>,
    Ghost(eb): Ghost<FileEntry>,
) -> (r: i8)
    requires
        key_of(*a, ea),
        key_of(*b, eb),
    ensures
        r as int == entry_order(ea, eb, by, ascending),
{
    if a.is_dir && !b.is_dir {
        return -1;
    }
    if !a.is_dir && b.is_dir {
        return 1;
    }
    let k: i8 = match by {
        SortBy::Name => compare_chars(&a.lname, &b.lname),
        SortBy::Size => compare_u64(a.size, b.size),
        SortBy::Date => compare_opt(a.modified, b.modified),
        SortBy::Extension => {
            let e = compare_chars(&a.lext, &b.lext);
            if e != 0 {
                e
            } else {
                compare_chars(&a.lname, &b.lname)
            }
        },
    };
    proof {
        lemma_key_order_props(ea, eb, by);
    }
    if ascending {
        k
    } else {
        -k
    }
}

// ---------------------------------------------------------------------------
// Stable sort
// ---------------------------------------------------------------------------

/// `es` stably sorted into the listing order.
pub fn stable_sort(es: &Vec<FileEntry>, by: SortBy, ascending: bool) -> (out: Vec<FileEntry>)
    ensures
        stable_sorted(out@, es@, by, ascending),
{
    let n = es.len();
    let mut keys: Vec<SortKey> = Vec::new();
    for i in 0..n
        invariant
            n == es.len(),
            keys.len() == i,
            forall|j: int| 0 <= j < i ==> key_of(#[trigger] keys@[j], es@[j]),
    {
        keys.push(sort_key(&es[i]));
    }
    // `order` lists the positions processed so far in the stable order.
    let mut order: Vec<usize> = Vec::new();
    for k in 0..n
        invariant
            n == es.len(),
            keys.len() == n,
            forall|j: int| 0 <= j < n ==> key_of(#[trigger] keys@[j], es@[j]),
            order.len() == k,
            forall|i: int| 0 <= i < k ==> #[trigger] order@[i] < k,
            forall|i: int, j: int|
                0 <= i < j < k ==> #[trigger] before(
                    es@,
                    by,
                    ascending,
                    order@[i] as int,
                    order@[j] as int,
                ),
    {
        let mut lo: usize = 0;
        let mut hi: usize = k;
        while lo < hi
            invariant
                n == es.len(),
                keys.len() == n,
                forall|j: int| 0 <= j < n ==> key_of(#[trigger] keys@[j], es@[j]),
                k < n,
                order.len() == k,
                forall|i: int| 0 <= i < k ==> #[trigger] order@[i] < k,
                forall|i: int, j: int|
                    0 <= i < j < k ==> #[trigger] before(
                        es@,
                        by,
                        ascending,
                        order@[i] as int,
                        order@[j] as int,
                    ),
                0 <= lo <= hi <= k,
                forall|i: int|
                    0 <= i < lo ==> entry_order(
                        es@[#[trigger] order@[i] as int],
                        es@[k as int],
                        by,
                        ascending,
                    ) <= 0,
                forall|i: int|
                    hi <= i < k ==> entry_order(
                        es@[#[trigger] order@[i] as int],
                        es@[k as int],
                        by,
                        ascending,
                    ) > 0,
            decreases hi - lo,
        {
            let mid = lo + (hi - lo) / 2;
            let om = order[mid];
            let c = compare_keys(
                &keys[om],
                &keys[k],
                by,
                ascending,
                Ghost(es@[om as int]),
                Ghost(es@[k as int]),
            );
            if c <= 0 {
                proof {
                    assert forall|i: int| 0 <= i < mid + 1 implies entry_order(
                        es@[#[trigger] order@[i] as int],
                        es@[k as int],
                        by,
                        ascending,
                    ) <= 0 by {
                        if i < mid {
                            assert(before(es@, by, ascending, order@[i] as int, order@[mid as int] as int));
                            lemma_entry_order_trans(
                                es@[order@[i] as int],
                                es@[om as int],
                                es@[k as int],
                                by,
                                ascending,
                            );
                        }
                    }
                }
                lo = mid + 1;
            } else {
                proof {
                    assert forall|i: int| mid <= i < k implies entry_order(
                        es@[#[trigger] order@[i] as int],
                        es@[k as int],
                        by,
                        ascending,
                    ) > 0 by {
                        if mid < i && i < hi {
                            assert(before(es@, by, ascending, order@[mid as int] as int, order@[i] as int));
                            if entry_order(es@[order@[i] as int], es@[k as int], by, ascending) <= 0 {
                                lemma_entry_order_trans(
                                    es@[om as int],
                                    es@[order@[i] as int],
                                    es@[k as int],
                                    by,
                                    ascending,
                                );
                            }
                        }
                    }
                }
                hi = mid;
            }
        }
        let ghost old_order = order@;
        order.insert(lo, k);
        proof {
            assert forall|i: int| 0 <= i < k + 1 implies #[trigger] order@[i] < k + 1 by {
                if i < lo {
                    assert(order@[i] == old_order[i]);
                } else if i > lo {
                    assert(order@[i] == old_order[i - 1]);
                }
            }
            assert forall|i: int, j: int| 0 <= i < j < k + 1 implies #[trigger] before(
                es@,
                by,
                ascending,
                order@[i] as int,
                order@[j] as int,
            ) by {
                let oi = if i < lo {
                    old_order[i]
                } else if i == lo {
                    k
                } else {
                    old_order[i - 1]
                };
                let oj = if j < lo {
                    old_order[j]
                } else if j == lo {
                    k
                } else {
                    old_order[j - 1]
                };
                assert(order@[i] == oi);
                assert(order@[j] == oj);
                if i != lo && j != lo {
                    let i0 = if i < lo { i } else { i - 1 };
                    let j0 = if j < lo { j } else { j - 1 };
                    assert(old_order[i0] == oi && old_order[j0] == oj);
                    assert(before(es@, by, ascending, old_order[i0] as int, old_order[j0] as int));
                } else if i == lo {
                    // k before every later entry: they are strictly greater
                    assert(entry_order(es@[old_order[j - 1] as int], es@[k as int], by, ascending) > 0);
                    lemma_entry_order_antisym(es@[old_order[j - 1] as int], es@[k as int], by, ascending);
                } else {
                    // every earlier entry is at most k, and has a smaller position
                    assert(entry_order(es@[old_order[i] as int], es@[k as int], by, ascending) <= 0);
                    assert(old_order[i] < k);
                }
            }
        }
    }
    let mut out: Vec<FileEntry> = Vec::new();
    for i in 0..n
        invariant
            n == es.len(),
            order.len() == n,
            forall|j: int| 0 <= j < n ==> #[trigger] order@[j] < n,
            out.len() == i,
            forall|j: int| 0 <= j < i ==> #[trigger] out@[j] == es@[order@[j] as int],
    {
        out.push(es[order[i]].duplicate());
    }
    proof {
        let p = order@.map_values(|x: usize| x as int);
        assert forall|i: int, j: int| 0 <= i < j < n implies p[i] != p[j] by {
            assert(before(es@, by, ascending, order@[i] as int, order@[j] as int));
            lemma_entry_order_antisym(
                es@[order@[i] as int],
                es@[order@[i] as int],
                by,
                ascending,
            );
        }
        assert forall|i: int, j: int| 0 <= i < j < out.len() implies #[trigger] before(
            es@,
            by,
            ascending,
            p[i],
            p[j],
        ) by {
            assert(before(es@, by, ascending, order@[i] as int, order@[j] as int));
        }
        assert(sorted_by_witness(p, out@, es@, by, ascending));
    }
    out
}

} // verus!
