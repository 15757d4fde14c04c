//! A bounded best-first list: candidates come in with a score and an
//! arrival number; the list keeps the best `limit` of them, highest score
//! first and, among equal scores, the earliest arrival first.
use vstd::prelude::*;

verus! {

/// `a` comes before `b`: a higher score, or the same score and an earlier
/// arrival.
pub open spec fn outranks<T>(a: (u32, u64, T), b: (u32, u64, T)) -> bool {
    a.0 > b.0 || (a.0 == b.0 && a.1 < b.1)
}

/// How many leading entries of `s` outrank `x`: where `x` goes in `s`.
pub open spec fn rank_pos<T>(s: Seq<(u32, u64, T)>, x: (u32, u64, T)) -> nat
    decreases s.len(),
{
    if s.len() == 0 {
        0
    } else if outranks(s[0], x) {
        1 + rank_pos(s.drop_first(), x)
    } else {
        0
    }
}

/// `s` with `x` put in its place.
pub open spec fn rank_insert<T>(s: Seq<(u32, u64, T)>, x: (u32, u64, T)) -> Seq<(u32, u64, T)> {
    s.insert(rank_pos(s, x) as int, x)
}

/// The candidates `s`, put one after the other into their places.
pub open spec fn ranked<T>(s: Seq<(u32, u64, T)>) -> Seq<(u32, u64, T)>
    decreases s.len(),
{
    if s.len() == 0 {
        s
    } else {
        rank_insert(ranked(s.drop_last()), s.last())
    }
}

/// The first `k` items of `s`, or all of them where there are fewer.
pub open spec fn at_most<A>(s: Seq<A>, k: nat) -> Seq<A> {
    if k < s.len() {
        s.take(k as int)
    } else {
        s
    }
}

/// The best `k` of the candidates `s`, best first.
pub open spec fn top<T>(s: Seq<(u32, u64, T)>, k: nat) -> Seq<(u32, u64, T)> {
    at_most(ranked(s), k)
}

/// Every entry of `s` outranks every later one.
pub open spec fn rank_sorted<T>(s: Seq<(u32, u64, T)>) -> bool {
    forall|i: int, j: int| 0 <= i < j < s.len() ==> outranks(#[trigger] s[i], #[trigger] s[j])
}

/// The arrival numbers of `s` grow strictly.
pub open spec fn arrivals_increase<T>(s: Seq<(u32, u64, T)>) -> bool {
    forall|i: int, j: int| 0 <= i < j < s.len() ==> #[trigger] s[i].1 < #[trigger] s[j].1
}

/// The place of `x`: every entry before it outranks `x`, the one at it does not.
pub proof fn lemma_rank_pos<T>(s: Seq<(u32, u64, T)>, x: (u32, u64, T))
    ensures
        rank_pos(s, x) <= s.len(),
        forall|i: int| 0 <= i < rank_pos(s, x) ==> outranks(#[trigger] s[i], x),
        rank_pos(s, x) < s.len() ==> !outranks(s[rank_pos(s, x) as int], x),
    decreases s.len(),
{
    if s.len() > 0 && outranks(s[0], x) {
        lemma_rank_pos(s.drop_first(), x);
        assert forall|i: int| 0 <= i < rank_pos(s, x) implies outranks(#[trigger] s[i], x) by {
            if i > 0 {
                assert(s[i] == s.drop_first()[i - 1]);
            }
        }
        if rank_pos(s, x) < s.len() {
            assert(s[rank_pos(s, x) as int] == s.drop_first()[rank_pos(s.drop_first(), x) as int]);
        }
    }
}

/// The place found by a scan that stops at the first entry not outranking `x`.
pub proof fn lemma_rank_pos_at<T>(s: Seq<(u32, u64, T)>, x: (u32, u64, T), p: int)
    requires
        0 <= p <= s.len(),
        forall|i: int| 0 <= i < p ==> outranks(#[trigger] s[i], x),
        p < s.len() ==> !outranks(s[p], x),
    ensures
        rank_pos(s, x) == p,
    decreases s.len(),
{
    if s.len() > 0 && p > 0 {
        assert(outranks(s[0], x));
        assert forall|i: int| 0 <= i < p - 1 implies outranks(#[trigger] s.drop_first()[i], x) by {
            assert(s.drop_first()[i] == s[i + 1]);
        }
        lemma_rank_pos_at(s.drop_first(), x, p - 1);
    }
}

/// Cutting `s` to `k` entries cuts the place of `x` to at most `k`.
pub proof fn lemma_rank_pos_at_most<T>(s: Seq<(u32, u64, T)>, x: (u32, u64, T), k: nat)
    ensures
        rank_pos(at_most(s, k), x) == if rank_pos(s, x) < k {
            rank_pos(s, x)
        } else {
            k
        },
    decreases s.len(),
{
    lemma_rank_pos(s, x);
    if k < s.len() {
        if k > 0 && outranks(s[0], x) {
            assert(s.take(k as int).drop_first() =~= at_most(s.drop_first(), (k - 1) as nat));
            lemma_rank_pos_at_most(s.drop_first(), x, (k - 1) as nat);
        }
    }
}

/// `ranked` keeps the number of candidates.
pub proof fn lemma_ranked_len<T>(s: Seq<(u32, u64, T)>)
    ensures
        ranked(s).len() == s.len(),
    decreases s.len(),
{
    if s.len() > 0 {
        lemma_ranked_len(s.drop_last());
        lemma_rank_pos(ranked(s.drop_last()), s.last());
    }
}

/// Offering one more candidate to the best `k` gives the best `k` of all:
/// nothing that was cut before could come back.
pub proof fn lemma_top_push<T>(s: Seq<(u32, u64, T)>, x: (u32, u64, T), k: nat)
    ensures
        top(s.push(x), k) == at_most(rank_insert(top(s, k), x), k),
{
    let r = ranked(s);
    assert(s.push(x).drop_last() =~= s);
    assert(ranked(s.push(x)) == rank_insert(r, x));
    lemma_rank_pos(r, x);
    lemma_rank_pos_at_most(r, x, k);
    let p = rank_pos(r, x) as int;
    if k < r.len() {
        let t = r.take(k as int);
        let q = rank_pos(t, x) as int;
        assert(at_most(rank_insert(r, x), k) =~= at_most(rank_insert(t, x), k)) by {
            assert forall|i: int| 0 <= i < k implies #[trigger] r.insert(p, x)[i] == t.insert(
                q,
                x,
            )[i] by {
                if i < q {
                } else if i == q {
                } else {
                    assert(t[i - 1] == r[i - 1]);
                }
            }
        }
    }
}

/// What `ranked` holds is what it was given, as a multiset.
pub proof fn lemma_ranked_multiset<T>(s: Seq<(u32, u64, T)>)
    ensures
        ranked(s).to_multiset() == s.to_multiset(),
    decreases s.len(),
{
    broadcast use vstd::seq_lib::to_multiset_insert, vstd::seq_lib::to_multiset_build;

    if s.len() > 0 {
        let r = ranked(s.drop_last());
        lemma_ranked_multiset(s.drop_last());
        lemma_rank_pos(r, s.last());
        assert(s =~= s.drop_last().insert(s.drop_last().len() as int, s.last()));
    }
}

/// With distinct arrivals, `ranked` puts the candidates best first.
pub proof fn lemma_ranked_sorted<T>(s: Seq<(u32, u64, T)>)
    requires
        arrivals_increase(s),
    ensures
        rank_sorted(ranked(s)),
    decreases s.len(),
{
    if s.len() > 0 {
        let x = s.last();
        let s0 = s.drop_last();
        let r = ranked(s0);
        assert(arrivals_increase(s0));
        lemma_ranked_sorted(s0);
        lemma_ranked_multiset(s0);
        lemma_rank_pos(r, x);
        let p = rank_pos(r, x) as int;
        // every entry of r came from s0, so its arrival is earlier than x's
        assert forall|i: int| 0 <= i < r.len() implies #[trigger] r[i].1 < x.1 by {
            broadcast use vstd::seq_lib::to_multiset_contains;

            assert(r.contains(r[i]));
            assert(r.to_multiset().count(r[i]) > 0);
            assert(s0.to_multiset().count(r[i]) > 0);
            assert(s0.contains(r[i]));
            let j = choose|j: int| 0 <= j < s0.len() && s0[j] == r[i];
            assert(s[j] == s0[j]);
        }
        let n = r.insert(p, x);
        assert forall|i: int, j: int| 0 <= i < j < n.len() implies outranks(
            #[trigger] n[i],
            #[trigger] n[j],
        ) by {
            if j < p {
            } else if j == p {
            } else if i < p {
                assert(n[j] == r[j - 1]);
            } else if i == p {
                assert(n[j] == r[j - 1]);
                assert(!outranks(r[p], x));
                assert(outranks(x, r[p]));
            } else {
                assert(n[i] == r[i - 1]);
                assert(n[j] == r[j - 1]);
            }
        }
    }
}

/// A bounded best-first list of candidates `(score, arrival, item)`.
pub struct TopRanked<T> {
    entries: Vec<(u32, u64, T)>,
    limit: usize,
    offered: Ghost<Seq<(u32, u64, T)>>,
}

impl<T> TopRanked<T> {
    /// Every candidate offered so far, in arrival order.
    pub closed spec fn offered(&self) -> Seq<(u32, u64, T)> {
        self.offered@
    }

    /// The most entries that the list keeps.
    pub closed spec fn limit(&self) -> nat {
        self.limit as nat
    }

    /// The entries kept, best first.
    pub closed spec fn entries(&self) -> Seq<(u32, u64, T)> {
        self.entries@
    }

    /// What every list holds: the best `limit` of what was offered.
    pub closed spec fn wf(&self) -> bool {
        &&& self.entries@ == top(self.offered@, self.limit as nat)
        &&& arrivals_increase(self.offered@)
    }

    /// An empty list that keeps at most `limit` entries.
    pub fn new(limit: usize) -> (r: Self)
        ensures
            r.wf(),
            r.offered() == Seq::<(u32, u64, T)>::empty(),
            r.limit() == limit,
    {
        TopRanked { entries: Vec::new(), limit, offered: Ghost(Seq::empty()) }
    }

    /// Offers a candidate; it is kept where it is among the best `limit`.
    pub fn offer(&mut self, score: u32, arrival: u64, item: T)
        requires
            old(self).wf(),
            forall|i: int|
                0 <= i < old(self).offered().len() ==> #[trigger] old(self).offered()[i].1
                    < arrival,
        ensures
            final(self).wf(),
            final(self).offered() == old(self).offered().push((score, arrival, item)),
            final(self).limit() == old(self).limit(),
            final(self).entries() == at_most(
                rank_insert(old(self).entries(), (score, arrival, item)),
                old(self).limit(),
            ),
    {
        let ghost x = (score, arrival, item);
        let ghost old_offered = self.offered@;
        proof {
            lemma_top_push(old_offered, x, self.limit as nat);
        }
        let mut p: usize = 0;
        while p < self.entries.len() && (self.entries[p].0 > score || (self.entries[p].0 == score
            && self.entries[p].1 < arrival))
            invariant
                p <= self.entries.len(),
                *self == *old(self),
                x == (score, arrival, item),
                forall|i: int| 0 <= i < p ==> outranks(#[trigger] self.entries@[i], x),
            decreases self.entries.len() - p,
        {
            p = p + 1;
        }
        proof {
            lemma_rank_pos_at(self.entries@, x, p as int);
        }
        let ghost e0 = self.entries@;
        if p < self.limit {
            self.entries.insert(p, (score, arrival, item));
            self.entries.truncate(self.limit);
            proof {
                assert(self.entries@ =~= at_most(e0.insert(p as int, x), self.limit as nat));
            }
        } else {
            proof {
                assert(at_most(e0.insert(p as int, x), self.limit as nat) =~= e0);
            }
        }
        proof {
            self.offered@ = old_offered.push(x);
            assert forall|i: int, j: int|
                0 <= i < j < self.offered@.len() implies #[trigger] self.offered@[i].1
                < #[trigger] self.offered@[j].1 by {
                assert(self.offered@[i] == old_offered[i]);
                if j == old_offered.len() {
                    assert(self.offered@[j] == x);
                    assert(old(self).offered()[i] == old_offered[i]);
                } else {
                    assert(arrivals_increase(old_offered));
                }
            }
        }
    }

    /// The entries kept, best first.
    pub fn as_slice(&self) -> (r: &[(u32, u64, T)])
        ensures
            r@ == self.entries(),
    {
        self.entries.as_slice()
    }

    /// Every kept entry is one of the offered candidates, and they come
    /// best first.
    pub proof fn lemma_entries(&self)
        requires
            self.wf(),
        ensures
            self.entries() == top(self.offered(), self.limit()),
            self.entries().len() == if self.limit() < self.offered().len() {
                self.limit()
            } else {
                self.offered().len()
            },
            rank_sorted(self.entries()),
            forall|i: int|
                0 <= i < self.entries().len() ==> self.offered().contains(
                    #[trigger] self.entries()[i],
                ),
    {
        let s = self.offered@;
        lemma_ranked_len(s);
        lemma_ranked_sorted(s);
        lemma_ranked_multiset(s);
        let r = ranked(s);
        assert forall|i: int| 0 <= i < self.entries().len() implies s.contains(
            #[trigger] self.entries()[i],
        ) by {
            broadcast use vstd::seq_lib::to_multiset_contains;

            assert(self.entries()[i] == r[i]);
            assert(r.contains(r[i]));
            assert(r.to_multiset().count(r[i]) > 0);
        }
    }
}

} // verus!
