//! The preview's fuzzy line filter: each line of a file, in order, is scored
//! against the query, and the best `max_results` lines are kept, highest
//! score first. The file is read in batches by the caller; memory stays
//! bounded by `max_results` whatever the file's size.
use vstd::prelude::*;

use nucleo_matcher::Matcher;

use crate::fuzzy::{fuzzy_score, new_matcher, query_fits, spec_fuzzy_score};
use crate::rank::{TopRanked, arrivals_increase, top};

verus! {

/// One line matched by a fuzzy filter query.
pub struct FilterMatch {
    /// 1-based line number.
    pub line: u64,
    pub text: String,
    pub score: u32,
}

/// The candidates that the lines `lines` (the whole file read so far) give
/// for `query`: each line that matches, as (score, 1-based line number,
/// text), in file order. An empty query matches nothing.
pub open spec fn line_hits(query: Seq<char>, lines: Seq<String>) -> Seq<(u32, u64, String)>
    decreases lines.len(),
{
    if lines.len() == 0 || query.len() == 0 {
        Seq::empty()
    } else {
        let prev = line_hits(query, lines.drop_last());
        match spec_fuzzy_score(query, lines.last()@) {
            Some(score) => prev.push((score, lines.len() as u64, lines.last())),
            None => prev,
        }
    }
}

/// The match that a kept candidate stands for.
pub open spec fn as_filter_match(e: (u32, u64, String)) -> FilterMatch {
    FilterMatch { line: e.1, text: e.2, score: e.0 }
}

/// Every candidate of `line_hits` names a line that was read.
pub proof fn lemma_line_hits_lines(query: Seq<char>, lines: Seq<String>)
    requires
        lines.len() <= u64::MAX,
    ensures
        forall|i: int|
            0 <= i < line_hits(query, lines).len() ==> 1 <= #[trigger] line_hits(
                query,
                lines,
            )[i].1 <= lines.len(),
        arrivals_increase(line_hits(query, lines)),
    decreases lines.len(),
{
    if lines.len() > 0 && query.len() > 0 {
        lemma_line_hits_lines(query, lines.drop_last());
    }
}

/// The state of one filter run: the query, how many lines were read, and the
/// best matches among them.
pub struct FilterRanking {
    matcher: Matcher,
    query: String,
    ranking: TopRanked<String>,
    lines_seen: u64,
    fed: Ghost<Seq<String>>,
}

impl FilterRanking {
    /// The query the lines are scored against.
    pub closed spec fn query(&self) -> Seq<char> {
        self.query@
    }

    /// Every line read so far, in file order.
    pub closed spec fn fed(&self) -> Seq<String> {
        self.fed@
    }

    /// The most matches kept.
    pub closed spec fn max_results(&self) -> nat {
        self.ranking.limit()
    }

    /// The best matches among the lines read so far, best first.
    pub open spec fn best(&self) -> Seq<(u32, u64, String)> {
        top(line_hits(self.query(), self.fed()), self.max_results())
    }

    /// What every run holds.
    pub closed spec fn wf(&self) -> bool {
        &&& self.ranking.wf()
        &&& self.ranking.offered() == line_hits(self.query@, self.fed@)
        &&& self.lines_seen == self.fed@.len()
        &&& query_fits(self.query@)
    }

    /// A run of `query` that keeps the best `max_results` lines.
    pub fn new(query: &str, max_results: usize) -> (r: Self)
        requires
            query_fits(query@),
        ensures
            r.wf(),
            r.query() == query@,
            r.fed() == Seq::<String>::empty(),
            r.max_results() == max_results,
    {
        FilterRanking {
            matcher: new_matcher(),
            query: String::from_str(query),
            ranking: TopRanked::new(max_results),
            lines_seen: 0,
            fed: Ghost(Seq::empty()),
        }
    }

    /// Scores the next lines of the file, which follow those read before.
    pub fn feed(&mut self, lines: &[String])
        requires
            old(self).wf(),
            old(self).fed().len() + lines@.len() <= u64::MAX,
            forall|i: int| 0 <= i < lines@.len() ==> (#[trigger] lines@[i])@.len() <= u32::MAX,
        ensures
            final(self).wf(),
            final(self).query() == old(self).query(),
            final(self).max_results() == old(self).max_results(),
            final(self).fed() == old(self).fed() + lines@,
    {
        let ghost fed0 = self.fed@;
        let empty_query = self.query.as_str().unicode_len() == 0;
        let mut i: usize = 0;
        while i < lines.len()
            invariant
                self.wf(),
                i <= lines@.len(),
                self.query() == old(self).query(),
                self.max_results() == old(self).max_results(),
                self.fed@ == fed0 + lines@.take(i as int),
                fed0 == old(self).fed(),
                fed0.len() + lines@.len() <= u64::MAX,
                empty_query == (self.query@.len() == 0),
                forall|k: int| 0 <= k < lines@.len() ==> (#[trigger] lines@[k])@.len() <= u32::MAX,
            decreases lines@.len() - i,
        {
            let text = &lines[i];
            let ghost before = self.fed@;
            let ghost after = before.push(*text);
            proof {
                lemma_line_hits_lines(self.query@, before);
                assert(after.drop_last() =~= before);
                assert(after.last() == *text);
            }
            self.lines_seen = self.lines_seen + 1;
            if !empty_query {
                let scored = fuzzy_score(&mut self.matcher, self.query.as_str(), text.as_str());
                if let Some(score) = scored {
                    self.ranking.offer(score, self.lines_seen, text.clone());
                }
            }
            proof {
                self.fed@ = after;
                assert(fed0 + lines@.take(i + 1) =~= after);
            }
            i = i + 1;
        }
        proof {
            assert(lines@.take(lines@.len() as int) =~= lines@);
        }
    }

    /// The best matches so far, highest score first.
    pub fn results(&self) -> (r: Vec<FilterMatch>)
        requires
            self.wf(),
        ensures
            r@ == self.best().map_values(|e: (u32, u64, String)| as_filter_match(e)),
    {
        let entries = self.ranking.as_slice();
        let mut out: Vec<FilterMatch> = Vec::new();
        let mut i: usize = 0;
        while i < entries.len()
            invariant
                i <= entries@.len(),
                entries@ == self.ranking.entries(),
                out@ == entries@.take(i as int).map_values(
                    |e: (u32, u64, String)| as_filter_match(e),
                ),
            decreases entries@.len() - i,
        {
            let e = &entries[i];
            out.push(FilterMatch { line: e.1, text: e.2.clone(), score: e.0 });
            proof {
                assert(entries@.take(i + 1).map_values(|e: (u32, u64, String)| as_filter_match(e))
                    =~= out@);
            }
            i = i + 1;
        }
        proof {
            assert(entries@.take(entries@.len() as int) =~= entries@);
            self.ranking.lemma_entries();
        }
        out
    }

    /// The kept matches: at most `max_results` of them, highest score first
    /// (earlier lines first among equal scores), each a matching line.
    pub proof fn lemma_best(&self)
        requires
            self.wf(),
        ensures
            self.best().len() == if self.max_results() < line_hits(
                self.query(),
                self.fed(),
            ).len() {
                self.max_results()
            } else {
                line_hits(self.query(), self.fed()).len()
            },
            forall|i: int, j: int|
                0 <= i < j < self.best().len() ==> (#[trigger] self.best()[i]).0 > (
                #[trigger] self.best()[j]).0 || (self.best()[i].0 == self.best()[j].0
                    && self.best()[i].1 < self.best()[j].1),
            forall|i: int|
                0 <= i < self.best().len() ==> line_hits(self.query(), self.fed()).contains(
                    #[trigger] self.best()[i],
                ),
    {
        self.ranking.lemma_entries();
    }
}

} // verus!
