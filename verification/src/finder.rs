//! The fuzzy file finder: which entries a directory walk yields and under
//! which name, and the scoring of the collected names against a query.
use vstd::prelude::*;

use nucleo_matcher::Matcher;

use crate::fuzzy::{fuzzy_score, new_matcher, query_fits, spec_fuzzy_score};
use crate::rank::{TopRanked, arrivals_increase, top};
use crate::text::{path_strip_prefix, spec_path_strip_prefix};

verus! {

/// Result from fuzzy matching a file path.
pub struct FinderMatch {
    pub path: String,
    pub display_name: String,
    pub score: u32,
}

/// Whether the walk yields (and descends into) an entry at `depth` whose file
/// name is `name` (`None` where the name is not UTF-8): the walk root always,
/// any other entry unless its name starts with a dot.
pub open spec fn walk_shows(depth: nat, name: Option<Seq<char>>) -> bool {
    depth == 0 || !(name matches Some(n) && n.len() > 0 && n[0] == '.')
}

/// Whether the walk yields an entry; see `walk_shows`.
pub fn walk_keeps(depth: usize, name: Option<&str>) -> (r: bool)
    ensures
        r == walk_shows(
            depth as nat,
            match name {
                Some(n) => Some(n@),
                None => None,
            },
        ),
{
    if depth == 0 {
        return true;
    }
    match name {
        Some(n) => {
            if n.unicode_len() > 0 {
                n.get_char(0) != '.'
            } else {
                true
            }
        },
        None => true,
    }
}

/// The name a walked path is listed under: the path relative to the walk
/// root (the whole path where it is not under the root).
pub open spec fn walk_rel(root: Seq<char>, path: Seq<char>) -> Seq<char> {
    match spec_path_strip_prefix(path, root) {
        Some(rel) => rel,
        None => path,
    }
}

/// The name a walked path is listed under, `None` for the root itself.
pub fn walk_display(root: &str, path: &str) -> (r: Option<String>)
    ensures
        r is None <==> walk_rel(root@, path@).len() == 0,
        r matches Some(s) ==> s@ == walk_rel(root@, path@),
{
    let rel = match path_strip_prefix(path, root) {
        Some(q) => q,
        None => String::from_str(path),
    };
    if rel.unicode_len() == 0 {
        None
    } else {
        Some(rel)
    }
}

/// The candidates that the collected `(path, name)` pairs give for `query`:
/// each pair whose name matches, as (score, position, pair), in list order.
pub open spec fn path_hits(query: Seq<char>, items: Seq<(String, String)>) -> Seq<
    (u32, u64, (String, String)),
>
    decreases items.len(),
{
    if items.len() == 0 {
        Seq::empty()
    } else {
        let prev = path_hits(query, items.drop_last());
        match spec_fuzzy_score(query, items.last().1@) {
            Some(score) => prev.push((score, (items.len() - 1) as u64, items.last())),
            None => prev,
        }
    }
}

/// The match that a kept candidate stands for.
pub open spec fn as_finder_match(e: (u32, u64, (String, String))) -> FinderMatch {
    FinderMatch { path: e.2.0, display_name: e.2.1, score: e.0 }
}

/// Every candidate of `path_hits` comes from a position of the list.
pub proof fn lemma_path_hits_positions(query: Seq<char>, items: Seq<(String, String)>)
    requires
        items.len() <= u64::MAX + 1,
    ensures
        forall|i: int|
            0 <= i < path_hits(query, items).len() ==> #[trigger] path_hits(query, items)[i].1
                < items.len(),
        arrivals_increase(path_hits(query, items)),
    decreases items.len(),
{
    if items.len() > 0 {
        lemma_path_hits_positions(query, items.drop_last());
    }
}

/// Fuzzy file finder using nucleo-matcher (same engine as helix).
pub struct Finder {
    matcher: Matcher,
}

impl Finder {
    pub fn new() -> (r: Self) {
        Finder { matcher: new_matcher() }
    }

    /// Scores an already-collected `(path, name)` list against `query` and
    /// returns the best `max_results` matches, highest score first; equal
    /// scores keep the list's order. An empty query gives nothing.
    pub fn find_in(&mut self, items: &[(String, String)], query: &str, max_results: usize) -> (r:
        Vec<FinderMatch>)
        requires
            query_fits(query@),
            forall|i: int| 0 <= i < items@.len() ==> (#[trigger] items@[i]).1@.len() <= u32::MAX,
        ensures
            query@.len() == 0 ==> r@.len() == 0,
            query@.len() > 0 ==> r@ == top(path_hits(query@, items@), max_results as nat).map_values(
                |e: (u32, u64, (String, String))| as_finder_match(e),
            ),
            query@.len() > 0 ==> r@.len() == if max_results < path_hits(query@, items@).len() {
                max_results as int
            } else {
                path_hits(query@, items@).len() as int
            },
            forall|i: int, j: int|
                0 <= i < j < r@.len() ==> (#[trigger] r@[i]).score >= (#[trigger] r@[j]).score,
    {
        if query.unicode_len() == 0 {
            return Vec::new();
        }
        let mut ranking: TopRanked<(String, String)> = TopRanked::new(max_results);
        let mut i: usize = 0;
        while i < items.len()
            invariant
                i <= items@.len(),
                query_fits(query@),
                forall|k: int| 0 <= k < items@.len() ==> (#[trigger] items@[k]).1@.len() <= u32::MAX,
                ranking.wf(),
                ranking.limit() == max_results,
                ranking.offered() == path_hits(query@, items@.take(i as int)),
            decreases items@.len() - i,
        {
            let item = &items[i];
            proof {
                lemma_path_hits_positions(query@, items@.take(i as int));
                assert(items@.take(i + 1).drop_last() =~= items@.take(i as int));
                assert(items@.take(i + 1).last() == *item);
            }
            let scored = fuzzy_score(&mut self.matcher, query, item.1.as_str());
            if let Some(score) = scored {
                ranking.offer(score, i as u64, (item.0.clone(), item.1.clone()));
            }
            i = i + 1;
        }
        proof {
            assert(items@.take(items@.len() as int) =~= items@);
            ranking.lemma_entries();
        }
        let entries = ranking.as_slice();
        let mut out: Vec<FinderMatch> = Vec::new();
        let mut j: usize = 0;
        while j < entries.len()
            invariant
                j <= entries@.len(),
                entries@ == ranking.entries(),
                out@ == entries@.take(j as int).map_values(
                    |e: (u32, u64, (String, String))| as_finder_match(e),
                ),
            decreases entries@.len() - j,
        {
            let e = &entries[j];
            out.push(
                FinderMatch { path: e.2.0.clone(), display_name: e.2.1.clone(), score: e.0 },
            );
            proof {
                assert(entries@.take(j + 1).map_values(
                    |e: (u32, u64, (String, String))| as_finder_match(e),
                ) =~= out@);
            }
            j = j + 1;
        }
        proof {
            assert(entries@.take(entries@.len() as int) =~= entries@);
        }
        out
    }
}

} // verus!
