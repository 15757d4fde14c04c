use ncoxide::fuzzy::fuzzy_query_fits;
use ncoxide::finder::{walk_display, walk_keeps, Finder};
use ncoxide::preview::filter::FilterRanking;
use ncoxide::preview::search::{literal_match_ranges, matcher_plan, MatcherPlan, Search, SearchKind};
use ncoxide::rank::TopRanked;

#[test]
fn test_literal_smart_case() {
    // Lowercase query → case-insensitive.
    let s = Search::new("error", SearchKind::Literal).unwrap();
    assert!(s.line_matches("an ERROR occurred"));
    assert!(s.line_matches("error here"));
    // Mixed-case query → case-sensitive.
    let s = Search::new("Error", SearchKind::Literal).unwrap();
    assert!(s.line_matches("an Error"));
    assert!(!s.line_matches("an error"));
}

#[test]
fn test_literal_match_ranges() {
    let s = Search::new("ab", SearchKind::Literal).unwrap();
    assert_eq!(s.match_ranges("xabyab"), vec![(1, 3), (4, 6)]);
}

#[test]
fn test_regex_match_and_ranges() {
    let s = Search::new(r"\d{3}", SearchKind::Regex).unwrap();
    assert!(s.line_matches("code 404 here"));
    assert_eq!(s.match_ranges("a123b456"), vec![(1, 4), (5, 8)]);
}

#[test]
fn test_regex_smart_case() {
    let s = Search::new("warn", SearchKind::Regex).unwrap();
    assert!(s.line_matches("WARN: x")); // no uppercase in query → insensitive
    let s = Search::new("WARN", SearchKind::Regex).unwrap();
    assert!(!s.line_matches("warn: x")); // uppercase in query → sensitive
}

#[test]
fn test_invalid_regex_is_error_not_panic() {
    let err = Search::new("(unclosed", SearchKind::Regex);
    assert!(err.is_err());
    match err {
        Err(m) => assert!(m.starts_with("invalid regex: ")),
        Ok(_) => panic!("expected an error"),
    }
}

#[test]
fn test_zero_width_regex_not_infinite() {
    // A pattern that can match empty must not yield zero-width ranges.
    let s = Search::new("x*", SearchKind::Regex).unwrap();
    assert!(s.match_ranges("zzz").is_empty());
}

#[test]
fn literal_query_with_meta_characters_is_escaped() {
    let s = Search::new("a.b", SearchKind::Literal).unwrap();
    assert!(s.line_matches("xa.by"));
    assert!(!s.line_matches("axb"));
    assert_eq!(s.query(), "a.b");
    assert_eq!(s.kind(), SearchKind::Literal);
}

#[test]
fn matcher_plan_follows_smart_case() {
    assert_eq!(matcher_plan("Foo", SearchKind::Literal), MatcherPlan::Literal);
    assert_eq!(
        matcher_plan("foo", SearchKind::Literal),
        MatcherPlan::Regex { escaped: true, case_insensitive: true }
    );
    assert_eq!(
        matcher_plan("Foo", SearchKind::Regex),
        MatcherPlan::Regex { escaped: false, case_insensitive: false }
    );
    assert_eq!(SearchKind::Literal.toggled(), SearchKind::Regex);
    assert_eq!(SearchKind::Regex.label(), "regex");
}

#[test]
fn literal_ranges_do_not_overlap() {
    assert_eq!(literal_match_ranges(b"aa", b"aaaa"), vec![(0, 2), (2, 4)]);
    assert_eq!(literal_match_ranges(b"ab", b"xyz"), vec![]);
}

fn feed_text(filter: &mut FilterRanking, body: &str) {
    let lines: Vec<String> = body.lines().map(|l| l.to_string()).collect();
    // in batches, as the reader hands them over
    for chunk in lines.chunks(256) {
        filter.feed(chunk);
    }
}

#[test]
fn test_fuzzy_filter_finds_and_ranks() {
    let mut body = String::new();
    for i in 0..500 {
        body.push_str(&format!("noise {i}\n"));
    }
    body.push_str("the config loader\n"); // line 501
    body.push_str("unrelated\n");
    let mut filter = FilterRanking::new("cfgldr", 200);
    feed_text(&mut filter, &body);
    let results = filter.results();
    assert!(!results.is_empty());
    // The "config loader" line (fuzzy match for "cfgldr") should rank top.
    assert!(results[0].text.contains("config loader"));
    assert_eq!(results[0].line, 501);
}

#[test]
fn test_fuzzy_filter_top_n_bounded() {
    let mut body = String::new();
    for _ in 0..1000 {
        body.push_str("match line\n"); // all match "match"
    }
    let mut filter = FilterRanking::new("match", 50);
    feed_text(&mut filter, &body);
    let results = filter.results();
    assert_eq!(results.len(), 50, "results capped at max_results");
    // equal scores: the earliest lines are kept, in order
    let lines: Vec<u64> = results.iter().map(|m| m.line).collect();
    assert_eq!(lines, (1..=50).collect::<Vec<u64>>());
}

#[test]
fn filter_with_empty_query_matches_nothing() {
    let mut filter = FilterRanking::new("", 10);
    feed_text(&mut filter, "a\nb\n");
    assert!(filter.results().is_empty());
}

#[test]
fn top_ranked_keeps_best_first() {
    let mut top: TopRanked<&str> = TopRanked::new(3);
    top.offer(5, 1, "a");
    top.offer(9, 2, "b");
    top.offer(5, 3, "c");
    top.offer(7, 4, "d");
    top.offer(1, 5, "e");
    let kept: Vec<(u32, u64, &str)> = top.as_slice().to_vec();
    assert_eq!(kept, vec![(9, 2, "b"), (7, 4, "d"), (5, 1, "a")]);
}

fn items(names: &[&str]) -> Vec<(String, String)> {
    names.iter().map(|n| (format!("/root/{n}"), n.to_string())).collect()
}

#[test]
fn test_finder_empty_query() {
    let mut finder = Finder::new();
    let results = finder.find_in(&items(&["a.rs", "b.rs"]), "", 10);
    assert!(results.is_empty());
}

#[test]
fn finder_scores_and_orders() {
    let mut finder = Finder::new();
    let list = items(&["src/main.rs", "src/lib.rs", "README.md"]);
    let results = finder.find_in(&list, "main", 10);
    assert!(!results.is_empty());
    assert!(results[0].display_name.contains("main"));
    assert_eq!(results[0].path, "/root/src/main.rs");
    let results = finder.find_in(&list, "rs", 10);
    assert!(results.len() >= 2);
    for w in results.windows(2) {
        assert!(w[0].score >= w[1].score);
    }
    let capped = finder.find_in(&list, "rs", 1);
    assert_eq!(capped.len(), 1);
}

/// What the finder's walk gives for a tree: each path (the root first) with
/// the library's rules applied.
fn walk(root: &str, tree: &[(&str, usize)]) -> Vec<(String, String)> {
    let mut out = Vec::new();
    let mut hidden_dirs: Vec<String> = Vec::new();
    for (rel, depth) in tree {
        let path = if rel.is_empty() { root.to_string() } else { format!("{root}/{rel}") };
        if hidden_dirs.iter().any(|h| path.starts_with(&format!("{h}/"))) {
            continue;
        }
        let name = path.rsplit('/').next();
        if !walk_keeps(*depth, name) {
            hidden_dirs.push(path.clone());
            continue;
        }
        if let Some(display) = walk_display(root, &path) {
            out.push((path, display));
        }
    }
    out
}

#[test]
fn test_finder_basic() {
    let tree = [("", 0), ("src", 1), ("src/main.rs", 2), ("src/lib.rs", 2), ("README.md", 1)];
    let mut finder = Finder::new();
    let list = walk("/t/finder", &tree);
    let results = finder.find_in(&list, "main", 10);
    assert!(!results.is_empty());
    assert!(results[0].display_name.contains("main"));

    let results = finder.find_in(&list, "rs", 10);
    assert!(results.len() >= 2);
}

#[test]
fn test_finder_works_inside_hidden_root() {
    let tree = [("", 0), ("main.rs", 1), ("sub", 1), ("sub/other.rs", 2), (".secret.rs", 1)];
    let mut finder = Finder::new();
    let results = finder.find_in(&walk("/t/.finder_hidden", &tree), "rs", 10);
    let names: Vec<&str> = results.iter().map(|m| m.display_name.as_str()).collect();
    assert!(names.contains(&"main.rs"), "results: {names:?}");
    assert!(names.contains(&"sub/other.rs"), "results: {names:?}");
    assert!(!names.contains(&".secret.rs"), "results: {names:?}");
}

#[test]
fn walk_rules() {
    assert!(walk_keeps(0, Some(".hidden_root")));
    assert!(!walk_keeps(1, Some(".git")));
    assert!(walk_keeps(1, Some("src")));
    assert!(walk_keeps(2, None));
    assert_eq!(walk_display("/a/b", "/a/b"), None);
    assert_eq!(walk_display("/a/b", "/a/b/c/d.rs"), Some("c/d.rs".to_string()));
    assert_eq!(walk_display("/a/b", "/x/y"), Some("/x/y".to_string()));
}

#[test]
fn long_queries_fit_while_their_words_do() {
    assert!(fuzzy_query_fits(""));
    assert!(fuzzy_query_fits("a b  c"));
    // 65537 words fit, 65538 do not
    let fits = vec!["x"; 65537].join(" ");
    assert!(fuzzy_query_fits(&fits));
    let over = vec!["x"; 65538].join(" ");
    assert!(!fuzzy_query_fits(&over));
    // one long word is one word
    assert!(fuzzy_query_fits(&"y".repeat(300_000)));
}
