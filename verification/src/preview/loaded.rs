//! A preview held whole in memory (a small file, a directory listing or a
//! status message): scrolling, jumping to a line, the position shown in
//! the title, and moving to the next line that matches a search. Also the
//! test that decides whether a file is shown as binary, and the lines of a
//! directory's preview.
use vstd::prelude::*;

use super::search::{line_hit, Search};
use crate::pane::order::{stable_sort, stable_sorted};
use crate::pane::{FileEntry, SortBy, dotted, starts_with_dot};
use crate::text::{concat, decimal, decimal_string};

verus! {

/// The line after (`forward`) or before `i` among `n`, wrapping at the ends.
pub open spec fn wrap_step(n: int, i: int, forward: bool) -> int {
    if forward {
        if i + 1 >= n {
            0
        } else {
            i + 1
        }
    } else {
        if i == 0 {
            n - 1
        } else {
            i - 1
        }
    }
}

/// The line `k` steps from `i` among `n`, wrapping at the ends.
pub open spec fn wrap_walk(n: int, i: int, forward: bool, k: nat) -> int
    decreases k,
{
    if k == 0 {
        i
    } else {
        wrap_step(n, wrap_walk(n, i, forward, (k - 1) as nat), forward)
    }
}

/// The first line, `k` or more steps from `i`, whose flag is set, looking
/// at each line once.
pub open spec fn next_hit(hits: Seq<bool>, i: int, forward: bool, k: nat) -> Option<int>
    decreases hits.len() + 1 - k,
{
    if k > hits.len() {
        None
    } else if hits[wrap_walk(hits.len() as int, i, forward, k)] {
        Some(wrap_walk(hits.len() as int, i, forward, k))
    } else {
        next_hit(hits, i, forward, k + 1)
    }
}

/// The walk stays among the lines.
pub proof fn lemma_wrap_walk(n: int, i: int, forward: bool, k: nat)
    requires
        0 <= i < n,
    ensures
        0 <= wrap_walk(n, i, forward, k) < n,
    decreases k,
{
    if k > 0 {
        lemma_wrap_walk(n, i, forward, (k - 1) as nat);
    }
}

/// A preview held whole: its lines and the first line shown.
pub struct LoadedText {
    lines: Vec<String>,
    scroll: usize,
}

impl LoadedText {
    pub closed spec fn spec_lines(&self) -> Seq<String> {
        self.lines@
    }

    pub closed spec fn spec_scroll(&self) -> nat {
        self.scroll as nat
    }

    /// The first line shown is a line, or 0 when there is none.
    pub closed spec fn wf(&self) -> bool {
        self.scroll == 0 || self.scroll < self.lines@.len()
    }

    /// The lines, shown from the first.
    pub fn new(lines: Vec<String>) -> (r: LoadedText)
        ensures
            r.wf(),
            r.spec_lines() == lines@,
            r.spec_scroll() == 0,
    {
        LoadedText { lines, scroll: 0 }
    }

    pub fn lines(&self) -> (r: &Vec<String>)
        ensures
            r@ == self.spec_lines(),
    {
        &self.lines
    }

    pub fn scroll(&self) -> (r: usize)
        ensures
            r == self.spec_scroll(),
    {
        self.scroll
    }

    pub fn scroll_up(&mut self, amount: usize)
        requires
            old(self).wf(),
        ensures
            final(self).wf(),
            final(self).spec_lines() == old(self).spec_lines(),
            final(self).spec_scroll() == if old(self).spec_scroll() >= amount {
                old(self).spec_scroll() - amount
            } else {
                0
            },
    {
        self.scroll = self.scroll.saturating_sub(amount);
    }

    /// Scrolls down, never past the last line.
    pub fn scroll_down(&mut self, amount: usize)
        requires
            old(self).wf(),
            old(self).spec_scroll() + amount <= usize::MAX,
        ensures
            final(self).wf(),
            final(self).spec_lines() == old(self).spec_lines(),
            final(self).spec_scroll() == if old(self).spec_lines().len() == 0 {
                0
            } else if old(self).spec_scroll() + amount < old(self).spec_lines().len() - 1 {
                old(self).spec_scroll() + amount
            } else {
                (old(self).spec_lines().len() - 1) as int
            },
    {
        self.scroll = (self.scroll + amount).min(self.lines.len().saturating_sub(1));
    }

    pub fn scroll_to_top(&mut self)
        ensures
            final(self).wf(),
            final(self).spec_lines() == old(self).spec_lines(),
            final(self).spec_scroll() == 0,
    {
        self.scroll = 0;
    }

    /// Scrolls so that the last `height` lines (at least one) fill the view.
    pub fn scroll_to_bottom(&mut self, height: usize)
        ensures
            final(self).wf(),
            final(self).spec_lines() == old(self).spec_lines(),
            final(self).spec_scroll() == ({
                let h = if height >= 1 {
                    height as int
                } else {
                    1
                };
                if old(self).spec_lines().len() > h {
                    old(self).spec_lines().len() - h
                } else {
                    0
                }
            }),
    {
        self.scroll = self.lines.len().saturating_sub(height.max(1));
    }

    /// Jump so 1-based `line` is at the top of the view (the last line at
    /// most).
    pub fn goto_line(&mut self, line: usize)
        ensures
            final(self).wf(),
            final(self).spec_lines() == old(self).spec_lines(),
            final(self).spec_scroll() == ({
                let want = if line >= 1 {
                    line - 1
                } else {
                    0
                };
                let last = if old(self).spec_lines().len() >= 1 {
                    old(self).spec_lines().len() - 1
                } else {
                    0
                };
                if want < last {
                    want
                } else {
                    last
                }
            }),
    {
        self.scroll = line.saturating_sub(1).min(self.lines.len().saturating_sub(1));
    }

    /// The position for the title: "line {first shown}/{number of lines}",
    /// counting from 1 (an empty preview counts one line).
    pub fn status_text(&self) -> (r: String)
        requires
            self.wf(),
        ensures
            r@ == "line "@ + decimal(self.spec_scroll() + 1) + "/"@ + decimal(
                if self.spec_lines().len() >= 1 {
                    self.spec_lines().len()
                } else {
                    1
                },
            ),
    {
        let count = self.lines.len();
        let pos = decimal_string((self.scroll + 1) as u64);
        let total = decimal_string(if count >= 1 {
            count as u64
        } else {
            1
        });
        let a = concat("line ", pos.as_str());
        let b = concat(a.as_str(), "/");
        concat(b.as_str(), total.as_str())
    }

    /// Moves to the next (`forward`) or previous line that `search` matches,
    /// wrapping at the ends and looking at each line once, the current one
    /// last. Returns whether one was found; the view stays put otherwise.
    pub fn search_next(&mut self, search: &Search, forward: bool) -> (r: bool)
        requires
            old(self).wf(),
        ensures
            final(self).wf(),
            final(self).spec_lines() == old(self).spec_lines(),
            exists|hits: Seq<bool>|
                #![trigger next_hit(hits, old(self).spec_scroll() as int, forward, 1)]
                {
                    &&& hits.len() == old(self).spec_lines().len()
                    &&& forall|i: int|
                        0 <= i < hits.len() ==> #[trigger] hits[i] == line_hit(
                            search.spec_query(),
                            search.spec_kind(),
                            old(self).spec_lines()[i]@,
                        )
                    &&& match next_hit(hits, old(self).spec_scroll() as int, forward, 1) {
                        Some(i) => r && final(self).spec_scroll() == i,
                        None => !r && final(self).spec_scroll() == old(self).spec_scroll(),
                    }
                },
    {
        let n = self.lines.len();
        let mut hits: Vec<bool> = Vec::new();
        let mut j: usize = 0;
        while j < n
            invariant
                *self == *old(self),
                n == self.lines@.len(),
                j <= n,
                hits@.len() == j,
                forall|i: int|
                        0 <= i < j ==> #[trigger] hits@[i] == line_hit(
                            search.spec_query(),
                            search.spec_kind(),
                            self.lines@[i]@,
                        ),
            decreases n - j,
        {
            let m = search.line_matches(self.lines[j].as_str());
            hits.push(m);
            j = j + 1;
        }
        if n == 0 {
            proof {
                assert(next_hit(hits@, self.scroll as int, forward, 1) is None);
                assert(next_hit(hits@, old(self).spec_scroll() as int, forward, 1) is None);
            }
            return false;
        }
        let start = self.scroll;
        let mut i = start;
        let mut k: usize = 0;
        proof {
            lemma_wrap_walk(n as int, start as int, forward, 0);
        }
        while k < n
            invariant
                *self == *old(self),
                n == self.lines@.len(),
                n == hits@.len(),
                forall|x: int|
                        0 <= x < n ==> #[trigger] hits@[x] == line_hit(
                            search.spec_query(),
                            search.spec_kind(),
                            self.lines@[x]@,
                        ),
                n > 0,
                self.scroll == start,
                start < n,
                k <= n,
                i == wrap_walk(n as int, start as int, forward, k as nat),
                0 <= i < n,
                next_hit(hits@, start as int, forward, 1) == next_hit(
                    hits@,
                    start as int,
                    forward,
                    (k + 1) as nat,
                ),
            decreases n - k,
        {
            i = if forward {
                if i + 1 >= n {
                    0
                } else {
                    i + 1
                }
            } else {
                if i == 0 {
                    n - 1
                } else {
                    i - 1
                }
            };
            proof {
                lemma_wrap_walk(n as int, start as int, forward, (k + 1) as nat);
                assert(i == wrap_walk(n as int, start as int, forward, (k + 1) as nat));
            }
            if hits[i] {
                let ghost hs = hits@;
                proof {
                    assert(next_hit(hs, start as int, forward, 1) == Some(i as int));
                    assert(old(self).spec_scroll() == start);
                    assert(next_hit(hs, old(self).spec_scroll() as int, forward, 1) == Some(i as int));
                }
                self.scroll = i;
                return true;
            }
            k = k + 1;
        }
        proof {
            assert(next_hit(hits@, start as int, forward, 1) is None);
        }
        false
    }
}

/// The bytes that count as text: printable ones, newline, carriage return
/// and tab.
pub open spec fn is_text_byte(b: u8) -> bool {
    b >= 0x20 || b == 10 || b == 13 || b == 9
}

/// How many bytes of `s` count as text.
pub open spec fn text_bytes(s: Seq<u8>) -> nat
    decreases s.len(),
{
    if s.len() == 0 {
        0
    } else {
        text_bytes(s.drop_last()) + if is_text_byte(s.last()) {
            1nat
        } else {
            0nat
        }
    }
}

/// Whether the first bytes of a file (up to 8 KB) make it a binary file: it
/// holds a zero byte, or less than 85% of its bytes count as text. An empty
/// file is text. (The ratio is compared exactly, as `20 * text < 17 * n`.)
pub fn looks_binary(bytes: &[u8]) -> (r: bool)
    ensures
        r == (bytes@.len() > 0 && (bytes@.contains(0u8) || 20 * text_bytes(bytes@) < 17
            * bytes@.len())),
{
    let n = bytes.len();
    if n == 0 {
        return false;
    }
    let mut printable: usize = 0;
    let mut i: usize = 0;
    while i < n
        invariant
            n == bytes@.len(),
            i <= n,
            printable == text_bytes(bytes@.take(i as int)),
            printable <= i,
            forall|j: int| 0 <= j < i ==> bytes@[j] != 0u8,
        decreases n - i,
    {
        let b = bytes[i];
        proof {
            assert(bytes@.take(i + 1).drop_last() =~= bytes@.take(i as int));
        }
        if b == 0 {
            return true;
        }
        if b >= 0x20 || b == 10 || b == 13 || b == 9 {
            printable = printable + 1;
        }
        i = i + 1;
    }
    proof {
        assert(bytes@.take(n as int) =~= bytes@);
        assert(!bytes@.contains(0u8));
    }
    (printable as u128) * 20 < (n as u128) * 17
}

/// How a line of a directory's preview is shown.
#[derive(Debug, Clone, Copy, PartialEq, Eq, Structural)]
pub enum DirLineKind {
    Dir,
    Symlink,
    Plain,
    /// The tail line that counts the entries left out.
    More,
}

/// One line of a directory's preview.
pub struct DirLine {
    pub text: String,
    pub kind: DirLineKind,
}

/// Cap on directory-preview entries; a tail line notes what was elided so
/// truncation is never silent.
pub const DIR_PREVIEW_MAX: usize = 1000;

/// The entries a directory preview shows: hidden ones only when asked for.
pub open spec fn dir_shown(es: Seq<FileEntry>, show_hidden: bool) -> Seq<FileEntry> {
    es.filter(|e: FileEntry| show_hidden || !dotted(e.name@))
}

/// The line shown for an entry: a directory with a trailing `/`.
pub open spec fn dir_line_of(e: FileEntry, l: DirLine) -> bool {
    if e.is_dir {
        l.text@ == e.name@ + "/"@ && l.kind == DirLineKind::Dir
    } else if e.is_symlink {
        l.text@ == e.name@ && l.kind == DirLineKind::Symlink
    } else {
        l.text@ == e.name@ && l.kind == DirLineKind::Plain
    }
}

/// The lines of a directory's preview from its entries (name, whether a
/// directory, whether a link): directories first, then by name without
/// regard to case, as a pane lists them by default; at most
/// `DIR_PREVIEW_MAX` of them, then a line that counts the rest. `None`
/// where nothing is shown (the caller says "[empty]").
pub fn dir_preview_lines(entries: &Vec<FileEntry>, show_hidden: bool) -> (r: Option<Vec<DirLine>>)
    ensures
        dir_shown(entries@, show_hidden).len() == 0 <==> r is None,
        r matches Some(lines) ==> exists|sorted: Seq<FileEntry>|
            #[trigger] stable_sorted(sorted, dir_shown(entries@, show_hidden), SortBy::Name, true)
                && {
                let shown = if sorted.len() > DIR_PREVIEW_MAX {
                    DIR_PREVIEW_MAX as int
                } else {
                    sorted.len() as int
                };
                &&& lines@.len() == shown + if sorted.len() > DIR_PREVIEW_MAX {
                    1int
                } else {
                    0int
                }
                &&& forall|i: int| 0 <= i < shown ==> dir_line_of(sorted[i], #[trigger] lines@[i])
                &&& sorted.len() > DIR_PREVIEW_MAX ==> {
                    &&& lines@[shown].kind == DirLineKind::More
                    &&& lines@[shown].text@ == "… "@ + decimal((sorted.len() - DIR_PREVIEW_MAX) as nat)
                        + " more entries"@
                }
            },
{
    let mut kept: Vec<FileEntry> = Vec::new();
    let mut i: usize = 0;
    while i < entries.len()
        invariant
            i <= entries@.len(),
            kept@ == entries@.take(i as int).filter(|e: FileEntry| show_hidden || !dotted(e.name@)),
        decreases entries@.len() - i,
    {
        proof {
            reveal_with_fuel(Seq::filter, 1);
            assert(entries@.take(i + 1).drop_last() =~= entries@.take(i as int));
        }
        if show_hidden || !starts_with_dot(entries[i].name.as_str()) {
            kept.push(entries[i].duplicate());
        }
        i = i + 1;
    }
    proof {
        assert(entries@.take(entries@.len() as int) =~= entries@);
    }
    if kept.len() == 0 {
        return None;
    }
    let sorted = stable_sort(&kept, SortBy::Name, true);
    proof {
        let p = choose|p: Seq<int>|
            #[trigger] crate::pane::order::sorted_by_witness(p, sorted@, kept@, SortBy::Name, true);
        assert(sorted@.len() == kept@.len());
    }
    let total = sorted.len();
    let shown = if total > DIR_PREVIEW_MAX {
        DIR_PREVIEW_MAX
    } else {
        total
    };
    let mut lines: Vec<DirLine> = Vec::new();
    let mut j: usize = 0;
    while j < shown
        invariant
            shown <= sorted@.len(),
            j <= shown,
            lines@.len() == j,
            forall|k: int| 0 <= k < j ==> dir_line_of(sorted@[k], #[trigger] lines@[k]),
        decreases shown - j,
    {
        let e = &sorted[j];
        let line = if e.is_dir {
            DirLine { text: concat(e.name.as_str(), "/"), kind: DirLineKind::Dir }
        } else if e.is_symlink {
            DirLine { text: e.name.clone(), kind: DirLineKind::Symlink }
        } else {
            DirLine { text: e.name.clone(), kind: DirLineKind::Plain }
        };
        lines.push(line);
        j = j + 1;
    }
    if total > DIR_PREVIEW_MAX {
        let rest = decimal_string((total - DIR_PREVIEW_MAX) as u64);
        let a = concat("… ", rest.as_str());
        lines.push(DirLine { text: concat(a.as_str(), " more entries"), kind: DirLineKind::More });
    }
    proof {
        assert(stable_sorted(sorted@, dir_shown(entries@, show_hidden), SortBy::Name, true));
    }
    Some(lines)
}

/// Progress of the background line count of a file read through the
/// window.
#[derive(Debug, Clone, Copy, PartialEq, Eq, Structural)]
pub enum LineCount {
    Unknown,
    /// Counted so far.
    Counting(u64),
    /// The file's total.
    Total(u64),
}

/// The title position of a file read through the window: the top line
/// (1-based) where its number is known, the count or the count so far, and
/// the position through the file in percent.
pub open spec fn windowed_status_text(top_line: Option<u64>, count: LineCount, pct: u8) -> Seq<char> {
    (match top_line {
        Some(l) => "line "@ + decimal((l + 1) as nat),
        None => Seq::empty(),
    }) + (match count {
        LineCount::Total(t) => "/"@ + decimal(t as nat),
        LineCount::Counting(c) => " (~"@ + decimal(c as nat) + "\u{2026})"@,
        LineCount::Unknown => Seq::empty(),
    }) + " \u{b7} "@ + decimal(pct as nat) + "%"@
}

/// The title position of a file read through the window (see
/// `windowed_status_text`; `top_line` is 0-based).
pub fn windowed_status(top_line: Option<u64>, count: LineCount, pct: u8) -> (r: String)
    requires
        top_line matches Some(l) ==> l < u64::MAX,
    ensures
        r@ == windowed_status_text(top_line, count, pct),
{
    let mut out = String::new();
    if let Some(l) = top_line {
        out.append("line ");
        out.append(decimal_string(l + 1).as_str());
    }
    match count {
        LineCount::Total(t) => {
            out.append("/");
            out.append(decimal_string(t).as_str());
        },
        LineCount::Counting(c) => {
            out.append(" (~");
            out.append(decimal_string(c).as_str());
            out.append("\u{2026})");
        },
        LineCount::Unknown => {},
    }
    out.append(" \u{b7} ");
    out.append(decimal_string(pct as u64).as_str());
    out.append("%");
    proof {
        assert(out@ =~= windowed_status_text(top_line, count, pct));
    }
    out
}

/// The message a directory preview shows instead of entries: why the
/// directory could not be read (`read_error`), or that it lists nothing.
pub fn dir_message(read_error: Option<&str>) -> (r: String)
    ensures
        r@ == match read_error {
            Some(e) => "Cannot read directory: "@ + e@,
            None => "[empty]"@,
        },
{
    match read_error {
        Some(e) => concat("Cannot read directory: ", e),
        None => String::from_str("[empty]"),
    }
}

} // verus!
