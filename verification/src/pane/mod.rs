//! A pane: one directory listing with a cursor, a scroll position and a
//! selection.
pub mod navigation;
pub mod operations;
pub mod order;
pub mod selection;

use vstd::prelude::*;

use crate::error::NcError;
use crate::platform::{format_permissions, permission_text};
use crate::text::{
    chars_of, contains_chars, contains_seq, path_file_name, spec_path_file_name,
    spec_to_lowercase, str_eq, to_lowercase,
};
use self::order::{stable_sort, stable_sorted};

verus! {

/// Sort criteria for file entries.
#[derive(Debug, Clone, Copy, PartialEq, Eq, Structural)]
pub enum SortBy {
    Name,
    Size,
    Date,
    Extension,
}

impl SortBy {
    /// The sort key a config or command string names, if any.
    pub open spec fn spec_parse(s: Seq<char>) -> Option<SortBy> {
        if s == "name"@ {
            Some(SortBy::Name)
        } else if s == "size"@ {
            Some(SortBy::Size)
        } else if s == "date"@ {
            Some(SortBy::Date)
        } else if s == "ext"@ || s == "extension"@ {
            Some(SortBy::Extension)
        } else {
            None
        }
    }

    /// Parse a sort key from a config/command string. Returns `None` for
    /// unrecognized values so the caller can keep its existing default.
    pub fn parse(s: &str) -> (r: Option<SortBy>)
        ensures
            r == SortBy::spec_parse(s@),
    {
        if str_eq(s, "name") {
            Some(SortBy::Name)
        } else if str_eq(s, "size") {
            Some(SortBy::Size)
        } else if str_eq(s, "date") {
            Some(SortBy::Date)
        } else if str_eq(s, "ext") || str_eq(s, "extension") {
            Some(SortBy::Extension)
        } else {
            None
        }
    }
}

/// Sort direction.
#[derive(Debug, Clone, Copy, PartialEq, Eq, Structural)]
pub enum SortDirection {
    Ascending,
    Descending,
}

/// What following a symbolic link gave: the target's type, size and time.
#[derive(Debug, Clone, Copy)]
pub struct TargetMeta {
    pub is_dir: bool,
    pub len: u64,
    pub modified: Option<i128>,
}

/// An entry's own metadata (the link itself for a symbolic link) and, for a
/// symbolic link that could be followed, its target's.
#[derive(Debug, Clone, Copy)]
pub struct EntryMeta {
    pub is_symlink: bool,
    pub is_dir: bool,
    pub len: u64,
    /// Modification time, nanoseconds since the Unix epoch.
    pub modified: Option<i128>,
    /// Unix mode bits.
    pub mode: u32,
    pub target: Option<TargetMeta>,
}

/// A single file/directory entry in a pane.
#[derive(Debug, Clone)]
pub struct FileEntry {
    pub name: String,
    pub path: String,
    pub is_dir: bool,
    pub is_symlink: bool,
    pub is_hidden: bool,
    pub size: u64,
    /// Modification time, nanoseconds since the Unix epoch.
    pub modified: Option<i128>,
    pub permissions: String,
}

/// A name that starts with a dot.
pub open spec fn dotted(name: Seq<char>) -> bool {
    name.len() > 0 && name[0] == '.'
}

/// The name shown for a path: its last component, or the whole path.
pub open spec fn entry_name(path: Seq<char>) -> Seq<char> {
    match spec_path_file_name(path) {
        Some(n) => n,
        None => path,
    }
}

impl FileEntry {
    /// The entry for `path` with metadata `meta`. A symbolic link takes its
    /// target's type, size and time; one that cannot be followed is a
    /// non-directory with the link's own size and time.
    pub fn from_path(path: &str, meta: &EntryMeta) -> (r: FileEntry)
        ensures
            r.name@ == entry_name(path@),
            r.path@ == path@,
            r.is_symlink == meta.is_symlink,
            r.is_hidden == dotted(r.name@),
            r.permissions@ == permission_text(meta.mode, meta.is_dir, meta.is_symlink),
            (r.is_dir, r.size, r.modified) == (if meta.is_symlink {
                match meta.target {
                    Some(t) => (t.is_dir, t.len, t.modified),
                    None => (false, meta.len, meta.modified),
                }
            } else {
                (meta.is_dir, meta.len, meta.modified)
            }),
    {
        let (is_dir, size, modified) = if meta.is_symlink {
            match meta.target {
                Some(t) => (t.is_dir, t.len, t.modified),
                None => (false, meta.len, meta.modified),
            }
        } else {
            (meta.is_dir, meta.len, meta.modified)
        };
        let name = match path_file_name(path) {
            Some(n) => n,
            None => String::from_str(path),
        };
        let is_hidden = starts_with_dot(name.as_str());
        FileEntry {
            name,
            path: String::from_str(path),
            is_dir,
            is_symlink: meta.is_symlink,
            is_hidden,
            size,
            modified,
            permissions: format_permissions(meta.mode, meta.is_dir, meta.is_symlink),
        }
    }

    /// A copy of this entry.
    pub fn duplicate(&self) -> (r: FileEntry)
        ensures
            r == *self,
    {
        FileEntry {
            name: self.name.clone(),
            path: self.path.clone(),
            is_dir: self.is_dir,
            is_symlink: self.is_symlink,
            is_hidden: self.is_hidden,
            size: self.size,
            modified: self.modified,
            permissions: self.permissions.clone(),
        }
    }

    /// Extension for sorting purposes (empty when the path has none).
    pub fn extension(&self) -> (r: String)
        ensures
            r@ == crate::text::spec_path_extension(self.path@),
    {
        crate::text::path_extension(self.path.as_str())
    }
}

pub(crate) fn starts_with_dot(s: &str) -> (r: bool)
    ensures
        r == dotted(s@),
{
    let cs = chars_of(s);
    cs.len() > 0 && cs[0] == '.'
}

/// Identifies which pane (left or right).
#[derive(Debug, Clone, Copy, PartialEq, Eq, Structural)]
pub enum PaneId {
    Left,
    Right,
}

impl PaneId {
    pub fn other(self) -> (r: PaneId)
        ensures
            r != self,
    {
        match self {
            PaneId::Left => PaneId::Right,
            PaneId::Right => PaneId::Left,
        }
    }
}

/// State for a single pane.
#[derive(Debug)]
pub struct PaneState {
    pub id: PaneId,
    pub cwd: String,
    pub entries: Vec<FileEntry>,
    pub cursor: usize,
    pub scroll_offset: usize,
    pub selected: Vec<bool>,
    pub sort_by: SortBy,
    pub sort_dir: SortDirection,
    pub show_hidden: bool,
    pub filter: Option<String>,
    /// Previous directory for `goto previous` (g-p)
    pub prev_dir: Option<String>,
}

/// Whether a listing keeps an entry: hidden entries only when they are
/// shown, and only entries whose name contains the filter, case-insensitively.
pub open spec fn keeps(e: FileEntry, show_hidden: bool, filter: Option<Seq<char>>) -> bool {
    &&& (show_hidden || !e.is_hidden)
    &&& match filter {
        Some(f) => contains_seq(spec_to_lowercase(e.name@), spec_to_lowercase(f)),
        None => true,
    }
}

/// The entries of `raw` that a listing keeps, in their order.
pub open spec fn kept(raw: Seq<FileEntry>, show_hidden: bool, filter: Option<Seq<char>>) -> Seq<
    FileEntry,
>
    decreases raw.len(),
{
    if raw.len() == 0 {
        Seq::empty()
    } else {
        let r = kept(raw.drop_last(), show_hidden, filter);
        if keeps(raw.last(), show_hidden, filter) {
            r.push(raw.last())
        } else {
            r
        }
    }
}

/// The view of an optional string.
pub open spec fn opt_view(s: Option<String>) -> Option<Seq<char>> {
    match s {
        Some(t) => Some(t@),
        None => None,
    }
}

/// The cursor clamped into a listing of `len` entries.
pub open spec fn clamp_cursor(cursor: int, len: int) -> int {
    if len == 0 {
        0
    } else if cursor >= len {
        len - 1
    } else {
        cursor
    }
}

/// Number of `true` values.
pub open spec fn count_true(s: Seq<bool>) -> nat
    decreases s.len(),
{
    if s.len() == 0 {
        0
    } else {
        count_true(s.drop_last()) + if s.last() {
            1nat
        } else {
            0nat
        }
    }
}

/// Paths of the entries whose selection flag is set, among the first `n`
/// flags.
pub open spec fn selected_prefix(selected: Seq<bool>, entries: Seq<FileEntry>, n: int) -> Seq<
    Seq<char>,
>
    decreases n,
{
    if n <= 0 {
        Seq::empty()
    } else {
        let r = selected_prefix(selected, entries, n - 1);
        if selected[n - 1] && n - 1 < entries.len() {
            r.push(entries[n - 1].path@)
        } else {
            r
        }
    }
}

/// What `selected_paths` gives: the selected entries' paths, or the entry
/// under the cursor when nothing is selected.
pub open spec fn selected_paths_of(p: PaneState) -> Seq<Seq<char>> {
    let s = selected_prefix(p.selected@, p.entries@, p.selected@.len() as int);
    if s.len() > 0 {
        s
    } else if p.cursor < p.entries@.len() {
        seq![p.entries@[p.cursor as int].path@]
    } else {
        Seq::empty()
    }
}

/// The pane after a successful re-read that gave `raw`: the kept entries in
/// listing order, nothing selected, the cursor clamped.
pub open spec fn relisted(prev: PaneState, next: PaneState, raw: Seq<FileEntry>) -> bool {
    let k = kept(raw, prev.show_hidden, opt_view(prev.filter));
    &&& stable_sorted(
        next.entries@,
        k,
        prev.sort_by,
        prev.sort_dir == SortDirection::Ascending,
    )
    &&& next.selected@ == Seq::new(k.len(), |i: int| false)
    &&& next.cursor == clamp_cursor(prev.cursor as int, k.len() as int)
    &&& next.id == prev.id
    &&& next.cwd == prev.cwd
    &&& next.scroll_offset == prev.scroll_offset
    &&& next.sort_by == prev.sort_by
    &&& next.sort_dir == prev.sort_dir
    &&& next.show_hidden == prev.show_hidden
    &&& next.filter == prev.filter
    &&& next.prev_dir == prev.prev_dir
}

/// The pane after a failed re-read: the listing is emptied, nothing else
/// changes.
pub open spec fn emptied(prev: PaneState, next: PaneState) -> bool {
    &&& next.entries@.len() == 0
    &&& next.selected == prev.selected
    &&& next.cursor == prev.cursor
    &&& next.id == prev.id
    &&& next.cwd == prev.cwd
    &&& next.scroll_offset == prev.scroll_offset
    &&& next.sort_by == prev.sort_by
    &&& next.sort_dir == prev.sort_dir
    &&& next.show_hidden == prev.show_hidden
    &&& next.filter == prev.filter
    &&& next.prev_dir == prev.prev_dir
}

impl PaneState {
    /// A pane on `path`, listed from `listing` (what reading `path` gave; an
    /// unreadable directory leaves the pane empty).
    pub fn new(id: PaneId, path: String, listing: Result<Vec<FileEntry>, NcError>) -> (r: PaneState)
        ensures
            r.id == id,
            r.cwd == path,
            r.scroll_offset == 0,
            r.sort_by == SortBy::Name,
            r.sort_dir == SortDirection::Ascending,
            !r.show_hidden,
            r.filter is None,
            r.prev_dir is None,
            listing matches Ok(raw) ==> stable_sorted(
                r.entries@,
                kept(raw@, false, None),
                SortBy::Name,
                true,
            ) && r.selected@ == Seq::new(r.entries@.len(), |i: int| false),
            listing is Err ==> r.entries@.len() == 0 && r.selected@.len() == 0,
            r.cursor == 0,
    {
        let mut pane = PaneState {
            id,
            cwd: path,
            entries: Vec::new(),
            cursor: 0,
            scroll_offset: 0,
            selected: Vec::new(),
            sort_by: SortBy::Name,
            sort_dir: SortDirection::Ascending,
            show_hidden: false,
            filter: None,
            prev_dir: None,
        };
        let _ = pane.refresh(listing);
        proof {
            if listing is Ok {
                let raw = listing->Ok_0;
                lemma_sorted_len(pane.entries@, kept(raw@, false, None), SortBy::Name, true);
            }
        }
        pane
    }

    /// Re-list the directory from `listing`, what reading `cwd` gave: apply
    /// the hidden-file rule and the filter, sort, clear the selection and
    /// clamp the cursor. A failed read empties the listing and is returned.
    pub fn refresh(&mut self, listing: Result<Vec<FileEntry>, NcError>) -> (r: Result<(), NcError>)
        ensures
            match listing {
                Ok(raw) => r is Ok && relisted(*old(self), *final(self), raw@),
                Err(e) => r == Err::<(), NcError>(e) && emptied(*old(self), *final(self)),
            },
    {
        self.entries = Vec::new();
        let raw = match listing {
            Ok(raw) => raw,
            Err(e) => return Err(e),
        };
        let pattern: Option<Vec<char>> = match &self.filter {
            Some(f) => {
                let l = to_lowercase(f.as_str());
                Some(chars_of(l.as_str()))
            },
            None => None,
        };
        let ghost fv = opt_view(self.filter);
        let mut keep: Vec<FileEntry> = Vec::new();
        let mut i: usize = 0;
        while i < raw.len()
            invariant
                i <= raw.len(),
                keep@ == kept(raw@.take(i as int), self.show_hidden, fv),
                fv == opt_view(self.filter),
                match pattern {
                    Some(p) => fv is Some && p@ == spec_to_lowercase(fv->0),
                    None => fv is None,
                },
            decreases raw.len() - i,
        {
            let e = &raw[i];
            let mut ok = self.show_hidden || !e.is_hidden;
            if ok {
                if let Some(p) = &pattern {
                    let name = to_lowercase(e.name.as_str());
                    let nc = chars_of(name.as_str());
                    ok = contains_chars(&nc, p);
                }
            }
            proof {
                assert(raw@.take(i + 1).drop_last() =~= raw@.take(i as int));
                assert(ok == keeps(raw@[i as int], self.show_hidden, fv));
            }
            if ok {
                keep.push(e.duplicate());
            }
            i = i + 1;
        }
        proof {
            assert(raw@.take(raw.len() as int) =~= raw@);
        }
        self.sort_in(keep);
        let n = self.entries.len();
        let mut sel: Vec<bool> = Vec::new();
        for j in 0..n
            invariant
                sel@ == Seq::new(j as nat, |k: int| false),
        {
            sel.push(false);
            proof {
                assert(sel@ =~= Seq::new((j + 1) as nat, |k: int| false));
            }
        }
        self.selected = sel;
        if n == 0 {
            self.cursor = 0;
        } else if self.cursor >= n {
            self.cursor = n - 1;
        }
        proof {
            let k = kept(raw@, old(self).show_hidden, opt_view(old(self).filter));
            lemma_sorted_len(self.entries@, k, self.sort_by, self.sort_dir == SortDirection::Ascending);
            assert(self.selected@ =~= Seq::new(k.len(), |i: int| false));
        }
        Ok(())
    }

    /// Replace the listing with `es` in listing order.
    fn sort_in(&mut self, es: Vec<FileEntry>)
        ensures
            stable_sorted(
                final(self).entries@,
                es@,
                old(self).sort_by,
                old(self).sort_dir == SortDirection::Ascending,
            ),
            final(self).selected == old(self).selected,
            final(self).cursor == old(self).cursor,
            final(self).id == old(self).id,
            final(self).cwd == old(self).cwd,
            final(self).scroll_offset == old(self).scroll_offset,
            final(self).sort_by == old(self).sort_by,
            final(self).sort_dir == old(self).sort_dir,
            final(self).show_hidden == old(self).show_hidden,
            final(self).filter == old(self).filter,
            final(self).prev_dir == old(self).prev_dir,
    {
        let ascending = match self.sort_dir {
            SortDirection::Ascending => true,
            SortDirection::Descending => false,
        };
        self.entries = stable_sort(&es, self.sort_by, ascending);
    }

    /// Re-sort the current listing by the pane's sort key and direction.
    pub fn sort_entries(&mut self)
        ensures
            stable_sorted(
                final(self).entries@,
                old(self).entries@,
                old(self).sort_by,
                old(self).sort_dir == SortDirection::Ascending,
            ),
            final(self).selected == old(self).selected,
            final(self).cursor == old(self).cursor,
            final(self).cwd == old(self).cwd,
    {
        let mut es: Vec<FileEntry> = Vec::new();
        std::mem::swap(&mut es, &mut self.entries);
        self.sort_in(es);
    }

    /// Current entry under cursor, if any.
    pub fn current_entry(&self) -> (r: Option<&FileEntry>)
        ensures
            self.cursor < self.entries@.len() ==> r == Some(&self.entries@[self.cursor as int]),
            self.cursor >= self.entries@.len() ==> r is None,
    {
        if self.cursor < self.entries.len() {
            Some(&self.entries[self.cursor])
        } else {
            None
        }
    }

    /// Number of selected entries.
    pub fn selection_count(&self) -> (r: usize)
        ensures
            r == count_true(self.selected@),
    {
        let mut c: usize = 0;
        let mut i: usize = 0;
        while i < self.selected.len()
            invariant
                i <= self.selected.len(),
                c == count_true(self.selected@.take(i as int)),
                c <= i,
            decreases self.selected.len() - i,
        {
            proof {
                assert(self.selected@.take(i + 1).drop_last() =~= self.selected@.take(i as int));
            }
            if self.selected[i] {
                c = c + 1;
            }
            i = i + 1;
        }
        proof {
            assert(self.selected@.take(self.selected.len() as int) =~= self.selected@);
        }
        c
    }

    /// Get paths of all selected entries, or current entry if none selected.
    pub fn selected_paths(&self) -> (r: Vec<String>)
        ensures
            r@.map_values(|p: String| p@) == selected_paths_of(*self),
    {
        let mut out: Vec<String> = Vec::new();
        let mut i: usize = 0;
        while i < self.selected.len()
            invariant
                i <= self.selected.len(),
                out@.map_values(|p: String| p@) == selected_prefix(
                    self.selected@,
                    self.entries@,
                    i as int,
                ),
            decreases self.selected.len() - i,
        {
            if self.selected[i] && i < self.entries.len() {
                out.push(self.entries[i].path.clone());
            }
            i = i + 1;
            proof {
                assert(out@.map_values(|p: String| p@) =~= selected_prefix(
                    self.selected@,
                    self.entries@,
                    i as int,
                ));
            }
        }
        if out.len() == 0 {
            if self.cursor < self.entries.len() {
                let mut v: Vec<String> = Vec::new();
                v.push(self.entries[self.cursor].path.clone());
                proof {
                    assert(v@.map_values(|p: String| p@) =~= selected_paths_of(*self));
                }
                return v;
            }
            proof {
                assert(out@.map_values(|p: String| p@) =~= selected_paths_of(*self));
            }
        }
        out
    }
}

/// A stable sort keeps the length.
pub proof fn lemma_sorted_len(out: Seq<FileEntry>, inp: Seq<FileEntry>, by: SortBy, ascending: bool)
    requires
        stable_sorted(out, inp, by, ascending),
    ensures
        out.len() == inp.len(),
{
    let p = choose|p: Seq<int>| #[trigger] order::sorted_by_witness(p, out, inp, by, ascending);
}

/// An entry of the raw listing is kept exactly when the listing keeps it.
proof fn lemma_kept_contains(raw: Seq<FileEntry>, show_hidden: bool, filter: Option<Seq<char>>, e: FileEntry)
    ensures
        kept(raw, show_hidden, filter).contains(e) <==> raw.contains(e) && keeps(
            e,
            show_hidden,
            filter,
        ),
    decreases raw.len(),
{
    if raw.len() > 0 {
        let rest = raw.drop_last();
        lemma_kept_contains(rest, show_hidden, filter, e);
        let k = kept(rest, show_hidden, filter);
        if raw.contains(e) && !rest.contains(e) {
            let i = choose|i: int| 0 <= i < raw.len() && raw[i] == e;
            if i < raw.len() - 1 {
                assert(rest[i] == e);
            }
            assert(raw.last() == e);
        }
        if rest.contains(e) {
            let i = choose|i: int| 0 <= i < rest.len() && rest[i] == e;
            assert(raw[i] == e);
        }
        if keeps(raw.last(), show_hidden, filter) {
            let k2 = k.push(raw.last());
            if k.contains(e) {
                let i = choose|i: int| 0 <= i < k.len() && k[i] == e;
                assert(k2[i] == e);
            }
            if k2.contains(e) && !k.contains(e) {
                let i = choose|i: int| 0 <= i < k2.len() && k2[i] == e;
                if i < k.len() {
                    assert(k[i] == e);
                }
                assert(raw.last() == e);
            }
            assert(k2[k.len() as int] == raw.last());
        }
    } else {
        assert(kept(raw, show_hidden, filter) =~= Seq::<FileEntry>::empty());
    }
}

/// Filtering keeps a shown entry exactly when its lower-cased name holds the
/// lower-cased filter somewhere (not only at its start).
pub proof fn lemma_filter_keeps_substring_matches(
    raw: Seq<FileEntry>,
    show_hidden: bool,
    f: Seq<char>,
    e: FileEntry,
)
    requires
        raw.contains(e),
        show_hidden || !e.is_hidden,
    ensures
        kept(raw, show_hidden, Some(f)).contains(e) <==> exists|j: int|
            0 <= j && j + spec_to_lowercase(f).len() <= spec_to_lowercase(e.name@).len()
                && #[trigger] spec_to_lowercase(e.name@).subrange(j, j + spec_to_lowercase(f).len())
                == spec_to_lowercase(f),
{
    lemma_kept_contains(raw, show_hidden, Some(f), e);
    let ln = spec_to_lowercase(e.name@);
    let lf = spec_to_lowercase(f);
    if exists|j: int| 0 <= j && j + lf.len() <= ln.len() && #[trigger] ln.subrange(j, j + lf.len()) == lf {
        let j = choose|j: int| 0 <= j && j + lf.len() <= ln.len() && #[trigger] ln.subrange(j, j + lf.len()) == lf;
        assert(crate::text::occurs_at(ln, lf, j));
    }
    if crate::text::contains_seq(ln, lf) {
        let j = choose|j: int| crate::text::occurs_at(ln, lf, j);
        assert(ln.subrange(j, j + lf.len()) == lf);
    }
}

/// A stable sort lists exactly the entries it sorts.
pub proof fn lemma_sorted_same_entries(
    out: Seq<FileEntry>,
    inp: Seq<FileEntry>,
    by: SortBy,
    ascending: bool,
    x: FileEntry,
)
    requires
        stable_sorted(out, inp, by, ascending),
    ensures
        out.contains(x) <==> inp.contains(x),
{
    let p = choose|p: Seq<int>| #[trigger] order::sorted_by_witness(p, out, inp, by, ascending);
    let n = inp.len() as int;
    if out.contains(x) {
        let i = choose|i: int| 0 <= i < out.len() && out[i] == x;
        assert(inp[p[i]] == x);
    }
    if inp.contains(x) {
        let k = choose|k: int| 0 <= k < inp.len() && inp[k] == x;
        assert(p.no_duplicates()) by {
            assert forall|i: int, j: int| 0 <= i < p.len() && 0 <= j < p.len() && i != j implies p[i]
                != p[j] by {
                if i < j {
                } else {
                }
            }
        }
        p.unique_seq_to_set();
        vstd::set_lib::lemma_int_range(0, n);
        assert(p.to_set().subset_of(vstd::set_lib::set_int_range(0, n))) by {
            assert forall|v: int| p.to_set().contains(v) implies vstd::set_lib::set_int_range(0, n).contains(v) by {
                let i = choose|i: int| 0 <= i < p.len() && p[i] == v;
                assert(0 <= p[i] < n);
            }
        }
        vstd::set_lib::lemma_subset_equality(p.to_set(), vstd::set_lib::set_int_range(0, n));
        assert(vstd::set_lib::set_int_range(0, n).contains(k));
        assert(p.to_set().contains(k));
        let i = choose|i: int| 0 <= i < p.len() && p[i] == k;
        assert(out[i] == x);
    }
}

/// After a pane is listed anew, it shows exactly the read entries that are
/// visible (hidden ones only when shown) and, with a filter, whose
/// lower-cased name holds the lower-cased filter somewhere.
pub proof fn lemma_relisted_entries(prev: PaneState, next: PaneState, raw: Seq<FileEntry>, x: FileEntry)
    requires
        relisted(prev, next, raw),
    ensures
        next.entries@.contains(x) <==> {
            &&& raw.contains(x)
            &&& prev.show_hidden || !x.is_hidden
            &&& match prev.filter {
                Some(f) => exists|j: int|
                    0 <= j && j + spec_to_lowercase(f@).len() <= spec_to_lowercase(x.name@).len()
                        && #[trigger] spec_to_lowercase(x.name@).subrange(
                        j,
                        j + spec_to_lowercase(f@).len(),
                    ) == spec_to_lowercase(f@),
                None => true,
            }
        },
{
    let k = kept(raw, prev.show_hidden, opt_view(prev.filter));
    lemma_sorted_same_entries(
        next.entries@,
        k,
        prev.sort_by,
        prev.sort_dir == SortDirection::Ascending,
        x,
    );
    lemma_kept_contains(raw, prev.show_hidden, opt_view(prev.filter), x);
    match prev.filter {
        Some(f) => {
            if raw.contains(x) && (prev.show_hidden || !x.is_hidden) {
                lemma_filter_keeps_substring_matches(raw, prev.show_hidden, f@, x);
            }
        },
        None => {},
    }
}

} // verus!
