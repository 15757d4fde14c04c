//! Cursor movement, scrolling and directory changes of a pane.
use vstd::prelude::*;

use super::order::stable_sorted;
use super::{emptied, kept, opt_view, relisted, FileEntry, PaneState, SortDirection};
use crate::error::NcError;
use crate::text::{path_file_name, path_parent, spec_path_file_name, spec_path_parent, str_eq};

verus! {

/// The pane after moving to `dir`, listed from `raw`: the old directory
/// becomes the previous one, the cursor and scroll start at the top.
pub open spec fn moved_to(prev: PaneState, next: PaneState, dir: Seq<char>, raw: Seq<FileEntry>) -> bool {
    let k = kept(raw, prev.show_hidden, opt_view(prev.filter));
    &&& next.cwd@ == dir
    &&& next.prev_dir == Some(prev.cwd)
    &&& next.cursor == 0
    &&& next.scroll_offset == 0
    &&& stable_sorted(next.entries@, k, prev.sort_by, prev.sort_dir == SortDirection::Ascending)
    &&& next.selected@ == Seq::new(k.len(), |i: int| false)
    &&& next.id == prev.id
    &&& next.sort_by == prev.sort_by
    &&& next.sort_dir == prev.sort_dir
    &&& next.show_hidden == prev.show_hidden
    &&& next.filter == prev.filter
}

/// What a directory change does: on a successful read the pane moves, on a
/// failed one it stays where it was with its listing emptied (the caller
/// re-reads the old directory) and the error is returned.
pub open spec fn changed_dir(
    prev: PaneState,
    next: PaneState,
    dir: Seq<char>,
    listing: Result<Vec<FileEntry>, NcError>,
    r: Result<(), NcError>,
) -> bool {
    match listing {
        Ok(raw) => r is Ok && moved_to(prev, next, dir, raw@),
        Err(e) => r == Err::<(), NcError>(e) && emptied(prev, next),
    }
}

/// Position of the first entry named `name`.
pub open spec fn first_named(entries: Seq<FileEntry>, name: Seq<char>) -> Option<int> {
    if exists|i: int| 0 <= i < entries.len() && (#[trigger] entries[i]).name@ == name {
        Some(
            choose|i: int|
                0 <= i < entries.len() && (#[trigger] entries[i]).name@ == name && forall|j: int|
                    0 <= j < i ==> entries[j].name@ != name,
        )
    } else {
        None
    }
}

/// Everything but the cursor is the same.
pub open spec fn same_but_cursor(a: PaneState, b: PaneState) -> bool {
    &&& a.id == b.id
    &&& a.cwd == b.cwd
    &&& a.entries == b.entries
    &&& a.scroll_offset == b.scroll_offset
    &&& a.selected == b.selected
    &&& a.sort_by == b.sort_by
    &&& a.sort_dir == b.sort_dir
    &&& a.show_hidden == b.show_hidden
    &&& a.filter == b.filter
    &&& a.prev_dir == b.prev_dir
}

impl PaneState {
    /// Switch to `new_cwd`, listed from `listing` (what reading it gave). On a
    /// failed read the pane keeps its directory, cursor and scroll, its
    /// listing is emptied for the caller to re-read, and the error is
    /// returned.
    fn change_dir(&mut self, new_cwd: String, listing: Result<Vec<FileEntry>, NcError>) -> (r:
        Result<(), NcError>)
        ensures
            changed_dir(*old(self), *final(self), new_cwd@, listing, r),
    {
        let mut old_cwd = new_cwd;
        std::mem::swap(&mut old_cwd, &mut self.cwd);
        let old_cursor = self.cursor;
        let old_scroll = self.scroll_offset;
        self.cursor = 0;
        self.scroll_offset = 0;
        match self.refresh(listing) {
            Ok(()) => {
                self.prev_dir = Some(old_cwd);
                Ok(())
            },
            Err(e) => {
                self.cwd = old_cwd;
                self.cursor = old_cursor;
                self.scroll_offset = old_scroll;
                Err(e)
            },
        }
    }

    pub fn cursor_up(&mut self)
        ensures
            final(self).cursor == if old(self).cursor > 0 {
                old(self).cursor - 1
            } else {
                0
            },
            same_but_cursor(*old(self), *final(self)),
    {
        if self.cursor > 0 {
            self.cursor -= 1;
        }
    }

    pub fn cursor_down(&mut self)
        ensures
            final(self).cursor == if old(self).cursor + 1 < old(self).entries@.len() {
                old(self).cursor + 1
            } else {
                old(self).cursor as int
            },
            same_but_cursor(*old(self), *final(self)),
    {
        if !self.entries.is_empty() && self.cursor < self.entries.len() - 1 {
            self.cursor += 1;
        }
    }

    pub fn cursor_top(&mut self)
        ensures
            final(self).cursor == 0,
            same_but_cursor(*old(self), *final(self)),
    {
        self.cursor = 0;
    }

    pub fn cursor_bottom(&mut self)
        ensures
            final(self).cursor == if old(self).entries@.len() > 0 {
                old(self).entries@.len() - 1
            } else {
                old(self).cursor as int
            },
            same_but_cursor(*old(self), *final(self)),
    {
        if !self.entries.is_empty() {
            self.cursor = self.entries.len() - 1;
        }
    }

    pub fn page_up(&mut self, page_size: usize)
        ensures
            final(self).cursor == if old(self).cursor >= page_size {
                old(self).cursor - page_size
            } else {
                0
            },
            same_but_cursor(*old(self), *final(self)),
    {
        self.cursor = self.cursor.saturating_sub(page_size);
    }

    pub fn page_down(&mut self, page_size: usize)
        requires
            old(self).entries@.len() > 0 ==> old(self).cursor + page_size <= usize::MAX,
        ensures
            final(self).cursor == if old(self).entries@.len() == 0 {
                old(self).cursor as int
            } else if old(self).cursor + page_size < old(self).entries@.len() - 1 {
                old(self).cursor + page_size
            } else {
                old(self).entries@.len() - 1
            },
            same_but_cursor(*old(self), *final(self)),
    {
        if !self.entries.is_empty() {
            self.cursor = (self.cursor + page_size).min(self.entries.len() - 1);
        }
    }

    pub fn half_page_up(&mut self, page_size: usize)
        ensures
            final(self).cursor == if old(self).cursor >= page_size / 2 {
                old(self).cursor - page_size / 2
            } else {
                0
            },
            same_but_cursor(*old(self), *final(self)),
    {
        self.page_up(page_size / 2);
    }

    pub fn half_page_down(&mut self, page_size: usize)
        requires
            old(self).entries@.len() > 0 ==> old(self).cursor + page_size / 2 <= usize::MAX,
        ensures
            final(self).cursor == if old(self).entries@.len() == 0 {
                old(self).cursor as int
            } else if old(self).cursor + page_size / 2 < old(self).entries@.len() - 1 {
                old(self).cursor + page_size / 2
            } else {
                old(self).entries@.len() - 1
            },
            same_but_cursor(*old(self), *final(self)),
    {
        self.page_down(page_size / 2);
    }

    /// Enter the directory at the cursor, listed from `listing` (what reading
    /// it gave), or return the path of the file at the cursor for the caller
    /// to open. With no entry at the cursor nothing happens.
    pub fn enter(&mut self, listing: Result<Vec<FileEntry>, NcError>) -> (r: Result<
        Option<String>,
        NcError,
    >)
        ensures
            old(self).cursor >= old(self).entries@.len() ==> r == Ok::<Option<String>, NcError>(
                None,
            ) && *final(self) == *old(self),
            old(self).cursor < old(self).entries@.len() ==> ({
                let e = old(self).entries@[old(self).cursor as int];
                if e.is_dir {
                    match listing {
                        Ok(raw) => r == Ok::<Option<String>, NcError>(None) && moved_to(
                            *old(self),
                            *final(self),
                            e.path@,
                            raw@,
                        ),
                        Err(err) => r == Err::<Option<String>, NcError>(err) && emptied(
                            *old(self),
                            *final(self),
                        ),
                    }
                } else {
                    r matches Ok(Some(p)) && p@ == e.path@ && *final(self) == *old(self)
                }
            }),
    {
        if self.cursor >= self.entries.len() {
            return Ok(None);
        }
        let entry = self.entries[self.cursor].duplicate();
        if entry.is_dir {
            match self.change_dir(entry.path, listing) {
                Ok(()) => Ok(None),
                Err(e) => Err(e),
            }
        } else {
            Ok(Some(entry.path))
        }
    }

    /// Go to the parent directory, listed from `listing` (what reading it
    /// gave), with the cursor on the directory just left when it is listed.
    /// At the root nothing happens.
    #[verifier::loop_isolation(false)]
    pub fn go_parent(&mut self, listing: Result<Vec<FileEntry>, NcError>) -> (r: Result<
        (),
        NcError,
    >)
        ensures
            match spec_path_parent(old(self).cwd@) {
                None => r is Ok && *final(self) == *old(self),
                Some(parent) => match listing {
                    Ok(raw) => r is Ok && ({
                        let landed = *final(self);
                        &&& moved_to(*old(self), landed.with_cursor(0), parent, raw@)
                        &&& landed.cursor == match spec_path_file_name(old(self).cwd@) {
                            Some(name) => match first_named(landed.entries@, name) {
                                Some(i) => i,
                                None => 0,
                            },
                            None => 0,
                        }
                    }),
                    Err(e) => r == Err::<(), NcError>(e) && emptied(*old(self), *final(self)),
                },
            },
    {
        let parent = match path_parent(self.cwd.as_str()) {
            Some(p) => p,
            None => return Ok(()),
        };
        let old_name = path_file_name(self.cwd.as_str());
        match self.change_dir(parent, listing) {
            Ok(()) => {},
            Err(e) => return Err(e),
        }
        let ghost moved = *self;
        if let Some(name) = old_name {
            let mut i: usize = 0;
            while i < self.entries.len()
                invariant
                    *self == moved,
                    i <= self.entries.len(),
                    forall|j: int| 0 <= j < i ==> self.entries@[j].name@ != name@,
                decreases self.entries.len() - i,
            {
                if str_eq(self.entries[i].name.as_str(), name.as_str()) {
                    proof {
                        assert(first_named(self.entries@, name@) == Some(i as int)) by {
                            let w = choose|k: int|
                                0 <= k < self.entries@.len() && (#[trigger] self.entries@[k]).name@
                                    == name@ && forall|j: int|
                                    0 <= j < k ==> self.entries@[j].name@ != name@;
                            assert(0 <= i < self.entries@.len() && self.entries@[i as int].name@
                                == name@);
                            if w < i {
                                assert(self.entries@[w].name@ != name@);
                            } else if w > i {
                                assert(self.entries@[i as int].name@ != name@);
                            }
                        }
                    }
                    self.cursor = i;
                    proof {
                        assert(moved.cursor == 0);
                        assert(self.with_cursor(0) == moved);
                    }
                    return Ok(());
                }
                i = i + 1;
            }
            proof {
                assert(first_named(self.entries@, name@) is None);
            }
        }
        Ok(())
    }

    /// Navigate to `path`, listed from `listing` (what reading it gave). A
    /// target that is not a readable directory is an error like an
    /// unreadable one.
    pub fn goto(&mut self, path: String, listing: Result<Vec<FileEntry>, NcError>) -> (r: Result<
        (),
        NcError,
    >)
        ensures
            changed_dir(*old(self), *final(self), path@, listing, r),
    {
        self.change_dir(path, listing)
    }

    /// Ensure `scroll_offset` keeps the cursor visible in `visible_rows` rows.
    pub fn adjust_scroll(&mut self, visible_rows: usize)
        requires
            old(self).scroll_offset + visible_rows <= usize::MAX,
        ensures
            ({
                let c = old(self).cursor as int;
                let s0 = old(self).scroll_offset as int;
                let s1 = if c < s0 {
                    c
                } else {
                    s0
                };
                final(self).scroll_offset == if visible_rows == 0 {
                    s0
                } else if c >= s1 + visible_rows {
                    c - visible_rows + 1
                } else {
                    s1
                }
            }),
            visible_rows > 0 ==> final(self).scroll_offset <= final(self).cursor
                < final(self).scroll_offset + visible_rows,
            *final(self) == (PaneState { scroll_offset: final(self).scroll_offset, ..*old(self) }),
    {
        if visible_rows == 0 {
            return ;
        }
        if self.cursor < self.scroll_offset {
            self.scroll_offset = self.cursor;
        }
        if self.cursor >= self.scroll_offset + visible_rows {
            self.scroll_offset = self.cursor - visible_rows + 1;
        }
    }

    /// Put the cursor on the first entry named `name`, where there is one.
    pub fn point_at(&mut self, name: &str)
        ensures
            match first_named(old(self).entries@, name@) {
                Some(i) => *final(self) == old(self).with_cursor(i as usize),
                None => *final(self) == *old(self),
            },
    {
        let mut i: usize = 0;
        while i < self.entries.len()
            invariant
                *self == *old(self),
                i <= self.entries.len(),
                forall|j: int| 0 <= j < i ==> self.entries@[j].name@ != name@,
            decreases self.entries.len() - i,
        {
            if str_eq(self.entries[i].name.as_str(), name) {
                proof {
                    assert(first_named(self.entries@, name@) == Some(i as int)) by {
                        let w = choose|k: int|
                            0 <= k < self.entries@.len() && (#[trigger] self.entries@[k]).name@
                                == name@ && forall|j: int|
                                0 <= j < k ==> self.entries@[j].name@ != name@;
                        assert(0 <= i < self.entries@.len() && self.entries@[i as int].name@
                            == name@);
                        if w < i {
                            assert(self.entries@[w].name@ != name@);
                        } else if w > i {
                            assert(self.entries@[i as int].name@ != name@);
                        }
                    }
                }
                self.cursor = i;
                return ;
            }
            i = i + 1;
        }
        proof {
            assert(first_named(self.entries@, name@) is None);
        }
    }

    /// This pane with the cursor at `c`.
    pub open spec fn with_cursor(self, c: usize) -> PaneState {
        PaneState { cursor: c, ..self }
    }
}

} // verus!
