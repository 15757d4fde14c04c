//! Selecting entries of a pane: toggling, all, none, inverting, extending
//! and by glob pattern.
use vstd::prelude::*;

use super::navigation::same_but_cursor;
use super::PaneState;
use crate::text::chars_of;

verus! {

/// Simple glob matching with `*` (any run of characters) and `?` (any one
/// character).
pub open spec fn glob(pat: Seq<char>, name: Seq<char>) -> bool
    decreases pat.len() + name.len(),
{
    if pat.len() == 0 {
        name.len() == 0
    } else if pat[0] == '*' {
        glob(pat.drop_first(), name) || (name.len() > 0 && glob(pat, name.drop_first()))
    } else if name.len() == 0 {
        false
    } else if pat[0] == '?' || pat[0] == name[0] {
        glob(pat.drop_first(), name.drop_first())
    } else {
        false
    }
}

/// Everything but the selection flags is the same.
pub open spec fn same_but_selection(a: PaneState, b: PaneState) -> bool {
    &&& a.id == b.id
    &&& a.cwd == b.cwd
    &&& a.entries == b.entries
    &&& a.cursor == b.cursor
    &&& a.scroll_offset == b.scroll_offset
    &&& a.sort_by == b.sort_by
    &&& a.sort_dir == b.sort_dir
    &&& a.show_hidden == b.show_hidden
    &&& a.filter == b.filter
    &&& a.prev_dir == b.prev_dir
}

/// The flags with the one at the cursor flipped (when there is one).
pub open spec fn toggled_at(s: Seq<bool>, c: int) -> Seq<bool> {
    if 0 <= c < s.len() {
        s.update(c, !s[c])
    } else {
        s
    }
}

/// Whether `name` matches the glob `pattern`.
pub fn glob_match(pattern: &str, name: &str) -> (r: bool)
    ensures
        r == glob(pattern@, name@),
{
    let pat = chars_of(pattern);
    let nm = chars_of(name);
    proof {
        assert(pat@.skip(0) =~= pat@);
        assert(nm@.skip(0) =~= nm@);
    }
    glob_match_inner(&pat, 0, &nm, 0)
}

/// Whether `name[ni..]` matches `pat[pi..]`.
pub fn glob_match_inner(pat: &Vec<char>, pi: usize, name: &Vec<char>, ni: usize) -> (r: bool)
    requires
        pi <= pat.len(),
        ni <= name.len(),
    ensures
        r == glob(pat@.skip(pi as int), name@.skip(ni as int)),
    decreases pat.len() - pi + name.len() - ni,
{
    let ghost p = pat@.skip(pi as int);
    let ghost n = name@.skip(ni as int);
    if pi == pat.len() {
        return ni == name.len();
    }
    proof {
        assert(p.drop_first() =~= pat@.skip(pi + 1));
        assert(p[0] == pat@[pi as int]);
    }
    if pat[pi] == '*' {
        if glob_match_inner(pat, pi + 1, name, ni) {
            return true;
        }
        if ni < name.len() {
            proof {
                assert(n.drop_first() =~= name@.skip(ni + 1));
            }
            return glob_match_inner(pat, pi, name, ni + 1);
        }
        return false;
    }
    if ni == name.len() {
        return false;
    }
    proof {
        assert(n.drop_first() =~= name@.skip(ni + 1));
        assert(n[0] == name@[ni as int]);
    }
    if pat[pi] == '?' || pat[pi] == name[ni] {
        glob_match_inner(pat, pi + 1, name, ni + 1)
    } else {
        false
    }
}

impl PaneState {
    /// Toggle selection on current entry.
    pub fn toggle_select(&mut self)
        ensures
            final(self).selected@ == toggled_at(old(self).selected@, old(self).cursor as int),
            same_but_selection(*old(self), *final(self)),
    {
        if self.cursor < self.selected.len() {
            let v = !self.selected[self.cursor];
            self.selected.set(self.cursor, v);
        }
    }

    /// Select all visible entries.
    pub fn select_all(&mut self)
        ensures
            final(self).selected@ == Seq::new(old(self).selected@.len(), |i: int| true),
            same_but_selection(*old(self), *final(self)),
    {
        self.fill_selection(true);
    }

    /// Deselect all.
    pub fn deselect_all(&mut self)
        ensures
            final(self).selected@ == Seq::new(old(self).selected@.len(), |i: int| false),
            same_but_selection(*old(self), *final(self)),
    {
        self.fill_selection(false);
    }

    fn fill_selection(&mut self, v: bool)
        ensures
            final(self).selected@ == Seq::new(old(self).selected@.len(), |i: int| v),
            same_but_selection(*old(self), *final(self)),
    {
        let n = self.selected.len();
        let mut i: usize = 0;
        while i < n
            invariant
                n == self.selected.len(),
                n == old(self).selected@.len(),
                i <= n,
                forall|j: int| 0 <= j < i ==> self.selected@[j] == v,
                same_but_selection(*old(self), *self),
            decreases n - i,
        {
            self.selected.set(i, v);
            i = i + 1;
        }
        proof {
            assert(self.selected@ =~= Seq::new(old(self).selected@.len(), |i: int| v));
        }
    }

    /// Invert selection.
    pub fn invert_selection(&mut self)
        ensures
            final(self).selected@ == old(self).selected@.map_values(|b: bool| !b),
            same_but_selection(*old(self), *final(self)),
    {
        let n = self.selected.len();
        let mut i: usize = 0;
        while i < n
            invariant
                n == self.selected.len(),
                n == old(self).selected@.len(),
                i <= n,
                forall|j: int| 0 <= j < i ==> self.selected@[j] == !old(self).selected@[j],
                forall|j: int| i <= j < n ==> self.selected@[j] == old(self).selected@[j],
                same_but_selection(*old(self), *self),
            decreases n - i,
        {
            let v = !self.selected[i];
            self.selected.set(i, v);
            i = i + 1;
        }
        proof {
            assert(self.selected@ =~= old(self).selected@.map_values(|b: bool| !b));
        }
    }

    /// Toggle the entry at the cursor, then move the cursor down.
    pub fn select_extend_down(&mut self)
        ensures
            final(self).selected@ == toggled_at(old(self).selected@, old(self).cursor as int),
            final(self).cursor == if old(self).cursor + 1 < old(self).entries@.len() {
                old(self).cursor + 1
            } else {
                old(self).cursor as int
            },
            final(self).entries == old(self).entries,
            final(self).cwd == old(self).cwd,
            final(self).scroll_offset == old(self).scroll_offset,
    {
        self.toggle_select();
        self.cursor_down();
    }

    /// Toggle the entry at the cursor, then move the cursor up.
    pub fn select_extend_up(&mut self)
        ensures
            final(self).selected@ == toggled_at(old(self).selected@, old(self).cursor as int),
            final(self).cursor == if old(self).cursor > 0 {
                old(self).cursor - 1
            } else {
                0
            },
            final(self).entries == old(self).entries,
            final(self).cwd == old(self).cwd,
            final(self).scroll_offset == old(self).scroll_offset,
    {
        self.toggle_select();
        self.cursor_up();
    }

    /// Select (in addition) the entries whose name matches the glob `pattern`.
    pub fn select_by_glob(&mut self, pattern: &str)
        ensures
            final(self).selected@ == Seq::new(
                old(self).selected@.len(),
                |i: int|
                    old(self).selected@[i] || (i < old(self).entries@.len() && glob(
                        pattern@,
                        old(self).entries@[i].name@,
                    )),
            ),
            same_but_selection(*old(self), *final(self)),
    {
        let n = self.entries.len();
        let mut i: usize = 0;
        while i < n
            invariant
                n == self.entries.len(),
                i <= n,
                self.selected@.len() == old(self).selected@.len(),
                forall|j: int|
                    0 <= j < self.selected@.len() ==> self.selected@[j] == (old(self).selected@[j]
                        || (j < i && glob(pattern@, self.entries@[j].name@))),
                same_but_selection(*old(self), *self),
            decreases n - i,
        {
            if glob_match(pattern, self.entries[i].name.as_str()) && i < self.selected.len() {
                self.selected.set(i, true);
            }
            i = i + 1;
        }
        proof {
            assert(self.selected@ =~= Seq::new(
                old(self).selected@.len(),
                |i: int|
                    old(self).selected@[i] || (i < old(self).entries@.len() && glob(
                        pattern@,
                        old(self).entries@[i].name@,
                    )),
            ));
        }
    }
}

/// A lone `*` matches every name.
pub proof fn lemma_star_matches_everything(name: Seq<char>)
    ensures
        glob(seq!['*'], name),
    decreases name.len(),
{
    reveal_with_fuel(glob, 2);
    let star = seq!['*'];
    assert(star.len() == 1 && star[0] == '*');
    assert(star.drop_first() =~= Seq::<char>::empty());
    if name.len() > 0 {
        lemma_star_matches_everything(name.drop_first());
    }
}

/// A pattern without `*` matches exactly the names of its length that agree
/// with it wherever it has no `?`: each `?` stands for exactly one character.
pub proof fn lemma_question_mark_matches_one(pat: Seq<char>, name: Seq<char>)
    requires
        forall|i: int| 0 <= i < pat.len() ==> pat[i] != '*',
    ensures
        glob(pat, name) <==> (name.len() == pat.len() && forall|i: int|
            0 <= i < pat.len() ==> pat[i] == '?' || pat[i] == name[i]),
    decreases pat.len() + name.len(),
{
    reveal_with_fuel(glob, 2);
    if pat.len() > 0 && name.len() > 0 {
        let p1 = pat.drop_first();
        let n1 = name.drop_first();
        assert forall|i: int| 0 <= i < p1.len() implies p1[i] != '*' by {
            assert(p1[i] == pat[i + 1]);
        }
        lemma_question_mark_matches_one(p1, n1);
        assert(pat[0] != '*');
        let agree = name.len() == pat.len() && forall|i: int|
            0 <= i < pat.len() ==> pat[i] == '?' || pat[i] == name[i];
        let agree1 = n1.len() == p1.len() && forall|i: int|
            0 <= i < p1.len() ==> p1[i] == '?' || p1[i] == n1[i];
        if agree {
            assert(pat[0] == '?' || pat[0] == name[0]);
            assert forall|i: int| 0 <= i < p1.len() implies p1[i] == '?' || p1[i] == n1[i] by {
                assert(p1[i] == pat[i + 1]);
                assert(n1[i] == name[i + 1]);
            }
        }
        if (pat[0] == '?' || pat[0] == name[0]) && agree1 {
            assert forall|i: int| 0 <= i < pat.len() implies pat[i] == '?' || pat[i] == name[i] by {
                if i > 0 {
                    assert(pat[i] == p1[i - 1]);
                    assert(name[i] == n1[i - 1]);
                }
            }
        }
    } else if pat.len() > 0 {
        assert(pat[0] != '*');
        assert(pat.len() != name.len());
    } else if name.len() > 0 {
        assert(pat.len() != name.len());
    }
}

/// A leading `*` matches any run of characters, none included: `*` followed
/// by `p` matches a name exactly when `p` matches some tail of it.
pub proof fn lemma_leading_star_matches_any_prefix(p: Seq<char>, name: Seq<char>)
    ensures
        glob(seq!['*'] + p, name) <==> exists|k: int| 0 <= k <= name.len() && #[trigger] glob(
            p,
            name.skip(k),
        ),
    decreases name.len(),
{
    let sp = seq!['*'] + p;
    assert(sp[0] == '*');
    assert(sp.drop_first() =~= p);
    assert(name.skip(0) =~= name);
    assert(glob(p, name.skip(0)) == glob(p, name));
    assert(glob(sp, name) == (glob(p, name) || (name.len() > 0 && glob(sp, name.drop_first()))));
    if name.len() > 0 {
        let n1 = name.drop_first();
        lemma_leading_star_matches_any_prefix(p, n1);
        if exists|k: int| 0 <= k <= n1.len() && #[trigger] glob(p, n1.skip(k)) {
            let k = choose|k: int| 0 <= k <= n1.len() && #[trigger] glob(p, n1.skip(k));
            assert(n1.skip(k) =~= name.skip(k + 1));
        }
        if exists|k: int| 0 <= k <= name.len() && #[trigger] glob(p, name.skip(k)) {
            let k = choose|k: int| 0 <= k <= name.len() && #[trigger] glob(p, name.skip(k));
            if k > 0 {
                assert(n1.skip(k - 1) =~= name.skip(k));
            }
        }
    } else {
        if exists|k: int| 0 <= k <= name.len() && #[trigger] glob(p, name.skip(k)) {
            let k = choose|k: int| 0 <= k <= name.len() && #[trigger] glob(p, name.skip(k));
            assert(k == 0);
        }
    }
}

/// A pattern without wildcards matches exactly the name it spells.
pub proof fn lemma_plain_pattern_matches_itself(pat: Seq<char>, name: Seq<char>)
    requires
        forall|i: int| 0 <= i < pat.len() ==> pat[i] != '*' && pat[i] != '?',
    ensures
        glob(pat, name) <==> pat == name,
    decreases pat.len() + name.len(),
{
    reveal_with_fuel(glob, 2);
    if pat.len() > 0 && name.len() > 0 {
        assert forall|i: int| 0 <= i < pat.drop_first().len() implies pat.drop_first()[i] != '*'
            && pat.drop_first()[i] != '?' by {
            assert(pat.drop_first()[i] == pat[i + 1]);
        }
        lemma_plain_pattern_matches_itself(pat.drop_first(), name.drop_first());
        assert(pat[0] != '*' && pat[0] != '?');
        if pat == name {
            assert(pat.drop_first() =~= name.drop_first());
        }
        if pat[0] == name[0] && pat.drop_first() == name.drop_first() {
            assert forall|i: int| 0 <= i < pat.len() implies pat[i] == name[i] by {
                if i > 0 {
                    assert(pat[i] == pat.drop_first()[i - 1]);
                    assert(name[i] == name.drop_first()[i - 1]);
                }
            }
            assert(pat =~= name);
        }
    } else if pat.len() > 0 {
        assert(pat[0] != '*');
        assert(pat.len() != name.len());
    } else if name.len() == 0 {
        assert(pat =~= name);
    } else {
        assert(pat.len() != name.len());
    }
}

/// Toggling the same entry twice leaves the selection as it was.
pub proof fn lemma_toggle_twice(s: Seq<bool>, c: int)
    ensures
        toggled_at(toggled_at(s, c), c) == s,
{
    if 0 <= c < s.len() {
        assert(toggled_at(toggled_at(s, c), c) =~= s);
    }
}

/// Inverting a full selection leaves nothing selected, and inverting twice
/// gives the selection back.
pub proof fn lemma_invert(s: Seq<bool>)
    ensures
        Seq::new(s.len(), |i: int| true).map_values(|b: bool| !b) == Seq::new(
            s.len(),
            |i: int| false,
        ),
        s.map_values(|b: bool| !b).map_values(|b: bool| !b) == s,
{
    assert(Seq::new(s.len(), |i: int| true).map_values(|b: bool| !b) =~= Seq::new(
        s.len(),
        |i: int| false,
    ));
    assert(s.map_values(|b: bool| !b).map_values(|b: bool| !b) =~= s);
}

} // verus!
