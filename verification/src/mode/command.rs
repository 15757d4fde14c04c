//! Command mode: the `:` line and its commands.
use vstd::prelude::*;

use super::{accepts_text, plain_text, Action, KeyCode, KeyEvent};
use crate::pane::{opt_view, SortBy};
use crate::text::{
    chars_eq, chars_of, index_of_char, index_of_from, spec_is_whitespace, string_of, sub_chars,
    trim_chars, trim_end_seq, trim_seq, trim_start_seq,
};

verus! {

/// The action of a key on the command line: a character typed with Ctrl or
/// Alt held is no text and does nothing.
pub open spec fn command_key_action(key: KeyEvent) -> Action {
    match key.code {
        KeyCode::Esc => Action::ExitToNormal,
        KeyCode::Enter => Action::InputConfirm,
        KeyCode::Backspace => Action::InputBackspace,
        KeyCode::Char(c) => if plain_text(key) {
            Action::InputChar(c)
        } else {
            Action::NoOp
        },
        _ => Action::NoOp,
    }
}

pub fn handle_key(key: KeyEvent) -> (r: Action)
    ensures
        r == command_key_action(key),
{
    match key.code {
        KeyCode::Esc => Action::ExitToNormal,
        KeyCode::Enter => Action::InputConfirm,
        KeyCode::Backspace => Action::InputBackspace,
        KeyCode::Char(c) => if accepts_text(&key) {
            Action::InputChar(c)
        } else {
            Action::NoOp
        },
        _ => Action::NoOp,
    }
}

/// The command word: the trimmed line up to its first space.
pub open spec fn command_head(cmd: Seq<char>) -> Seq<char> {
    let t = trim_seq(cmd);
    t.take(index_of_from(t, ' ', 0))
}

/// The argument: what follows the first space of the trimmed line.
pub open spec fn command_rest(cmd: Seq<char>) -> Option<Seq<char>> {
    let t = trim_seq(cmd);
    let k = index_of_from(t, ' ', 0);
    if k < t.len() {
        Some(t.skip(k + 1))
    } else {
        None
    }
}

/// The sort key a `:sort` argument names.
pub open spec fn sort_arg(rest: Option<Seq<char>>) -> Option<SortBy> {
    match rest {
        Some(a) => if a == "name"@ {
            Some(SortBy::Name)
        } else if a == "size"@ {
            Some(SortBy::Size)
        } else if a == "date"@ {
            Some(SortBy::Date)
        } else if a == "ext"@ {
            Some(SortBy::Extension)
        } else {
            None
        },
        None => None,
    }
}

/// What a command line asks for.
pub open spec fn command_meaning(cmd: Seq<char>, r: Action) -> bool {
    let head = command_head(cmd);
    let rest = command_rest(cmd);
    if head == "q"@ || head == "quit"@ {
        r == Action::Quit
    } else if head == "sort"@ {
        match sort_arg(rest) {
            Some(s) => r == Action::SetSort(s),
            None => r == Action::NoOp,
        }
    } else if head == "filter"@ {
        r matches Action::SetFilter(f) && opt_view(f) == rest
    } else if head == "cd"@ {
        match rest {
            Some(p) => r matches Action::ExecuteCommand(c) && c@ == "cd "@ + p,
            None => r == Action::GotoHome,
        }
    } else if head == "set"@ {
        if rest == Some("show_hidden"@) {
            r == Action::ToggleHidden
        } else {
            r == Action::NoOp
        }
    } else {
        r == Action::NoOp
    }
}

fn is_word(v: &Vec<char>, w: &str) -> (r: bool)
    ensures
        r == (v@ == w@),
{
    let wc = chars_of(w);
    chars_eq(v, &wc)
}

/// Parse and return an action for a command string.
pub fn execute_command(cmd: &str) -> (r: Action)
    ensures
        command_meaning(cmd@, r),
{
    let all = chars_of(cmd);
    let t = trim_chars(&all);
    let k = index_of_char(&t, ' ');
    let head = sub_chars(&t, 0, k);
    let rest: Option<Vec<char>> = if k < t.len() {
        Some(sub_chars(&t, k + 1, t.len()))
    } else {
        None
    };
    proof {
        assert(head@ =~= command_head(cmd@));
        if k < t.len() {
            assert(rest->Some_0@ =~= command_rest(cmd@)->Some_0);
        }
    }
    if is_word(&head, "q") || is_word(&head, "quit") {
        Action::Quit
    } else if is_word(&head, "sort") {
        match &rest {
            Some(a) => {
                if is_word(a, "name") {
                    Action::SetSort(SortBy::Name)
                } else if is_word(a, "size") {
                    Action::SetSort(SortBy::Size)
                } else if is_word(a, "date") {
                    Action::SetSort(SortBy::Date)
                } else if is_word(a, "ext") {
                    Action::SetSort(SortBy::Extension)
                } else {
                    Action::NoOp
                }
            },
            None => Action::NoOp,
        }
    } else if is_word(&head, "filter") {
        match &rest {
            Some(a) => Action::SetFilter(Some(string_of(a))),
            None => Action::SetFilter(None),
        }
    } else if is_word(&head, "cd") {
        match &rest {
            Some(a) => {
                let mut c = String::from_str("cd ");
                let p = string_of(a);
                c.append(p.as_str());
                Action::ExecuteCommand(c)
            },
            None => Action::GotoHome,
        }
    } else if is_word(&head, "set") {
        match &rest {
            Some(a) => {
                if is_word(a, "show_hidden") {
                    Action::ToggleHidden
                } else {
                    Action::NoOp
                }
            },
            None => Action::NoOp,
        }
    } else {
        Action::NoOp
    }
}

/// `:sort` followed by a sort word sets the key that word names, as
/// `SortBy::parse` reads it.
pub proof fn lemma_sort_word_sets_its_key(a: Seq<char>, r: Action)
    requires
        a == "name"@ || a == "size"@ || a == "date"@ || a == "ext"@,
        command_meaning("sort "@ + a, r),
    ensures
        SortBy::spec_parse(a) is Some,
        r == Action::SetSort(SortBy::spec_parse(a)->0),
{
    reveal_strlit("sort ");
    reveal_strlit("sort");
    reveal_strlit("name");
    reveal_strlit("size");
    reveal_strlit("date");
    reveal_strlit("ext");
    reveal_strlit("extension");
    reveal_strlit("q");
    reveal_strlit("quit");
    let s = "sort "@ + a;
    assert(s.len() > 4);
    assert(s[0] == 's' && s[1] == 'o' && s[2] == 'r' && s[3] == 't' && s[4] == ' ');
    assert(s.last() == a.last());
    assert(!spec_is_whitespace(s[0]));
    assert(!spec_is_whitespace(s.last()));
    assert(trim_start_seq(s) == s);
    assert(trim_end_seq(s) == s);
    assert(trim_seq(s) == s);
    assert(index_of_from(s, ' ', 4) == 4);
    assert(index_of_from(s, ' ', 3) == 4);
    assert(index_of_from(s, ' ', 2) == 4);
    assert(index_of_from(s, ' ', 1) == 4);
    assert(index_of_from(s, ' ', 0) == 4);
    assert(command_head(s) =~= "sort"@);
    assert(s.skip(5) =~= a);
    assert(command_rest(s) == Some(a));
    assert(command_head(s) == "sort"@);
    assert("sort"@.len() == 4 && "q"@.len() == 1);
    assert("sort"@[0] == 's' && "quit"@[0] == 'q');
    assert(command_head(s) != "q"@ && command_head(s) != "quit"@);
    assert(sort_arg(Some(a)) == SortBy::spec_parse(a)) by {
        if a == "name"@ {
        } else if a == "size"@ {
            assert(a != "name"@);
        } else if a == "date"@ {
            assert(a != "name"@ && a != "size"@);
        } else {
            assert(a != "name"@ && a != "size"@ && a != "date"@);
        }
    }
}

} // verus!
