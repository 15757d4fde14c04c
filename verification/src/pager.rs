//! The full-screen pager's keys: line counts typed before `g`/`G`, scrolling,
//! the search prompt (`/`, with `Ctrl-R` switching literal and regex), the
//! fuzzy line filter (`&`), and the footer that says what is going on. The
//! caller reads the file and runs the filter; the pager decides.
use vstd::prelude::*;

use crate::mode::{accepts_text, plain_text, with_control, KeyCode, KeyEvent};
use crate::preview::filter::FilterMatch;
use crate::preview::search::SearchKind;
use crate::text::{concat, decimal, decimal_string, string_pop, string_push};

verus! {

/// How many fuzzy-filter matches the pager keeps.
pub const FILTER_MAX: usize = 200;

/// Viewer input mode.
pub enum PagerMode {
    Normal,
    /// Typing a search query (`/`).
    Search { buf: String, kind: SearchKind },
    /// Fuzzy line-filter (`&`): a query and its current best matches.
    Filter { buf: String, results: Vec<FilterMatch>, cursor: usize },
}

/// What the pager asks of the view.
pub enum PagerCommand {
    Nothing,
    Quit,
    Top,
    /// The last `page` lines.
    Bottom(usize),
    /// 1-based line at the top.
    GotoLine(usize),
    /// Scroll down `amount` lines, the view `page` lines high.
    Down { amount: usize, page: usize },
    Up(usize),
    /// Next (`true`) or previous match of the active search.
    SearchNext(bool),
    /// Make this the active search and go to its next match; an invalid
    /// regex is reported back with `Pager::report`.
    Search { query: String, kind: SearchKind },
}

/// What happens to the running fuzzy filter.
pub enum FilterChange {
    Keep,
    /// Stop it.
    Stop,
    /// Stop it and start one for this query.
    Start(String),
}

/// The outcome of a key.
pub struct PagerOutcome {
    pub command: PagerCommand,
    pub filter: FilterChange,
}

/// How the footer is shown.
#[derive(Debug, Clone, Copy, PartialEq, Eq, Structural)]
pub enum FooterTone {
    /// A prompt being typed, or a line count.
    Prompt,
    /// An error to read.
    Error,
    /// The key hints.
    Hint,
}

pub struct Pager {
    pub mode: PagerMode,
    pub goto_count: Option<usize>,
    pub last_kind: SearchKind,
    pub status_msg: Option<String>,
}

/// The value of a decimal digit.
pub open spec fn digit_value(c: char) -> Option<usize> {
    if c == '0' {
        Some(0usize)
    } else if c == '1' {
        Some(1usize)
    } else if c == '2' {
        Some(2usize)
    } else if c == '3' {
        Some(3usize)
    } else if c == '4' {
        Some(4usize)
    } else if c == '5' {
        Some(5usize)
    } else if c == '6' {
        Some(6usize)
    } else if c == '7' {
        Some(7usize)
    } else if c == '8' {
        Some(8usize)
    } else if c == '9' {
        Some(9usize)
    } else {
        None
    }
}

fn digit_of(c: char) -> (r: Option<usize>)
    ensures
        r == digit_value(c),
{
    match c {
        '0' => Some(0),
        '1' => Some(1),
        '2' => Some(2),
        '3' => Some(3),
        '4' => Some(4),
        '5' => Some(5),
        '6' => Some(6),
        '7' => Some(7),
        '8' => Some(8),
        '9' => Some(9),
        _ => None,
    }
}

/// The count after typing digit `d`: ten times the count so far (saturated
/// at the largest count), plus `d`.
pub open spec fn next_count(count: Option<usize>, d: usize) -> int {
    let n = match count {
        Some(n) => n as int,
        None => 0,
    };
    (if n * 10 > usize::MAX {
        usize::MAX as int
    } else {
        n * 10
    }) + d
}

/// Ten times `n`, saturated at the largest `usize`.
fn times_ten(n: usize) -> (r: usize)
    ensures
        r == (if n * 10 > usize::MAX {
            usize::MAX as int
        } else {
            n * 10
        }),
{
    if n > usize::MAX / 10 {
        usize::MAX
    } else {
        n * 10
    }
}

impl Pager {
    pub fn new() -> (r: Pager)
        ensures
            r.mode is Normal,
            r.goto_count is None,
            r.last_kind == SearchKind::Literal,
            r.status_msg is None,
    {
        Pager {
            mode: PagerMode::Normal,
            goto_count: None,
            last_kind: SearchKind::Literal,
            status_msg: None,
        }
    }

    /// A key that the pager can take: a digit must not push the typed line
    /// count past the largest count.
    pub open spec fn takes(&self, key: KeyEvent) -> bool {
        match key.code {
            KeyCode::Char(c) => !(self.mode is Normal && digit_value(c) is Some) || next_count(
                self.goto_count,
                digit_value(c)->0,
            ) <= usize::MAX,
            _ => true,
        }
    }

    /// Whether the pager can take `key` (see `takes`).
    pub fn key_fits(&self, key: &KeyEvent) -> (r: bool)
        ensures
            r == self.takes(*key),
    {
        if let PagerMode::Normal = self.mode {
            if let KeyCode::Char(c) = key.code {
                if let Some(d) = digit_of(c) {
                    let n = match self.goto_count {
                        Some(n) => n,
                        None => 0,
                    };
                    let m = times_ten(n);
                    return m <= usize::MAX - d;
                }
            }
        }
        true
    }

    /// An error to show in the footer (an invalid regex).
    pub fn report(&mut self, msg: String)
        ensures
            final(self).status_msg == Some(msg),
            final(self).mode == old(self).mode,
            final(self).goto_count == old(self).goto_count,
            final(self).last_kind == old(self).last_kind,
    {
        self.status_msg = Some(msg);
    }

    /// Takes the filter's latest matches, keeping the cursor on one of them.
    pub fn set_filter_results(&mut self, latest: Vec<FilterMatch>)
        ensures
            match old(self).mode {
                PagerMode::Filter { buf, cursor, .. } => final(self).mode matches PagerMode::Filter {
                    buf: b,
                    results: rs,
                    cursor: c,
                } && b == buf && rs == latest && c == (if cursor >= latest@.len() {
                    if latest@.len() > 0 {
                        latest@.len() - 1
                    } else {
                        0
                    }
                } else {
                    cursor as int
                }),
                _ => final(self).mode == old(self).mode,
            },
            final(self).goto_count == old(self).goto_count,
            final(self).last_kind == old(self).last_kind,
            final(self).status_msg == old(self).status_msg,
    {
        let mut mode = PagerMode::Normal;
        std::mem::swap(&mut mode, &mut self.mode);
        self.mode = match mode {
            PagerMode::Filter { buf, results, cursor } => {
                let n = latest.len();
                let c = if cursor >= n {
                    n.saturating_sub(1)
                } else {
                    cursor
                };
                PagerMode::Filter { buf, results: latest, cursor: c }
            },
            other => other,
        };
    }

    /// What a key in normal mode does.
    pub open spec fn normal_key(s: Pager, key: KeyEvent, page: usize, n: Pager, r: PagerOutcome) -> bool {
        let cleared = Pager { status_msg: None, ..s };
        &&& r.filter is Keep
        &&& match key.code {
            KeyCode::Esc => r.command is Quit && n == cleared,
            KeyCode::Char(c) => if c == 'q' {
                r.command is Quit && n == cleared
            } else if digit_value(c) is Some {
                r.command is Nothing && n == Pager {
                    goto_count: Some(next_count(s.goto_count, digit_value(c)->0) as usize),
                    ..cleared
                }
            } else if c == 'g' || c == 'G' {
                &&& n == Pager { goto_count: None, ..cleared }
                &&& match s.goto_count {
                    Some(line) => r.command == PagerCommand::GotoLine(line),
                    None => if c == 'g' {
                        r.command is Top
                    } else {
                        r.command == PagerCommand::Bottom(page)
                    },
                }
            } else if c == 'j' {
                r.command == (PagerCommand::Down { amount: 1, page }) && n == cleared
            } else if c == 'k' {
                r.command == PagerCommand::Up(1) && n == cleared
            } else if c == ' ' {
                r.command == (PagerCommand::Down { amount: page, page }) && n == cleared
            } else if c == 'n' || c == 'N' {
                r.command == PagerCommand::SearchNext(c == 'n') && n == cleared
            } else if c == '/' {
                &&& r.command is Nothing
                &&& n == Pager { mode: n.mode, ..cleared }
                &&& n.mode matches PagerMode::Search { buf, kind }
                &&& buf@ == Seq::<char>::empty()
                &&& kind == s.last_kind
            } else if c == '&' {
                &&& r.command is Nothing
                &&& n == Pager { mode: n.mode, ..cleared }
                &&& n.mode matches PagerMode::Filter { buf, results, cursor }
                &&& buf@ == Seq::<char>::empty()
                &&& results@ == Seq::<FilterMatch>::empty()
                &&& cursor == 0
            } else {
                r.command is Nothing && n == Pager { goto_count: None, ..cleared }
            },
            KeyCode::Down => r.command == (PagerCommand::Down { amount: 1, page }) && n == cleared,
            KeyCode::Up => r.command == PagerCommand::Up(1) && n == cleared,
            KeyCode::PageDown => r.command == (PagerCommand::Down { amount: page, page })
                && n == cleared,
            KeyCode::PageUp => r.command == PagerCommand::Up(page) && n == cleared,
            _ => r.command is Nothing && n == Pager { goto_count: None, ..cleared },
        }
    }

    /// What a key does while the search query is typed.
    pub open spec fn search_key(s: Pager, buf: Seq<char>, kind: SearchKind, key: KeyEvent, n: Pager, r: PagerOutcome) -> bool {
        &&& r.filter is Keep
        &&& match key.code {
            KeyCode::Esc => r.command is Nothing && n == Pager { mode: PagerMode::Normal, ..s },
            KeyCode::Enter => {
                &&& r.command matches PagerCommand::Search { query, kind: k }
                &&& query@ == buf
                &&& k == kind
                &&& n == Pager { mode: PagerMode::Normal, last_kind: kind, ..s }
            },
            KeyCode::Backspace => {
                &&& r.command is Nothing
                &&& n == Pager { mode: n.mode, ..s }
                &&& n.mode matches PagerMode::Search { buf: b, kind: k }
                &&& b@ == (if buf.len() > 0 {
                    buf.drop_last()
                } else {
                    buf
                })
                &&& k == kind
            },
            KeyCode::Char(c) => if c == 'r' && with_control(key) {
                &&& r.command is Nothing
                &&& n == Pager { mode: n.mode, ..s }
                &&& n.mode matches PagerMode::Search { buf: b, kind: k }
                &&& b@ == buf
                &&& k != kind
            } else if plain_text(key) {
                &&& r.command is Nothing
                &&& n == Pager { mode: n.mode, ..s }
                &&& n.mode matches PagerMode::Search { buf: b, kind: k }
                &&& b@ == buf.push(c)
                &&& k == kind
            } else {
                &&& r.command is Nothing
                &&& n == Pager { mode: n.mode, ..s }
                &&& n.mode matches PagerMode::Search { buf: b, kind: k }
                &&& b@ == buf
                &&& k == kind
            },
            _ => {
                &&& r.command is Nothing
                &&& n == Pager { mode: n.mode, ..s }
                &&& n.mode matches PagerMode::Search { buf: b, kind: k }
                &&& b@ == buf
                &&& k == kind
            },
        }
    }

    /// What a key does in the fuzzy filter.
    pub open spec fn filter_key(
        s: Pager,
        buf: Seq<char>,
        results: Seq<FilterMatch>,
        cursor: usize,
        key: KeyEvent,
        n: Pager,
        r: PagerOutcome,
    ) -> bool {
        let same = n.goto_count == s.goto_count && n.last_kind == s.last_kind && n.status_msg
            == s.status_msg;
        match key.code {
            KeyCode::Esc => r.command is Nothing && r.filter is Stop && n == Pager {
                mode: PagerMode::Normal,
                ..s
            },
            KeyCode::Enter => {
                &&& r.filter is Stop
                &&& n == Pager { mode: PagerMode::Normal, ..s }
                &&& if cursor < results.len() {
                    r.command == PagerCommand::GotoLine(results[cursor as int].line as usize)
                } else {
                    r.command is Nothing
                }
            },
            KeyCode::Up | KeyCode::Down => {
                &&& r.command is Nothing
                &&& r.filter is Keep
                &&& same
                &&& n.mode matches PagerMode::Filter { buf: b, results: rs, cursor: c }
                &&& b@ == buf
                &&& rs@ == results
                &&& c == if key.code == KeyCode::Up {
                    if cursor > 0 {
                        cursor - 1
                    } else {
                        0
                    }
                } else if cursor + 1 < results.len() {
                    cursor + 1
                } else {
                    cursor as int
                }
            },
            KeyCode::Backspace => {
                let nb = if buf.len() > 0 {
                    buf.drop_last()
                } else {
                    buf
                };
                &&& r.command is Nothing
                &&& same
                &&& n.mode matches PagerMode::Filter { buf: b, results: rs, cursor: c }
                &&& b@ == nb
                &&& rs@ == Seq::<FilterMatch>::empty()
                &&& c == 0
                &&& if nb.len() == 0 {
                    r.filter is Stop
                } else {
                    r.filter matches FilterChange::Start(q) && q@ == nb
                }
            },
            KeyCode::Char(ch) => if plain_text(key) {
                &&& r.command is Nothing
                &&& same
                &&& n.mode matches PagerMode::Filter { buf: b, results: rs, cursor: c }
                &&& b@ == buf.push(ch)
                &&& rs@ == Seq::<FilterMatch>::empty()
                &&& c == 0
                &&& r.filter matches FilterChange::Start(q) && q@ == buf.push(ch)
            } else {
                &&& r.command is Nothing
                &&& r.filter is Keep
                &&& same
                &&& n.mode matches PagerMode::Filter { buf: b, results: rs, cursor: c }
                &&& b@ == buf
                &&& rs@ == results
                &&& c == cursor
            },
            _ => {
                &&& r.command is Nothing
                &&& r.filter is Keep
                &&& same
                &&& n.mode matches PagerMode::Filter { buf: b, results: rs, cursor: c }
                &&& b@ == buf
                &&& rs@ == results
                &&& c == cursor
            },
        }
    }

    /// What a key does, the view being `page` lines high.
    pub open spec fn keyed(s: Pager, key: KeyEvent, page: usize, n: Pager, r: PagerOutcome) -> bool {
        match s.mode {
            PagerMode::Normal => Pager::normal_key(s, key, page, n, r),
            PagerMode::Search { buf, kind } => Pager::search_key(s, buf@, kind, key, n, r),
            PagerMode::Filter { buf, results, cursor } => Pager::filter_key(
                s,
                buf@,
                results@,
                cursor,
                key,
                n,
                r,
            ),
        }
    }
}

impl Pager {
    /// Handles one key, the view being `page` lines high.
    #[verifier::rlimit(50)]
    pub fn handle_key(&mut self, key: KeyEvent, page: usize) -> (r: PagerOutcome)
        requires
            old(self).takes(key),
        ensures
            Pager::keyed(*old(self), key, page, *final(self), r),
    {
        let mut mode = PagerMode::Normal;
        std::mem::swap(&mut mode, &mut self.mode);
        match mode {
            PagerMode::Normal => self.normal(key, page),
            PagerMode::Search { buf, kind } => self.search(buf, kind, key),
            PagerMode::Filter { buf, results, cursor } => self.filter(buf, results, cursor, key),
        }
    }

    fn normal(&mut self, key: KeyEvent, page: usize) -> (r: PagerOutcome)
        requires
            old(self).mode is Normal,
            old(self).takes(key),
        ensures
            Pager::normal_key(*old(self), key, page, *final(self), r),
    {
        self.status_msg = None;
        let keep = FilterChange::Keep;
        let command = match key.code {
            KeyCode::Esc => PagerCommand::Quit,
            KeyCode::Char(c) => {
                if c == 'q' {
                    PagerCommand::Quit
                } else if let Some(d) = digit_of(c) {
                    let n = match self.goto_count {
                        Some(n) => n,
                        None => 0,
                    };
                    proof {
                        assert(next_count(old(self).goto_count, d) <= usize::MAX);
                    }
                    self.goto_count = Some(times_ten(n) + d);
                    PagerCommand::Nothing
                } else if c == 'g' || c == 'G' {
                    let count = self.goto_count;
                    self.goto_count = None;
                    match count {
                        Some(line) => PagerCommand::GotoLine(line),
                        None => if c == 'g' {
                            PagerCommand::Top
                        } else {
                            PagerCommand::Bottom(page)
                        },
                    }
                } else if c == 'j' {
                    PagerCommand::Down { amount: 1, page }
                } else if c == 'k' {
                    PagerCommand::Up(1)
                } else if c == ' ' {
                    PagerCommand::Down { amount: page, page }
                } else if c == 'n' || c == 'N' {
                    PagerCommand::SearchNext(c == 'n')
                } else if c == '/' {
                    self.mode = PagerMode::Search { buf: String::new(), kind: self.last_kind };
                    PagerCommand::Nothing
                } else if c == '&' {
                    self.mode = PagerMode::Filter {
                        buf: String::new(),
                        results: Vec::new(),
                        cursor: 0,
                    };
                    PagerCommand::Nothing
                } else {
                    self.goto_count = None;
                    PagerCommand::Nothing
                }
            },
            KeyCode::Down => PagerCommand::Down { amount: 1, page },
            KeyCode::Up => PagerCommand::Up(1),
            KeyCode::PageDown => PagerCommand::Down { amount: page, page },
            KeyCode::PageUp => PagerCommand::Up(page),
            _ => {
                self.goto_count = None;
                PagerCommand::Nothing
            },
        };
        PagerOutcome { command, filter: keep }
    }

    fn search(&mut self, buf: String, kind: SearchKind, key: KeyEvent) -> (r: PagerOutcome)
        requires
            old(self).mode is Normal,
        ensures
            Pager::search_key(
                Pager { mode: PagerMode::Search { buf, kind }, ..*old(self) },
                buf@,
                kind,
                key,
                *final(self),
                r,
            ),
    {
        let mut buf = buf;
        let mut kind = kind;
        let command = match key.code {
            KeyCode::Esc => PagerCommand::Nothing,
            KeyCode::Enter => {
                self.last_kind = kind;
                return PagerOutcome {
                    command: PagerCommand::Search { query: buf, kind },
                    filter: FilterChange::Keep,
                };
            },
            KeyCode::Backspace => {
                string_pop(&mut buf);
                self.mode = PagerMode::Search { buf, kind };
                PagerCommand::Nothing
            },
            KeyCode::Char(c) => {
                if c == 'r' && key.modifiers & crate::mode::CONTROL != 0 {
                    kind = kind.toggled();
                } else if accepts_text(&key) {
                    string_push(&mut buf, c);
                }
                self.mode = PagerMode::Search { buf, kind };
                PagerCommand::Nothing
            },
            _ => {
                self.mode = PagerMode::Search { buf, kind };
                PagerCommand::Nothing
            },
        };
        PagerOutcome { command, filter: FilterChange::Keep }
    }

    fn filter(&mut self, buf: String, results: Vec<FilterMatch>, cursor: usize, key: KeyEvent) -> (r:
        PagerOutcome)
        requires
            old(self).mode is Normal,
        ensures
            Pager::filter_key(
                Pager { mode: PagerMode::Filter { buf, results, cursor }, ..*old(self) },
                buf@,
                results@,
                cursor,
                key,
                *final(self),
                r,
            ),
    {
        let mut buf = buf;
        match key.code {
            KeyCode::Esc => PagerOutcome { command: PagerCommand::Nothing, filter: FilterChange::Stop },
            KeyCode::Enter => {
                let command = if cursor < results.len() {
                    PagerCommand::GotoLine(results[cursor].line as usize)
                } else {
                    PagerCommand::Nothing
                };
                PagerOutcome { command, filter: FilterChange::Stop }
            },
            KeyCode::Up => {
                let c = cursor.saturating_sub(1);
                self.mode = PagerMode::Filter { buf, results, cursor: c };
                PagerOutcome { command: PagerCommand::Nothing, filter: FilterChange::Keep }
            },
            KeyCode::Down => {
                let c = if cursor < results.len() && cursor + 1 < results.len() {
                    cursor + 1
                } else {
                    cursor
                };
                self.mode = PagerMode::Filter { buf, results, cursor: c };
                PagerOutcome { command: PagerCommand::Nothing, filter: FilterChange::Keep }
            },
            KeyCode::Backspace => {
                string_pop(&mut buf);
                let change = if buf.as_str().unicode_len() == 0 {
                    FilterChange::Stop
                } else {
                    FilterChange::Start(buf.clone())
                };
                self.mode = PagerMode::Filter { buf, results: Vec::new(), cursor: 0 };
                PagerOutcome { command: PagerCommand::Nothing, filter: change }
            },
            KeyCode::Char(c) => {
                if accepts_text(&key) {
                    string_push(&mut buf, c);
                    let change = FilterChange::Start(buf.clone());
                    self.mode = PagerMode::Filter { buf, results: Vec::new(), cursor: 0 };
                    PagerOutcome { command: PagerCommand::Nothing, filter: change }
                } else {
                    self.mode = PagerMode::Filter { buf, results, cursor };
                    PagerOutcome { command: PagerCommand::Nothing, filter: FilterChange::Keep }
                }
            },
            _ => {
                self.mode = PagerMode::Filter { buf, results, cursor };
                PagerOutcome { command: PagerCommand::Nothing, filter: FilterChange::Keep }
            },
        }
    }

    /// The footer: the prompt being typed, an error, the typed line count,
    /// or the key hints (`has_search`: a search is active).
    pub fn footer(&self, has_search: bool) -> (r: (String, FooterTone))
        ensures
            match self.mode {
                PagerMode::Search { buf, kind } => r.1 == FooterTone::Prompt && r.0@ == "/"@ + buf@
                    + "  ["@ + kind.spec_label() + "]  (Ctrl-R toggles, Enter search, Esc cancel)"@,
                PagerMode::Filter { buf, results, .. } => r.1 == FooterTone::Prompt && r.0@ == "&"@
                    + buf@ + "  ("@ + decimal(results@.len()) + " matches)  (\u{2191}/\u{2193} select, Enter jump, Esc cancel)"@,
                PagerMode::Normal => match self.status_msg {
                    Some(m) => r.1 == FooterTone::Error && r.0@ == m@,
                    None => match self.goto_count {
                        Some(n) => r.1 == FooterTone::Prompt && r.0@ == ":"@ + decimal(n as nat)
                            + "  (g/G to jump)"@,
                        None => r.1 == FooterTone::Hint && r.0@ == if has_search {
                            "/ search  n/N next  NG goto  q quit"@
                        } else {
                            "/ search  NG goto line  g/G top/bottom  q quit"@
                        },
                    },
                },
            },
    {
        match &self.mode {
            PagerMode::Search { buf, kind } => {
                let a = concat("/", buf.as_str());
                let b = concat(a.as_str(), "  [");
                let c = concat(b.as_str(), kind.label());
                (concat(c.as_str(), "]  (Ctrl-R toggles, Enter search, Esc cancel)"), FooterTone::Prompt)
            },
            PagerMode::Filter { buf, results, .. } => {
                let a = concat("&", buf.as_str());
                let b = concat(a.as_str(), "  (");
                let n = decimal_string(results.len() as u64);
                let c = concat(b.as_str(), n.as_str());
                (
                    concat(c.as_str(), " matches)  (\u{2191}/\u{2193} select, Enter jump, Esc cancel)"),
                    FooterTone::Prompt,
                )
            },
            PagerMode::Normal => match &self.status_msg {
                Some(m) => (m.clone(), FooterTone::Error),
                None => match self.goto_count {
                    Some(n) => {
                        let d = decimal_string(n as u64);
                        let a = concat(":", d.as_str());
                        (concat(a.as_str(), "  (g/G to jump)"), FooterTone::Prompt)
                    },
                    None => {
                        if has_search {
                            (String::from_str("/ search  n/N next  NG goto  q quit"), FooterTone::Hint)
                        } else {
                            (
                                String::from_str("/ search  NG goto line  g/G top/bottom  q quit"),
                                FooterTone::Hint,
                            )
                        }
                    },
                },
            },
        }
    }
}

} // verus!
