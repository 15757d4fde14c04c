//! The windowed reader's moves through a file that cannot be held whole:
//! jumping to a line by reading forward from a checkpoint, searching line by
//! line forward or backward, and scrolling down without running past the
//! last line. Each move is a walk: the caller reads what the walk asks for
//! and hands back what the read gave, until the walk is done.
use vstd::prelude::*;

verus! {

/// What reading one line at an offset gave.
#[derive(Debug, Clone, Copy, PartialEq, Eq, Structural)]
pub enum ReadOne {
    /// The read failed.
    Failed,
    /// Nothing is left to read.
    Nothing,
    /// A line; `next` is the offset after it, `eof` whether the file ended
    /// with it, `hit` whether it matches what is searched for.
    Line { next: u64, eof: bool, hit: bool },
}

/// Jump so 1-based line `target` is at the top, reading forward one line at
/// a time from a checkpoint `(offset, line)` where `offset` starts that
/// 1-based line. The walk stops at the target, at the end of the file (on its
/// last line), or at a failed read.
pub struct LineWalk {
    /// The start of line `line`.
    pub off: u64,
    pub line: u64,
    pub target: u64,
    pub done: bool,
}

impl LineWalk {
    pub fn new(target: u64, checkpoint: (u64, u64)) -> (r: LineWalk)
        ensures
            r.off == checkpoint.0,
            r.line == checkpoint.1,
            r.target == if target >= 1 {
                target
            } else {
                1
            },
            r.done == (r.line >= r.target),
    {
        let t = if target >= 1 {
            target
        } else {
            1
        };
        LineWalk { off: checkpoint.0, line: checkpoint.1, target: t, done: checkpoint.1 >= t }
    }

    /// What reading the line at `off` gave.
    pub fn feed(&mut self, got: ReadOne)
        requires
            !old(self).done,
            old(self).line < old(self).target,
        ensures
            final(self).target == old(self).target,
            match got {
                ReadOne::Line { next, eof, .. } => if eof {
                    // the last line of the file: stay on it
                    final(self).done && final(self).off == old(self).off && final(self).line
                        == old(self).line
                } else {
                    &&& final(self).off == next
                    &&& final(self).line == old(self).line + 1
                    &&& final(self).done == (final(self).line >= final(self).target)
                },
                _ => final(self).done && final(self).off == old(self).off && final(self).line
                    == old(self).line,
            },
    {
        match got {
            ReadOne::Line { next, eof, .. } => {
                if eof {
                    self.done = true;
                } else {
                    self.off = next;
                    self.line = self.line + 1;
                    self.done = self.line >= self.target;
                }
            },
            _ => {
                self.done = true;
            },
        }
    }

    /// The 0-based number of the line the walk stands on.
    pub fn top_line(&self) -> (r: u64)
        ensures
            r == if self.line >= 1 {
                self.line - 1
            } else {
                0
            },
    {
        self.line.saturating_sub(1)
    }
}

/// Where a walk ends: the offset of the line found and its 0-based number
/// where known.
#[derive(Debug, Clone, Copy, PartialEq, Eq, Structural)]
pub enum Found {
    Searching,
    NotFound,
    At { off: u64, line: Option<u64> },
}

/// A search forward from the line after the top one, wrapping at the end of
/// the file: the top line is read first (to step past it), then line after
/// line until one matches; at the end of the file the search goes on from
/// the first line, up to the top line, which is looked at last.
pub struct ForwardSearch {
    /// The line to read next.
    pub off: u64,
    /// Its 0-based number, where known.
    pub line: Option<u64>,
    /// The top line was read.
    pub past_top: bool,
    /// The search went on from the start of the file.
    pub wrapped: bool,
    /// The start of the top line.
    pub top: u64,
    pub found: Found,
}

/// One more than a line number that is known, while it can be counted.
pub open spec fn next_line_no(l: Option<u64>) -> Option<u64> {
    match l {
        Some(n) => if n < u64::MAX {
            Some((n + 1) as u64)
        } else {
            None
        },
        None => None,
    }
}

fn next_no(l: Option<u64>) -> (r: Option<u64>)
    ensures
        r == next_line_no(l),
{
    match l {
        Some(n) => n.checked_add(1),
        None => None,
    }
}

impl ForwardSearch {
    /// A search from the view's top line (offset and 0-based number).
    pub fn new(top_offset: u64, top_line: Option<u64>) -> (r: ForwardSearch)
        ensures
            r.off == top_offset,
            r.line == top_line,
            !r.past_top,
            !r.wrapped,
            r.top == top_offset,
            r.found == Found::Searching,
    {
        ForwardSearch {
            off: top_offset,
            line: top_line,
            past_top: false,
            wrapped: false,
            top: top_offset,
            found: Found::Searching,
        }
    }

    /// Go on from the first line of the file.
    pub open spec fn restarted(s: ForwardSearch, n: ForwardSearch) -> bool {
        &&& n.found == Found::Searching
        &&& n.past_top
        &&& n.wrapped
        &&& n.off == 0
        &&& n.line == Some(0u64)
        &&& n.top == s.top
    }

    /// Read on from `next`.
    pub open spec fn advanced(s: ForwardSearch, next: u64, n: ForwardSearch) -> bool {
        &&& n.found == Found::Searching
        &&& n.past_top
        &&& n.wrapped == s.wrapped
        &&& n.off == next
        &&& n.line == next_line_no(s.line)
        &&& n.top == s.top
    }

    /// What reading the line at `off` gave.
    pub fn feed(&mut self, got: ReadOne)
        requires
            old(self).found == Found::Searching,
        ensures
            match got {
                ReadOne::Line { next, eof, hit } => if !old(self).past_top {
                    // the top line: step past it, or start over after the last line
                    if eof {
                        ForwardSearch::restarted(*old(self), *final(self))
                    } else {
                        ForwardSearch::advanced(*old(self), next, *final(self))
                    }
                } else if hit {
                    final(self).found == (Found::At { off: old(self).off, line: old(self).line })
                } else if old(self).wrapped && (eof || old(self).off >= old(self).top) {
                    // back at the top line: nothing else matches
                    final(self).found == Found::NotFound
                } else if eof {
                    ForwardSearch::restarted(*old(self), *final(self))
                } else {
                    ForwardSearch::advanced(*old(self), next, *final(self))
                },
                ReadOne::Nothing => if old(self).past_top && !old(self).wrapped {
                    ForwardSearch::restarted(*old(self), *final(self))
                } else {
                    final(self).found == Found::NotFound
                },
                ReadOne::Failed => final(self).found == Found::NotFound,
            },
    {
        match got {
            ReadOne::Line { next, eof, hit } => {
                if self.past_top && hit {
                    self.found = Found::At { off: self.off, line: self.line };
                } else if self.past_top && self.wrapped && (eof || self.off >= self.top) {
                    self.found = Found::NotFound;
                } else if eof {
                    self.restart();
                } else {
                    self.past_top = true;
                    self.off = next;
                    self.line = next_no(self.line);
                }
            },
            ReadOne::Nothing => {
                if self.past_top && !self.wrapped {
                    self.restart();
                } else {
                    self.found = Found::NotFound;
                }
            },
            ReadOne::Failed => {
                self.found = Found::NotFound;
            },
        }
    }

    fn restart(&mut self)
        requires
            old(self).found == Found::Searching,
        ensures
            ForwardSearch::restarted(*old(self), *final(self)),
    {
        self.past_top = true;
        self.wrapped = true;
        self.off = 0;
        self.line = Some(0);
    }
}

/// A search backward from the line before the top one, wrapping at the
/// start of the file: step to the start of the previous line and read it;
/// past the first line the search goes on from the end of the file (`end`,
/// its length), back to the top line, which is looked at last.
pub struct BackwardSearch {
    /// The start of the line stood on.
    pub off: u64,
    /// Its 0-based number, where known.
    pub line: Option<u64>,
    /// The search went on from the end of the file.
    pub wrapped: bool,
    /// The start of the top line.
    pub top: u64,
    pub found: Found,
}

impl BackwardSearch {
    /// A search from the view's top line (offset and 0-based number) in a
    /// file of `end` bytes.
    pub fn new(top_offset: u64, top_line: Option<u64>, end: u64) -> (r: BackwardSearch)
        ensures
            r.top == top_offset,
            r.found == Found::Searching,
            if top_offset == 0 {
                // nothing before the top: start over from the end
                r.off == end && r.line is None && r.wrapped
            } else {
                r.off == top_offset && r.line == top_line && !r.wrapped
            },
    {
        if top_offset == 0 {
            BackwardSearch { off: end, line: None, wrapped: true, top: top_offset, found: Found::Searching }
        } else {
            BackwardSearch {
                off: top_offset,
                line: top_line,
                wrapped: false,
                top: top_offset,
                found: Found::Searching,
            }
        }
    }

    /// The start of the previous line was found at `prev` (`None`: the
    /// backward read failed), and the line there was read as `got`.
    pub fn feed(&mut self, prev: Option<u64>, got: ReadOne, end: u64)
        requires
            old(self).found == Found::Searching,
        ensures
            final(self).top == old(self).top,
            match prev {
                None => final(self).found == Found::NotFound,
                Some(p) => {
                    let line = match old(self).line {
                        Some(n) => Some(
                            if n >= 1 {
                                (n - 1) as u64
                            } else {
                                0u64
                            },
                        ),
                        None => None,
                    };
                    if got matches ReadOne::Line { hit: true, .. } {
                        final(self).found == (Found::At { off: p, line })
                    } else if old(self).wrapped {
                        // back at the top line, or before it: nothing else matches
                        if p <= old(self).top || p >= old(self).off {
                            final(self).found == Found::NotFound
                        } else {
                            &&& final(self).found == Found::Searching
                            &&& final(self).off == p
                            &&& final(self).line is None
                            &&& final(self).wrapped
                        }
                    } else if p == 0 {
                        // the first line: start over from the end
                        &&& final(self).found == Found::Searching
                        &&& final(self).off == end
                        &&& final(self).line is None
                        &&& final(self).wrapped
                    } else {
                        &&& final(self).found == Found::Searching
                        &&& final(self).off == p
                        &&& final(self).line == line
                        &&& !final(self).wrapped
                    }
                },
            },
    {
        match prev {
            None => {
                self.found = Found::NotFound;
            },
            Some(p) => {
                let line = match self.line {
                    Some(n) => Some(n.saturating_sub(1)),
                    None => None,
                };
                let hit = match got {
                    ReadOne::Line { hit, .. } => hit,
                    _ => false,
                };
                if hit {
                    self.found = Found::At { off: p, line };
                } else if self.wrapped {
                    if p <= self.top || p >= self.off {
                        self.found = Found::NotFound;
                    } else {
                        self.off = p;
                        self.line = None;
                    }
                } else if p == 0 {
                    self.off = end;
                    self.line = None;
                    self.wrapped = true;
                } else {
                    self.off = p;
                    self.line = line;
                }
            },
        }
    }
}

/// Scrolling up by up to `amount` lines: step back to the start of the
/// previous line until enough lines were passed or the file's start is
/// reached (where the line number is 0 again), or a backward read fails.
pub struct UpWalk {
    /// The start of the line stood on.
    pub off: u64,
    /// Its 0-based number, where known.
    pub line: Option<u64>,
    /// Lines still to pass.
    pub left: usize,
    pub done: bool,
}

impl UpWalk {
    pub fn new(top_offset: u64, top_line: Option<u64>, amount: usize) -> (r: UpWalk)
        ensures
            r.off == top_offset,
            r.left == amount,
            r.done == (amount == 0 || top_offset == 0),
            r.line == if amount > 0 && top_offset == 0 {
                Some(0u64)
            } else {
                top_line
            },
    {
        if amount > 0 && top_offset == 0 {
            UpWalk { off: 0, line: Some(0), left: amount, done: true }
        } else {
            UpWalk { off: top_offset, line: top_line, left: amount, done: amount == 0 }
        }
    }

    /// The start of the previous line was found at `prev` (`None`: the
    /// backward read failed).
    pub fn feed(&mut self, prev: Option<u64>)
        requires
            !old(self).done,
            old(self).left > 0,
        ensures
            match prev {
                None => final(self).done && final(self).off == old(self).off && final(self).line
                    == old(self).line,
                Some(p) => {
                    &&& final(self).off == p
                    &&& final(self).left == old(self).left - 1
                    &&& final(self).line == if p == 0 {
                        Some(0u64)
                    } else {
                        match old(self).line {
                            Some(n) => Some(
                                if n >= 1 {
                                    (n - 1) as u64
                                } else {
                                    0u64
                                },
                            ),
                            None => None,
                        }
                    }
                    &&& final(self).done == (final(self).left == 0 || p == 0)
                },
            },
    {
        match prev {
            None => {
                self.done = true;
            },
            Some(p) => {
                self.off = p;
                self.left = self.left - 1;
                self.line = if p == 0 {
                    Some(0)
                } else {
                    match self.line {
                        Some(n) => Some(n.saturating_sub(1)),
                        None => None,
                    }
                };
                self.done = self.left == 0 || p == 0;
            },
        }
    }
}

/// Jumping to the bottom: step back from the end of the file over the last
/// `height` lines (at least one), stopping at the file's start or a failed
/// backward read. The line number is known only at the start of the file.
pub struct BottomWalk {
    /// The start of the line stood on.
    pub off: u64,
    /// Lines still to step back over.
    pub left: usize,
    pub done: bool,
}

impl BottomWalk {
    pub fn new(file_len: u64, height: usize) -> (r: BottomWalk)
        ensures
            r.off == file_len,
            r.left == if height >= 1 {
                height
            } else {
                1
            },
            r.done == (file_len == 0),
    {
        BottomWalk { off: file_len, left: if height >= 1 { height } else { 1 }, done: file_len == 0 }
    }

    /// The start of the previous line was found at `prev` (`None`: the
    /// backward read failed).
    pub fn feed(&mut self, prev: Option<u64>)
        requires
            !old(self).done,
            old(self).left > 0,
        ensures
            match prev {
                None => final(self).done && final(self).off == old(self).off,
                Some(p) => {
                    &&& final(self).off == p
                    &&& final(self).left == old(self).left - 1
                    &&& final(self).done == (final(self).left == 0 || p == 0)
                },
            },
    {
        match prev {
            None => {
                self.done = true;
            },
            Some(p) => {
                self.off = p;
                self.left = self.left - 1;
                self.done = self.left == 0 || p == 0;
            },
        }
    }

    /// The 0-based number of the line the walk stands on, where known.
    pub fn top_line(&self) -> (r: Option<u64>)
        ensures
            r == if self.off == 0 {
                Some(0u64)
            } else {
                None
            },
    {
        if self.off == 0 {
            Some(0)
        } else {
            None
        }
    }
}

/// The number of the line `amount` lines below line `line`, where known.
pub fn line_after(line: Option<u64>, amount: usize) -> (r: Option<u64>)
    requires
        line matches Some(l) ==> l + amount <= u64::MAX,
    ensures
        r == match line {
            Some(l) => Some((l + amount) as u64),
            None => None,
        },
{
    match line {
        Some(l) => Some(l + amount as u64),
        None => None,
    }
}

/// What scrolling down does, from what reading `amount` lines from the top
/// gave (`Some((lines read, offset after them))`, `None` on a failed read)
/// and whether anything is left after them: the view moves down by `amount`
/// lines to `Some(offset)`, or (`None`) shows the bottom of the file instead.
pub fn scroll_down_target(read: Option<(usize, u64)>, amount: usize, more_after: bool) -> (r: Option<
    u64,
>)
    ensures
        r == match read {
            Some((n, next)) => if n == amount && more_after {
                Some(next)
            } else {
                None
            },
            None => None,
        },
{
    match read {
        Some((n, next)) => {
            if n == amount && more_after {
                Some(next)
            } else {
                None
            }
        },
        None => None,
    }
}

} // verus!
