//! Line assembly of the windowed reader: lines are split at newlines,
//! decoded lossily, stripped of a trailing carriage return and capped in
//! length (a longer line notes how many bytes were left out), while the
//! byte offset counts the true lengths so navigation stays exact.
use vstd::prelude::*;

use crate::text::{
    chars_of, decimal, decimal_string, spec_utf8_lossy, string_of, sub_chars, utf8_lossy,
};

verus! {

/// Maximum bytes kept per displayed line.
pub const MAX_LINE_BYTES: usize = 8192;

/// Number of lines buffered around the viewport.
pub const WINDOW_LINES: usize = 512;

/// Block size for backward scans.
pub const BACK_CHUNK: u64 = 65536;

/// How many bytes of `data` a capped line of `kept` bytes takes.
pub open spec fn take_count(kept: int, data_len: int) -> int {
    if kept < MAX_LINE_BYTES {
        if MAX_LINE_BYTES - kept < data_len {
            MAX_LINE_BYTES - kept
        } else {
            data_len
        }
    } else {
        0
    }
}

/// Append `data[..upto]` to the current line, keeping at most
/// `MAX_LINE_BYTES` bytes while counting the true length.
fn append_prefix(cur: &mut Vec<u8>, cur_total: &mut usize, data: &[u8], upto: usize)
    requires
        upto <= data@.len(),
        *old(cur_total) + upto <= usize::MAX,
    ensures
        *final(cur_total) == *old(cur_total) + upto,
        final(cur)@ == old(cur)@ + data@.take(take_count(old(cur)@.len() as int, upto as int)),
{
    *cur_total = *cur_total + upto;
    if cur.len() < MAX_LINE_BYTES {
        let room = MAX_LINE_BYTES - cur.len();
        let take = if room < upto {
            room
        } else {
            upto
        };
        let ghost c0 = cur@;
        let mut i: usize = 0;
        while i < take
            invariant
                i <= take,
                take <= upto <= data@.len(),
                cur@ == c0 + data@.take(i as int),
            decreases take - i,
        {
            cur.push(data[i]);
            i = i + 1;
            assert(cur@ =~= c0 + data@.take(i as int));
        }
    } else {
        assert(data@.take(0) =~= Seq::<u8>::empty());
        assert(cur@ =~= cur@ + data@.take(0));
    }
}

/// Append `data` to the current line buffer, capping stored bytes at
/// `MAX_LINE_BYTES` while still counting the true length.
pub fn append_capped(cur: &mut Vec<u8>, cur_total: &mut usize, data: &[u8])
    requires
        *old(cur_total) + data@.len() <= usize::MAX,
    ensures
        *final(cur_total) == *old(cur_total) + data@.len(),
        final(cur)@ == old(cur)@ + data@.take(
            take_count(old(cur)@.len() as int, data@.len() as int),
        ),
{
    append_prefix(cur, cur_total, data, data.len());
}

/// How a capped line is shown.
pub open spec fn decoded_line(cur: Seq<u8>, cur_total: int) -> Seq<char> {
    let s = spec_utf8_lossy(cur);
    let s2 = if s.len() > 0 && s.last() == '\r' {
        s.drop_last()
    } else {
        s
    };
    if cur_total > cur.len() {
        s2 + " \u{2026}[+"@ + decimal((cur_total - cur.len()) as nat) + " bytes]"@
    } else {
        s2
    }
}

/// Decode a (capped) line's bytes for display, stripping a trailing `\r`
/// (CRLF) and noting truncation when the real line was longer than the cap.
pub fn decode_line(cur: &[u8], cur_total: usize) -> (r: String)
    ensures
        r@ == decoded_line(cur@, cur_total as int),
{
    let text = utf8_lossy(cur);
    let cs = chars_of(text.as_str());
    let end = if cs.len() > 0 && cs[cs.len() - 1] == '\r' {
        cs.len() - 1
    } else {
        cs.len()
    };
    let body = sub_chars(&cs, 0, end);
    let mut s = string_of(&body);
    proof {
        if cs.len() > 0 && cs@.last() == '\r' {
            assert(body@ =~= cs@.drop_last());
        } else {
            assert(body@ =~= cs@);
        }
    }
    if cur_total > cur.len() {
        s.append(" \u{2026}[+");
        s.append(decimal_string((cur_total - cur.len()) as u64).as_str());
        s.append(" bytes]");
    }
    s
}

/// The first newline in `data`, if any.
pub open spec fn first_newline(data: Seq<u8>) -> Option<int> {
    if exists|i: int| 0 <= i < data.len() && data[i] == 10u8 {
        Some(choose|i: int| 0 <= i < data.len() && data[i] == 10u8 && forall|j: int| 0 <= j < i ==> data[j] != 10u8)
    } else {
        None
    }
}

fn find_newline(data: &[u8]) -> (r: Option<usize>)
    ensures
        match first_newline(data@) {
            Some(i) => r == Some(i as usize),
            None => r is None,
        },
        r matches Some(i) ==> i < data@.len() && data@[i as int] == 10u8 && forall|j: int|
            0 <= j < i ==> data@[j] != 10u8,
{
    let mut i: usize = 0;
    while i < data.len()
        invariant
            i <= data@.len(),
            forall|j: int| 0 <= j < i ==> data@[j] != 10u8,
        decreases data@.len() - i,
    {
        if data[i] == 10u8 {
            proof {
                let w = choose|k: int| 0 <= k < data@.len() && data@[k] == 10u8 && forall|j: int| 0 <= j < k ==> data@[j] != 10u8;
                if w < i {
                } else if w > i {
                    assert(data@[i as int] != 10u8);
                }
            }
            return Some(i);
        }
        i = i + 1;
    }
    None
}

/// The last newline in `data`, if any.
pub fn last_newline(data: &[u8]) -> (r: Option<usize>)
    ensures
        r matches Some(i) ==> i < data@.len() && data@[i as int] == 10u8 && forall|j: int|
            i < j < data@.len() ==> data@[j] != 10u8,
        r is None ==> forall|j: int| 0 <= j < data@.len() ==> data@[j] != 10u8,
{
    let mut i: usize = data.len();
    while i > 0
        invariant
            i <= data@.len(),
            forall|j: int| i <= j < data@.len() ==> data@[j] != 10u8,
        decreases i,
    {
        if data[i - 1] == 10u8 {
            return Some(i - 1);
        }
        i = i - 1;
    }
    None
}

/// Lines collected by a forward read: the decoded lines so far, the bytes
/// of the lines completed, and the line being read.
pub struct LineCollector {
    lines: Vec<String>,
    /// Bytes of the completed lines (newlines included) since the start.
    consumed: u64,
    /// The current line, capped.
    cur: Vec<u8>,
    /// The current line's true length.
    cur_total: usize,
    /// How many lines are wanted.
    want: usize,
    /// The end of the file was reached.
    eof: bool,
}

impl LineCollector {
    /// The decoded lines so far.
    pub closed spec fn spec_lines(&self) -> Seq<Seq<char>> {
        self.lines@.map_values(|l: String| l@)
    }

    /// Bytes of the completed lines (newlines included) since the start.
    pub closed spec fn spec_consumed(&self) -> u64 {
        self.consumed
    }

    /// The current line's bytes, capped.
    pub closed spec fn spec_cur(&self) -> Seq<u8> {
        self.cur@
    }

    /// The current line's true length.
    pub closed spec fn spec_cur_total(&self) -> usize {
        self.cur_total
    }

    /// How many lines are wanted.
    pub closed spec fn spec_want(&self) -> usize {
        self.want
    }

    /// The end of the file was reached.
    pub closed spec fn spec_eof(&self) -> bool {
        self.eof
    }

    /// Bytes of the completed lines since the start.
    pub fn consumed(&self) -> (r: u64)
        ensures
            r == self.spec_consumed(),
    {
        self.consumed
    }

    /// The current line's true length.
    pub fn cur_total(&self) -> (r: usize)
        ensures
            r == self.spec_cur_total(),
    {
        self.cur_total
    }

    /// Whether the end of the file was reached.
    pub fn eof(&self) -> (r: bool)
        ensures
            r == self.spec_eof(),
    {
        self.eof
    }

    /// The decoded lines.
    pub fn into_lines(self) -> (r: Vec<String>)
        ensures
            r@.map_values(|l: String| l@) == self.spec_lines(),
    {
        self.lines
    }

    pub fn new(want: usize) -> (r: LineCollector)
        ensures
            r.spec_lines().len() == 0,
            r.spec_consumed() == 0,
            r.spec_cur().len() == 0,
            r.spec_cur_total() == 0,
            r.spec_want() == want,
            !r.spec_eof(),
    {
        LineCollector {
            lines: Vec::new(),
            consumed: 0,
            cur: Vec::new(),
            cur_total: 0,
            want,
            eof: false,
        }
    }

    /// More lines are wanted.
    pub fn needs_more(&self) -> (r: bool)
        ensures
            r == (self.spec_lines().len() < self.spec_want()),
    {
        self.lines.len() < self.want
    }

    /// Take the next buffered bytes of the file; returns how many of them
    /// were used (up to and including the first newline, or all of them).
    pub fn feed(&mut self, available: &[u8]) -> (used: usize)
        requires
            available@.len() > 0,
            old(self).spec_cur_total() + available@.len() <= usize::MAX,
            old(self).spec_consumed() + old(self).spec_cur_total() + available@.len() + 1 <= u64::MAX,
        ensures
            final(self).spec_want() == old(self).spec_want(),
            final(self).spec_eof() == old(self).spec_eof(),
            match first_newline(available@) {
                Some(pos) => {
                    let line = old(self).spec_cur() + available@.take(
                        take_count(old(self).spec_cur().len() as int, pos),
                    );
                    let total = old(self).spec_cur_total() + pos;
                    &&& used == pos + 1
                    &&& final(self).spec_lines() == old(self).spec_lines().push(decoded_line(line, total))
                    &&& final(self).spec_consumed() == old(self).spec_consumed() + total + 1
                    &&& final(self).spec_cur().len() == 0
                    &&& final(self).spec_cur_total() == 0
                },
                None => {
                    &&& used == available@.len()
                    &&& final(self).spec_lines() == old(self).spec_lines()
                    &&& final(self).spec_consumed() == old(self).spec_consumed()
                    &&& final(self).spec_cur() == old(self).spec_cur() + available@.take(
                        take_count(old(self).spec_cur().len() as int, available@.len() as int),
                    )
                    &&& final(self).spec_cur_total() == old(self).spec_cur_total() + available@.len()
                },
            },
    {
        match find_newline(available) {
            Some(pos) => {
                append_prefix(&mut self.cur, &mut self.cur_total, available, pos);
                let line = decode_line(self.cur.as_slice(), self.cur_total);
                let ghost before = self.lines@;
                self.lines.push(line);
                proof {
                    assert(self.lines@.map_values(|l: String| l@) =~= before.map_values(
                        |l: String| l@,
                    ).push(decoded_line(self.cur@, self.cur_total as int)));
                }
                self.consumed = self.consumed + self.cur_total as u64 + 1;
                self.cur = Vec::new();
                self.cur_total = 0;
                pos + 1
            },
            None => {
                append_prefix(&mut self.cur, &mut self.cur_total, available, available.len());
                available.len()
            },
        }
    }

    /// The end of the file: a final line without a trailing newline is
    /// flushed.
    pub fn finish_eof(&mut self)
        requires
            old(self).spec_consumed() + old(self).spec_cur_total() <= u64::MAX,
        ensures
            final(self).spec_eof(),
            final(self).spec_want() == old(self).spec_want(),
            old(self).spec_cur_total() > 0 || old(self).spec_cur().len() > 0 ==> {
                &&& final(self).spec_lines() == old(self).spec_lines().push(decoded_line(old(self).spec_cur(), old(self).spec_cur_total() as int))
                &&& final(self).spec_consumed() == old(self).spec_consumed() + old(self).spec_cur_total()
            },
            !(old(self).spec_cur_total() > 0 || old(self).spec_cur().len() > 0) ==> {
                &&& final(self).spec_lines() == old(self).spec_lines()
                &&& final(self).spec_consumed() == old(self).spec_consumed()
            },
    {
        self.eof = true;
        if self.cur_total > 0 || !self.cur.is_empty() {
            let line = decode_line(self.cur.as_slice(), self.cur_total);
            let ghost before = self.lines@;
            self.lines.push(line);
            proof {
                assert(self.lines@.map_values(|l: String| l@) =~= before.map_values(
                    |l: String| l@,
                ).push(decoded_line(self.cur@, self.cur_total as int)));
            }
            self.consumed = self.consumed + self.cur_total as u64;
        }
    }
}

/// Where a backward scan for a line start reads its next block: up to
/// `BACK_CHUNK` bytes before `search_end`.
pub fn back_chunk_start(search_end: u64) -> (r: u64)
    ensures
        r == if search_end >= BACK_CHUNK {
            search_end - BACK_CHUNK
        } else {
            0
        },
{
    search_end.saturating_sub(BACK_CHUNK)
}

} // verus!
