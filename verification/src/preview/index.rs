//! The line index of a large file: counting lines while scanning its bytes,
//! recording the start of every thousandth line, and finding the nearest
//! recorded line before a target.
use vstd::prelude::*;

verus! {

/// One byte offset is recorded every `STRIDE` lines.
pub const STRIDE: u64 = 1000;

/// Number of newline bytes in `s`.
pub open spec fn nl_count(s: Seq<u8>) -> nat
    decreases s.len(),
{
    if s.len() == 0 {
        0
    } else {
        nl_count(s.drop_last()) + if s.last() == 10u8 {
            1nat
        } else {
            0nat
        }
    }
}

/// Start offsets of lines `STRIDE`, `2 * STRIDE`, ... (0-based) in `s`: the
/// position after every newline whose count is a multiple of `STRIDE`.
pub open spec fn stride_offsets(s: Seq<u8>) -> Seq<int>
    decreases s.len(),
{
    if s.len() == 0 {
        Seq::empty()
    } else {
        let r = stride_offsets(s.drop_last());
        if s.last() == 10u8 && nl_count(s) % (STRIDE as nat) == 0 {
            r.push(s.len() as int)
        } else {
            r
        }
    }
}

/// Lines in `s`: its newlines, plus a final line that has none.
pub open spec fn line_total(s: Seq<u8>) -> nat {
    if s.len() > 0 && s.last() != 10u8 {
        nl_count(s) + 1
    } else {
        nl_count(s)
    }
}

pub proof fn lemma_nl_count_bound(s: Seq<u8>)
    ensures
        nl_count(s) <= s.len(),
        s.len() > 0 && s.last() != 10u8 ==> nl_count(s) < s.len(),
    decreases s.len(),
{
    if s.len() > 0 {
        lemma_nl_count_bound(s.drop_last());
    }
}

/// Progress of a scan over a file's bytes.
pub struct LineScan {
    newlines: u64,
    pos: u64,
    last_byte: Option<u8>,
    /// `offsets[k]` = byte offset of the start of line `k * STRIDE` (0-based).
    offsets: Vec<u64>,
    /// The bytes scanned so far.
    seen: Ghost<Seq<u8>>,
}

impl LineScan {
    /// The bytes scanned so far.
    pub closed spec fn seen(&self) -> Seq<u8> {
        self.seen@
    }

    /// The scan agrees with the bytes seen.
    pub closed spec fn wf(&self) -> bool {
        &&& self.newlines == nl_count(self.seen@)
        &&& self.pos == self.seen@.len()
        &&& self.last_byte == if self.seen@.len() > 0 {
            Some(self.seen@.last())
        } else {
            None
        }
        &&& self.offsets@.map_values(|x: u64| x as int) == seq![0int] + stride_offsets(self.seen@)
    }

    pub fn new() -> (r: LineScan)
        ensures
            r.wf(),
            r.seen() == Seq::<u8>::empty(),
    {
        let mut offsets: Vec<u64> = Vec::new();
        offsets.push(0);
        let r = LineScan { newlines: 0, pos: 0, last_byte: None, offsets, seen: Ghost(Seq::empty()) };
        assert(r.offsets@.map_values(|x: u64| x as int) =~= seq![0int] + stride_offsets(r.seen@));
        r
    }

    /// Scan the next bytes of the file.
    pub fn feed(&mut self, buf: &[u8])
        requires
            old(self).wf(),
            old(self).seen().len() + buf@.len() <= u64::MAX,
        ensures
            final(self).wf(),
            final(self).seen() == old(self).seen() + buf@,
    {
        let n = buf.len();
        let mut i: usize = 0;
        let ghost start = self.seen@;
        while i < n
            invariant
                n == buf@.len(),
                i <= n,
                self.pos == start.len(),
                start.len() + n <= u64::MAX,
                self.newlines == nl_count(start + buf@.take(i as int)),
                self.offsets@.map_values(|x: u64| x as int) == seq![0int] + stride_offsets(
                    start + buf@.take(i as int),
                ),
                self.seen@ == start,
                start == old(self).seen@,
                self.last_byte == old(self).last_byte,
                old(self).wf(),
            decreases n - i,
        {
            let ghost s0 = start + buf@.take(i as int);
            let ghost s1 = start + buf@.take(i + 1);
            proof {
                assert(s1.drop_last() =~= s0);
                assert(s1.last() == buf@[i as int]);
                lemma_nl_count_bound(s0);
            }
            if buf[i] == 10u8 {
                self.newlines = self.newlines + 1;
                if self.newlines % STRIDE == 0 {
                    let ghost before = self.offsets@;
                    self.offsets.push(self.pos + i as u64 + 1);
                    proof {
                        assert(self.offsets@.map_values(|x: u64| x as int) =~= before.map_values(
                            |x: u64| x as int,
                        ).push(s1.len() as int));
                    }
                }
            }
            i = i + 1;
        }
        assert(buf@.take(n as int) =~= buf@);
        self.seen = Ghost(start + buf@);
        self.pos = self.pos + n as u64;
        if n > 0 {
            self.last_byte = Some(buf[n - 1]);
            assert((start + buf@).last() == buf@[n - 1]);
        } else {
            assert(start + buf@ =~= start);
        }
    }

    /// Lines counted: with the scan complete, the file's total.
    pub fn total(&self) -> (r: u64)
        requires
            self.wf(),
        ensures
            r == line_total(self.seen()),
    {
        proof {
            lemma_nl_count_bound(self.seen@);
        }
        match self.last_byte {
            Some(b) => if b != 10u8 {
                self.newlines + 1
            } else {
                self.newlines
            },
            None => self.newlines,
        }
    }

    /// How many bytes were scanned.
    pub fn bytes_seen(&self) -> (r: u64)
        requires
            self.wf(),
        ensures
            r == self.seen().len(),
    {
        self.pos
    }

    /// How many newlines were seen.
    pub fn newlines(&self) -> (r: u64)
        requires
            self.wf(),
        ensures
            r == nl_count(self.seen()),
    {
        self.newlines
    }

    /// The start of every `STRIDE`-th line seen so far: line 0 first, then
    /// the lines after each `STRIDE`-th newline.
    pub fn offsets(&self) -> (r: Vec<u64>)
        requires
            self.wf(),
        ensures
            r@.map_values(|x: u64| x as int) == seq![0int] + stride_offsets(self.seen()),
    {
        self.offsets.clone()
    }
}

/// The checkpoint for 1-based `line`: the last recorded stride at or before
/// it (clamped to what was recorded), as `(byte_offset, line_1based)`.
pub open spec fn checkpoint_of(offsets: Seq<u64>, line: int) -> (u64, u64) {
    let target0 = if line >= 1 {
        line - 1
    } else {
        0
    };
    let k0 = target0 / (STRIDE as int);
    let k = if offsets.len() == 0 {
        0
    } else if k0 < offsets.len() - 1 {
        k0
    } else {
        offsets.len() - 1
    };
    let off = if k < offsets.len() {
        offsets[k]
    } else {
        0u64
    };
    (off, (k * (STRIDE as int) + 1) as u64)
}

/// Nearest indexed checkpoint at or before 1-based `line`, as
/// `(byte_offset, line_1based)`, a starting point to read forward from.
/// Falls back to the start of the file.
pub fn checkpoint_for(offsets: &Vec<u64>, line: usize) -> (r: (u64, u64))
    ensures
        r == checkpoint_of(offsets@, line as int),
{
    let target0: u64 = if line >= 1 {
        (line - 1) as u64
    } else {
        0
    };
    let k0 = target0 / STRIDE;
    let last: u64 = if offsets.len() == 0 {
        0
    } else {
        (offsets.len() - 1) as u64
    };
    let k = if k0 < last {
        k0
    } else {
        last
    };
    let off = if (k as usize) < offsets.len() {
        offsets[k as usize]
    } else {
        0
    };
    proof {
        assert(k * 1000 <= target0) by (nonlinear_arith)
            requires
                k <= k0,
                k0 == target0 / 1000,
        ;
    }
    (off, k * STRIDE + 1)
}

} // verus!
