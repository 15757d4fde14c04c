//! Display helpers: file sizes, permission strings, and home-relative paths.
use vstd::prelude::*;

use crate::text::{
    char_from_ascii, concat, decimal, decimal_string, digit_char, path_strip_prefix,
    spec_path_strip_prefix, string_push,
};

verus! {

// ---------------------------------------------------------------------------
// File sizes
// ---------------------------------------------------------------------------

pub open spec fn pow2n(e: nat) -> nat
    decreases e,
{
    if e == 0 {
        1
    } else {
        2 * pow2n((e - 1) as nat)
    }
}

/// Number of halvings that bring `n` below 2^53: how many low bits a 64-bit
/// float drops when it holds `n`.
pub open spec fn dropped_bits(n: nat) -> nat
    decreases n,
{
    if n < 0x20_0000_0000_0000 {
        0
    } else {
        1 + dropped_bits(n / 2)
    }
}

/// `n / d` rounded to the nearest integer, ties to the even one.
pub open spec fn div_round_even(n: nat, d: nat) -> nat
    recommends
        d > 0,
{
    let q = n / d;
    let r = n % d;
    if 2 * r > d || (2 * r == d && q % 2 == 1) {
        q + 1
    } else {
        q
    }
}

/// The value of `n as f64` (round to nearest, ties to even).
pub open spec fn as_f64_value(n: nat) -> nat {
    let u = pow2n(dropped_bits(n));
    div_round_even(n, u) * u
}

/// `n / unit` written with one decimal, as `format!("{:.1}", n as f64 / unit
/// as f64)` writes it for a power-of-two `unit`: the quotient is exact, and
/// the tenths are rounded to the nearest, ties to even.
pub open spec fn one_decimal(n: nat, unit: nat) -> Seq<char> {
    let t = div_round_even(10 * as_f64_value(n), unit);
    decimal(t / 10) + seq!['.', digit_char(t % 10)]
}

pub open spec fn spec_kb() -> nat {
    1024
}

pub open spec fn spec_mb() -> nat {
    1024 * 1024
}

pub open spec fn spec_gb() -> nat {
    1024 * 1024 * 1024
}

pub open spec fn spec_tb() -> nat {
    1024 * 1024 * 1024 * 1024
}

/// How `format_file_size` writes `size`.
pub open spec fn file_size_text(size: nat) -> Seq<char> {
    if size < spec_kb() {
        decimal(size) + " B"@
    } else if size < spec_mb() {
        one_decimal(size, spec_kb()) + " KB"@
    } else if size < spec_gb() {
        one_decimal(size, spec_mb()) + " MB"@
    } else if size < spec_tb() {
        one_decimal(size, spec_gb()) + " GB"@
    } else {
        one_decimal(size, spec_tb()) + " TB"@
    }
}

proof fn lemma_pow2n_pos(e: nat)
    ensures
        pow2n(e) >= 1,
    decreases e,
{
    if e > 0 {
        lemma_pow2n_pos((e - 1) as nat);
    }
}

proof fn lemma_div_twice(n: nat, u: nat)
    requires
        u >= 1,
    ensures
        (n / u) / 2 == n / (u * 2),
{
    vstd::arithmetic::div_mod::lemma_div_denominator(n as int, u as int, 2);
}

/// The float grid at `n`: its spacing `pow2n(dropped_bits(n))` and
/// `n` divided by it.
fn float_grid(n: u64) -> (r: (u64, u64))
    ensures
        r.0 as nat == pow2n(dropped_bits(n as nat)),
        r.1 as nat == (n as nat) / pow2n(dropped_bits(n as nat)),
        1 <= r.0 < 4096,
        r.1 < 0x20_0000_0000_0000,
{
    let mut u: u64 = 1;
    let mut t: u64 = n;
    let ghost mut e: nat = 0;
    while t >= 0x20_0000_0000_0000
        invariant
            u as nat == pow2n(e),
            u >= 1,
            u < 4096,
            t as nat == (n as nat) / (u as nat),
            dropped_bits(n as nat) == e + dropped_bits(t as nat),
        decreases t,
    {
        proof {
            lemma_div_twice(n as nat, u as nat);
            assert(dropped_bits(t as nat) == 1 + dropped_bits((t / 2) as nat));
            assert(u < 2048) by (nonlinear_arith)
                requires
                    t as nat == (n as nat) / (u as nat),
                    t >= 0x20_0000_0000_0000,
                    u >= 1,
                    n <= 0xffff_ffff_ffff_ffff,
            {
                vstd::arithmetic::div_mod::lemma_fundamental_div_mod(n as int, u as int);
                if u >= 2048 {
                    assert(u as nat * t as nat >= 2048 * 0x20_0000_0000_0000);
                }
            }
        }
        t = t / 2;
        u = u * 2;
        proof {
            e = e + 1;
            assert(pow2n(e) == 2 * pow2n((e - 1) as nat));
        }
    }
    (u, t)
}

/// `n as f64` as an exact integer.
fn f64_value(n: u64) -> (r: u128)
    ensures
        r as nat == as_f64_value(n as nat),
        r as nat <= n as nat + 4096,
{
    let (u, q) = float_grid(n);
    let r = n % u;
    let up = r > u - r || (r == u - r && q % 2 == 1);
    let q2: u128 = if up {
        q as u128 + 1
    } else {
        q as u128
    };
    proof {
        assert(q2 as nat == div_round_even(n as nat, u as nat));
        assert(q2 * (u as u128) <= n as nat + u) by (nonlinear_arith)
            requires
                q2 <= q as nat + 1,
                q as nat == (n as nat) / (u as nat),
                u >= 1,
        {
            vstd::arithmetic::div_mod::lemma_fundamental_div_mod(n as int, u as int);
        }
    }
    q2 * (u as u128)
}

/// `n / d` rounded to nearest, ties to even.
fn div_round_even_exec(n: u128, d: u128) -> (r: u128)
    requires
        d > 0,
        n < 0x1000_0000_0000_0000_0000_0000_0000_0000,
    ensures
        r as nat == div_round_even(n as nat, d as nat),
{
    let q = n / d;
    let r = n % d;
    if r > d - r || (r == d - r && q % 2 == 1) {
        q + 1
    } else {
        q
    }
}

/// `size / unit` with one decimal.
fn one_decimal_exec(size: u64, unit: u64) -> (r: String)
    requires
        1024 <= unit <= 0x100_0000_0000,
    ensures
        r@ == one_decimal(size as nat, unit as nat),
{
    let f = f64_value(size);
    let t = div_round_even_exec(10 * f, unit as u128);
    proof {
        assert(t / 10 <= 0xffff_ffff_ffff_ffff) by (nonlinear_arith)
            requires
                t as int <= (10 * f as int) / (unit as int) + 1,
                f <= 0xffff_ffff_ffff_ffff + 4096,
                unit >= 1024,
        ;
    }
    let whole = decimal_string((t / 10) as u64);
    let d = char_from_ascii((t % 10) as u32 + 48);
    let mut out = whole;
    string_push(&mut out, '.');
    string_push(&mut out, d);
    proof {
        assert(out@ =~= decimal((t / 10) as nat) + seq!['.', digit_char((t % 10) as nat)]);
    }
    out
}

const KB: u64 = 1024;

const MB: u64 = 1048576;

const GB: u64 = 1073741824;

const TB: u64 = 1099511627776;

/// Format a file size for display: B, KB, MB, GB, TB.
pub fn format_file_size(size: u64) -> (r: String)
    ensures
        r@ == file_size_text(size as nat),
{
    if size < KB {
        concat(decimal_string(size).as_str(), " B")
    } else if size < MB {
        concat(one_decimal_exec(size, KB).as_str(), " KB")
    } else if size < GB {
        concat(one_decimal_exec(size, MB).as_str(), " MB")
    } else if size < TB {
        concat(one_decimal_exec(size, GB).as_str(), " GB")
    } else {
        concat(one_decimal_exec(size, TB).as_str(), " TB")
    }
}

// ---------------------------------------------------------------------------
// Permissions
// ---------------------------------------------------------------------------

/// `r`, `w`, `x` or `-` for the three low bits of `bits`.
pub open spec fn rwx(bits: u32) -> Seq<char> {
    seq![
        if bits & 4 != 0 { 'r' } else { '-' },
        if bits & 2 != 0 { 'w' } else { '-' },
        if bits & 1 != 0 { 'x' } else { '-' },
    ]
}

/// The Unix permission string of a mode: the type letter, then the owner,
/// group and other triplets.
pub open spec fn permission_text(mode: u32, is_dir: bool, is_symlink: bool) -> Seq<char> {
    seq![if is_dir { 'd' } else if is_symlink { 'l' } else { '-' }] + rwx((mode >> 6u32) & 7)
        + rwx((mode >> 3u32) & 7) + rwx(mode & 7)
}

fn push_rwx(s: &mut String, bits: u32)
    ensures
        final(s)@ == old(s)@ + rwx(bits),
{
    string_push(s, if bits & 4 != 0 { 'r' } else { '-' });
    string_push(s, if bits & 2 != 0 { 'w' } else { '-' });
    string_push(s, if bits & 1 != 0 { 'x' } else { '-' });
    proof {
        assert(s@ =~= old(s)@ + rwx(bits));
    }
}

/// Unix permission string: "drwxrwxrwx" or "-rwxrwxrwx", from the mode bits
/// and the file type of an entry's own (not followed) metadata.
pub fn format_permissions(mode: u32, is_dir: bool, is_symlink: bool) -> (r: String)
    ensures
        r@ == permission_text(mode, is_dir, is_symlink),
        r@.len() == 10,
{
    let file_type = if is_dir {
        'd'
    } else if is_symlink {
        'l'
    } else {
        '-'
    };
    let mut s = String::new();
    string_push(&mut s, file_type);
    push_rwx(&mut s, (mode >> 6u32) & 7);
    push_rwx(&mut s, (mode >> 3u32) & 7);
    push_rwx(&mut s, mode & 7);
    proof {
        assert(s@ =~= permission_text(mode, is_dir, is_symlink));
    }
    s
}

// ---------------------------------------------------------------------------
// Paths
// ---------------------------------------------------------------------------

/// How `display_path` shows `path` given the home directory.
pub open spec fn display_path_text(path: Seq<char>, home: Option<Seq<char>>) -> Seq<char> {
    match home {
        Some(h) => match spec_path_strip_prefix(path, h) {
            Some(rel) => "~/"@ + rel,
            None => path,
        },
        None => path,
    }
}

/// Shorten a path for display: a path under the home directory is shown
/// relative to `~`.
pub fn display_path(path: &str, home: Option<&str>) -> (r: String)
    ensures
        r@ == display_path_text(path@, match home { Some(h) => Some(h@), None => None }),
{
    if let Some(h) = home {
        if let Some(rel) = path_strip_prefix(path, h) {
            return concat("~/", rel.as_str());
        }
    }
    String::from_str(path)
}

} // verus!
