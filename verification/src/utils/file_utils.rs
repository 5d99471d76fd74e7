//! Human-readable sizes, and the cut-off time of a clean-up of old records.
use vstd::prelude::*;

use crate::services::file_walker::{utc_text, utc_timestamp_text, TIME_FORMAT};

use crate::text::{char_from_digit, decimal, decimal_string, digit_char, push_char};

verus! {

/// 2^53: below it every integer is exactly a 64-bit float.
pub open spec fn two53() -> nat {
    0x20_0000_0000_0000
}

/// The spacing of 64-bit floats near `n`: 1 below 2^53, doubling with each
/// further binary digit of `n`.
pub open spec fn float_spacing(n: nat) -> nat
    decreases n,
{
    if n < two53() {
        1
    } else {
        2 * float_spacing(n / 2)
    }
}

/// The 64-bit float nearest to `n` (`n as f64`), ties going to the even
/// significand.
pub open spec fn nearest_float(n: nat) -> nat {
    let s = float_spacing(n);
    let q = n / s;
    let r = n % s;
    if 2 * r > s || (2 * r == s && q % 2 == 1) {
        (q + 1) * s
    } else {
        q * s
    }
}

/// `m / unit` in hundredths, rounded to nearest, ties to even.
pub open spec fn hundredths(m: nat, unit: nat) -> nat
    recommends
        unit > 0,
{
    let h = m * 100 / unit;
    let r = (m * 100) % unit;
    if 2 * r > unit || (2 * r == unit && h % 2 == 1) {
        h + 1
    } else {
        h
    }
}

/// `m / unit` in tenths, rounded to nearest, ties to even.
pub open spec fn tenths(m: nat, unit: nat) -> nat
    recommends
        unit > 0,
{
    let t = m * 10 / unit;
    let r = (m * 10) % unit;
    if 2 * r > unit || (2 * r == unit && t % 2 == 1) {
        t + 1
    } else {
        t
    }
}

/// A number of tenths written with one decimal.
pub open spec fn fixed1(t: nat) -> Seq<char> {
    decimal(t / 10) + seq!['.', digit_char(t % 10)]
}

/// A number of hundredths written with two decimals.
pub open spec fn fixed2(h: nat) -> Seq<char> {
    decimal(h / 100) + seq!['.', digit_char((h % 100) / 10), digit_char(h % 10)]
}

/// The text `format_size` gives: gigabytes, megabytes or kilobytes with two
/// decimals (units of 1024), chosen by the size as a float, or whole bytes.
pub open spec fn size_text(size: nat) -> Seq<char> {
    let m = nearest_float(size);
    if m >= 0x4000_0000 {
        fixed2(hundredths(m, 0x4000_0000)) + " GB"@
    } else if m >= 0x10_0000 {
        fixed2(hundredths(m, 0x10_0000)) + " MB"@
    } else if m >= 0x400 {
        fixed2(hundredths(m, 0x400)) + " KB"@
    } else {
        decimal(size) + " B"@
    }
}

proof fn lemma_spacing_bound(n: nat)
    ensures
        float_spacing(n) >= 1,
        n >= two53() ==> float_spacing(n) * two53() <= 2 * n,
        n / float_spacing(n) < two53(),
    decreases n,
{
    if n >= two53() {
        lemma_spacing_bound(n / 2);
        let s2 = float_spacing(n / 2);
        vstd::arithmetic::div_mod::lemma_div_denominator(n as int, 2, s2 as int);
        assert(2 * s2 == float_spacing(n));
    }
}

/// The spacing of floats near `n`.
fn spacing(n: u64) -> (r: u64)
    ensures
        r == float_spacing(n as nat),
        1 <= r <= 0x1000,
    decreases n,
{
    proof {
        lemma_spacing_bound(n as nat);
    }
    if n < 0x20_0000_0000_0000 {
        1
    } else {
        proof {
            lemma_spacing_bound((n / 2) as nat);
        }
        2 * spacing(n / 2)
    }
}

/// `m / unit` in hundredths, ties to even.
fn hundredths_exec(m: u128, unit: u128) -> (r: u128)
    requires
        0 < unit <= 0x4000_0000,
        m < 0x2_0000_0000_0000_0000,
    ensures
        r == hundredths(m as nat, unit as nat),
        r <= (m as nat) * 100 / (unit as nat) + 1,
{
    let h = m * 100 / unit;
    let r = (m * 100) % unit;
    if 2 * r > unit || (2 * r == unit && h % 2 == 1) {
        h + 1
    } else {
        h
    }
}

/// Writes `h` hundredths with two decimals, then the unit.
fn fixed2_with_unit(h: u128, unit: &str) -> (r: String)
    requires
        h / 100 <= u64::MAX,
    ensures
        r@ == fixed2(h as nat) + unit@,
{
    let mut s = decimal_string((h / 100) as u64);
    push_char(&mut s, '.');
    push_char(&mut s, char_from_digit(((h % 100) / 10) as u32));
    push_char(&mut s, char_from_digit((h % 10) as u32));
    s.append(unit);
    s
}

/// A byte count as the nearest 64-bit float (`size as f64`), held exactly.
pub fn as_float(size: u64) -> (m: u128)
    ensures
        m == nearest_float(size as nat),
        m <= size as nat + 0x1000,
        m < 0x2_0000_0000_0000_0000,
{
    let s = spacing(size);
    proof {
        lemma_spacing_bound(size as nat);
    }
    let q = size / s;
    assert(q < 0x20_0000_0000_0000);
    assert((q as u128 + 1) * (s as u128) <= 0x20_0000_0000_0000 * 0x1000) by (nonlinear_arith)
        requires
            q < 0x20_0000_0000_0000,
            s <= 0x1000,
    ;
    assert((q as u128) * (s as u128) <= (q as u128 + 1) * (s as u128)) by (nonlinear_arith);
    let rem = size % s;
    let m: u128 = if 2 * (rem as u128) > (s as u128) || (2 * (rem as u128) == (s as u128) && q % 2
        == 1) {
        (q as u128 + 1) * (s as u128)
    } else {
        (q as u128) * (s as u128)
    };
    proof {
        assert(q as nat * s as nat <= size as nat) by (nonlinear_arith)
            requires
                q == size / s,
                s > 0,
        ;
        assert((q as nat + 1) * s as nat <= size as nat + s as nat) by (nonlinear_arith)
            requires
                q == size / s,
                s > 0,
        ;
        assert(m as nat == nearest_float(size as nat));
        assert((q as nat + 1) * s as nat <= two53() * s as nat) by (nonlinear_arith)
            requires
                q < two53(),
        ;
        assert(m < 0x2_0000_0000_0000_0000);
    }
    m
}

/// `m / unit` with two decimals, rounded as float formatting rounds, then
/// the unit's name.
pub fn fixed2_of(m: u128, unit: u128, name: &str) -> (r: String)
    requires
        0x400 <= unit <= 0x4000_0000,
        m < 0x2_0000_0000_0000_0000,
    ensures
        r@ == fixed2(hundredths(m as nat, unit as nat)) + name@,
{
    let h = hundredths_exec(m, unit);
    assert(h / 100 <= u64::MAX) by (nonlinear_arith)
        requires
            h <= (m as nat) * 100 / (unit as nat) + 1,
            m < 0x2_0000_0000_0000_0000,
            unit >= 0x400,
    ;
    fixed2_with_unit(h, name)
}

/// `m / unit` with one decimal, rounded as float formatting rounds, then
/// the unit's name.
pub fn fixed1_of(m: u128, unit: u128, name: &str) -> (r: String)
    requires
        0x400 <= unit <= 0x4000_0000,
        m < 0x2_0000_0000_0000_0000,
    ensures
        r@ == fixed1(tenths(m as nat, unit as nat)) + name@,
{
    let t = m * 10 / unit;
    let rem = (m * 10) % unit;
    let t = if 2 * rem > unit || (2 * rem == unit && t % 2 == 1) {
        t + 1
    } else {
        t
    };
    assert(t / 10 <= u64::MAX) by (nonlinear_arith)
        requires
            t <= (m as nat) * 10 / (unit as nat) + 1,
            m < 0x2_0000_0000_0000_0000,
            unit >= 0x400,
    ;
    let mut s = decimal_string((t / 10) as u64);
    push_char(&mut s, '.');
    push_char(&mut s, char_from_digit((t % 10) as u32));
    s.append(name);
    s
}

/// A size in bytes for people: `"1.50 GB"`, `"12.00 MB"`, `"3.25 KB"` or
/// `"512 B"`.
pub fn format_size(size: u64) -> (r: String)
    ensures
        r@ == size_text(size as nat),
{
    let m = as_float(size);
    if m >= 0x4000_0000 {
        fixed2_of(m, 0x4000_0000, " GB")
    } else if m >= 0x10_0000 {
        fixed2_of(m, 0x10_0000, " MB")
    } else if m >= 0x400 {
        fixed2_of(m, 0x400, " KB")
    } else {
        let mut t = decimal_string(size);
        t.append(" B");
        t
    }
}

/// The time `days` days before `now` (seconds since 1970 on the local
/// clock, read as UTC), in seconds.
pub open spec fn cutoff_secs(now: int, days: nat) -> int {
    now - days * 86400
}

/// The cut-off for removing records older than `days` days, written as the
/// records' times are; `None` when chrono has no such time.
pub fn cutoff_text(now: i64, days: u32) -> (r: Option<String>)
    requires
        cutoff_secs(now as int, days as nat) >= i64::MIN,
    ensures
        match r {
            Some(t) => utc_timestamp_text(cutoff_secs(now as int, days as nat), TIME_FORMAT@) == Some(t@),
            None => utc_timestamp_text(cutoff_secs(now as int, days as nat), TIME_FORMAT@) is None,
        },
{
    let back: i64 = (days as i64) * 86400;
    utc_text(now - back, TIME_FORMAT)
}

} // verus!
