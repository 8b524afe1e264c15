//! Rendering fixed-point values (hundredths) with a given number of decimals,
//! as `{:.N}` renders the `f64` nearest to the value.
//!
//! A value of `m` hundredths stands for the double nearest to `m / 100`, the
//! one parsing its decimal text gives. Formatting rounds that double's exact
//! expansion, so a decimal tie (`90.35` to one decimal) goes the way the
//! double lies: below (`90.3`), above, or, when the double is the tie itself
//! (`0.25`), to the even neighbour. Below `2^45` units the double stays
//! within a hundredth of the value, so only such ties can come out
//! differently from decimal rounding; above it, ties go to the even
//! neighbour.

use vstd::prelude::*;

use crate::text::{decimal, digit_char, digit_of, push_decimal};

verus! {

/// `100 · 2^52`: hundredths whose value has a full 53-bit significand.
pub open spec fn significand_floor() -> nat {
    450359962737049600
}

/// `100 · 2^45`: the hundredths below which ties are settled by the double.
pub open spec fn tie_range() -> nat {
    3518437208883200
}

/// `n` doubled until it reaches `significand_floor()`: for `n = m`, the
/// value `m / 100` scaled by a power of two into `[2^52, 2^53)`, still over
/// 100.
pub open spec fn lifted(n: nat) -> nat
    decreases (if n < significand_floor() {
        significand_floor() - n
    } else {
        0
    }),
{
    if n == 0 || n >= significand_floor() {
        n
    } else {
        lifted(2 * n)
    }
}

/// Which side of `m / 100` the nearest double lies: `-1` below, `1` above,
/// `0` on it (or, from `tie_range()` up, taken as on it). The scaled value
/// `lifted(m) / 100` is rounded to a whole significand, ties to even; the
/// remainder says which way it went.
pub open spec fn double_side(m: nat) -> int {
    if m == 0 || m >= tie_range() {
        0
    } else {
        let n = lifted(m);
        let q = n / 100;
        let r = n % 100;
        if r == 0 {
            0
        } else if 2 * r > 100 {
            1
        } else if 2 * r < 100 {
            -1
        } else if q % 2 == 0 {
            -1
        } else {
            1
        }
    }
}

/// `v / unit` rounded as `{:.N}` rounds the double nearest to `v / 100`:
/// to the nearest integer, and a decimal tie by the side the double lies
/// on, to the even neighbour when it lies on the tie.
pub open spec fn rounded(v: nat, unit: nat) -> nat
    recommends
        unit > 0,
{
    let q = v / unit;
    let r = v % unit;
    if 2 * r > unit {
        q + 1
    } else if 2 * r < unit {
        q
    } else if double_side(v) < 0 {
        q
    } else if double_side(v) > 0 {
        q + 1
    } else if q % 2 == 0 {
        q
    } else {
        q + 1
    }
}

/// The magnitude of `v`.
pub open spec fn magnitude(v: int) -> nat {
    if v < 0 {
        (-v) as nat
    } else {
        v as nat
    }
}

/// The sign `{:.N}` prints: a minus for a negative value.
pub open spec fn sign(v: int) -> Seq<char> {
    if v < 0 {
        "-"@
    } else {
        seq![]
    }
}

/// A whole number as `{}` prints it.
pub open spec fn int_text(v: int) -> Seq<char> {
    sign(v) + decimal(magnitude(v))
}

/// `v` hundredths with no decimal (`{:.0}`).
pub open spec fn dp0(v: int) -> Seq<char> {
    sign(v) + decimal(rounded(magnitude(v), 100))
}

/// `v` hundredths with one decimal (`{:.1}`).
pub open spec fn dp1(v: int) -> Seq<char> {
    let tenths = rounded(magnitude(v), 10);
    sign(v) + decimal(tenths / 10) + "."@ + seq![digit_char(tenths % 10)]
}

/// `v` hundredths with two decimals (`{:.2}`).
pub open spec fn dp2(v: int) -> Seq<char> {
    let m = magnitude(v);
    sign(v) + decimal(m / 100) + "."@ + seq![digit_char((m % 100) / 10), digit_char(m % 10)]
}

fn magnitude_of(v: i64) -> (r: u64)
    ensures
        r == magnitude(v as int),
{
    if v < 0 {
        (-(v as i128)) as u64
    } else {
        v as u64
    }
}

fn side_of(m: u64) -> (s: i8)
    ensures
        s == double_side(m as nat),
{
    if m == 0 || m >= 3518437208883200 {
        return 0;
    }
    let mut n: u64 = m;
    while n < 450359962737049600
        invariant
            1 <= n < 2 * significand_floor(),
            lifted(n as nat) == lifted(m as nat),
        decreases (if n < significand_floor() {
            significand_floor() - n
        } else {
            0
        }),
    {
        n = 2 * n;
    }
    let q = n / 100;
    let r = n % 100;
    if r == 0 {
        0
    } else if 2 * r > 100 {
        1
    } else if 2 * r < 100 {
        -1
    } else if q % 2 == 0 {
        -1
    } else {
        1
    }
}

fn rounded_of(v: u64, unit: u64) -> (r: u64)
    requires
        unit == 10 || unit == 100,
    ensures
        r == rounded(v as nat, unit as nat),
{
    let q = v / unit;
    let rem = v % unit;
    if 2 * rem > unit {
        q + 1
    } else if 2 * rem < unit {
        q
    } else {
        let side = side_of(v);
        if side < 0 {
            q
        } else if side > 0 {
            q + 1
        } else if q % 2 == 0 {
            q
        } else {
            q + 1
        }
    }
}

fn push_sign(out: &mut Vec<char>, v: i64)
    ensures
        final(out)@ == old(out)@ + sign(v as int),
{
    if v < 0 {
        out.push('-');
        assert(sign(v as int) == seq!['-']) by {
            reveal_strlit("-");
        }
    } else {
        assert(old(out)@ + sign(v as int) =~= old(out)@);
    }
}

/// Appends the whole number `v`.
pub fn push_int(out: &mut Vec<char>, v: i64)
    ensures
        final(out)@ == old(out)@ + int_text(v as int),
{
    push_sign(out, v);
    push_decimal(out, magnitude_of(v));
    assert(final(out)@ =~= old(out)@ + int_text(v as int));
}

/// Appends `v` hundredths with no decimal.
pub fn push_dp0(out: &mut Vec<char>, v: i64)
    ensures
        final(out)@ == old(out)@ + dp0(v as int),
{
    push_sign(out, v);
    let m = magnitude_of(v);
    push_decimal(out, rounded_of(m, 100));
    assert(final(out)@ =~= old(out)@ + dp0(v as int));
}

/// Appends `v` hundredths with one decimal.
pub fn push_dp1(out: &mut Vec<char>, v: i64)
    ensures
        final(out)@ == old(out)@ + dp1(v as int),
{
    push_sign(out, v);
    let m = magnitude_of(v);
    let tenths = rounded_of(m, 10);
    push_decimal(out, tenths / 10);
    out.push('.');
    out.push(digit_of(tenths % 10));
    proof {
        reveal_strlit(".");
    }
    assert(final(out)@ =~= old(out)@ + dp1(v as int));
}

/// Appends `v` hundredths with two decimals.
pub fn push_dp2(out: &mut Vec<char>, v: i64)
    ensures
        final(out)@ == old(out)@ + dp2(v as int),
{
    push_sign(out, v);
    let m = magnitude_of(v);
    push_decimal(out, m / 100);
    out.push('.');
    out.push(digit_of((m % 100) / 10));
    out.push(digit_of(m % 10));
    proof {
        reveal_strlit(".");
    }
    assert(final(out)@ =~= old(out)@ + dp2(v as int));
}

} // verus!
