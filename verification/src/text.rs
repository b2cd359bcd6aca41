//! Numbers as text: the decimal digits of a count, padded with zeros, and a
//! fixed-point quantity rounded to three decimals.

use vstd::prelude::*;
use crate::grid::CELL;

verus! {

/// The glyph of the digit zero.
pub const DIGIT_ZERO: u8 = 48;

/// The glyph of the minus sign.
pub const MINUS: u8 = 45;

/// The glyph of the decimal point.
pub const POINT: u8 = 46;

/// The number of decimals that a fixed-point quantity is written with.
pub const DECIMALS: usize = 3;

/// The number of units in one thousandth of a cell, the last decimal that
/// is written.
pub const MILLI: u64 = 1000000;

/// The glyph of the digit `d`.
pub open spec fn digit_glyph(d: int) -> u8 {
    (DIGIT_ZERO + d) as u8
}

/// The decimal digits of `n`, the most significant first, without leading
/// zeros; `0` is one digit.
pub open spec fn decimal(n: nat) -> Seq<u8>
    decreases n,
{
    if n < 10 {
        seq![digit_glyph(n as int)]
    } else {
        decimal(n / 10).push(digit_glyph((n % 10) as int))
    }
}

/// `count` zeros.
pub open spec fn zeros(count: nat) -> Seq<u8> {
    Seq::new(count, |i: int| DIGIT_ZERO)
}

/// The decimal digits of `n` after as many zeros as bring them to `width`
/// glyphs; a number with more digits is not cut.
pub open spec fn zero_padded(n: nat, width: nat) -> Seq<u8> {
    if decimal(n).len() < width {
        zeros((width - decimal(n).len()) as nat) + decimal(n)
    } else {
        decimal(n)
    }
}

/// A whole number in at least two glyphs: a minus sign and the digits where
/// it is negative, else the digits padded to two with a zero.
pub open spec fn two_wide(v: int) -> Seq<u8> {
    if v < 0 {
        seq![MINUS] + decimal((-v) as nat)
    } else {
        zero_padded(v as nat, 2)
    }
}

/// A quantity of `v` units in thousandths of a cell, without its sign and
/// rounded to the nearest; a half rounds away from zero.
pub open spec fn thousandths(v: int) -> nat {
    let m: int = if v < 0 { -v } else { v };
    ((m + MILLI / 2) / (MILLI as int)) as nat
}

/// A quantity of `v` units in cells, rounded to three decimals: a minus sign
/// where `v` is negative, the whole cells, the decimal point and the
/// thousandths in three digits.
pub open spec fn fixed_point(v: int) -> Seq<u8> {
    let sign: Seq<u8> = if v < 0 { seq![MINUS] } else { seq![] };
    sign + decimal(thousandths(v) / 1000) + seq![POINT] + zero_padded(
        thousandths(v) % 1000,
        DECIMALS as nat,
    )
}

/// A cell has a thousand thousandths.
pub proof fn milli_is_a_thousandth_of_a_cell()
    ensures
        MILLI * 1000 == CELL,
{
}

/// A number has at least one digit, and at most twenty where it fits 64 bits.
pub proof fn decimal_length(n: nat)
    ensures
        1 <= decimal(n).len(),
        n <= u64::MAX ==> decimal(n).len() <= 20,
        n < 10 ==> decimal(n).len() == 1,
        10 <= n < 100 ==> decimal(n).len() == 2,
{
    reveal_with_fuel(decimal, 21);
}

/// Bounds on the length of a number of 32 bits as text, loose ones that
/// leave room to spare.
pub proof fn signed_lengths(v: int)
    requires
        i32::MIN <= v <= i32::MAX,
    ensures
        2 <= two_wide(v).len() <= 21,
        5 <= fixed_point(v).len() <= 42,
{
    let m: nat = (if v < 0 { -v } else { v }) as nat;
    let whole = decimal(thousandths(v) / 1000);
    let part = zero_padded(thousandths(v) % 1000, DECIMALS as nat);
    decimal_length(m);
    decimal_length(thousandths(v) / 1000);
    decimal_length(thousandths(v) % 1000);
    assert(3 <= part.len() <= 20);
    assert(1 <= whole.len() <= 20);
    let sign: Seq<u8> = if v < 0 { seq![MINUS] } else { seq![] };
    assert(fixed_point(v) == sign + whole + seq![POINT] + part);
    assert((sign + whole + seq![POINT] + part).len() == sign.len() + whole.len() + 1 + part.len());
}

/// The number of decimal digits of `n`.
pub fn digit_count(n: u64) -> (count: usize)
    ensures
        count == decimal(n as nat).len(),
        1 <= count <= 20,
    decreases n,
{
    proof {
        decimal_length(n as nat);
    }
    if n < 10 {
        1
    } else {
        digit_count(n / 10) + 1
    }
}

/// Appends the decimal digits of `n`.
pub fn push_decimal(out: &mut Vec<u8>, n: u64)
    ensures
        final(out)@ == old(out)@ + decimal(n as nat),
    decreases n,
{
    if n < 10 {
        out.push(DIGIT_ZERO + n as u8);
    } else {
        push_decimal(out, n / 10);
        out.push(DIGIT_ZERO + (n % 10) as u8);
    }
}

/// Appends the decimal digits of `n`, padded with zeros to `width` glyphs.
pub fn push_zero_padded(out: &mut Vec<u8>, n: u64, width: usize)
    ensures
        final(out)@ == old(out)@ + zero_padded(n as nat, width as nat),
{
    let count = digit_count(n);
    let mut k: usize = count;
    assert(out@ =~= old(out)@ + zeros(0));
    while k < width
        invariant
            count <= k,
            k <= width || k == count,
            out@ == old(out)@ + zeros((k - count) as nat),
        decreases width - k,
    {
        out.push(DIGIT_ZERO);
        k = k + 1;
        assert(out@ =~= old(out)@ + zeros((k - count) as nat));
    }
    let ghost padded = out@;
    push_decimal(out, n);
    assert(out@ =~= old(out)@ + zero_padded(n as nat, width as nat)) by {
        assert(padded == old(out)@ + zeros((k - count) as nat));
        assert(out@ == padded + decimal(n as nat));
    }
}

/// Appends a whole number in at least two glyphs.
pub fn push_two_wide(out: &mut Vec<u8>, v: i32)
    ensures
        final(out)@ == old(out)@ + two_wide(v as int),
{
    if v < 0 {
        out.push(MINUS);
        push_decimal(out, (-(v as i64)) as u64);
    } else {
        push_zero_padded(out, v as u64, 2);
    }
}

/// Appends a quantity of `v` units, written in cells and rounded to three
/// decimals.
pub fn push_fixed_point(out: &mut Vec<u8>, v: i32)
    ensures
        final(out)@ == old(out)@ + fixed_point(v as int),
{
    let m: u64 = if v < 0 { (-(v as i64)) as u64 } else { v as u64 };
    if v < 0 {
        out.push(MINUS);
    }
    let rounded: u64 = (m + MILLI / 2) / MILLI;
    push_decimal(out, rounded / 1000);
    out.push(POINT);
    push_zero_padded(out, rounded % 1000, DECIMALS);
}

} // verus!
