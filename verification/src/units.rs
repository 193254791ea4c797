//! Byte counts and byte rates in binary units.

use crate::numbers::{point_text, push_point_text, round_half_even};
use crate::text::decimal;
use crate::text::push_decimal;
use vstd::prelude::*;
use vstd::string::*;

verus! {

/// Bytes in a kilobyte, a megabyte, a gigabyte and a terabyte of the binary kind.
pub const KIB: u64 = 1024;

pub const MIB: u64 = 1024 * 1024;

pub const GIB: u64 = 1024 * 1024 * 1024;

pub const TIB: u64 = 1024 * 1024 * 1024 * 1024;

/// Distance between the values that a count of the size of `n` is rounded
/// to: one below 2^53, then doubling with every further bit.
pub open spec fn grain(n: nat) -> nat {
    if n < 0x20_0000_0000_0000 {
        1
    } else if n < 0x40_0000_0000_0000 {
        2
    } else if n < 0x80_0000_0000_0000 {
        4
    } else if n < 0x100_0000_0000_0000 {
        8
    } else if n < 0x200_0000_0000_0000 {
        16
    } else if n < 0x400_0000_0000_0000 {
        32
    } else if n < 0x800_0000_0000_0000 {
        64
    } else if n < 0x1000_0000_0000_0000 {
        128
    } else if n < 0x2000_0000_0000_0000 {
        256
    } else if n < 0x4000_0000_0000_0000 {
        512
    } else if n < 0x8000_0000_0000_0000 {
        1024
    } else {
        2048
    }
}

/// `n` taken to 53 significant bits, a tie going to the even neighbour.
pub open spec fn significant(n: nat) -> nat {
    round_half_even(n, grain(n)) * grain(n)
}

/// The size of the unit with index `unit`: 1024 to that power.
pub open spec fn unit_size(unit: nat) -> nat {
    if unit == 0 {
        1
    } else if unit == 1 {
        KIB as nat
    } else if unit == 2 {
        MIB as nat
    } else if unit == 3 {
        GIB as nat
    } else {
        TIB as nat
    }
}

/// The name of the unit with index `unit`.
pub open spec fn unit_name(unit: nat) -> Seq<char> {
    if unit == 0 {
        "B"@
    } else if unit == 1 {
        "KB"@
    } else if unit == 2 {
        "MB"@
    } else if unit == 3 {
        "GB"@
    } else {
        "TB"@
    }
}

/// Index of the largest unit, up to `largest`, that `bytes` reaches.
pub open spec fn unit_index(bytes: nat, largest: nat) -> nat {
    if bytes < KIB || largest == 0 {
        0
    } else if bytes < MIB || largest == 1 {
        1
    } else if bytes < GIB || largest == 2 {
        2
    } else if bytes < TIB || largest == 3 {
        3
    } else {
        4
    }
}

/// `bytes` in the largest unit it reaches, up to the unit with index
/// `largest`: a whole number of bytes, or one decimal of a larger unit,
/// rounded half-even from the count taken to 53 significant bits.
pub open spec fn scaled_text(bytes: nat, largest: nat) -> Seq<char> {
    let unit = unit_index(bytes, largest);
    if unit == 0 {
        decimal(bytes) + unit_name(0)
    } else {
        point_text(round_half_even(significant(bytes) * 10, unit_size(unit)), 1) + unit_name(unit)
    }
}

/// What `format_bytes` writes: units up to TB.
pub open spec fn bytes_text(bytes: u64) -> Seq<char> {
    scaled_text(bytes as nat, 4)
}

/// What `format_rate` writes: units up to GB.
pub open spec fn rate_text(bytes_per_sec: u64) -> Seq<char> {
    scaled_text(bytes_per_sec as nat, 3)
}

fn unit_of(bytes: u64, largest: u8) -> (unit: u8)
    ensures
        unit == unit_index(bytes as nat, largest as nat),
        unit <= 4,
{
    if bytes < KIB || largest == 0 {
        0
    } else if bytes < MIB || largest == 1 {
        1
    } else if bytes < GIB || largest == 2 {
        2
    } else if bytes < TIB || largest == 3 {
        3
    } else {
        4
    }
}

fn size_of_unit(unit: u8) -> (size: u64)
    ensures
        size == unit_size(unit as nat),
        0 < size <= TIB,
        unit >= 1 ==> size >= 1024,
{
    if unit == 0 {
        1
    } else if unit == 1 {
        KIB
    } else if unit == 2 {
        MIB
    } else if unit == 3 {
        GIB
    } else {
        TIB
    }
}

fn name_of_unit(unit: u8) -> (name: &'static str)
    ensures
        name@ == unit_name(unit as nat),
{
    if unit == 0 {
        "B"
    } else if unit == 1 {
        "KB"
    } else if unit == 2 {
        "MB"
    } else if unit == 3 {
        "GB"
    } else {
        "TB"
    }
}

/// `amount / unit`, rounded half-even, on wide numbers.
fn wide_rounded_quotient(amount: u128, unit: u128) -> (r: u128)
    requires
        unit > 0,
        unit <= 0xffff_ffff_ffff_ffff_ffff,
        amount <= 0xffff_ffff_ffff_ffff_ffff,
    ensures
        r == round_half_even(amount as nat, unit as nat),
        r <= amount / unit + 1,
{
    let q: u128 = amount / unit;
    let rem: u128 = amount % unit;
    proof {
        assert(q <= amount) by (nonlinear_arith)
            requires
                q == amount / unit,
                unit > 0,
        ;
    }
    if 2 * rem > unit || (2 * rem == unit && q % 2 == 1) {
        q + 1
    } else {
        q
    }
}

fn grain_of(bytes: u64) -> (g: u64)
    ensures
        g == grain(bytes as nat),
        1 <= g <= 2048,
        0x1_0000_0000_0000_0000nat % (g as nat) == 0,
{
    if bytes < 0x20_0000_0000_0000 {
        1
    } else if bytes < 0x40_0000_0000_0000 {
        2
    } else if bytes < 0x80_0000_0000_0000 {
        4
    } else if bytes < 0x100_0000_0000_0000 {
        8
    } else if bytes < 0x200_0000_0000_0000 {
        16
    } else if bytes < 0x400_0000_0000_0000 {
        32
    } else if bytes < 0x800_0000_0000_0000 {
        64
    } else if bytes < 0x1000_0000_0000_0000 {
        128
    } else if bytes < 0x2000_0000_0000_0000 {
        256
    } else if bytes < 0x4000_0000_0000_0000 {
        512
    } else if bytes < 0x8000_0000_0000_0000 {
        1024
    } else {
        2048
    }
}

/// `bytes` taken to 53 significant bits.
fn to_significant(bytes: u64) -> (r: u128)
    ensures
        r == significant(bytes as nat),
        r <= 0x1_0000_0000_0000_0000,
{
    let step = grain_of(bytes);
    let rounded = wide_rounded_quotient(bytes as u128, step as u128);
    proof {
        lemma_rounded_below_multiple(bytes as nat, step as nat, 0x1_0000_0000_0000_0000nat);
    }
    rounded * step as u128
}

/// Rounding to a multiple of `unit` does not pass a multiple of `unit`
/// that lies above the amount.
proof fn lemma_rounded_below_multiple(amount: nat, unit: nat, bound: nat)
    requires
        unit > 0,
        amount <= bound,
        bound % unit == 0,
    ensures
        round_half_even(amount, unit) * unit <= bound,
{
    let q = amount / unit;
    let r = amount % unit;
    let b = bound / unit;
    assert(amount == q * unit + r && r < unit) by (nonlinear_arith)
        requires
            q == amount / unit,
            r == amount % unit,
            unit > 0,
    ;
    assert(bound == b * unit) by (nonlinear_arith)
        requires
            b == bound / unit,
            bound % unit == 0,
            unit > 0,
    ;
    if r > 0 {
        assert(q + 1 <= b) by (nonlinear_arith)
            requires
                q * unit + r <= b * unit,
                r > 0,
                unit > 0,
        ;
    } else {
        assert(q <= b) by (nonlinear_arith)
            requires
                q * unit <= b * unit,
                unit > 0,
        ;
    }
    assert(round_half_even(amount, unit) <= b);
    assert(round_half_even(amount, unit) * unit <= b * unit) by (nonlinear_arith)
        requires
            round_half_even(amount, unit) <= b,
    ;
}

/// Writes `bytes` in the largest unit it reaches, up to the unit `largest`.
fn format_scaled(bytes: u64, largest: u8) -> (r: String)
    ensures
        r@ == scaled_text(bytes as nat, largest as nat),
{
    let unit = unit_of(bytes, largest);
    let mut r = String::new();
    if unit == 0 {
        push_decimal(&mut r, bytes);
    } else {
        let size = size_of_unit(unit);
        let taken = to_significant(bytes);
        let tenths = wide_rounded_quotient(taken * 10, size as u128);
        proof {
            assert((taken * 10) / (size as int) <= 0xffff_ffff_ffff_fff) by (nonlinear_arith)
                requires
                    taken <= 0x1_0000_0000_0000_0000,
                    size >= 1024,
            ;
        }
        push_point_text(&mut r, tenths as u64, 1);
    }
    let ghost number = r@;
    r.append(name_of_unit(unit));
    proof {
        assert(Seq::<char>::empty() + decimal(bytes as nat) =~= decimal(bytes as nat));
        assert(forall|t: Seq<char>| Seq::<char>::empty() + t =~= t);
        assert(r@ == number + unit_name(unit as nat));
    }
    r
}

/// A byte count in binary units up to TB, with one decimal above bytes.
pub fn format_bytes(bytes: u64) -> (r: String)
    ensures
        r@ == bytes_text(bytes),
{
    format_scaled(bytes, 4)
}

/// A byte rate in binary units up to GB, with one decimal above bytes.
pub fn format_rate(bytes_per_sec: u64) -> (r: String)
    ensures
        r@ == rate_text(bytes_per_sec),
{
    format_scaled(bytes_per_sec, 3)
}

} // verus!
