//! Fixed-point readings and their decimal notation.
//!
//! Percentages, temperatures and load averages are held as whole counts of
//! thousandths, so that ordering and rounding are exact.

use crate::text::{decimal, digit_char, push_char, push_decimal};
use vstd::prelude::*;

verus! {

/// A number with three decimal places, held as its count of thousandths.
#[derive(Debug, Clone, Copy, PartialEq, Eq, Structural)]
pub struct Fixed {
    pub thousandths: i64,
}

/// `10` to the power `exp`.
pub open spec fn pow10(exp: nat) -> nat
    decreases exp,
{
    if exp == 0 {
        1
    } else {
        10 * pow10((exp - 1) as nat)
    }
}

/// `amount / unit` rounded to the nearest whole number, a tie going to the
/// even neighbour.
pub open spec fn round_half_even(amount: nat, unit: nat) -> nat
    recommends
        unit > 0,
{
    let q = amount / unit;
    let r = amount % unit;
    if 2 * r > unit || (2 * r == unit && q % 2 == 1) {
        q + 1
    } else {
        q
    }
}

/// The last `places` decimal digits of `n`, with leading zeros.
pub open spec fn zero_padded(n: nat, places: nat) -> Seq<char>
    decreases places,
{
    if places == 0 {
        Seq::empty()
    } else {
        zero_padded(n / 10, (places - 1) as nat).push(digit_char(n % 10))
    }
}

/// The notation of `scaled / 10^places` with exactly `places` decimals.
pub open spec fn point_text(scaled: nat, places: nat) -> Seq<char> {
    if places == 0 {
        decimal(scaled)
    } else {
        decimal(scaled / pow10(places)) + seq!['.'] + zero_padded(scaled % pow10(places), places)
    }
}

/// Most decimals that a fixed-point number is written with.
pub const MAX_PLACES: u8 = 3;

/// The notation of `thousandths / 1000` rounded half-even to `places`
/// decimals, or to three where more are asked for; a minus sign leads every
/// negative value, also one that rounds to zero.
pub open spec fn fixed_text(thousandths: int, places: nat) -> Seq<char> {
    let shown = if places > MAX_PLACES {
        MAX_PLACES as nat
    } else {
        places
    };
    let magnitude = if thousandths < 0 {
        (-thousandths) as nat
    } else {
        thousandths as nat
    };
    let scaled = round_half_even(magnitude, pow10((3 - shown) as nat));
    if thousandths < 0 {
        seq!['-'] + point_text(scaled, shown)
    } else {
        point_text(scaled, shown)
    }
}

impl Fixed {
    /// The number of that many thousandths.
    pub fn from_thousandths(thousandths: i64) -> (r: Self)
        ensures
            r.thousandths == thousandths,
    {
        Fixed { thousandths }
    }

    /// Whether `self` is above `whole` units.
    pub fn exceeds(&self, whole: i32) -> (r: bool)
        ensures
            r == (self.thousandths > whole * 1000),
    {
        self.thousandths > (whole as i64) * 1000
    }

    /// Whether `self` is at least `whole` units.
    pub fn reaches(&self, whole: i32) -> (r: bool)
        ensures
            r == (self.thousandths >= whole * 1000),
    {
        self.thousandths >= (whole as i64) * 1000
    }

    /// The size of the value without its sign.
    pub fn magnitude(&self) -> (m: u64)
        ensures
            m == if self.thousandths < 0 {
                -(self.thousandths as int)
            } else {
                self.thousandths as int
            },
    {
        if self.thousandths < 0 {
            ((-(self.thousandths + 1)) as u64) + 1
        } else {
            self.thousandths as u64
        }
    }

    /// The decimal notation with `places` decimals, at most three,
    /// rounded half-even.
    pub fn format(&self, places: u8) -> (r: String)
        ensures
            r@ == fixed_text(self.thousandths as int, places as nat),
    {
        let places: u8 = if places > MAX_PLACES {
            MAX_PLACES
        } else {
            places
        };
        let mut r = String::new();
        if self.thousandths < 0 {
            push_char(&mut r, '-');
        }
        let unit = power_of_ten(3 - places);
        let scaled = rounded_quotient(self.magnitude(), unit);
        push_point_text(&mut r, scaled, places);
        proof {
            assert(Seq::<char>::empty().push('-') =~= seq!['-']);
            assert(Seq::<char>::empty() + point_text(scaled as nat, places as nat)
                =~= point_text(scaled as nat, places as nat));
        }
        r
    }
}

/// `2` to the power `exp`.
pub open spec fn pow2(exp: nat) -> nat
    decreases exp,
{
    if exp == 0 {
        1
    } else {
        2 * pow2((exp - 1) as nat)
    }
}

/// The bit that holds the sign of a double: 2^63.
pub const SIGN_BIT: u64 = 0x8000_0000_0000_0000;

/// Number of values of the fraction field of a double: 2^52.
pub const FRACTION_RANGE: u64 = 0x10_0000_0000_0000;

/// The exponent field of a double that holds no number.
pub const SPECIAL_EXPONENT: u64 = 2047;

/// The exponent field at which a double's significand counts units.
pub const UNIT_EXPONENT: u64 = 1075;

/// The bits of a double without its sign.
pub open spec fn double_rest(bits: u64) -> nat {
    if bits >= SIGN_BIT {
        (bits - SIGN_BIT) as nat
    } else {
        bits as nat
    }
}

/// The significand of the double with the bits `bits`, as a whole number.
pub open spec fn double_significand(bits: u64) -> nat {
    if double_rest(bits) / (FRACTION_RANGE as nat) == 0 {
        double_rest(bits) % (FRACTION_RANGE as nat)
    } else {
        double_rest(bits) % (FRACTION_RANGE as nat) + FRACTION_RANGE as nat
    }
}

/// The power of two that the significand is scaled by, counted from the
/// exponent field `UNIT_EXPONENT`.
pub open spec fn double_scale(bits: u64) -> nat {
    if double_rest(bits) / (FRACTION_RANGE as nat) == 0 {
        1
    } else {
        double_rest(bits) / (FRACTION_RANGE as nat)
    }
}

/// The size, in thousandths and rounded half-even, of the number that the
/// double with the bits `bits` holds.
pub open spec fn double_magnitude(bits: u64) -> nat {
    if double_scale(bits) >= UNIT_EXPONENT {
        double_significand(bits) * 1000 * pow2((double_scale(bits) - UNIT_EXPONENT) as nat)
    } else {
        round_half_even(
            double_significand(bits) * 1000,
            pow2((UNIT_EXPONENT - double_scale(bits)) as nat),
        )
    }
}

/// The thousandths that stand for the double with the bits `bits`: its
/// value rounded half-even to a thousandth and held at the range of the
/// number type; the infinities are held at the ends of the range, and what
/// is not a number counts as zero.
pub open spec fn double_thousandths(bits: u64) -> int {
    let special = double_rest(bits) / (FRACTION_RANGE as nat) == SPECIAL_EXPONENT;
    if special && double_rest(bits) % (FRACTION_RANGE as nat) != 0 {
        0
    } else if bits >= SIGN_BIT {
        if special || double_magnitude(bits) > -(i64::MIN as int) {
            i64::MIN as int
        } else {
            -(double_magnitude(bits) as int)
        }
    } else {
        if special || double_magnitude(bits) > i64::MAX {
            i64::MAX as int
        } else {
            double_magnitude(bits) as int
        }
    }
}

proof fn lemma_pow2_grows(small: nat, large: nat)
    requires
        small <= large,
    ensures
        pow2(small) <= pow2(large),
        pow2(small) >= 1,
    decreases large,
{
    if small < large {
        lemma_pow2_grows(small, (large - 1) as nat);
    } else if small > 0 {
        lemma_pow2_grows((small - 1) as nat, (small - 1) as nat);
    }
}

proof fn lemma_pow2_adds(a: nat, b: nat)
    ensures
        pow2(a + b) == pow2(a) * pow2(b),
    decreases b,
{
    if b == 0 {
        assert(pow2(a) * 1 == pow2(a)) by (nonlinear_arith);
    } else {
        lemma_pow2_adds(a, (b - 1) as nat);
        assert(pow2(a) * (2 * pow2((b - 1) as nat)) == 2 * (pow2(a) * pow2((b - 1) as nat)))
            by (nonlinear_arith);
    }
}

proof fn lemma_pow2_values()
    ensures
        pow2(11) == 2048,
        pow2(12) == 4096,
        pow2(63) == 0x8000_0000_0000_0000,
        pow2(64) == 0x1_0000_0000_0000_0000,
{
    reveal_with_fuel(pow2, 17);
    assert(pow2(16) == 65536);
    assert(pow2(15) == 32768);
    lemma_pow2_adds(16, 16);
    assert(pow2(32) == 0x1_0000_0000) by (nonlinear_arith)
        requires
            pow2(32) == pow2(16) * pow2(16),
            pow2(16) == 65536,
    ;
    lemma_pow2_adds(16, 15);
    assert(pow2(31) == 0x8000_0000) by (nonlinear_arith)
        requires
            pow2((16 + 15) as nat) == pow2(16) * pow2(15),
            pow2(16) == 65536,
            pow2(15) == 32768,
    ;
    lemma_pow2_adds(32, 31);
    assert(pow2(63) == 0x8000_0000_0000_0000) by (nonlinear_arith)
        requires
            pow2((32 + 31) as nat) == pow2(32) * pow2(31),
            pow2(32) == 0x1_0000_0000,
            pow2(31) == 0x8000_0000,
    ;
    lemma_pow2_adds(32, 32);
    assert(pow2(64) == 0x1_0000_0000_0000_0000) by (nonlinear_arith)
        requires
            pow2((32 + 32) as nat) == pow2(32) * pow2(32),
            pow2(32) == 0x1_0000_0000,
    ;
}

/// `2^exp` for exponents below 64.
fn power_of_two(exp: u64) -> (r: u128)
    requires
        exp < 64,
    ensures
        r == pow2(exp as nat),
        1 <= r <= 0x8000_0000_0000_0000,
{
    let mut r: u128 = 1;
    let mut i: u64 = 0;
    while i < exp
        invariant
            i <= exp < 64,
            r == pow2(i as nat),
            1 <= r <= 0x8000_0000_0000_0000,
        decreases exp - i,
    {
        proof {
            lemma_pow2_values();
            lemma_pow2_grows((i + 1) as nat, 63);
        }
        r = r * 2;
        i += 1;
    }
    r
}

impl Fixed {
    /// The fixed-point number nearest to the double with the bits `bits`.
    pub fn from_double_bits(bits: u64) -> (r: Self)
        ensures
            r.thousandths == double_thousandths(bits),
    {
        let negative = bits >= SIGN_BIT;
        let rest: u64 = if negative {
            bits - SIGN_BIT
        } else {
            bits
        };
        let exponent: u64 = rest / FRACTION_RANGE;
        let fraction: u64 = rest % FRACTION_RANGE;
        if exponent == SPECIAL_EXPONENT {
            return if fraction != 0 {
                Fixed { thousandths: 0 }
            } else if negative {
                Fixed { thousandths: i64::MIN }
            } else {
                Fixed { thousandths: i64::MAX }
            };
        }
        let significand: u64 = if exponent == 0 {
            fraction
        } else {
            fraction + FRACTION_RANGE
        };
        let scale: u64 = if exponent == 0 {
            1
        } else {
            exponent
        };
        let scaled: u128 = significand as u128 * 1000;
        let limit: u128 = if negative {
            0x8000_0000_0000_0000
        } else {
            0x7fff_ffff_ffff_ffff
        };
        let magnitude: u128 = if scale >= UNIT_EXPONENT {
            let up: u64 = scale - UNIT_EXPONENT;
            if up >= 12 {
                proof {
                    lemma_pow2_grows(12, up as nat);
                    lemma_pow2_values();
                    assert(scaled * pow2(up as nat) > 0x8000_0000_0000_0000) by (nonlinear_arith)
                        requires
                            scaled >= 0x10_0000_0000_0000 * 1000,
                            pow2(up as nat) >= 4096,
                    ;
                }
                limit + 1
            } else {
                let factor = power_of_two(up);
                proof {
                    lemma_pow2_grows(up as nat, 11);
                    lemma_pow2_values();
                    assert(scaled * factor <= 0x20_0000_0000_0000 * 1000 * 2048)
                        by (nonlinear_arith)
                        requires
                            scaled <= 0x20_0000_0000_0000 * 1000,
                            factor <= 2048,
                    ;
                }
                scaled * factor
            }
        } else {
            let down: u64 = UNIT_EXPONENT - scale;
            if down >= 64 {
                proof {
                    lemma_pow2_grows(64, down as nat);
                    lemma_pow2_values();
                    let unit = pow2(down as nat);
                    assert(scaled as nat / unit == 0 && scaled as nat % unit == scaled)
                        by (nonlinear_arith)
                        requires
                            scaled < 0x8000_0000_0000_0000,
                            unit >= 0x1_0000_0000_0000_0000,
                    ;
                }
                0
            } else {
                let unit = power_of_two(down);
                let q: u128 = scaled / unit;
                let rem: u128 = scaled % unit;
                if 2 * rem > unit || (2 * rem == unit && q % 2 == 1) {
                    q + 1
                } else {
                    q
                }
            }
        };
        proof {
            assert(magnitude > limit <==> double_magnitude(bits) > limit);
            assert(magnitude <= limit ==> magnitude == double_magnitude(bits));
        }
        if magnitude > limit {
            if negative {
                Fixed { thousandths: i64::MIN }
            } else {
                Fixed { thousandths: i64::MAX }
            }
        } else if negative {
            if magnitude == 0x8000_0000_0000_0000 {
                Fixed { thousandths: i64::MIN }
            } else {
                Fixed { thousandths: -(magnitude as i64) }
            }
        } else {
            Fixed { thousandths: magnitude as i64 }
        }
    }
}

/// `10^exp` for the small exponents used in notation.
fn power_of_ten(exp: u8) -> (r: u64)
    requires
        exp <= 3,
    ensures
        r == pow10(exp as nat),
        r == 1 || r == 10 || r == 100 || r == 1000,
{
    reveal_with_fuel(pow10, 5);
    if exp == 0 {
        1
    } else if exp == 1 {
        10
    } else if exp == 2 {
        100
    } else {
        1000
    }
}

/// `amount / unit`, rounded half-even.
fn rounded_quotient(amount: u64, unit: u64) -> (r: u64)
    requires
        unit > 0,
        unit <= 1000,
    ensures
        r == round_half_even(amount as nat, unit as nat),
{
    let q = amount / unit;
    let rem = amount % unit;
    if 2 * rem > unit || (2 * rem == unit && q % 2 == 1) {
        proof {
            assert(unit == 1 ==> rem == 0);
            assert(q < u64::MAX) by {
                if unit >= 2 {
                    assert(amount / unit <= amount / 2) by (nonlinear_arith)
                        requires
                            unit >= 2,
                    ;
                }
            }
        }
        q + 1
    } else {
        q
    }
}

/// Appends the last `places` digits of `n`, with leading zeros.
pub fn push_zero_padded(s: &mut String, n: u64, places: u8)
    ensures
        final(s)@ == old(s)@ + zero_padded(n as nat, places as nat),
    decreases places,
{
    if places > 0 {
        push_zero_padded(s, n / 10, places - 1);
        push_char(s, (48u8 + (n % 10) as u8) as char);
    }
    proof {
        assert(s@ =~= old(s)@ + zero_padded(n as nat, places as nat));
    }
}

/// Appends `scaled / 10^places` with exactly `places` decimals.
pub(crate) fn push_point_text(s: &mut String, scaled: u64, places: u8)
    requires
        places <= 3,
    ensures
        final(s)@ == old(s)@ + point_text(scaled as nat, places as nat),
{
    if places == 0 {
        push_decimal(s, scaled);
    } else {
        let unit = power_of_ten(places);
        push_decimal(s, scaled / unit);
        push_char(s, '.');
        push_zero_padded(s, scaled % unit, places);
        proof {
            assert(s@ =~= old(s)@ + point_text(scaled as nat, places as nat));
        }
    }
}

} // verus!
