//! Frame rates, held exactly as the bit pattern of an IEEE-754 double.
//!
//! A rate is never computed with in floating point. What is asked of it, how
//! it compares with a whole number and how long one frame lasts at it, is
//! answered in integer arithmetic on the sign, the exponent and the fraction
//! of the pattern, and is exact.

use vstd::prelude::*;
use vstd::arithmetic::div_mod::lemma_basic_div;
use vstd::arithmetic::div_mod::lemma_div_is_ordered;
use vstd::arithmetic::div_mod::lemma_div_multiples_vanish_quotient;
use vstd::arithmetic::mul::lemma_mul_inequality;
use vstd::arithmetic::mul::lemma_mul_is_associative;
use vstd::arithmetic::mul::lemma_mul_is_commutative;
use vstd::arithmetic::mul::lemma_mul_strict_inequality;
use vstd::arithmetic::power2::lemma2_to64;
use vstd::arithmetic::power2::lemma2_to64_rest;
use vstd::arithmetic::power2::lemma_pow2_adds;
use vstd::arithmetic::power2::lemma_pow2_pos;
use vstd::arithmetic::power2::lemma_pow2_strictly_increases;
use vstd::arithmetic::power2::lemma_pow2_unfold;
use vstd::arithmetic::power2::pow2;

verus! {

/// A frame rate in frames per second.
///
/// The rate is carried as the 64 bits of a double-precision number, so every
/// single- and double-precision value passes through unchanged.
#[derive(Clone, Copy, Debug, PartialEq, Eq, Structural)]
pub struct Rate {
    pub bits: u64,
}

/// The bit pattern of 1 frame per second.
pub const ONE_FPS_BITS: u64 = 0x3FF0_0000_0000_0000;

/// The bit pattern of 30 frames per second.
pub const THIRTY_FPS_BITS: u64 = 0x403E_0000_0000_0000;

/// Two to the power of 52: the weight of the leading bit of a significand.
pub const LEADING_BIT: u64 = 0x10_0000_0000_0000;

/// Two to the power of 63: the weight of the sign bit.
pub const SIGN_BIT: u64 = 0x8000_0000_0000_0000;

/// The exponent field of infinities and of values that are not numbers.
pub const TOP_EXPONENT: u64 = 0x7FF;

/// The magnitude of the number 1, counted in units of 2^-1074, the smallest
/// positive double.
pub open spec fn unit() -> nat {
    pow2(1074)
}

impl Rate {
    /// The sign bit: 1 for negative values and negative zero.
    pub open spec fn sign(self) -> nat {
        (self.bits / SIGN_BIT) as nat
    }

    /// The exponent field, 11 bits.
    pub open spec fn exponent(self) -> nat {
        ((self.bits / LEADING_BIT) % 0x800) as nat
    }

    /// The fraction field, 52 bits.
    pub open spec fn fraction(self) -> nat {
        (self.bits % LEADING_BIT) as nat
    }

    /// Whether the pattern stands for no number.
    pub open spec fn is_nan(self) -> bool {
        self.exponent() == TOP_EXPONENT && self.fraction() != 0
    }

    /// Whether the pattern stands for a number that is not infinite.
    pub open spec fn is_finite(self) -> bool {
        self.exponent() < TOP_EXPONENT
    }

    /// The magnitude of a finite rate, counted in units of 2^-1074. Every
    /// finite double is a whole number of these units.
    pub open spec fn ticks(self) -> nat {
        if self.exponent() == 0 {
            self.fraction()
        } else {
            ((LEADING_BIT + self.fraction()) * pow2((self.exponent() - 1) as nat)) as nat
        }
    }

    /// Whether the rate is a number and at least `k`.
    pub open spec fn at_least(self, k: nat) -> bool {
        if self.is_nan() {
            false
        } else if self.sign() == 1 {
            k == 0 && self.is_finite() && self.ticks() == 0
        } else {
            !self.is_finite() || self.ticks() >= k * unit()
        }
    }

    /// Whether the rate is a number and at most `k`.
    pub open spec fn at_most(self, k: nat) -> bool {
        if self.is_nan() {
            false
        } else if self.sign() == 1 {
            true
        } else {
            self.is_finite() && self.ticks() <= k * unit()
        }
    }

    /// The time one frame lasts at this rate, `units` making one second,
    /// rounded down to a whole number and cut off at the largest 64-bit value.
    ///
    /// At zero frames per second a frame lasts for ever, which gives the
    /// largest value. A rate that is negative, infinite or no number gives 0.
    pub open spec fn period(self, units: nat) -> nat {
        if !self.is_finite() || self.sign() == 1 {
            0
        } else if self.ticks() == 0 {
            u64::MAX as nat
        } else if units * unit() / self.ticks() > u64::MAX {
            u64::MAX as nat
        } else {
            units * unit() / self.ticks()
        }
    }

    /// How the magnitude of a finite rate stands to `k`: 0 where they are
    /// equal, 1 where the magnitude is greater, 2 where it is less.
    pub open spec fn weighed(self, k: nat) -> nat {
        if self.ticks() == k * unit() {
            0
        } else if self.ticks() > k * unit() {
            1
        } else {
            2
        }
    }

    /// The rate with the given bit pattern.
    pub fn from_bits(bits: u64) -> (r: Rate)
        ensures
            r.bits == bits,
    {
        Rate { bits }
    }

    /// The bit pattern of this rate.
    pub fn to_bits(&self) -> (bits: u64)
        ensures
            bits == self.bits,
    {
        self.bits
    }
}

/// Multiplying both sides by the same positive number keeps their order.
proof fn lemma_scaled_order(a: int, b: int, c: int)
    requires
        c > 0,
    ensures
        (a * c == b * c) <==> (a == b),
        (a * c < b * c) <==> (a < b),
{
    assert((a * c == b * c) <==> (a == b)) by (nonlinear_arith)
        requires
            c > 0,
    ;
    assert((a * c < b * c) <==> (a < b)) by (nonlinear_arith)
        requires
            c > 0,
    ;
}

/// Two to the power of 1074 split at `d`.
proof fn lemma_unit_split(d: nat)
    requires
        d <= 1074,
    ensures
        unit() == pow2((1074 - d) as nat) * pow2(d),
        pow2(d) > 0,
        pow2((1074 - d) as nat) > 0,
{
    lemma_pow2_adds((1074 - d) as nat, d);
    lemma_pow2_pos(d);
    lemma_pow2_pos((1074 - d) as nat);
}

/// A quotient is at least `q` where the dividend is at least `q` divisors,
/// and below `q` where the dividend is below `q` divisors.
proof fn lemma_quotient_bounds(x: int, m: int, q: int)
    requires
        m > 0,
        0 <= x,
        0 <= q,
    ensures
        x >= q * m ==> x / m >= q,
        x < q * m ==> x / m < q,
{
    vstd::arithmetic::div_mod::lemma_fundamental_div_mod(x, m);
    assert(x >= q * m ==> x / m >= q) by (nonlinear_arith)
        requires
            m > 0,
            x == m * (x / m) + x % m,
            0 <= x % m < m,
    ;
    assert(x < q * m ==> x / m < q) by (nonlinear_arith)
        requires
            m > 0,
            x == m * (x / m) + x % m,
            0 <= x % m < m,
    ;
}

/// The time of one frame at a rate of magnitude `m * 2^d` units, for `d`
/// below 1074: the common power of two cancels.
proof fn lemma_period_quotient(units: nat, m: nat, d: nat)
    requires
        d < 1074,
        m > 0,
    ensures
        units * unit() / (m * pow2(d)) == units * pow2((1074 - d) as nat) / m,
{
    lemma_unit_split(d);
    let low = pow2(d);
    let high = pow2((1074 - d) as nat);
    lemma_div_multiples_vanish_quotient(low as int, (units * high) as int, m as int);
    assert(low * (units * high) == units * unit()) by (nonlinear_arith)
        requires
            unit() == high * low,
    ;
    assert(low * m == m * low) by (nonlinear_arith);
}

/// The bit pattern of 120 frames per second.
pub const HUNDRED_TWENTY_FPS_BITS: u64 = 0x405E_0000_0000_0000;

/// The rates that are numbers from 1 to 120 are those whose bit patterns lie
/// from the pattern of 1 to the pattern of 120: among positive doubles the
/// patterns are ordered as the numbers are.
pub proof fn lemma_range_in_bits(rate: Rate)
    ensures
        rate.at_least(1) && rate.at_most(120) <==> ONE_FPS_BITS <= rate.bits
            <= HUNDRED_TWENTY_FPS_BITS,
{
    let e = rate.exponent();
    let f = rate.fraction();
    let sign = rate.sign();
    assert(rate.bits == sign * SIGN_BIT + e * LEADING_BIT + f);
    assert(sign <= 1 && e <= TOP_EXPONENT && f < LEADING_BIT);
    lemma2_to64();
    lemma2_to64_rest();
    lemma_pow2_pos(1022);
    lemma_pow2_adds(52, 1022);
    let base = pow2(1022);
    assert(unit() == LEADING_BIT * base);
    if sign == 0 && 1 <= e < TOP_EXPONENT {
        let scale = pow2((e - 1) as nat);
        let m = LEADING_BIT + f;
        lemma_pow2_pos((e - 1) as nat);
        assert(rate.ticks() == m * scale);
        if e <= 1022 {
            // Below 1: the magnitude is under 2^53 * 2^(e-1) <= 2^52 * 2^1022.
            if e < 1022 {
                lemma_pow2_strictly_increases(e, 1022);
            }
            lemma_pow2_unfold(e);
            assert(m * scale < LEADING_BIT * base) by (nonlinear_arith)
                requires
                    m < 2 * LEADING_BIT,
                    2 * scale <= base,
                    scale > 0,
            ;
        } else {
            // At least 1: the magnitude is at least 2^52 * 2^1022.
            if e > 1023 {
                lemma_pow2_strictly_increases(1022, (e - 1) as nat);
            }
            assert(m * scale >= LEADING_BIT * base) by (nonlinear_arith)
                requires
                    m >= LEADING_BIT,
                    scale >= base,
                    base > 0,
            ;
            assert(1 * unit() == unit());
            lemma_pow2_adds(6, 1022);
            lemma_pow2_adds(7, 1022);
            let top = pow2(1028);
            assert(top == 64 * base);
            if e <= 1028 {
                // Below 64.
                if e < 1028 {
                    lemma_pow2_strictly_increases(e, 1028);
                }
                lemma_pow2_unfold(e);
                assert(m * scale <= 120 * (LEADING_BIT * base)) by (nonlinear_arith)
                    requires
                        m < 2 * LEADING_BIT,
                        2 * scale <= 64 * base,
                        scale > 0,
                        base > 0,
                ;
            } else if e == 1029 {
                // From 64 to 128: decided by the fraction.
                assert(scale == 64 * base);
                assert((m * scale <= 120 * (LEADING_BIT * base)) <==> (f
                    <= 0xE_0000_0000_0000)) by (nonlinear_arith)
                    requires
                        m == LEADING_BIT + f,
                        LEADING_BIT == 0x10_0000_0000_0000,
                        scale == 64 * base,
                        base > 0,
                ;
            } else {
                // At least 128.
                if e > 1030 {
                    lemma_pow2_strictly_increases(1029, (e - 1) as nat);
                }
                assert(pow2(1029) == 128 * base);
                assert(m * scale > 120 * (LEADING_BIT * base)) by (nonlinear_arith)
                    requires
                        m >= LEADING_BIT,
                        scale >= 128 * base,
                        base > 0,
                        LEADING_BIT > 0,
                ;
            }
            assert(120 * unit() == 120 * (LEADING_BIT * base));
        }
    } else if sign == 0 && e == 0 {
        lemma_pow2_strictly_increases(52, 1074);
        assert(1 * unit() == unit());
    }
}

/// Two to the power of `e`, for an `e` whose power fits.
fn power_of_two(e: u64) -> (p: u128)
    requires
        e <= 126,
    ensures
        p == pow2(e as nat),
{
    let mut p: u128 = 1;
    let mut i: u64 = 0;
    proof {
        lemma2_to64();
    }
    while i < e
        invariant
            0 <= i <= e <= 126,
            p == pow2(i as nat),
        decreases e - i,
    {
        proof {
            lemma_pow2_unfold((i + 1) as nat);
            lemma_pow2_strictly_increases((i + 1) as nat, 127);
            lemma_pow2_adds(63, 64);
            lemma2_to64_rest();
        }
        p = p * 2;
        i = i + 1;
    }
    p
}

impl Rate {
    /// The sign bit.
    fn sign_bit(&self) -> (sign: u64)
        ensures
            sign == self.sign(),
            sign <= 1,
    {
        self.bits / SIGN_BIT
    }

    /// The exponent field.
    fn exponent_field(&self) -> (exponent: u64)
        ensures
            exponent == self.exponent(),
            exponent <= TOP_EXPONENT,
    {
        (self.bits / LEADING_BIT) % 0x800
    }

    /// The fraction field.
    fn fraction_field(&self) -> (fraction: u64)
        ensures
            fraction == self.fraction(),
            fraction < LEADING_BIT,
    {
        self.bits % LEADING_BIT
    }

    /// How the magnitude of a finite rate stands to `k`.
    fn weigh(&self, k: u16) -> (outcome: u8)
        requires
            self.is_finite(),
        ensures
            outcome == self.weighed(k as nat),
    {
        let e = self.exponent_field();
        let f = self.fraction_field();
        proof {
            lemma2_to64();
            lemma2_to64_rest();
            lemma_pow2_pos(1074);
        }
        if e == 0 {
            proof {
                lemma_pow2_strictly_increases(52, 1074);
                if k > 0 {
                    lemma_mul_inequality(1, k as int, unit() as int);
                }
            }
            if k == 0 {
                if f == 0 {
                    0
                } else {
                    1
                }
            } else {
                2
            }
        } else {
            let m: u128 = (LEADING_BIT + f) as u128;
            let d = e - 1;
            if d >= 1074 {
                proof {
                    let extra = pow2((d - 1074) as nat);
                    lemma_pow2_adds((d - 1074) as nat, 1074);
                    lemma_pow2_pos((d - 1074) as nat);
                    assert(self.ticks() == m * (extra * unit())) by {
                        lemma_mul_is_commutative(extra as int, unit() as int);
                    }
                    assert(m * (extra * unit()) >= m * unit()) by (nonlinear_arith)
                        requires
                            extra >= 1,
                            m >= 0,
                            unit() >= 0,
                    ;
                    lemma_mul_strict_inequality(k as int, m as int, unit() as int);
                }
                1
            } else {
                let s = 1074 - d;
                proof {
                    lemma_unit_split(d as nat);
                    let low = pow2(d as nat);
                    let high = pow2(s as nat);
                    assert(k * unit() == (k * high) * low) by {
                        lemma_mul_is_associative(k as int, high as int, low as int);
                    }
                    lemma_scaled_order(m as int, k * high, low as int);
                    lemma_scaled_order(k * high, m as int, low as int);
                }
                if s >= 53 {
                    proof {
                        if s > 53 {
                            lemma_pow2_strictly_increases(53, s as nat);
                        }
                        if k > 0 {
                            lemma_mul_inequality(1, k as int, pow2(s as nat) as int);
                        }
                    }
                    if k == 0 {
                        1
                    } else {
                        2
                    }
                } else {
                    let high = power_of_two(s);
                    proof {
                        if s < 52 {
                            lemma_pow2_strictly_increases(s as nat, 52);
                        }
                        lemma_mul_inequality(k as int, 0x10000, high as int);
                        lemma_mul_inequality(high as int, 0x10_0000_0000_0000, 0x10000);
                    }
                    let bound = (k as u128) * high;
                    if m == bound {
                        0
                    } else if m > bound {
                        1
                    } else {
                        2
                    }
                }
            }
        }
    }

    /// The time one frame lasts at this rate, `units` making one second,
    /// rounded down and cut off at the largest 64-bit value.
    pub fn frame_period(&self, units: u32) -> (period: u64)
        ensures
            period == self.period(units as nat),
    {
        let e = self.exponent_field();
        let f = self.fraction_field();
        if e == TOP_EXPONENT || self.sign_bit() == 1 {
            return 0;
        }
        proof {
            lemma2_to64();
            lemma2_to64_rest();
            lemma_pow2_pos(1074);
        }
        if e == 0 {
            if f == 0 {
                return u64::MAX;
            }
            proof {
                lemma_pow2_adds(116, 958);
                lemma_pow2_adds(52, 64);
                lemma_pow2_pos(958);
                let x = (units * unit()) as int;
                assert(unit() >= 0x1_0000_0000_0000_0000 * 0x10_0000_0000_0000) by (nonlinear_arith)
                    requires
                        unit() == pow2(116) * pow2(958),
                        pow2(116) == 0x1_0000_0000_0000_0000 * 0x10_0000_0000_0000,
                        pow2(958) >= 1,
                ;
                if units > 0 {
                    assert(x >= 0x1_0000_0000_0000_0000 * f) by (nonlinear_arith)
                        requires
                            x == units * unit(),
                            units >= 1,
                            unit() >= 0x1_0000_0000_0000_0000 * 0x10_0000_0000_0000,
                            f < 0x10_0000_0000_0000,
                    ;
                    lemma_quotient_bounds(x, f as int, 0x1_0000_0000_0000_0000);
                } else {
                    assert(x == 0) by (nonlinear_arith)
                        requires
                            x == units * unit(),
                            units == 0,
                    ;
                    lemma_basic_div(0, f as int);
                }
            }
            if units == 0 {
                return 0;
            } else {
                return u64::MAX;
            }
        }
        let m: u128 = (LEADING_BIT + f) as u128;
        let d = e - 1;
        if d >= 1074 {
            proof {
                let extra = pow2((d - 1074) as nat);
                lemma_pow2_adds((d - 1074) as nat, 1074);
                lemma_pow2_pos((d - 1074) as nat);
                let divisor = (m * extra) as int;
                assert(self.ticks() == unit() * divisor) by (nonlinear_arith)
                    requires
                        self.ticks() == m * pow2(d as nat),
                        pow2(d as nat) == extra * unit(),
                        divisor == m * extra,
                ;
                assert(divisor >= m) by (nonlinear_arith)
                    requires
                        divisor == m * extra,
                        extra >= 1,
                        m >= 0,
                ;
                lemma_div_multiples_vanish_quotient(unit() as int, units as int, divisor);
                lemma_basic_div(units as int, divisor);
                assert(unit() * units == units * unit()) by (nonlinear_arith);
            }
            return 0;
        }
        let s = 1074 - d;
        let ghost total = units * pow2(s as nat);
        proof {
            lemma_period_quotient(units as nat, m as nat, d as nat);
            lemma_pow2_pos(s as nat);
            lemma_pow2_pos(d as nat);
            assert(m * pow2(d as nat) > 0) by (nonlinear_arith)
                requires
                    m > 0,
                    pow2(d as nat) > 0,
            ;
            assert(self.ticks() == m * pow2(d as nat));
            assert(total >= 0) by (nonlinear_arith)
                requires
                    total == units * pow2(s as nat),
                    units >= 0,
                    pow2(s as nat) > 0,
            ;
            assert((units as nat) * unit() / self.ticks() == total / (m as int));
        }
        if s >= 117 {
            proof {
                if s > 117 {
                    lemma_pow2_strictly_increases(117, s as nat);
                }
                lemma_pow2_adds(53, 64);
                if units > 0 {
                    assert(total >= 0x1_0000_0000_0000_0000 * m) by (nonlinear_arith)
                        requires
                            total == units * pow2(s as nat),
                            units >= 1,
                            pow2(s as nat) >= 0x20_0000_0000_0000 * 0x1_0000_0000_0000_0000,
                            m < 0x20_0000_0000_0000,
                    ;
                    lemma_quotient_bounds(total, m as int, 0x1_0000_0000_0000_0000);
                } else {
                    assert(total == 0) by (nonlinear_arith)
                        requires
                            total == units * pow2(s as nat),
                            units == 0,
                    ;
                    lemma_basic_div(0, m as int);
                }
            }
            if units == 0 {
                return 0;
            } else {
                return u64::MAX;
            }
        }
        if s >= 64 {
            let high = power_of_two(s - 64);
            proof {
                lemma_pow2_adds((s - 64) as nat, 64);
                if s - 64 < 52 {
                    lemma_pow2_strictly_increases((s - 64) as nat, 52);
                }
                lemma_mul_inequality(units as int, 0x1_0000_0000, high as int);
                lemma_mul_inequality(high as int, 0x10_0000_0000_0000, 0x1_0000_0000);
            }
            let top = (units as u128) * high;
            proof {
                assert(total == top * 0x1_0000_0000_0000_0000) by (nonlinear_arith)
                    requires
                        total == units * pow2(s as nat),
                        pow2(s as nat) == high * 0x1_0000_0000_0000_0000,
                        top == units * high,
                ;
            }
            if top >= m {
                proof {
                    assert(total >= 0x1_0000_0000_0000_0000 * m) by (nonlinear_arith)
                        requires
                            total == top * 0x1_0000_0000_0000_0000,
                            top >= m,
                    ;
                    lemma_quotient_bounds(total, m as int, 0x1_0000_0000_0000_0000);
                }
                return u64::MAX;
            }
            proof {
                assert(total < 0x1_0000_0000_0000_0000 * m) by (nonlinear_arith)
                    requires
                        total == top * 0x1_0000_0000_0000_0000,
                        top < m,
                ;
                lemma_quotient_bounds(total, m as int, 0x1_0000_0000_0000_0000);
            }
        } else {
            proof {
                lemma_pow2_strictly_increases(s as nat, 64);
                assert(total < 0x1_0000_0000_0000_0000 * m) by (nonlinear_arith)
                    requires
                        total == units * pow2(s as nat),
                        units < 0x1_0000_0000,
                        0 < pow2(s as nat) < 0x1_0000_0000_0000_0000,
                        m >= 0x10_0000_0000_0000,
                ;
                lemma_quotient_bounds(total, m as int, 0x1_0000_0000_0000_0000);
            }
        }
        let scale = power_of_two(s);
        proof {
            assert(0x1_0000_0000_0000_0000 * m < 0x1_0000_0000_0000_0000 * 0x20_0000_0000_0000)
                by (nonlinear_arith)
                requires
                    m < 0x20_0000_0000_0000,
            ;
        }
        let quotient = (units as u128) * scale / m;
        quotient as u64
    }

    /// Whether the rate is a number and at least `k`.
    pub fn is_at_least(&self, k: u16) -> (holds: bool)
        ensures
            holds == self.at_least(k as nat),
    {
        let e = self.exponent_field();
        let f = self.fraction_field();
        if e == TOP_EXPONENT {
            f == 0 && self.sign_bit() == 0
        } else if self.sign_bit() == 1 {
            k == 0 && self.weigh(0) == 0
        } else {
            self.weigh(k) != 2
        }
    }

    /// Whether the rate is a number and at most `k`.
    pub fn is_at_most(&self, k: u16) -> (holds: bool)
        ensures
            holds == self.at_most(k as nat),
    {
        let e = self.exponent_field();
        let f = self.fraction_field();
        if e == TOP_EXPONENT {
            f == 0 && self.sign_bit() == 1
        } else if self.sign_bit() == 1 {
            true
        } else {
            self.weigh(k) != 1
        }
    }
}

} // verus!
