//! Demand values: double-precision numbers carried as their bit patterns.
//!
//! A demand is the number a caller hands to a control mode: a fraction of full
//! output, amperes, sensor units, or the number of a device to follow. It is an
//! IEEE 754 binary64 value. This module never computes in floating point; it
//! holds the 64-bit pattern and works on sign, exponent and fraction as
//! integers, so that every conversion the command encoding needs is exact and
//! has a contract over whole numbers.
//!
//! A finite pattern with sign `s`, biased exponent `e` and fraction `f` stands
//! for `(-1)^s * significand * 2^(max(e, 1) - 1075)`, where the significand is
//! `f + 2^52` for `e > 0` and `f` for `e == 0`. The specifications write the
//! power of two as a division by `2^places` up to exponent 1075 and as a
//! multiplication by `2^lift` above it, so that they stay within whole
//! numbers.

use vstd::prelude::*;
use vstd::arithmetic::power2::*;
use vstd::arithmetic::div_mod::*;
use vstd::arithmetic::mul::*;
use vstd::bits::*;

verus! {

/// 2^52, the weight of the implicit leading bit of a significand.
pub const HIDDEN_BIT: u64 = 0x10_0000_0000_0000;

/// 2^63, the sign bit.
pub const SIGN_BIT: u64 = 0x8000_0000_0000_0000;

/// The pattern of 1.0.
pub const ONE: u64 = 0x3ff0_0000_0000_0000;

/// The biased exponent that marks infinities and NaNs.
pub const EXPONENT_SPECIAL: u64 = 2047;

/// The biased exponent of 1.0.
pub const EXPONENT_BIAS: u64 = 1023;

/// The biased exponent at which the significand is the value itself.
pub const EXPONENT_UNIT: u64 = 1075;

/// `value / unit` rounded to the nearest whole number, a tie going to the even
/// one.
pub open spec fn round_half_even(value: nat, unit: nat) -> nat {
    let quotient = value / unit;
    let rest = value % unit;
    if 2 * rest > unit || (2 * rest == unit && quotient % 2 == 1) {
        quotient + 1
    } else {
        quotient
    }
}

/// `v` brought into the range of `i32`.
pub open spec fn clamp_i32(v: int) -> int {
    if v < i32::MIN {
        i32::MIN as int
    } else if v > i32::MAX {
        i32::MAX as int
    } else {
        v
    }
}

/// A double-precision number, held as its bit pattern.
///
/// Two demands are equal when their patterns are: a NaN equals itself, and the
/// two zeros differ.
#[derive(Debug, Copy, Clone, PartialEq, Eq, Structural)]
pub struct Demand {
    pub bits: u64,
}

impl Demand {
    /// The sign bit is set.
    pub open spec fn negative(self) -> bool {
        self.bits >= SIGN_BIT
    }

    /// The biased exponent, 0 to 2047.
    pub open spec fn exponent(self) -> nat {
        ((self.bits / HIDDEN_BIT) % 2048) as nat
    }

    /// The 52 fraction bits.
    pub open spec fn fraction(self) -> nat {
        (self.bits % HIDDEN_BIT) as nat
    }

    pub open spec fn is_nan(self) -> bool {
        self.exponent() == 2047 && self.fraction() != 0
    }

    pub open spec fn is_infinite(self) -> bool {
        self.exponent() == 2047 && self.fraction() == 0
    }

    pub open spec fn is_finite(self) -> bool {
        self.exponent() < 2047
    }

    /// The significand of a finite value, with the implicit bit where there is one.
    pub open spec fn significand(self) -> nat {
        if self.exponent() == 0 {
            self.fraction()
        } else {
            self.fraction() + HIDDEN_BIT as nat
        }
    }

    /// How many binary places the significand has below the unit: the value's
    /// magnitude is `significand / 2^places`. Meaningful where the exponent is
    /// below 1075; above it the significand is scaled up instead.
    pub open spec fn places(self) -> nat {
        if self.exponent() == 0 {
            1074
        } else if self.exponent() <= 1075 {
            (1075 - self.exponent()) as nat
        } else {
            0
        }
    }

    /// By how many binary places the significand is scaled up: nonzero only
    /// where the exponent is above 1075.
    pub open spec fn lift(self) -> nat {
        if self.exponent() > 1075 {
            (self.exponent() - 1075) as nat
        } else {
            0
        }
    }

    /// The whole part of the magnitude of a finite value.
    pub open spec fn whole_part(self) -> nat {
        self.significand() * pow2(self.lift()) / pow2(self.places())
    }

    /// A finite value with no fractional part.
    pub open spec fn is_whole(self) -> bool {
        self.is_finite() && self.significand() % pow2(self.places()) == 0
    }

    /// The value, where it is a whole number.
    pub open spec fn int_value(self) -> Option<int> {
        if self.is_whole() {
            if self.negative() {
                Some(-(self.whole_part() as int))
            } else {
                Some(self.whole_part() as int)
            }
        } else {
            None
        }
    }

    /// The magnitude of a finite value is at most `bound`.
    pub open spec fn magnitude_at_most(self, bound: nat) -> bool {
        self.significand() * pow2(self.lift()) <= bound * pow2(self.places())
    }

    /// The value lies in the closed range from 0 to 62, the range of device
    /// numbers. Both zeros lie in it; no NaN does.
    pub open spec fn is_device_number(self) -> bool {
        self.is_finite() && self.magnitude_at_most(62) && (!self.negative() || self.significand()
            == 0)
    }

    /// The value converted to an unsigned 32-bit integer: the fractional part
    /// is dropped, a value below 0 gives 0, one above the type's range gives
    /// its maximum, and a NaN gives 0.
    pub open spec fn to_u32_value(self) -> int {
        if self.is_nan() || self.negative() {
            0
        } else if self.is_infinite() || self.whole_part() > u32::MAX {
            u32::MAX as int
        } else {
            self.whole_part() as int
        }
    }

    /// One thousand times the value, as a signed 32-bit integer, computed as
    /// double-precision arithmetic computes it: the exact product is rounded
    /// to the nearest double, ties to the even significand; that double is
    /// truncated toward zero and clamped to the type's range. A NaN gives 0.
    ///
    /// Below exponent 1013 the magnitude is under 2^-10 and the product under
    /// 1; from exponent 1045 on the magnitude is at least 2^22 and the product
    /// beyond the range, as is that of an infinity. Between the two the exact
    /// product has the significand `1000 * significand`, of 62 or 63 bits, of
    /// which the rounding keeps the upper 53.
    pub open spec fn milli_value(self) -> int {
        if self.is_nan() {
            0
        } else if self.exponent() < 1013 {
            0
        } else if self.exponent() >= 1045 {
            if self.negative() {
                i32::MIN as int
            } else {
                i32::MAX as int
            }
        } else {
            let product = 1000 * self.significand();
            let dropped: nat = if product < 0x4000_0000_0000_0000 {
                9
            } else {
                10
            };
            let kept = round_half_even(product, pow2(dropped));
            let whole = kept / pow2((self.places() - dropped) as nat);
            clamp_i32(
                if self.negative() {
                    -(whole as int)
                } else {
                    whole as int
                },
            )
        }
    }

    /// A thousand times the value is exactly the whole number `n`: the value
    /// is finite, its magnitude times 1000 is the magnitude of `n`, and the
    /// signs agree. Either zero has the thousandfold 0.
    pub open spec fn thousandfold_is(self, n: int) -> bool {
        &&& self.is_finite()
        &&& 1000 * self.significand() * pow2(self.lift()) == (if n < 0 {
            -n
        } else {
            n
        }) * pow2(self.places())
        &&& n < 0 ==> self.negative()
        &&& n > 0 ==> !self.negative()
    }

    /// 1.0 for `true` and 0.0 for `false`.
    pub open spec fn flag_value(flag: bool) -> Demand {
        Demand { bits: if flag { ONE } else { 0 } }
    }

    /// The pattern `bits`.
    pub fn from_bits(bits: u64) -> (r: Self)
        ensures
            r.bits == bits,
    {
        Demand { bits }
    }

    /// The pattern held.
    pub fn to_bits(self) -> (r: u64)
        ensures
            r == self.bits,
    {
        self.bits
    }

    /// Positive zero.
    pub fn zero() -> (r: Self)
        ensures
            r.bits == 0,
            r.int_value() == Some(0int),
            !r.negative(),
    {
        proof {
            let d = Demand { bits: 0 };
            assert(d.exponent() == 0 && d.fraction() == 0);
            lemma_pow2_pos(1074);
            d.lemma_unlifted();
            lemma_basic_div(0, pow2(1074) as int);
            lemma_small_mod(0, pow2(1074));
        }
        Demand { bits: 0 }
    }

    /// 1.0 for `true` and 0.0 for `false`.
    pub fn from_flag(flag: bool) -> (r: Self)
        ensures
            r == Self::flag_value(flag),
            r.int_value() == Some(if flag { 1int } else { 0int }),
    {
        if flag {
            let r = Demand { bits: ONE };
            proof {
                assert(r.exponent() == 1023 && r.fraction() == 0);
                lemma2_to64_rest();
                r.lemma_unlifted();
                assert(r.significand() == pow2(52));
                assert(r.places() == 52);
                lemma_div_by_self(pow2(52) as int);
                lemma_mod_self_0(pow2(52) as int);
            }
            r
        } else {
            Self::zero()
        }
    }

    pub fn is_negative(self) -> (r: bool)
        ensures
            r == self.negative(),
    {
        self.bits >= SIGN_BIT
    }

    pub fn biased_exponent(self) -> (r: u64)
        ensures
            r == self.exponent(),
            r < 2048,
    {
        let b: u64 = self.bits;
        assert((b >> 52) & 0x7ff == (b / 0x10_0000_0000_0000) % 2048) by (bit_vector);
        (b >> 52) & 0x7ff
    }

    pub fn fraction_bits(self) -> (r: u64)
        ensures
            r == self.fraction(),
            r < HIDDEN_BIT,
    {
        let b: u64 = self.bits;
        assert(b & 0xf_ffff_ffff_ffff == b % 0x10_0000_0000_0000) by (bit_vector);
        b & 0xf_ffff_ffff_ffff
    }

    /// The significand of a finite value.
    pub fn significand_bits(self) -> (r: u64)
        ensures
            r == self.significand(),
            r < 2 * HIDDEN_BIT,
            self.exponent() > 0 ==> r >= HIDDEN_BIT,
    {
        if self.biased_exponent() == 0 {
            self.fraction_bits()
        } else {
            self.fraction_bits() + HIDDEN_BIT
        }
    }
    /// At or below exponent 1075 nothing scales the significand up.
    proof fn lemma_unlifted(self)
        requires
            self.exponent() <= 1075,
        ensures
            self.lift() == 0,
            self.significand() * pow2(self.lift()) == self.significand(),
            self.whole_part() == self.significand() / pow2(self.places()),
    {
        lemma2_to64();
        lemma_mul_basics(self.significand() as int);
    }

    /// Of a value that is the whole number `v`: it lies in the range of device
    /// numbers exactly when `v` does, and its conversion to `u32` is `v` brought
    /// into that type's range.
    pub proof fn lemma_whole_value(self, v: int)
        requires
            self.int_value() == Some(v),
        ensures
            self.is_device_number() == (0 <= v <= 62),
            self.to_u32_value() == (if v < 0 {
                0
            } else if v > u32::MAX {
                u32::MAX as int
            } else {
                v
            }),
    {
        let sig = self.significand() as int;
        let l = pow2(self.lift()) as int;
        let p = pow2(self.places()) as int;
        let w = self.whole_part() as int;
        self.lemma_whole_product();
        assert((w * p <= 62 * p) == (w <= 62)) by (nonlinear_arith)
            requires
                p > 0,
        ;
        assert((w == 0) == (sig == 0)) by (nonlinear_arith)
            requires
                sig * l == w * p,
                p > 0,
                l > 0,
                sig >= 0,
                w >= 0,
        ;
    }

    /// Wherever a thousand times the value is a whole number within the 32-bit
    /// range, the conversion to thousandths gives exactly that number: nothing
    /// is lost to rounding, truncation or clamping, whatever the sign. So 0.5
    /// gives 500 and -2.5 gives -2500.
    pub proof fn lemma_milli_exact(self, n: int)
        requires
            self.thousandfold_is(n),
            i32::MIN <= n <= i32::MAX,
        ensures
            self.milli_value() == n,
    {
        let sig = self.significand() as int;
        let e = self.exponent();
        let l = pow2(self.lift()) as int;
        let p = pow2(self.places()) as int;
        let m: int = if n < 0 { -n } else { n };
        lemma2_to64();
        lemma2_to64_rest();
        lemma_pow2_pos(self.lift());
        lemma_pow2_pos(self.places());
        assert(1000 * sig * l == m * p);
        if m == 0 {
            assert(sig == 0) by (nonlinear_arith)
                requires
                    1000 * sig * l == m * p,
                    m == 0,
                    l > 0,
                    sig >= 0,
            ;
            assert(e == 0);
        } else if e > 1075 {
            assert(p == 1);
            assert(1000 * sig * l >= sig) by (nonlinear_arith)
                requires
                    l >= 1,
                    sig >= 0,
            ;
            assert(m * p == m) by (nonlinear_arith)
                requires
                    p == 1,
            ;
            assert(sig >= HIDDEN_BIT);
            assert(false);
        } else {
            self.lemma_unlifted();
            assert(l == 1);
            assert(1000 * sig == m * p) by (nonlinear_arith)
                requires
                    1000 * sig * l == m * p,
                    l == 1,
            ;
            if e < 1013 {
                lemma_pow2_monotone(63, self.places());
                assert(m * p >= p) by (nonlinear_arith)
                    requires
                        m >= 1,
                        p > 0,
                ;
                assert(false);
            } else if e >= 1045 {
                lemma_pow2_monotone(self.places(), 30);
                assert(m * p <= 0x8000_0000 * 0x4000_0000) by (nonlinear_arith)
                    requires
                        0 <= m <= 0x8000_0000,
                        0 < p <= 0x4000_0000,
                ;
                assert(false);
            } else {
                let s = self.places();
                let product = 1000 * sig;
                let k: nat = if product < 0x4000_0000_0000_0000 {
                    9
                } else {
                    10
                };
                let unit = pow2(k) as int;
                let high = pow2((s - k) as nat) as int;
                lemma_pow2_pos((s - k) as nat);
                lemma_pow2_adds(k, (s - k) as nat);
                assert(p == unit * high);
                let x = m * high;
                assert(product == x * unit) by (nonlinear_arith)
                    requires
                        product == m * p,
                        p == unit * high,
                        x == m * high,
                ;
                lemma_div_by_multiple(x, unit);
                lemma_mod_multiples_basic(x, unit);
                assert(round_half_even(product as nat, unit as nat) == x);
                lemma_div_by_multiple(m, high);
            }
        }
    }

    /// A whole number of amperes comes out as exactly a thousand times as many
    /// milliamperes, as long as that fits the 32-bit range.
    pub proof fn lemma_milli_of_whole(self, n: int)
        requires
            self.int_value() == Some(n),
            -2147483 <= n <= 2147483,
        ensures
            self.thousandfold_is(1000 * n),
            self.milli_value() == 1000 * n,
    {
        let sig = self.significand() as int;
        let l = pow2(self.lift()) as int;
        let p = pow2(self.places()) as int;
        let w = self.whole_part() as int;
        self.lemma_whole_product();
        assert(1000 * sig * l == (1000 * w) * p) by (nonlinear_arith)
            requires
                sig * l == w * p,
        ;
        self.lemma_milli_exact(1000 * n);
    }

    /// Of a whole value, the scaled significand is the whole part times the
    /// unit.
    proof fn lemma_whole_product(self)
        requires
            self.is_whole(),
        ensures
            self.significand() * pow2(self.lift()) == self.whole_part() * pow2(self.places()),
            pow2(self.lift()) > 0,
            pow2(self.places()) > 0,
            self.exponent() > 0 ==> HIDDEN_BIT <= self.significand() < 2 * HIDDEN_BIT,
            self.exponent() == 0 ==> self.significand() < HIDDEN_BIT,
    {
        let sig = self.significand() as int;
        let l = pow2(self.lift()) as int;
        let p = pow2(self.places()) as int;
        let w = self.whole_part() as int;
        lemma_pow2_pos(self.lift());
        lemma_pow2_pos(self.places());
        lemma2_to64();
        lemma_mul_basics(sig);
        if self.exponent() > 1075 {
            assert(p == 1);
            assert((sig * l) / 1 == sig * l);
            lemma_mul_basics(w);
        } else {
            self.lemma_unlifted();
            lemma_fundamental_div_mod(sig, p);
            lemma_mul_is_commutative(p, w);
        }
    }

    /// Of two whole values of the same nonzero magnitude, the first has no
    /// smaller an exponent than the second.
    proof fn lemma_exponent_not_below(self, other: Demand)
        requires
            self.is_whole(),
            other.is_whole(),
            self.whole_part() == other.whole_part(),
            self.whole_part() > 0,
        ensures
            self.exponent() >= other.exponent(),
    {
        let w = self.whole_part() as int;
        let sa = self.significand() as int;
        let sb = other.significand() as int;
        let la = pow2(self.lift()) as int;
        let lb = pow2(other.lift()) as int;
        let pa = pow2(self.places()) as int;
        let pb = pow2(other.places()) as int;
        self.lemma_whole_product();
        other.lemma_whole_product();
        lemma2_to64();
        lemma2_to64_rest();
        if self.exponent() < other.exponent() {
            if self.exponent() < 1023 {
                lemma_pow2_monotone(53, self.places());
                self.lemma_unlifted();
                lemma_basic_div(sa, pa);
                assert(false);
            }
            if other.exponent() <= 1075 {
                lemma_pow2_monotone(other.places() + 1, self.places());
                lemma_pow2_unfold(other.places() + 1);
                assert(la == 1 && lb == 1);
                assert(sa >= 2 * sb) by (nonlinear_arith)
                    requires
                        sa * 1 == w * pa,
                        sb * 1 == w * pb,
                        pa >= 2 * pb,
                        w > 0,
                        pb > 0,
                ;
                assert(false);
            } else if self.exponent() <= 1075 {
                lemma_pow2_monotone(1, other.lift());
                assert(la == 1 && pb == 1);
                assert(sa >= 2 * sb) by (nonlinear_arith)
                    requires
                        sa * 1 == w * pa,
                        sb * lb == w * 1,
                        lb >= 2,
                        pa >= 1,
                        sb > 0,
                ;
                assert(false);
            } else {
                lemma_pow2_monotone(self.lift() + 1, other.lift());
                lemma_pow2_unfold(self.lift() + 1);
                assert(pa == 1 && pb == 1);
                assert(sa >= 2 * sb) by (nonlinear_arith)
                    requires
                        sa * la == w * 1,
                        sb * lb == w * 1,
                        lb >= 2 * la,
                        la > 0,
                        sb > 0,
                ;
                assert(false);
            }
        }
    }

    /// A whole number has one pattern for each sign: two whole values that are
    /// the same number and agree in their sign bit are the same pattern. So a
    /// contract that gives the whole number and the sign gives the pattern.
    pub proof fn lemma_whole_is_unique(self, other: Demand)
        requires
            self.int_value() is Some,
            self.int_value() == other.int_value(),
            self.negative() == other.negative(),
        ensures
            self.bits == other.bits,
    {
        let a = self.bits;
        let b = other.bits;
        self.lemma_whole_product();
        other.lemma_whole_product();
        assert(self.whole_part() == other.whole_part());
        let w = self.whole_part() as int;
        let sa = self.significand() as int;
        let sb = other.significand() as int;
        let l = pow2(self.lift()) as int;
        let p = pow2(self.places()) as int;
        if w == 0 {
            assert(sa == 0) by (nonlinear_arith)
                requires
                    sa * l == w * p,
                    w == 0,
                    l > 0,
            ;
            let lb = pow2(other.lift()) as int;
            let pb = pow2(other.places()) as int;
            assert(sb == 0) by (nonlinear_arith)
                requires
                    sb * lb == w * pb,
                    w == 0,
                    lb > 0,
            ;
        } else {
            self.lemma_exponent_not_below(other);
            other.lemma_exponent_not_below(self);
            assert(sa == sb) by (nonlinear_arith)
                requires
                    sa * l == w * p,
                    sb * l == w * p,
                    l > 0,
            ;
        }
        assert(self.exponent() == other.exponent());
        assert(self.fraction() == other.fraction());
        assert(a == b) by (bit_vector)
            requires
                (a / 0x10_0000_0000_0000) % 2048 == (b / 0x10_0000_0000_0000) % 2048,
                a % 0x10_0000_0000_0000 == b % 0x10_0000_0000_0000,
                (a >= 0x8000_0000_0000_0000) == (b >= 0x8000_0000_0000_0000),
        ;
    }

    /// Whether the value lies in the closed range from 0 to 62.
    pub fn in_device_number_range(self) -> (r: bool)
        ensures
            r == self.is_device_number(),
    {
        let e: u64 = self.biased_exponent();
        if e == EXPONENT_SPECIAL {
            return false;
        }
        let sig: u64 = self.significand_bits();
        if sig == 0 {
            proof {
                lemma_pow2_pos(self.places());
                lemma_mul_nonnegative(62, pow2(self.places()) as int);
                lemma_mul_basics(pow2(self.lift()) as int);
            }
            return true;
        }
        if self.is_negative() {
            return false;
        }
        proof {
            lemma2_to64();
            lemma2_to64_rest();
            lemma_pow2_pos(self.lift());
            lemma_pow2_pos(self.places());
        }
        if e >= 1029 {
            proof {
                let lhs = sig as int * pow2(self.lift()) as int;
                let rhs = 62 * pow2(self.places()) as int;
                assert(lhs >= sig) by (nonlinear_arith)
                    requires
                        lhs == sig as int * pow2(self.lift()) as int,
                        pow2(self.lift()) >= 1,
                ;
                lemma_pow2_monotone(self.places(), 46);
                assert(rhs <= 62 * 0x4000_0000_0000);
            }
            false
        } else if e == 1028 {
            self.fraction_bits() <= 0xf_0000_0000_0000
        } else {
            proof {
                lemma_pow2_monotone(48, self.places());
            }
            true
        }
    }

    /// The value as an unsigned 32-bit integer: truncated toward zero and
    /// clamped to the type's range, a NaN giving 0.
    pub fn to_u32(self) -> (r: u32)
        ensures
            r == self.to_u32_value(),
    {
        let e: u64 = self.biased_exponent();
        let f: u64 = self.fraction_bits();
        if self.is_negative() {
            return 0;
        }
        if e == EXPONENT_SPECIAL {
            return if f != 0 { 0 } else { u32::MAX };
        }
        let sig: u64 = self.significand_bits();
        proof {
            lemma2_to64();
            lemma2_to64_rest();
            lemma_pow2_pos(self.lift());
            lemma_pow2_pos(self.places());
        }
        if e < EXPONENT_BIAS {
            proof {
                self.lemma_unlifted();
                lemma_pow2_monotone(53, self.places());
                lemma_basic_div(sig as int, pow2(self.places()) as int);
            }
            0
        } else if e >= 1055 {
            proof {
                if e <= EXPONENT_UNIT {
                    let s: u64 = (EXPONENT_UNIT - e) as u64;
                    self.lemma_unlifted();
                    lemma_u64_shr_is_div(sig, s);
                    assert(sig >> s >= 0x1_0000_0000) by (bit_vector)
                        requires
                            sig >= 0x10_0000_0000_0000,
                            s <= 20,
                    ;
                } else {
                    let lhs = sig as int * pow2(self.lift()) as int;
                    assert(lhs >= sig) by (nonlinear_arith)
                        requires
                            lhs == sig as int * pow2(self.lift()) as int,
                            pow2(self.lift()) >= 1,
                    ;
                    assert(lhs / 1 == lhs);
                }
            }
            u32::MAX
        } else {
            let s: u64 = EXPONENT_UNIT - e;
            let w: u64 = sig >> s;
            proof {
                self.lemma_unlifted();
                lemma_u64_shr_is_div(sig, s);
                assert(sig >> s < 0x1_0000_0000) by (bit_vector)
                    requires
                        sig < 0x20_0000_0000_0000,
                        21 <= s <= 52,
                ;
            }
            w as u32
        }
    }
    /// The double that equals the whole number `n`, which every 32-bit
    /// magnitude has exactly; `negative` gives its sign. Zero comes out as
    /// positive zero whatever the sign asked for.
    fn from_magnitude(negative: bool, n: u32) -> (r: Self)
        ensures
            r.is_whole(),
            r.whole_part() == n,
            r.negative() == (negative && n != 0),
    {
        if n == 0 {
            return Self::zero();
        }
        let m: u64 = n as u64;
        let mut top: u64 = 31;
        assert(m >> 32 == 0) by (bit_vector)
            requires
                m < 0x1_0000_0000,
        ;
        while (m >> top) == 0
            invariant
                top <= 31,
                m != 0,
                m >> ((top + 1) as u64) == 0,
            decreases top,
        {
            assert(top != 0) by (bit_vector)
                requires
                    m >> top == 0,
                    m != 0,
            ;
            top = top - 1;
        }
        let s: u64 = 52 - top;
        let e: u64 = EXPONENT_BIAS + top;
        let sig: u64 = m << s;
        assert(0x10_0000_0000_0000 <= sig < 0x20_0000_0000_0000 && sig >> s == m && (sig >> s) << s
            == sig) by (bit_vector)
            requires
                sig == m << s,
                s == 52 - top,
                top <= 31,
                m >> top != 0,
                m >> ((top + 1) as u64) == 0,
        ;
        let low: u64 = (e << 52) | (sig & 0xf_ffff_ffff_ffff);
        assert((low / 0x10_0000_0000_0000) % 2048 == e && low % 0x10_0000_0000_0000 == sig
            - 0x10_0000_0000_0000 && low < 0x8000_0000_0000_0000) by (bit_vector)
            requires
                low == (e << 52) | (sig & 0xf_ffff_ffff_ffff),
                e < 2047,
                0x10_0000_0000_0000 <= sig < 0x20_0000_0000_0000,
        ;
        let bits: u64 = if negative { low + SIGN_BIT } else { low };
        assert((bits / 0x10_0000_0000_0000) % 2048 == (low / 0x10_0000_0000_0000) % 2048 && bits
            % 0x10_0000_0000_0000 == low % 0x10_0000_0000_0000) by (bit_vector)
            requires
                low < 0x8000_0000_0000_0000,
                bits == low || bits == low + 0x8000_0000_0000_0000,
        ;
        let r = Demand { bits };
        proof {
            assert(r.exponent() == e);
            assert(r.significand() == sig);
            assert(r.places() == s);
            r.lemma_unlifted();
            lemma_u64_shr_is_div(sig, s);
            lemma_exact_shift(sig, s);
        }
        r
    }

    /// The double that equals `n`. Every `u32` has one.
    pub fn from_u32(n: u32) -> (r: Self)
        ensures
            r.int_value() == Some(n as int),
            !r.negative(),
    {
        Self::from_magnitude(false, n)
    }

    /// The double that equals `n`. Every `i32` has one.
    pub fn from_i32(n: i32) -> (r: Self)
        ensures
            r.int_value() == Some(n as int),
            r.negative() == (n < 0),
    {
        if n < 0 {
            let m: i64 = -(n as i64);
            Self::from_magnitude(true, m as u32)
        } else {
            Self::from_magnitude(false, n as u32)
        }
    }

    /// One thousand times the value as a signed 32-bit integer: amperes to
    /// milliamperes.
    pub fn milli_i32(self) -> (r: i32)
        ensures
            r == self.milli_value(),
    {
        let e: u64 = self.biased_exponent();
        let f: u64 = self.fraction_bits();
        let negative: bool = self.is_negative();
        if e == EXPONENT_SPECIAL && f != 0 {
            return 0;
        }
        if e < 1013 {
            return 0;
        }
        if e >= 1045 {
            return if negative { i32::MIN } else { i32::MAX };
        }
        let sig: u64 = self.significand_bits();
        let product: u64 = 1000 * sig;
        let nine: bool = product < 0x4000_0000_0000_0000;
        let dropped: u64 = if nine { 9 } else { 10 };
        let unit: u64 = if nine { 512 } else { 1024 };
        let quotient: u64 = if nine { product >> 9 } else { product >> 10 };
        let rest: u64 = if nine { product & 511 } else { product & 1023 };
        proof {
            lemma2_to64();
            assert(unit == pow2(dropped as nat));
            assert(product >> 9 == product / 512 && product & 511 == product % 512)
                by (bit_vector);
            assert(product >> 10 == product / 1024 && product & 1023 == product % 1024)
                by (bit_vector);
            assert(quotient == product / unit && rest == product % unit);
            assert(quotient <= 0x20_0000_0000_0000 && rest < unit);
        }
        let odd: bool = quotient & 1 == 1;
        assert(odd == (quotient % 2 == 1)) by (bit_vector)
            requires
                odd == (quotient & 1 == 1),
        ;
        let kept: u64 = if 2 * rest > unit || (2 * rest == unit && odd) {
            quotient + 1
        } else {
            quotient
        };
        assert(kept == round_half_even(product as nat, pow2(dropped as nat)));
        let s: u64 = EXPONENT_UNIT - e - dropped;
        let whole: u64 = kept >> s;
        proof {
            lemma_u64_shr_is_div(kept, s);
            assert(whole <= 0x2_0000_0000) by (bit_vector)
                requires
                    whole == kept >> s,
                    kept <= 0x20_0000_0000_0001,
                    21 <= s <= 53,
            ;
        }
        if negative {
            if whole > 0x8000_0000 {
                i32::MIN
            } else {
                (-(whole as i64)) as i32
            }
        } else {
            if whole > 0x7fff_ffff {
                i32::MAX
            } else {
                whole as i32
            }
        }
    }
}

/// A number that loses nothing when shifted right and back by `s` places is a
/// multiple of `2^s`.
proof fn lemma_exact_shift(x: u64, s: u64)
    requires
        s < 64,
        (x >> s) << s == x,
    ensures
        x as nat % pow2(s as nat) == 0,
{
    let d = pow2(s as nat);
    lemma_pow2_pos(s as nat);
    lemma_u64_shr_is_div(x, s);
    let q: u64 = x >> s;
    lemma_fundamental_div_mod(x as int, d as int);
    assert(q * d <= x) by (nonlinear_arith)
        requires
            x == d * q + (x as int % d as int),
            0 <= x as int % d as int,
    ;
    lemma_u64_shl_is_mul(q, s);
    assert(x == q * d);
    assert(x as int % d as int == 0) by (nonlinear_arith)
        requires
            x == d * q + (x as int % d as int),
            x == q * d,
    ;
}


/// Powers of two do not decrease as the exponent grows.
proof fn lemma_pow2_monotone(a: nat, b: nat)
    requires
        a <= b,
    ensures
        pow2(a) <= pow2(b),
{
    if a < b {
        lemma_pow2_strictly_increases(a, b);
    }
}

} // verus!
