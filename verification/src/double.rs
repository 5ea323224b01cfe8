//! Double-precision numbers held by their bits, and what the settings do with them: compare,
//! clamp, tell a real change from a rounding error, and scale to a whole number.
//!
//! The surrounding program converts with `f64::to_bits` and `f64::from_bits`.

use vstd::arithmetic::div_mod::{lemma_div_denominator, lemma_div_multiples_vanish};
use vstd::arithmetic::mul::{lemma_mul_strict_inequality};
use vstd::arithmetic::power2::{
    lemma2_to64, lemma2_to64_rest, lemma_pow2_adds, lemma_pow2_pos, lemma_pow2_strictly_increases, pow2,
};
use vstd::prelude::*;

verus! {

/// 2 to the 52nd: the number of doubles that share an exponent.
pub const FRACTIONS: u64 = 0x10_0000_0000_0000;

/// 2 to the 63rd: the bit that holds the sign.
pub const SIGN: u64 = 0x8000_0000_0000_0000;

/// An IEEE 754 double-precision number, held by its bits.
#[derive(Debug, Clone, Copy, PartialEq, Eq, Structural)]
pub struct Double {
    pub bits: u64,
}

/// The magnitude of the double whose bits, without the sign, are `m`, in units of 2 to the power
/// of -1074 (the smallest positive double). Infinity counts as the power of two that follows the
/// largest finite double.
pub open spec fn magnitude_of(m: nat) -> nat {
    let exponent = m / FRACTIONS as nat;
    let fraction = m % FRACTIONS as nat;
    if exponent == 0 {
        fraction
    } else {
        (FRACTIONS as nat + fraction) * pow2((exponent - 1) as nat)
    }
}

/// The whole number `n` in the units of `magnitude_of`.
pub open spec fn whole(n: int) -> int {
    n * pow2(1074)
}

impl Double {
    /// The bits without the sign.
    pub open spec fn unsigned_bits(self) -> nat {
        self.bits as nat % SIGN as nat
    }

    /// Whether the value is not a number.
    pub open spec fn is_nan(self) -> bool {
        self.unsigned_bits() > 2047 * FRACTIONS
    }

    /// The value in units of 2 to the power of -1074.
    pub open spec fn scaled(self) -> int {
        if self.bits >= SIGN {
            -magnitude_of(self.unsigned_bits())
        } else {
            magnitude_of(self.unsigned_bits()) as int
        }
    }

    /// Whether the value is less than another; never so where either is not a number.
    pub open spec fn lt_spec(self, other: Double) -> bool {
        !self.is_nan() && !other.is_nan() && self.scaled() < other.scaled()
    }

    /// Whether the value is at most another; never so where either is not a number.
    pub open spec fn le_spec(self, other: Double) -> bool {
        !self.is_nan() && !other.is_nan() && self.scaled() <= other.scaled()
    }

    /// The value moved to the nearer end of a range that it lies outside of.
    pub open spec fn clamp_spec(self, lo: Double, hi: Double) -> Double {
        if self.lt_spec(lo) {
            lo
        } else if hi.lt_spec(self) {
            hi
        } else {
            self
        }
    }
}

/// The bits of 0.5.
pub const HALF: u64 = 0x3FE0_0000_0000_0000;

/// The bits of 1.
pub const ONE: u64 = 0x3FF0_0000_0000_0000;

/// The bits of 60.
pub const SIXTY: u64 = 0x404E_0000_0000_0000;

/// The bits of 100.
pub const HUNDRED: u64 = 0x4059_0000_0000_0000;

/// The named constants have the values that their names say; a bit pattern of zeros is zero.
pub proof fn constants_have_their_values()
    ensures
        (Double { bits: 0 }).scaled() == 0,
        2 * (Double { bits: HALF }).scaled() == whole(1),
        (Double { bits: ONE }).scaled() == whole(1),
        (Double { bits: SIXTY }).scaled() == whole(60),
        (Double { bits: HUNDRED }).scaled() == whole(100),
{
    lemma2_to64();
    lemma2_to64_rest();
    lemma_pow2_adds(1022, 52);
    lemma_pow2_adds(1021, 53);
    lemma_pow2_adds(1028, 46);
    lemma_pow2_adds(1027, 47);
    assert(magnitude_of(HALF as nat) == FRACTIONS * pow2(1021)) by {
        assert(HALF as nat / FRACTIONS as nat == 1022);
    }
    assert(magnitude_of(ONE as nat) == FRACTIONS * pow2(1022));
    assert(magnitude_of(SIXTY as nat) == 60 * 0x800000000000 * pow2(1027));
    assert(60 * 0x800000000000 * pow2(1027) == 60 * (0x800000000000 * pow2(1027)))
        by (nonlinear_arith);
    assert(magnitude_of(HUNDRED as nat) == 100 * 0x400000000000 * pow2(1028));
    assert(100 * 0x400000000000 * pow2(1028) == 100 * (0x400000000000 * pow2(1028)))
        by (nonlinear_arith);
    assert(2 * (FRACTIONS * pow2(1021)) == (2 * FRACTIONS) * pow2(1021)) by (nonlinear_arith);
}

/// Of two bit patterns without sign, the larger one stands for the larger magnitude.
pub proof fn larger_bits_are_larger_magnitudes(a: nat, b: nat)
    requires
        a < b,
    ensures
        magnitude_of(a) < magnitude_of(b),
{
    let n = FRACTIONS as nat;
    let (ea, eb) = (a / n, b / n);
    let (fa, fb) = (a % n, b % n);
    assert(ea <= eb);
    if ea == eb {
        assert(fa < fb);
        if ea > 0 {
            let p = pow2((ea - 1) as nat);
            lemma_pow2_pos((ea - 1) as nat);
            lemma_mul_strict_inequality((n + fa) as int, (n + fb) as int, p as int);
        }
    } else {
        let p = pow2((eb - 1) as nat);
        lemma_pow2_pos((eb - 1) as nat);
        assert(n * p <= (n + fb) * p) by (nonlinear_arith)
            requires
                0 <= fb,
                0 < p,
        ;
        if ea == 0 {
            assert(n <= n * p) by (nonlinear_arith)
                requires
                    1 <= p,
            ;
        } else {
            let q = pow2((ea - 1) as nat);
            lemma_pow2_pos((ea - 1) as nat);
            lemma_pow2_adds((ea - 1) as nat, 1);
            lemma2_to64();
            if ea < eb - 1 {
                lemma_pow2_strictly_increases(ea, (eb - 1) as nat);
            }
            assert((n + fa) * q < n * p) by (nonlinear_arith)
                requires
                    fa < n,
                    0 < q,
                    2 * q <= p,
            ;
        }
    }
}

impl Double {
    /// Whether the value is not a number.
    pub fn not_a_number(self) -> (nan: bool)
        ensures
            nan == self.is_nan(),
    {
        self.bits % SIGN > 2047 * FRACTIONS
    }

    /// Whether the value is less than another.
    pub fn lt(self, other: Double) -> (less: bool)
        ensures
            less == self.lt_spec(other),
    {
        let a: u64 = self.bits % SIGN;
        let b: u64 = other.bits % SIGN;
        proof {
            if a < b {
                larger_bits_are_larger_magnitudes(a as nat, b as nat);
            } else if b < a {
                larger_bits_are_larger_magnitudes(b as nat, a as nat);
            }
            if 0 < a {
                larger_bits_are_larger_magnitudes(0, a as nat);
            }
            if 0 < b {
                larger_bits_are_larger_magnitudes(0, b as nat);
            }
            assert(magnitude_of(0) == 0);
        }
        if self.not_a_number() || other.not_a_number() {
            false
        } else if self.bits >= SIGN {
            if other.bits >= SIGN {
                b < a
            } else {
                0 < a || 0 < b
            }
        } else if other.bits >= SIGN {
            false
        } else {
            a < b
        }
    }

    /// Whether the value is at most another.
    pub fn le(self, other: Double) -> (at_most: bool)
        ensures
            at_most == self.le_spec(other),
    {
        !self.not_a_number() && !other.not_a_number() && !other.lt(self)
    }

    /// The value, moved to the nearer end of the range from `lo` to `hi` where it lies outside.
    /// What is not a number stays as it is.
    pub fn clamp(self, lo: Double, hi: Double) -> (clamped: Double)
        requires
            !lo.is_nan(),
            !hi.is_nan(),
            lo.scaled() <= hi.scaled(),
        ensures
            clamped == self.clamp_spec(lo, hi),
            !self.is_nan() ==> lo.scaled() <= clamped.scaled() <= hi.scaled(),
    {
        if self.lt(lo) {
            lo
        } else if hi.lt(self) {
            hi
        } else {
            self
        }
    }
}

/// A value inside the range is not moved by `clamp`, and clamping twice is clamping once.
pub proof fn clamp_is_idempotent(x: Double, lo: Double, hi: Double)
    requires
        !lo.is_nan(),
        !hi.is_nan(),
        lo.scaled() <= hi.scaled(),
    ensures
        x.clamp_spec(lo, hi).clamp_spec(lo, hi) == x.clamp_spec(lo, hi),
        lo.scaled() <= x.scaled() <= hi.scaled() ==> x.clamp_spec(lo, hi) == x,
{
}

/// The least power of two, from 1 on, of which fewer than 2 to the 53rd make up `p`: the spacing
/// of the doubles around `p` (for a whole number `p`).
pub open spec fn spacing(p: nat) -> nat
    decreases p,
{
    if p < 2 * FRACTIONS {
        1
    } else {
        2 * spacing(p / 2)
    }
}

/// A whole number rounded to the nearest double: to 53 significant bits, ties to even.
pub open spec fn rounded(p: nat) -> nat {
    let u = spacing(p);
    let q = p / u;
    let r = p % u;
    if 2 * r < u || (2 * r == u && q % 2 == 0) {
        q * u
    } else {
        (q + 1) * u
    }
}

/// The whole part of a double's product with `k`, where the product is first rounded to a double
/// as a multiplication does; limited to the range of `u32`, with 0 for negative numbers and for
/// what is not a number.
pub open spec fn scaled_by(x: Double, k: nat) -> nat {
    let exponent = x.unsigned_bits() / FRACTIONS as nat;
    let fraction = x.unsigned_bits() % FRACTIONS as nat;
    let significand = if exponent == 0 {
        fraction
    } else {
        FRACTIONS as nat + fraction
    };
    let unit = if exponent == 0 {
        1nat
    } else {
        pow2((exponent - 1) as nat)
    };
    let whole_part = rounded(significand * k) * unit / pow2(1074);
    if x.is_nan() || x.bits >= SIGN {
        0
    } else if whole_part > u32::MAX {
        u32::MAX as nat
    } else {
        whole_part
    }
}

/// The power of two with the exponent `k`.
fn power_of_two(k: u32) -> (p: u128)
    requires
        k < 128,
    ensures
        p == pow2(k as nat),
{
    proof {
        lemma2_to64();
        lemma2_to64_rest();
        lemma_pow2_adds(64, 63);
    }
    let mut p: u128 = 1;
    let mut i: u32 = 0;
    while i < k
        invariant
            i <= k < 128,
            p == pow2(i as nat),
            pow2(127) == 0x8000_0000_0000_0000_0000_0000_0000_0000,
        decreases k - i,
    {
        proof {
            lemma2_to64();
            lemma_pow2_adds(i as nat, 1);
            if i < 126 {
                lemma_pow2_strictly_increases((i + 1) as nat, 127);
            }
        }
        p = p * 2;
        i = i + 1;
    }
    p
}

proof fn lemma_spacing_range(p: nat)
    ensures
        spacing(p) >= 1,
        p >= 1 ==> spacing(p) <= p,
    decreases p,
{
    if p >= 2 * FRACTIONS {
        lemma_spacing_range(p / 2);
    }
}

/// The spacing of the doubles around `p`.
fn spacing_of(p: u128) -> (u: u128)
    ensures
        u == spacing(p as nat),
    decreases p,
{
    proof {
        lemma_spacing_range(p as nat);
    }
    if p < 2 * FRACTIONS as u128 {
        1
    } else {
        2 * spacing_of(p / 2)
    }
}

/// `p` rounded to the nearest double.
fn round_to_double(p: u128) -> (r: u128)
    requires
        p < 0x1_0000_0000_0000_0000_0000_0000,
    ensures
        r == rounded(p as nat),
        p <= 2 * r,
{
    let u: u128 = spacing_of(p);
    proof {
        lemma_spacing_range(p as nat);
    }
    let q: u128 = p / u;
    let r: u128 = p % u;
    assert(p == q * u + r && 0 <= r < u) by (nonlinear_arith)
        requires
            u > 0,
            q == p / u,
            r == p % u,
    ;
    assert((q + 1) * u == q * u + u) by (nonlinear_arith);
    if 2 * r < u || (2 * r == u && q % 2 == 0) {
        proof {
            if p < 2 * FRACTIONS {
                assert(u == 1);
            } else {
                assert(q >= 1) by (nonlinear_arith)
                    requires
                        p == q * u + r,
                        u <= p,
                        r < u,
                ;
                assert(q * u >= u) by (nonlinear_arith)
                    requires
                        q >= 1,
                ;
            }
        }
        q * u
    } else {
        (q + 1) * u
    }
}

impl Double {
    /// The whole part of the product with `k`, limited to the range of `u32`.
    pub fn scale_to_u32(self, k: u32) -> (n: u32)
        requires
            k > 0,
        ensures
            n == scaled_by(self, k as nat),
    {
        if self.not_a_number() || self.bits >= SIGN {
            return 0;
        }
        let exponent: u64 = self.bits / FRACTIONS;
        let fraction: u64 = self.bits % FRACTIONS;
        let significand: u64 = if exponent == 0 {
            fraction
        } else {
            FRACTIONS + fraction
        };
        assert(significand * k < 0x1_0000_0000_0000_0000_0000_0000) by (nonlinear_arith)
            requires
                significand < 2 * FRACTIONS,
                k <= u32::MAX,
        ;
        let product: u128 = round_to_double(significand as u128 * k as u128);
        let ghost unit = if exponent == 0 {
            1nat
        } else {
            pow2((exponent - 1) as nat)
        };
        proof {
            lemma2_to64();
            lemma_pow2_pos(1074);
        }
        if exponent >= 1075 {
            proof {
                assert(significand * k >= FRACTIONS) by (nonlinear_arith)
                    requires
                        significand >= FRACTIONS,
                        k >= 1,
                ;
                lemma_pow2_adds(1074, (exponent - 1075) as nat);
                lemma_pow2_pos((exponent - 1075) as nat);
                let c = pow2((exponent - 1075) as nat);
                assert(product * unit == (product * c) * pow2(1074)) by (nonlinear_arith)
                    requires
                        unit == pow2(1074) * c,
                ;
                lemma_div_multiples_vanish((product * c) as int, pow2(1074) as int);
                assert(product * c >= product) by (nonlinear_arith)
                    requires
                        c >= 1,
                ;
            }
            u32::MAX
        } else {
            let shift: u64 = if exponent == 0 {
                1074
            } else {
                1075 - exponent
            };
            proof {
                assert(unit * pow2(shift as nat) == pow2(1074)) by {
                    if exponent > 0 {
                        lemma_pow2_adds((exponent - 1) as nat, shift as nat);
                    }
                }
                lemma_pow2_pos(shift as nat);
                if exponent > 0 {
                    lemma_pow2_pos((exponent - 1) as nat);
                }
                lemma_div_multiples_vanish(product as int, unit as int);
                lemma_div_denominator(product * unit, unit as int, pow2(shift as nat) as int);
                assert(product * unit / pow2(1074) as int == product as int / pow2(shift as nat) as int);
            }
            if shift >= 128 {
                proof {
                    lemma_pow2_adds(64, 64);
                    if shift > 128 {
                        lemma_pow2_strictly_increases(128, shift as nat);
                    }
                    assert(product as int / pow2(shift as nat) as int == 0) by (nonlinear_arith)
                        requires
                            product < pow2(shift as nat),
                    ;
                }
                0
            } else {
                let n: u128 = product / power_of_two(shift as u32);
                if n > u32::MAX as u128 {
                    u32::MAX
                } else {
                    n as u32
                }
            }
        }
    }
}

/// Whether the difference of two doubles, rounded to a double as a subtraction does, exceeds the
/// machine epsilon (2 to the power of -52) in size. That is so exactly if the difference itself
/// exceeds the epsilon by more than half the distance to the next larger double: a tie rounds to
/// the epsilon, whose significand is even.
pub open spec fn differs_spec(a: Double, b: Double) -> bool {
    let difference = a.scaled() - b.scaled();
    let size = if difference < 0 {
        -difference
    } else {
        difference
    };
    !a.is_nan() && !b.is_nan() && size > pow2(1022) + pow2(969)
}

/// The bits of 2 to the 22nd.
const LARGE: u64 = 1045 * FRACTIONS;

/// From 2 to the 22nd on, neighbouring doubles lie far apart.
proof fn lemma_large_doubles_are_sparse(hi: nat, lo: nat)
    requires
        LARGE <= hi,
        lo < hi,
    ensures
        magnitude_of(hi) - magnitude_of(lo) >= pow2(1043),
        magnitude_of(hi) >= pow2(1043),
{
    let n = FRACTIONS as nat;
    let e = hi / n;
    let f = hi % n;
    let below = (hi - 1) as nat;
    if lo < below {
        larger_bits_are_larger_magnitudes(lo, below);
    }
    let p = pow2((e - 2) as nat);
    lemma_pow2_adds((e - 2) as nat, 1);
    lemma2_to64();
    if e > 1045 {
        lemma_pow2_strictly_increases(1043, (e - 2) as nat);
    }
    assert(pow2((e - 1) as nat) == 2 * p);
    if f > 0 {
        assert(below / n == e && below % n == f - 1);
        assert((n + f) * (2 * p) - (n + (f - 1)) * (2 * p) == 2 * p) by (nonlinear_arith);
    } else {
        assert(below / n == e - 1 && below % n == n - 1);
        assert(n * (2 * p) - (n + (n - 1)) * p == p) by (nonlinear_arith);
    }
}

/// The whole part of a magnitude in units of 2 to the power of -105, and whether that is all of it.
fn fixed_point(m: u64) -> (r: (u128, bool))
    requires
        m < LARGE,
    ensures
        r.0 == magnitude_of(m as nat) / pow2(969),
        r.1 == (magnitude_of(m as nat) % pow2(969) == 0),
        !r.1 ==> r.0 < FRACTIONS,
        r.0 <= u128::MAX / 2,
{
    let exponent: u64 = m / FRACTIONS;
    let fraction: u64 = m % FRACTIONS;
    let (significand, k): (u64, u64) = if exponent == 0 {
        (fraction, 0)
    } else {
        (FRACTIONS + fraction, exponent - 1)
    };
    proof {
        lemma2_to64();
        lemma2_to64_rest();
        lemma_pow2_pos(969);
        lemma_pow2_pos(k as nat);
        assert(magnitude_of(m as nat) == significand * pow2(k as nat)) by {
            assert(significand * 1 == significand);
        }
    }
    let ghost unit = pow2(969);
    let ghost size = magnitude_of(m as nat);
    if k >= 969 {
        let factor: u128 = power_of_two((k - 969) as u32);
        proof {
            lemma_pow2_adds((k - 969) as nat, 969);
            if k < 1043 {
                lemma_pow2_strictly_increases((k - 969) as nat, 74);
            }
            lemma_pow2_adds(64, 10);
            assert(significand * factor <= u128::MAX / 2) by (nonlinear_arith)
                requires
                    significand < 2 * FRACTIONS,
                    factor <= 0x400_0000_0000_0000_0000,
            ;
            assert(size == (significand * factor) * unit) by (nonlinear_arith)
                requires
                    size == significand * (factor * unit),
            ;
            lemma_div_multiples_vanish((significand * factor) as int, unit as int);
            vstd::arithmetic::div_mod::lemma_mod_multiples_basic(
                (significand * factor) as int,
                unit as int,
            );
        }
        (significand as u128 * factor, true)
    } else {
        let shift: u64 = 969 - k;
        proof {
            lemma_pow2_adds(k as nat, shift as nat);
            lemma_pow2_pos(shift as nat);
            lemma_split_by_powers(
                significand as nat,
                pow2(k as nat),
                pow2(shift as nat),
            );
            assert(significand as nat / pow2(shift as nat) <= significand / 2) by {
                if shift > 1 {
                    lemma_pow2_strictly_increases(1, shift as nat);
                }
                vstd::arithmetic::div_mod::lemma_div_is_ordered_by_denominator(
                    significand as int,
                    2,
                    pow2(shift as nat) as int,
                );
            }
        }
        if shift >= 64 {
            proof {
                if shift > 64 {
                    lemma_pow2_strictly_increases(64, shift as nat);
                }
                let p = pow2(shift as nat);
                assert(significand as nat / p == 0 && significand as nat % p == significand)
                    by (nonlinear_arith)
                    requires
                        significand < p,
                ;
            }
            (0, significand == 0)
        } else {
            let divisor: u128 = power_of_two(shift as u32);
            (significand as u128 / divisor, significand as u128 % divisor == 0)
        }
    }
}

/// A product with one power, split by the product of two.
proof fn lemma_split_by_powers(s: nat, a: nat, b: nat)
    requires
        a > 0,
        b > 0,
    ensures
        (s * a) / (a * b) == s / b,
        (s * a) % (a * b) == 0 <==> s % b == 0,
{
    let q = s / b;
    let r = s % b;
    assert(s == q * b + r) by {
        vstd::arithmetic::div_mod::lemma_fundamental_div_mod(s as int, b as int);
        assert(b * q == q * b) by (nonlinear_arith);
    }
    assert(s * a == q * (a * b) + r * a) by (nonlinear_arith)
        requires
            s == q * b + r,
    ;
    assert(0 <= r * a < a * b) by (nonlinear_arith)
        requires
            0 <= r < b,
            a > 0,
    ;
    vstd::arithmetic::div_mod::lemma_fundamental_div_mod_converse(
        (s * a) as int,
        (a * b) as int,
        q as int,
        (r * a) as int,
    );
    assert(r * a == 0 <==> r == 0) by (nonlinear_arith)
        requires
            a > 0,
    ;
}

/// Comparing a difference with a whole number of units needs only the whole parts, where only a
/// small minuend has a fractional part.
proof fn lemma_difference_in_units(a: int, b: int, u: int, t: int)
    requires
        0 <= b <= a,
        0 < u,
        t == 2 * FRACTIONS + 1,
        a % u != 0 ==> a / u < FRACTIONS,
    ensures
        a - b > t * u <==> a / u - b / u > t,
{
    let (fa, ra) = (a / u, a % u);
    let (fb, rb) = (b / u, b % u);
    vstd::arithmetic::div_mod::lemma_fundamental_div_mod(a, u);
    vstd::arithmetic::div_mod::lemma_fundamental_div_mod(b, u);
    assert(0 <= ra < u && 0 <= rb < u);
    assert(fb >= 0) by (nonlinear_arith)
        requires
            b == u * fb + rb,
            rb < u,
            0 <= b,
            0 < u,
    ;
    if ra != 0 {
        assert(a < t * u) by (nonlinear_arith)
            requires
                a == u * fa + ra,
                ra < u,
                fa + 1 <= t,
                0 < u,
        ;
    } else if fa - fb > t {
        assert(a - b > t * u) by (nonlinear_arith)
            requires
                a == u * fa,
                b == u * fb + rb,
                rb < u,
                fa - fb >= t + 1,
                0 < u,
        ;
    } else {
        assert(a - b <= t * u) by (nonlinear_arith)
            requires
                a == u * fa,
                b == u * fb + rb,
                0 <= rb,
                fa - fb <= t,
                0 < u,
        ;
    }
}

/// Comparing a sum with a whole number of units needs the whole parts and whether anything is
/// left, where only small summands have a fractional part.
proof fn lemma_sum_in_units(a: int, b: int, u: int, t: int)
    requires
        0 <= a,
        0 <= b,
        0 < u,
        t == 2 * FRACTIONS + 1,
        a % u != 0 ==> a / u < FRACTIONS,
        b % u != 0 ==> b / u < FRACTIONS,
    ensures
        a + b > t * u <==> a / u + b / u > t || (a / u + b / u == t && (a % u != 0 || b % u != 0)),
{
    let (fa, ra) = (a / u, a % u);
    let (fb, rb) = (b / u, b % u);
    vstd::arithmetic::div_mod::lemma_fundamental_div_mod(a, u);
    vstd::arithmetic::div_mod::lemma_fundamental_div_mod(b, u);
    assert(0 <= ra < u && 0 <= rb < u);
    let f = fa + fb;
    let r = ra + rb;
    assert(a + b == u * f + r) by (nonlinear_arith)
        requires
            a == u * fa + ra,
            b == u * fb + rb,
            f == fa + fb,
            r == ra + rb,
    ;
    if f > t {
        assert(a + b > t * u) by (nonlinear_arith)
            requires
                a + b == u * f + r,
                0 <= r,
                f >= t + 1,
                0 < u,
        ;
    } else if f == t {
        assert(u * f == t * u) by (nonlinear_arith)
            requires
                f == t,
        ;
    } else if ra != 0 && rb != 0 {
        assert(a + b < t * u) by (nonlinear_arith)
            requires
                a + b == u * f + r,
                r < 2 * u,
                f + 2 <= t,
                0 < u,
        ;
    } else {
        assert(a + b < t * u) by (nonlinear_arith)
            requires
                a + b == u * f + r,
                r < u,
                f + 1 <= t,
                0 < u,
        ;
    }
}

impl Double {
    /// Whether the two values lie further apart than a rounding error.
    pub fn differs_from(self, other: Double) -> (differs: bool)
        ensures
            differs == differs_spec(self, other),
    {
        if self.not_a_number() || other.not_a_number() {
            return false;
        }
        let a: u64 = self.bits % SIGN;
        let b: u64 = other.bits % SIGN;
        let ghost unit = pow2(969);
        let ghost (am, bm) = (magnitude_of(a as nat), magnitude_of(b as nat));
        let limit: u128 = 2 * FRACTIONS as u128 + 1;
        proof {
            lemma2_to64();
            lemma2_to64_rest();
            lemma_pow2_pos(969);
            lemma_pow2_adds(969, 53);
            lemma_pow2_strictly_increases(1022, 1042);
            lemma_pow2_strictly_increases(969, 1042);
            lemma_pow2_adds(1042, 1);
            assert(pow2(1022) + unit == limit * unit) by (nonlinear_arith)
                requires
                    pow2(1022) == unit * 0x20_0000_0000_0000,
                    limit == 0x20_0000_0000_0001,
            ;
            vstd::arithmetic::div_mod::lemma_fundamental_div_mod(am as int, unit as int);
            vstd::arithmetic::div_mod::lemma_fundamental_div_mod(bm as int, unit as int);
            if a < b {
                larger_bits_are_larger_magnitudes(a as nat, b as nat);
            } else if b < a {
                larger_bits_are_larger_magnitudes(b as nat, a as nat);
            }
        }
        if (self.bits >= SIGN) == (other.bits >= SIGN) {
            let (hi, lo): (u64, u64) = if a < b {
                (b, a)
            } else {
                (a, b)
            };
            if hi == lo {
                return false;
            }
            if hi >= LARGE {
                proof {
                    lemma_large_doubles_are_sparse(hi as nat, lo as nat);
                }
                return true;
            }
            let (high, _) = fixed_point(hi);
            let (low, _) = fixed_point(lo);
            proof {
                lemma_difference_in_units(
                    magnitude_of(hi as nat) as int,
                    magnitude_of(lo as nat) as int,
                    unit as int,
                    limit as int,
                );
            }
            high > low && high - low > limit
        } else {
            if a >= LARGE {
                proof {
                    lemma_large_doubles_are_sparse(a as nat, (a - 1) as nat);
                }
                return true;
            }
            if b >= LARGE {
                proof {
                    lemma_large_doubles_are_sparse(b as nat, (b - 1) as nat);
                }
                return true;
            }
            let (first, first_whole) = fixed_point(a);
            let (second, second_whole) = fixed_point(b);
            proof {
                lemma_sum_in_units(am as int, bm as int, unit as int, limit as int);
            }
            first + second > limit || (first + second == limit && !(first_whole && second_whole))
        }
    }
}

/// Numbers are ordered as their bits are: of two that are not negative, the one with the larger
/// bits is larger; of two negative ones, the one with the smaller bits; and a negative one is less
/// than one that is not, but that the two zeros are equal. What is not a number is neither less nor
/// more.
pub proof fn numbers_are_ordered(a: Double, b: Double, less: bool, more: bool, at_most: bool)
    requires
        call_ensures(Double::lt, (a, b), less),
        call_ensures(Double::lt, (b, a), more),
        call_ensures(Double::le, (a, b), at_most),
    ensures
        a.is_nan() || b.is_nan() ==> !less && !more && !at_most,
        !a.is_nan() && !b.is_nan() ==> {
            &&& !(less && more)
            &&& at_most <==> !more
            &&& a.bits < SIGN && b.bits < SIGN ==> (less <==> a.bits < b.bits)
            &&& a.bits >= SIGN && b.bits >= SIGN ==> (less <==> a.bits > b.bits)
            &&& a.bits >= SIGN && b.bits < SIGN ==> (less <==> a.bits > SIGN || b.bits > 0)
            &&& a.bits < SIGN && b.bits >= SIGN ==> !less
        },
{
    let m: nat = a.unsigned_bits();
    let n: nat = b.unsigned_bits();
    if m < n {
        larger_bits_are_larger_magnitudes(m, n);
    } else if n < m {
        larger_bits_are_larger_magnitudes(n, m);
    }
    if 0 < m {
        larger_bits_are_larger_magnitudes(0, m);
    }
    if 0 < n {
        larger_bits_are_larger_magnitudes(0, n);
    }
    assert(magnitude_of(0) == 0);
}

/// What is not a number has bits, without the sign, beyond those of infinity.
pub proof fn only_bits_beyond_infinity_are_no_number(x: Double, nan: bool)
    requires
        call_ensures(Double::not_a_number, (x,), nan),
    ensures
        nan <==> x.bits % 0x8000_0000_0000_0000 > 0x7ff0_0000_0000_0000,
{
}

/// A clamped number lies in the range and is the number itself where that does, else the end that
/// it lies beyond.
pub proof fn clamping_moves_to_the_nearer_end(x: Double, lo: Double, hi: Double, clamped: Double)
    requires
        !lo.is_nan(),
        !hi.is_nan(),
        lo.scaled() <= hi.scaled(),
        call_ensures(Double::clamp, (x, lo, hi), clamped),
    ensures
        x.is_nan() ==> clamped == x,
        !x.is_nan() && x.scaled() < lo.scaled() ==> clamped == lo,
        !x.is_nan() && x.scaled() > hi.scaled() ==> clamped == hi,
        !x.is_nan() && lo.scaled() <= x.scaled() <= hi.scaled() ==> clamped == x,
{
}

/// Two numbers differ, in whichever order they are compared, if they lie further apart than 2 to
/// the power of -51, and not if they lie no further apart than 2 to the power of -52; nothing
/// differs from itself or from what is not a number.
pub proof fn differing_is_more_than_rounding(a: Double, b: Double, differs: bool, turned: bool)
    requires
        call_ensures(Double::differs_from, (a, b), differs),
        call_ensures(Double::differs_from, (b, a), turned),
    ensures
        differs == turned,
        a == b || a.is_nan() || b.is_nan() ==> !differs,
        !a.is_nan() && !b.is_nan() && a.scaled() - b.scaled() > pow2(1023) ==> differs,
        !a.is_nan() && !b.is_nan() && -pow2(1022) <= a.scaled() - b.scaled() <= pow2(1022)
            ==> !differs,
{
    lemma2_to64();
    lemma_pow2_adds(1022, 1);
    lemma_pow2_strictly_increases(969, 1022);
    lemma_pow2_pos(969);
}

proof fn lemma_rounding_error(p: nat)
    ensures
        rounded(p) * pow2(53) <= p * (pow2(53) + 1),
        rounded(p) * pow2(53) >= p * (pow2(53) - 1),
{
    lemma2_to64_rest();
    let u = spacing(p);
    let q = p / u;
    let r = p % u;
    lemma_spacing_range(p);
    lemma_spacing_is_fine(p);
    vstd::arithmetic::div_mod::lemma_fundamental_div_mod(p as int, u as int);
    let f: int = pow2(53) as int;
    let n: int = rounded(p) as int;
    assert(u * q == q * u) by (nonlinear_arith);
    assert((q + 1) * u == q * u + u) by (nonlinear_arith);
    assert(2 * n <= 2 * p + u && 2 * n >= 2 * p - u);
    if u == 1 {
        assert(r == 0);
        assert(n == p);
        assert(n * f <= p * (f + 1)) by (nonlinear_arith)
            requires
                n == p,
                p >= 0,
        ;
        assert(n * f >= p * (f - 1)) by (nonlinear_arith)
            requires
                n == p,
                p >= 0,
        ;
    } else {
        assert(u * f == 2 * (u * FRACTIONS)) by (nonlinear_arith)
            requires
                f == 2 * FRACTIONS,
        ;
        assert(n * f <= p * (f + 1)) by (nonlinear_arith)
            requires
                2 * n <= 2 * p + u,
                u * f <= 2 * p,
                f >= 0,
        ;
        assert(n * f >= p * (f - 1)) by (nonlinear_arith)
            requires
                2 * n >= 2 * p - u,
                u * f <= 2 * p,
                f >= 0,
        ;
    }
}

proof fn lemma_spacing_is_fine(p: nat)
    ensures
        spacing(p) == 1 || spacing(p) * FRACTIONS <= p,
    decreases p,
{
    if p >= 2 * FRACTIONS {
        lemma_spacing_is_fine(p / 2);
    }
}

/// A number that is scaled gives the whole part of the product, up to the rounding of one
/// multiplication, which changes it by at most one part in 2 to the 53rd; negative numbers and what
/// is not a number give nothing, and products beyond the range of `u32` its end.
pub proof fn scaling_is_multiplying(x: Double, k: u32, n: u32)
    requires
        k > 0,
        call_ensures(Double::scale_to_u32, (x, k), n),
    ensures
        x.is_nan() || x.bits >= SIGN ==> n == 0,
        !x.is_nan() && x.bits < SIGN ==> whole(n as int) * pow2(53) <= (x.scaled() * k) * (pow2(53)
            + 1),
        !x.is_nan() && x.bits < SIGN && n < u32::MAX ==> whole(n + 1) * pow2(53) > (x.scaled() * k)
            * (pow2(53) - 1),
{
    if !x.is_nan() && x.bits < SIGN {
        let exponent: nat = x.unsigned_bits() / FRACTIONS as nat;
        let fraction: nat = x.unsigned_bits() % FRACTIONS as nat;
        let significand: nat = if exponent == 0 {
            fraction
        } else {
            FRACTIONS as nat + fraction
        };
        let unit: nat = if exponent == 0 {
            1
        } else {
            pow2((exponent - 1) as nat)
        };
        let product: nat = significand * k as nat;
        let nearest: nat = rounded(product);
        let one: nat = pow2(1074);
        let f: int = pow2(53) as int;
        lemma_rounding_error(product);
        lemma_pow2_pos(1074);
        lemma_pow2_pos(53);
        if exponent > 0 {
            lemma_pow2_pos((exponent - 1) as nat);
        }
        assert(significand * 1 == significand);
        assert(x.scaled() == significand * unit);
        assert(x.scaled() * k == product * unit) by (nonlinear_arith)
            requires
                x.scaled() == significand * unit,
                product == significand * k as nat,
        ;
        let part: int = (nearest * unit) as int / one as int;
        vstd::arithmetic::div_mod::lemma_fundamental_div_mod((nearest * unit) as int, one as int);
        assert(one * part == part * one) by (nonlinear_arith);
        assert(part * one <= nearest * unit < (part + 1) * one) by (nonlinear_arith)
            requires
                nearest * unit == part * one + (nearest * unit) as int % one as int,
                0 <= (nearest * unit) as int % (one as int) < one,
        ;
        assert((nearest * unit) * f <= (product * unit) * (f + 1)) by (nonlinear_arith)
            requires
                nearest * f <= product * (f + 1),
                unit >= 1,
        ;
        assert((nearest * unit) * f >= (product * unit) * (f - 1)) by (nonlinear_arith)
            requires
                nearest * f >= product * (f - 1),
                unit >= 1,
        ;
        assert(n <= part);
        assert((n * one) * f <= (nearest * unit) * f) by (nonlinear_arith)
            requires
                n <= part,
                part * one <= nearest * unit,
                one >= 1,
                f >= 1,
        ;
        if n < u32::MAX {
            assert(n == part);
            assert(((n + 1) * one) * f > (nearest * unit) * f) by (nonlinear_arith)
                requires
                    n == part,
                    nearest * unit < (part + 1) * one,
                    f >= 1,
            ;
        }
    }
}

/// A whole number that lies halfway between two doubles is rounded to the one with an even
/// significand, and a double is not moved.
pub proof fn ties_are_rounded_to_even(p: nat)
    ensures
        2 * (p % spacing(p)) == spacing(p) ==> rounded(p) / spacing(p) % 2 == 0,
        p % spacing(p) == 0 ==> rounded(p) == p,
{
    let u = spacing(p);
    let q = p / u;
    lemma_spacing_range(p);
    vstd::arithmetic::div_mod::lemma_fundamental_div_mod(p as int, u as int);
    assert(u * q == q * u) by (nonlinear_arith);
    lemma_div_multiples_vanish(q as int, u as int);
    lemma_div_multiples_vanish((q + 1) as int, u as int);
}

/// Two numbers differ exactly if they lie apart by more than 2 to the power of -52 and half of what
/// the next larger double has beyond that.
pub proof fn differing_has_a_sharp_limit(a: Double, b: Double, differs: bool)
    requires
        !a.is_nan(),
        !b.is_nan(),
        call_ensures(Double::differs_from, (a, b), differs),
    ensures
        differs <==> a.scaled() - b.scaled() > pow2(1022) + pow2(969) || b.scaled() - a.scaled()
            > pow2(1022) + pow2(969),
{
    lemma_pow2_pos(1022);
    lemma_pow2_pos(969);
}

} // verus!
