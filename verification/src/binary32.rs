//! IEEE 754 single-precision numbers, handled as their 32-bit patterns.
//!
//! Every scalar of the simulation (state components, forces, masses, lengths and
//! the time step) travels through this library as the bit pattern of a
//! single-precision number. The library never does floating-point arithmetic:
//! it reads sign, exponent and fraction with integer operations, which is all
//! that validation and the derivation of the tick period need.
use vstd::prelude::*;
use vstd::arithmetic::power2::*;
use vstd::arithmetic::div_mod::*;

verus! {

/// The pattern of positive zero.
pub const POSITIVE_ZERO: u32 = 0;

/// Largest biased exponent of a number below 2^64.
pub const MAX_SECONDS_EXPONENT: u32 = 190;

/// The sign bit is set.
pub open spec fn sign_bit(bits: u32) -> bool {
    bits >= 0x8000_0000
}

/// The eight exponent bits, as stored.
pub open spec fn biased_exponent(bits: u32) -> int {
    (bits as int / 0x80_0000) % 0x100
}

/// The twenty-three fraction bits.
pub open spec fn fraction(bits: u32) -> int {
    bits as int % 0x80_0000
}

/// Not a number: all exponent bits set and a fraction that is not zero.
pub open spec fn is_nan(bits: u32) -> bool {
    biased_exponent(bits) == 0xff && fraction(bits) != 0
}

/// Positive or negative zero.
pub open spec fn is_zero(bits: u32) -> bool {
    biased_exponent(bits) == 0 && fraction(bits) == 0
}

/// The number is strictly greater than zero (positive infinity included).
pub open spec fn is_positive(bits: u32) -> bool {
    !sign_bit(bits) && !is_nan(bits) && !is_zero(bits)
}

/// Integer significand `m` of a finite pattern, whose magnitude is
/// `m * 2^binary_exponent`.
pub open spec fn significand(bits: u32) -> nat {
    if biased_exponent(bits) == 0 {
        fraction(bits) as nat
    } else {
        (0x80_0000 + fraction(bits)) as nat
    }
}

/// Power of two that scales the integer significand of a finite pattern.
pub open spec fn binary_exponent(bits: u32) -> int {
    if biased_exponent(bits) == 0 {
        -149
    } else {
        biased_exponent(bits) - 150
    }
}

/// `n / d` rounded to the nearest integer, a tie going to the even neighbour.
pub open spec fn round_half_even(n: nat, d: nat) -> nat
    recommends
        d > 0,
{
    let q = n / d;
    let r = n % d;
    if 2 * r > d || (2 * r == d && q % 2 == 1) {
        q + 1
    } else {
        q
    }
}

/// The magnitude of a finite pattern, read as seconds, in whole nanoseconds:
/// `significand * 2^binary_exponent * 10^9`, rounded to the nearest integer,
/// ties to even.
pub open spec fn magnitude_nanos(bits: u32) -> nat {
    let n = significand(bits) * 1_000_000_000;
    let e = binary_exponent(bits);
    if e >= 0 {
        n * pow2(e as nat)
    } else {
        round_half_even(n, pow2((-e) as nat))
    }
}

/// The pattern, read as seconds, is a span of time that fits in 64 bits of
/// whole seconds: a zero of either sign, or a number from zero up to, but not
/// including, 2^64.
pub open spec fn representable_seconds(bits: u32) -> bool {
    is_zero(bits) || (!sign_bit(bits) && biased_exponent(bits) <= MAX_SECONDS_EXPONENT)
}

/// Upper bound, in nanoseconds, of every representable span.
pub open spec fn nanos_limit() -> nat {
    0x1_0000_0000_0000_0000 * 1_000_000_000
}

/// The stored exponent bits of `bits`.
pub fn exponent_field(bits: u32) -> (e: u32)
    ensures
        e == biased_exponent(bits),
        e <= 0xff,
{
    (bits / 0x80_0000) % 0x100
}

/// The fraction bits of `bits`.
pub fn fraction_field(bits: u32) -> (f: u32)
    ensures
        f == fraction(bits),
        f < 0x80_0000,
{
    bits % 0x80_0000
}

/// Whether the sign bit of `bits` is set.
pub fn has_sign_bit(bits: u32) -> (s: bool)
    ensures
        s == sign_bit(bits),
{
    bits >= 0x8000_0000
}

/// Whether `bits` is not a number.
pub fn check_nan(bits: u32) -> (r: bool)
    ensures
        r == is_nan(bits),
{
    exponent_field(bits) == 0xff && fraction_field(bits) != 0
}

/// Whether `bits` is a zero of either sign.
pub fn check_zero(bits: u32) -> (r: bool)
    ensures
        r == is_zero(bits),
{
    exponent_field(bits) == 0 && fraction_field(bits) == 0
}

/// Whether `bits` is a number strictly greater than zero.
pub fn check_positive(bits: u32) -> (r: bool)
    ensures
        r == is_positive(bits),
{
    !has_sign_bit(bits) && !check_nan(bits) && !check_zero(bits)
}

/// `2^k` for `k` up to 64.
fn power_of_two(k: u32) -> (p: u128)
    requires
        k <= 64,
    ensures
        p == pow2(k as nat),
        p <= 0x1_0000_0000_0000_0000,
{
    let mut p: u128 = 1;
    let mut i: u32 = 0;
    proof {
        lemma2_to64();
    }
    while i < k
        invariant
            i <= k,
            k <= 64,
            p == pow2(i as nat),
            pow2(64) == 0x1_0000_0000_0000_0000,
            p <= 0x1_0000_0000_0000_0000,
        decreases k - i,
    {
        proof {
            lemma_pow2_unfold((i + 1) as nat);
            if i + 1 < 64 {
                lemma_pow2_strictly_increases((i + 1) as nat, 64);
            }
        }
        p = p * 2;
        i = i + 1;
    }
    p
}

/// A quotient rounds to zero when the divisor is more than twice the dividend.
proof fn lemma_round_small(n: nat, d: nat)
    requires
        2 * n < d,
    ensures
        round_half_even(n, d) == 0,
{
    lemma_small_mod(n, d);
    lemma_basic_div(n as int, d as int);
}

/// Rounding to nearest never moves a quotient by more than half a unit, and
/// a tie lands on an even integer.
pub proof fn lemma_round_half_even_is_nearest(n: nat, d: nat)
    requires
        d > 0,
    ensures
        2 * (round_half_even(n, d) * d - n) <= d,
        2 * (n - round_half_even(n, d) * d) <= d,
        2 * (n % d) == d ==> round_half_even(n, d) % 2 == 0,
{
    let q = n / d;
    let r = n % d;
    lemma_fundamental_div_mod(n as int, d as int);
    lemma_mod_bound(n as int, d as int);
    assert(n == d * q + r);
    assert(d * q == q * d) by (nonlinear_arith);
    assert((q + 1) * d == q * d + d) by (nonlinear_arith);
}

/// Converts a span of seconds, given as the bit pattern of a single-precision
/// number, to whole nanoseconds, rounding to the nearest nanosecond with ties
/// to even.
///
/// The result is `None` exactly for the patterns that name no span of time
/// with fewer than 2^64 seconds: negative numbers, infinities, numbers of
/// 2^64 or more, and every not-a-number.
pub fn seconds_to_nanos(bits: u32) -> (total: Option<u128>)
    ensures
        total == if representable_seconds(bits) {
            Some(magnitude_nanos(bits) as u128)
        } else {
            None::<u128>
        },
        representable_seconds(bits) ==> magnitude_nanos(bits) < nanos_limit(),
{
    let e: u32 = exponent_field(bits);
    let f: u32 = fraction_field(bits);
    if e == 0 && f == 0 {
        proof {
            lemma_pow2_pos(149);
            lemma_round_small(0, pow2(149));
        }
        return Some(0);
    }
    if bits >= 0x8000_0000 || e > MAX_SECONDS_EXPONENT {
        return None;
    }
    let m: u128 = if e == 0 {
        f as u128
    } else {
        f as u128 + 0x80_0000
    };
    let n: u128 = m * 1_000_000_000;
    assert(n == significand(bits) * 1_000_000_000);
    assert(n <= 0xff_ffff * 1_000_000_000);
    if e >= 150 {
        let p: u128 = power_of_two(e - 150);
        proof {
            lemma2_to64_rest();
            if e - 150 < 40 {
                lemma_pow2_strictly_increases((e - 150) as nat, 40);
            }
            assert(pow2(40) == 0x100_0000_0000);
            assert(n * p <= 0xff_ffff * 1_000_000_000 * 0x100_0000_0000) by (nonlinear_arith)
                requires
                    n <= 0xff_ffff * 1_000_000_000,
                    p <= 0x100_0000_0000,
            ;
        }
        Some(n * p)
    } else {
        let s: u32 = if e == 0 {
            149
        } else {
            150 - e
        };
        assert(s == -binary_exponent(bits));
        if s > 63 {
            proof {
                lemma2_to64();
                if s > 64 {
                    lemma_pow2_strictly_increases(64, s as nat);
                }
                lemma_round_small(n as nat, pow2(s as nat));
            }
            Some(0)
        } else {
            let d: u128 = power_of_two(s);
            proof {
                lemma_pow2_pos(s as nat);
                lemma_fundamental_div_mod(n as int, d as int);
                lemma_mod_bound(n as int, d as int);
                lemma_div_pos_is_pos(n as int, d as int);
                assert(d * (n / d) <= n) by (nonlinear_arith)
                    requires
                        n == d * (n / d) + n % d,
                        n % d >= 0,
                ;
                assert(n / d <= n) by (nonlinear_arith)
                    requires
                        d * (n / d) <= n,
                        d >= 1,
                        n / d >= 0,
                ;
            }
            let q: u128 = n / d;
            let r: u128 = n % d;
            if 2 * r > d || (2 * r == d && q % 2 == 1) {
                Some(q + 1)
            } else {
                Some(q)
            }
        }
    }
}

} // verus!
