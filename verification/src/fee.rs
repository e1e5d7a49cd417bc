//! Fee rates, and the change of unit at the facade's boundary.
//!
//! The node states rates in bitcoin per kilobyte, as double-precision
//! numbers. The facade states them in satoshis per byte, in single
//! precision: the node's number times 100,000, rounded to double precision
//! and then to single precision, each time to the nearest value with ties
//! going to the even significand. Numbers are handled as their bit patterns,
//! and the arithmetic is done on integers.

use vstd::arithmetic::power2::*;
use vstd::prelude::*;

verus! {

/// A fee rate in satoshis per byte: the bit pattern of a single-precision
/// number.
#[derive(Clone, Copy, Debug, PartialEq, Eq)]
pub struct FeeRate {
    pub bits: u32,
}

/// Satoshis per byte in one bitcoin per kilobyte.
pub open spec fn unit_factor() -> nat {
    100_000
}

/// The number of binary digits of `n`: zero for zero.
pub open spec fn bit_length(n: nat) -> nat
    decreases n,
{
    if n == 0 {
        0
    } else {
        1 + bit_length(n / 2)
    }
}

/// `n` divided by two to the `shift`, rounded to the nearest integer; a
/// quotient that lies halfway between two integers goes to the even one.
pub open spec fn round_half_even(n: nat, shift: nat) -> nat {
    let unit = pow2(shift);
    let quotient = n / unit;
    let rest = n % unit;
    if 2 * rest > unit || (2 * rest == unit && quotient % 2 == 1) {
        quotient + 1
    } else {
        quotient
    }
}

/// The exponent of the unit in which `n` times two to the `e` is counted in
/// a format with `digits` significant digits whose smallest positive number
/// is two to the `least`: the exponent that leaves `n` exactly `digits`
/// digits, and `least` where that would be smaller.
pub open spec fn unit_exponent(n: nat, e: int, digits: nat, least: int) -> int {
    let natural = e + bit_length(n) - digits;
    if natural > least {
        natural
    } else {
        least
    }
}

/// `n` times two to the `e`, counted in units of two to the `k` and rounded
/// to the nearest count.
pub open spec fn count_in_units(n: nat, e: int, k: int) -> nat {
    if k >= e {
        round_half_even(n, (k - e) as nat)
    } else {
        n * pow2((e - k) as nat)
    }
}

/// The magnitude bits of a format with `digits` significant digits for the
/// number that is `count` units, the unit being `steps` binary places above
/// the smallest positive number. The exponent field stands above the
/// `digits - 1` bits of the fraction, so a count that reaches the leading
/// digit adds one to the field.
pub open spec fn pack(steps: int, count: nat, digits: nat) -> int {
    steps * pow2((digits - 1) as nat) + count
}

/// The magnitude bits of the number nearest to `n` times two to the `e` in a
/// binary format with `digits` significant digits whose smallest positive
/// number is two to the `least` and whose infinity has the bits `infinity`.
/// What is too large for the format is infinite.
pub open spec fn nearest(n: nat, e: int, digits: nat, least: int, infinity: nat) -> nat {
    if n == 0 {
        0
    } else {
        let k = unit_exponent(n, e, digits, least);
        let packed = pack(k - least, count_in_units(n, e, k), digits);
        if packed >= infinity {
            infinity
        } else {
            packed as nat
        }
    }
}

/// The significand that magnitude bits hold, as an integer: the fraction,
/// with the leading digit where the exponent field is not zero.
pub open spec fn significand_of(bits: nat, digits: nat) -> nat {
    let half = pow2((digits - 1) as nat);
    if bits / half == 0 {
        bits % half
    } else {
        bits % half + half
    }
}

/// The number of binary places by which the unit of magnitude bits lies
/// above the smallest positive number of the format.
pub open spec fn steps_of(bits: nat, digits: nat) -> nat {
    let half = pow2((digits - 1) as nat);
    if bits / half == 0 {
        0
    } else {
        (bits / half - 1) as nat
    }
}

/// The bits of positive infinity in double precision.
pub open spec fn double_infinity() -> u64 {
    0x7ff0_0000_0000_0000
}

/// The bits of the positive quiet not-a-number in double precision.
pub open spec fn double_nan() -> u64 {
    0x7ff8_0000_0000_0000
}

/// The bits of positive infinity in single precision.
pub open spec fn single_infinity() -> u32 {
    0x7f80_0000
}

/// The bits of the positive quiet not-a-number in single precision.
pub open spec fn single_nan() -> u32 {
    0x7fc0_0000
}

/// The exponent field of a double-precision magnitude.
pub open spec fn double_field(magnitude: u64) -> int {
    magnitude as int / 0x10_0000_0000_0000
}

/// The fraction field of a double-precision magnitude.
pub open spec fn double_fraction(magnitude: u64) -> int {
    magnitude as int % 0x10_0000_0000_0000
}

/// The integer significand of a finite double-precision magnitude.
pub open spec fn double_significand(magnitude: u64) -> nat {
    if double_field(magnitude) == 0 {
        double_fraction(magnitude) as nat
    } else {
        (double_fraction(magnitude) + 0x10_0000_0000_0000) as nat
    }
}

/// The exponent of two by which the integer significand of a finite
/// double-precision magnitude is multiplied.
pub open spec fn double_exponent(magnitude: u64) -> int {
    if double_field(magnitude) == 0 {
        -1074
    } else {
        double_field(magnitude) - 1075
    }
}

/// The double-precision magnitude of a double-precision magnitude times
/// 100,000.
pub open spec fn times_unit_factor(magnitude: u64) -> u64 {
    if double_field(magnitude) >= 2047 {
        if double_fraction(magnitude) == 0 {
            double_infinity()
        } else {
            double_nan()
        }
    } else {
        nearest(
            double_significand(magnitude) * unit_factor(),
            double_exponent(magnitude),
            53,
            -1074,
            double_infinity() as nat,
        ) as u64
    }
}

/// The single-precision magnitude nearest to a double-precision magnitude.
pub open spec fn to_single(magnitude: u64) -> u32 {
    if double_field(magnitude) >= 2047 {
        if double_fraction(magnitude) == 0 {
            single_infinity()
        } else {
            single_nan()
        }
    } else {
        nearest(
            double_significand(magnitude),
            double_exponent(magnitude),
            24,
            -149,
            single_infinity() as nat,
        ) as u32
    }
}

/// The rate in satoshis per byte, as single-precision bits, of a rate in
/// bitcoin per kilobyte given as double-precision bits. The sign is kept.
pub open spec fn sat_per_byte(btc_per_kb: u64) -> u32 {
    let sign = btc_per_kb as int / 0x8000_0000_0000_0000;
    let magnitude = (btc_per_kb as int % 0x8000_0000_0000_0000) as u64;
    (sign * 0x8000_0000 + to_single(times_unit_factor(magnitude))) as u32
}

/// Rounding picks a nearest multiple of the unit: the result times the unit
/// differs from `n` by at most half the unit, and where it differs by exactly
/// half the unit the result is even.
pub proof fn law_rounding_is_nearest(n: nat, shift: nat)
    ensures
        ({
            let unit = pow2(shift) as int;
            let error = round_half_even(n, shift) * unit - n;
            &&& -unit <= 2 * error <= unit
            &&& (2 * error == unit || 2 * error == -unit) ==> round_half_even(n, shift) % 2 == 0
        }),
{
    let unit = pow2(shift) as int;
    lemma_pow2_pos(shift);
    let quotient = n as int / unit;
    let rest = n as int % unit;
    vstd::arithmetic::div_mod::lemma_fundamental_div_mod(n as int, unit);
    vstd::arithmetic::div_mod::lemma_mod_bound(n as int, unit);
    assert(n == unit * quotient + rest);
    assert((quotient + 1) * unit == quotient * unit + unit) by (nonlinear_arith);
    assert(unit * quotient == quotient * unit) by (nonlinear_arith);
    if quotient % 2 == 1 {
        assert((quotient + 1) % 2 == 0);
    }
}

/// A positive number has as many digits as the power of two that it does
/// not reach: it lies between two to the number of its digits less one and
/// two to the number of its digits.
pub proof fn law_bit_length_brackets(n: nat)
    requires
        n > 0,
    ensures
        bit_length(n) >= 1,
        pow2((bit_length(n) - 1) as nat) <= n < pow2(bit_length(n)),
    decreases n,
{
    lemma2_to64();
    if n == 1 {
        assert(bit_length(1) == 1 + bit_length(0));
    } else {
        law_bit_length_brackets(n / 2);
        lemma_pow2_unfold(bit_length(n));
        lemma_pow2_unfold((bit_length(n) - 1) as nat);
    }
}

/// The count that stands for a positive number has at most one digit more
/// than the format has, and it has the leading digit of the format wherever
/// the unit is not the smallest one: it is the significand of a normal
/// number, or that of a subnormal one at the smallest unit, or it was
/// carried to the next power of two.
pub proof fn law_count_is_normal(n: nat, e: int, digits: nat, least: int)
    requires
        n > 0,
        digits >= 1,
    ensures
        ({
            let k = unit_exponent(n, e, digits, least);
            let count = count_in_units(n, e, k);
            let half = pow2((digits - 1) as nat);
            &&& count <= 2 * half
            &&& k > least ==> count >= half
            &&& k >= least
        }),
{
    let length = bit_length(n);
    let k = unit_exponent(n, e, digits, least);
    let half = pow2((digits - 1) as nat);
    law_bit_length_brackets(n);
    lemma_pow2_unfold(digits);
    lemma_pow2_pos((digits - 1) as nat);
    if k >= e {
        let shift = (k - e) as nat;
        let unit = pow2(shift);
        lemma_pow2_pos(shift);
        lemma_pow2_adds(digits, shift);
        if length < digits + shift {
            lemma_pow2_strictly_increases(length, digits + shift);
        }
        assert(n < pow2(digits) * unit);
        assert(n / unit < pow2(digits)) by {
            vstd::arithmetic::div_mod::lemma_multiply_divide_lt(
                n as int,
                unit as int,
                pow2(digits) as int,
            );
        }
        if k > least {
            assert(shift == length - digits);
            lemma_pow2_adds((digits - 1) as nat, shift);
            assert(half * unit <= n);
            assert(n / unit >= half) by {
                vstd::arithmetic::div_mod::lemma_div_is_ordered(
                    (half * unit) as int,
                    n as int,
                    unit as int,
                );
                vstd::arithmetic::div_mod::lemma_div_multiples_vanish(half as int, unit as int);
                assert(half * unit == unit * half) by (nonlinear_arith);
            }
        }
    } else {
        let shift = (e - k) as nat;
        let unit = pow2(shift);
        lemma_pow2_pos(shift);
        lemma_pow2_adds(length, shift);
        if length + shift < digits {
            lemma_pow2_strictly_increases(length + shift, digits);
        }
        assert(n * unit < pow2(length) * unit) by (nonlinear_arith)
            requires
                n < pow2(length),
                unit > 0,
        ;
        if k > least {
            assert(shift == digits - length);
            lemma_pow2_adds((length - 1) as nat, shift);
            assert(n * unit >= pow2((length - 1) as nat) * unit) by (nonlinear_arith)
                requires
                    n >= pow2((length - 1) as nat),
                    unit > 0,
            ;
        }
    }
}

/// Packed bits hold what was packed: where a count has at most one digit
/// more than the format, and the leading digit of the format unless it
/// counts the smallest unit, the significand and the unit that the bits hold
/// stand for the same number as the count and its unit.
pub proof fn law_pack_keeps_value(steps: nat, count: nat, digits: nat)
    requires
        digits >= 1,
        count <= 2 * pow2((digits - 1) as nat),
        steps > 0 ==> count >= pow2((digits - 1) as nat),
    ensures
        pack(steps as int, count, digits) >= 0,
        ({
            let bits = pack(steps as int, count, digits) as nat;
            significand_of(bits, digits) * pow2(steps_of(bits, digits)) == count * pow2(steps)
        }),
{
    let half = pow2((digits - 1) as nat) as int;
    let bits = pack(steps as int, count, digits);
    lemma_pow2_pos((digits - 1) as nat);
    lemma2_to64();
    assert(steps * half >= 0) by (nonlinear_arith)
        requires
            steps >= 0,
            half > 0,
    ;
    if count < half {
        assert(steps * half == 0) by (nonlinear_arith)
            requires
                steps == 0,
        ;
        vstd::arithmetic::div_mod::lemma_fundamental_div_mod_converse(bits, half, 0, count as int);
    } else if count < 2 * half {
        assert(bits == (steps + 1) * half + (count - half)) by (nonlinear_arith)
            requires
                bits == steps * half + count,
        ;
        vstd::arithmetic::div_mod::lemma_fundamental_div_mod_converse(
            bits,
            half,
            (steps + 1) as int,
            count - half,
        );
    } else {
        assert(bits == (steps + 2) * half + 0) by (nonlinear_arith)
            requires
                bits == steps * half + count,
                count == 2 * half,
        ;
        vstd::arithmetic::div_mod::lemma_fundamental_div_mod_converse(
            bits,
            half,
            (steps + 2) as int,
            0,
        );
        lemma_pow2_unfold(steps + 1);
        assert(half * (2 * pow2(steps)) == (2 * half) * pow2(steps)) by (nonlinear_arith);
    }
}

/// The bits of the nearest number, where they are not those of infinity,
/// hold the count of units to which the number was rounded, in that unit.
pub proof fn law_nearest_holds_count(n: nat, e: int, digits: nat, least: int, infinity: nat)
    requires
        n > 0,
        digits >= 1,
        nearest(n, e, digits, least, infinity) != infinity,
    ensures
        ({
            let bits = nearest(n, e, digits, least, infinity);
            let k = unit_exponent(n, e, digits, least);
            k >= least && significand_of(bits, digits) * pow2(steps_of(bits, digits))
                == count_in_units(n, e, k) * pow2((k - least) as nat)
        }),
{
    let k = unit_exponent(n, e, digits, least);
    law_count_is_normal(n, e, digits, least);
    law_pack_keeps_value((k - least) as nat, count_in_units(n, e, k), digits);
}

/// The significand and the exponent of a double-precision magnitude are
/// those of a format with 53 digits whose smallest positive number is two to
/// the -1074.
pub proof fn law_double_is_a_format(magnitude: u64)
    ensures
        double_significand(magnitude) == significand_of(magnitude as nat, 53),
        double_exponent(magnitude) == -1074 + steps_of(magnitude as nat, 53),
{
    lemma2_to64_rest();
}

/// The bits of the nearest number lie below those of the unit that stands
/// two places above any bound on its unit exponent.
proof fn lemma_nearest_is_below(
    n: nat,
    e: int,
    digits: nat,
    least: int,
    infinity: nat,
    top: int,
)
    requires
        digits >= 1,
        least <= top,
        e + bit_length(n) - digits <= top,
    ensures
        nearest(n, e, digits, least, infinity) <= (top - least + 2) * pow2((digits - 1) as nat),
{
    let half = pow2((digits - 1) as nat) as int;
    lemma_pow2_pos((digits - 1) as nat);
    assert((top - least + 2) * half >= 0) by (nonlinear_arith)
        requires
            top - least + 2 >= 0,
            half > 0,
    ;
    if n > 0 {
        let k = unit_exponent(n, e, digits, least);
        law_count_is_normal(n, e, digits, least);
        assert((k - least) * half + 2 * half <= (top - least + 2) * half) by (nonlinear_arith)
            requires
                k <= top,
                half > 0,
        ;
    }
}

/// A rate below two to the hundredth bitcoin per kilobyte, which is more
/// than ten to the thirtieth, becomes a finite rate in satoshis per byte.
pub proof fn law_moderate_rates_stay_finite(magnitude: u64)
    requires
        magnitude < 0x4630_0000_0000_0000,
    ensures
        times_unit_factor(magnitude) < double_infinity(),
        to_single(times_unit_factor(magnitude)) < single_infinity(),
        sat_per_byte(magnitude) < single_infinity(),
{
    lemma2_to64();
    lemma2_to64_rest();
    let first = double_significand(magnitude) * unit_factor();
    assert(first < 0x20_0000_0000_0000 * 100_000);
    lemma_pow2_adds(64, 6);
    assert(pow2(70) == 0x40_0000_0000_0000_0000) by {
        assert(0x1_0000_0000_0000_0000 * 0x40 == 0x40_0000_0000_0000_0000int)
            by (nonlinear_arith);
    }
    lemma_bit_length_at_most(first, 70);
    assert(double_exponent(magnitude) <= 47);
    lemma_nearest_is_below(
        first,
        double_exponent(magnitude),
        53,
        -1074,
        double_infinity() as nat,
        64,
    );
    let scaled = times_unit_factor(magnitude);
    assert(scaled <= 1140 * 0x10_0000_0000_0000);
    let second = double_significand(scaled);
    lemma_bit_length_at_most(second, 53);
    assert(double_exponent(scaled) <= 65);
    lemma_nearest_is_below(
        second,
        double_exponent(scaled),
        24,
        -149,
        single_infinity() as nat,
        94,
    );
    assert(double_field(scaled) < 2047);
    let narrowed = nearest(second, double_exponent(scaled), 24, -149, single_infinity() as nat);
    assert(narrowed <= 245 * 0x80_0000);
}

/// Rounding keeps the order of what is rounded.
proof fn lemma_rounding_keeps_order(a: nat, b: nat, shift: nat)
    requires
        a <= b,
    ensures
        round_half_even(a, shift) <= round_half_even(b, shift),
{
    let unit = pow2(shift) as int;
    lemma_pow2_pos(shift);
    vstd::arithmetic::div_mod::lemma_div_is_ordered(a as int, b as int, unit);
    vstd::arithmetic::div_mod::lemma_fundamental_div_mod(a as int, unit);
    vstd::arithmetic::div_mod::lemma_fundamental_div_mod(b as int, unit);
    vstd::arithmetic::div_mod::lemma_mod_bound(a as int, unit);
    vstd::arithmetic::div_mod::lemma_mod_bound(b as int, unit);
}

/// Rounding does not depend on the unit in which a number is written: a
/// number with `places` more binary places, rounded at a unit with as many
/// more places, rounds to the same.
proof fn lemma_rounding_ignores_places(n: nat, shift: nat, places: nat)
    ensures
        round_half_even(n * pow2(places), shift + places) == round_half_even(n, shift),
{
    let unit = pow2(shift) as int;
    let scale = pow2(places) as int;
    lemma_pow2_pos(shift);
    lemma_pow2_pos(places);
    lemma_pow2_adds(places, shift);
    assert(pow2(shift + places) == scale * unit);
    assert(n * scale == scale * n) by (nonlinear_arith);
    vstd::arithmetic::div_mod::lemma_div_multiples_vanish_quotient(scale, n as int, unit);
    vstd::arithmetic::div_mod::lemma_truncate_middle(n as int, scale, unit);
    vstd::arithmetic::div_mod::lemma_mod_bound(n as int, unit);
    let rest = n as int % unit;
    assert(2 * (scale * rest) > scale * unit <==> 2 * rest > unit) by (nonlinear_arith)
        requires
            scale > 0,
    ;
    assert(2 * (scale * rest) == scale * unit <==> 2 * rest == unit) by (nonlinear_arith)
        requires
            scale > 0,
    ;
}

/// The count of units is the same when the number is written with its
/// binary places counted from any exponent below its own and below that of
/// the unit.
proof fn lemma_count_from_base(n: nat, e: int, k: int, base: int)
    requires
        base <= e,
        base <= k,
    ensures
        count_in_units(n, e, k) == round_half_even(
            n * pow2((e - base) as nat),
            (k - base) as nat,
        ),
{
    let places = (e - base) as nat;
    if k >= e {
        lemma_rounding_ignores_places(n, (k - e) as nat, places);
        assert((k - e) as nat + places == (k - base) as nat);
    } else {
        let up = (e - k) as nat;
        let down = (k - base) as nat;
        let unit = pow2(down) as int;
        let count = (n * pow2(up)) as int;
        lemma_pow2_pos(down);
        lemma_pow2_adds(up, down);
        assert(up + down == places);
        assert(n * pow2(places) == count * unit) by (nonlinear_arith)
            requires
                pow2(places) == pow2(up) * pow2(down),
                count == n * pow2(up),
                unit == pow2(down),
        ;
        vstd::arithmetic::div_mod::lemma_fundamental_div_mod_converse(
            count * unit,
            unit,
            count,
            0,
        );
    }
}

/// Of two positive numbers in order, the second reaches at least as high a
/// binary place as the first.
proof fn lemma_order_of_top_places(n1: nat, e1: int, n2: nat, e2: int, base: int)
    requires
        n1 > 0,
        n2 > 0,
        base <= e1,
        base <= e2,
        n1 * pow2((e1 - base) as nat) <= n2 * pow2((e2 - base) as nat),
    ensures
        e1 + bit_length(n1) <= e2 + bit_length(n2),
{
    let up1 = (e1 - base) as nat;
    let up2 = (e2 - base) as nat;
    let low = (bit_length(n1) - 1) as nat;
    let high = bit_length(n2);
    law_bit_length_brackets(n1);
    law_bit_length_brackets(n2);
    lemma_pow2_pos(up1);
    lemma_pow2_pos(up2);
    lemma_pow2_adds(low, up1);
    lemma_pow2_adds(high, up2);
    assert(pow2(low) * pow2(up1) <= n1 * pow2(up1)) by (nonlinear_arith)
        requires
            pow2(low) <= n1,
            pow2(up1) > 0,
    ;
    assert(n2 * pow2(up2) < pow2(high) * pow2(up2)) by (nonlinear_arith)
        requires
            n2 < pow2(high),
            pow2(up2) > 0,
    ;
    assert(pow2(low + up1) < pow2(high + up2));
    if low + up1 > high + up2 {
        lemma_pow2_strictly_increases(high + up2, low + up1);
    }
}

/// The nearest numbers of a format keep the order of the numbers that they
/// are nearest to. The two numbers are compared with their binary places
/// counted from `base`.
pub proof fn law_nearest_keeps_order(
    n1: nat,
    e1: int,
    n2: nat,
    e2: int,
    digits: nat,
    least: int,
    infinity: nat,
    base: int,
)
    requires
        digits >= 1,
        base <= e1,
        base <= e2,
        base <= least,
        n1 * pow2((e1 - base) as nat) <= n2 * pow2((e2 - base) as nat),
    ensures
        nearest(n1, e1, digits, least, infinity) <= nearest(n2, e2, digits, least, infinity),
{
    let half = pow2((digits - 1) as nat) as int;
    lemma_pow2_pos((digits - 1) as nat);
    lemma_pow2_pos((e1 - base) as nat);
    lemma_pow2_pos((e2 - base) as nat);
    if n1 > 0 {
        assert(n1 * pow2((e1 - base) as nat) > 0) by (nonlinear_arith)
            requires
                n1 > 0,
                pow2((e1 - base) as nat) > 0,
        ;
        assert(n2 > 0) by (nonlinear_arith)
            requires
                n2 * pow2((e2 - base) as nat) > 0,
                n2 >= 0,
        ;
        let k1 = unit_exponent(n1, e1, digits, least);
        let k2 = unit_exponent(n2, e2, digits, least);
        let c1 = count_in_units(n1, e1, k1);
        let c2 = count_in_units(n2, e2, k2);
        lemma_order_of_top_places(n1, e1, n2, e2, base);
        law_count_is_normal(n1, e1, digits, least);
        law_count_is_normal(n2, e2, digits, least);
        if k1 < k2 {
            assert((k1 - least) * half + c1 <= (k2 - least) * half + c2) by (nonlinear_arith)
                requires
                    k1 < k2,
                    c1 <= 2 * half,
                    c2 >= half,
                    half > 0,
            ;
        } else {
            lemma_count_from_base(n1, e1, k1, base);
            lemma_count_from_base(n2, e2, k2, base);
            lemma_rounding_keeps_order(
                n1 * pow2((e1 - base) as nat),
                n2 * pow2((e2 - base) as nat),
                (k1 - base) as nat,
            );
        }
        assert(pack(k1 - least, c1, digits) <= pack(k2 - least, c2, digits));
        assert(pack(k1 - least, c1, digits) >= 0) by (nonlinear_arith)
            requires
                pack(k1 - least, c1, digits) == (k1 - least) * half + c1,
                k1 >= least,
                half > 0,
                c1 >= 0,
        ;
    }
}

/// The number that a finite double-precision magnitude stands for, counted
/// in units of the smallest positive number.
pub open spec fn double_count(magnitude: u64) -> nat {
    double_significand(magnitude) * pow2((double_exponent(magnitude) + 1074) as nat)
}

/// Finite double-precision magnitudes are in the order of the numbers that
/// they stand for.
pub proof fn law_doubles_are_ordered(a: u64, b: u64)
    requires
        a <= b,
        b < double_infinity(),
    ensures
        double_count(a) <= double_count(b),
{
    lemma2_to64();
    lemma2_to64_rest();
    let up_a = (double_exponent(a) + 1074) as nat;
    let up_b = (double_exponent(b) + 1074) as nat;
    let sig_a = double_significand(a) as int;
    let sig_b = double_significand(b) as int;
    lemma_pow2_pos(up_a);
    lemma_pow2_pos(up_b);
    if double_field(a) == double_field(b) {
        assert(sig_a * pow2(up_a) <= sig_b * pow2(up_a)) by (nonlinear_arith)
            requires
                sig_a <= sig_b,
                pow2(up_a) > 0,
        ;
    } else if double_field(a) == 0 {
        assert(up_a == 0);
        assert(sig_a * pow2(0) == sig_a) by (nonlinear_arith)
            requires
                pow2(0) == 1,
        ;
        assert(sig_b * pow2(up_b) >= sig_b) by (nonlinear_arith)
            requires
                pow2(up_b) >= 1,
                sig_b >= 0,
        ;
    } else {
        assert(up_a < up_b);
        lemma_pow2_unfold(up_a + 1);
        if up_a + 1 < up_b {
            lemma_pow2_strictly_increases(up_a + 1, up_b);
        }
        assert(sig_a * pow2(up_a) <= sig_b * pow2(up_b)) by (nonlinear_arith)
            requires
                0 <= sig_a < 0x20_0000_0000_0000,
                sig_b >= 0x10_0000_0000_0000,
                pow2(up_a) > 0,
                2 * pow2(up_a) <= pow2(up_b),
        ;
    }
}

/// Larger rates in bitcoin per kilobyte give rates in satoshis per byte that
/// are at least as large: of two rates that are not negative and are
/// numbers, the conversion keeps the order.
pub proof fn law_rates_keep_order(a: u64, b: u64)
    requires
        a <= b,
        b <= double_infinity(),
    ensures
        times_unit_factor(a) <= times_unit_factor(b) <= double_infinity(),
        to_single(times_unit_factor(a)) <= to_single(times_unit_factor(b)),
        sat_per_byte(a) <= sat_per_byte(b),
{
    lemma2_to64();
    lemma2_to64_rest();
    let scaled_a = times_unit_factor(a);
    let scaled_b = times_unit_factor(b);
    if b < double_infinity() {
        law_doubles_are_ordered(a, b);
        assert(double_count(a) * 100_000 <= double_count(b) * 100_000);
        let up_a = (double_exponent(a) + 1074) as nat;
        let up_b = (double_exponent(b) + 1074) as nat;
        assert((double_significand(a) * unit_factor()) * pow2(up_a) == double_count(a) * 100_000)
            by (nonlinear_arith)
            requires
                double_count(a) == double_significand(a) * pow2(up_a),
                unit_factor() == 100_000,
        ;
        assert((double_significand(b) * unit_factor()) * pow2(up_b) == double_count(b) * 100_000)
            by (nonlinear_arith)
            requires
                double_count(b) == double_significand(b) * pow2(up_b),
                unit_factor() == 100_000,
        ;
        law_nearest_keeps_order(
            double_significand(a) * unit_factor(),
            double_exponent(a),
            double_significand(b) * unit_factor(),
            double_exponent(b),
            53,
            -1074,
            double_infinity() as nat,
            -1074,
        );
    }
    assert(scaled_a <= scaled_b <= double_infinity());
    if scaled_b < double_infinity() {
        law_doubles_are_ordered(scaled_a, scaled_b);
        law_nearest_keeps_order(
            double_significand(scaled_a),
            double_exponent(scaled_a),
            double_significand(scaled_b),
            double_exponent(scaled_b),
            24,
            -149,
            single_infinity() as nat,
            -1074,
        );
    }
}

/// A number below two to the `b` has at most `b` digits.
proof fn lemma_bit_length_at_most(n: nat, b: nat)
    requires
        n < pow2(b),
    ensures
        bit_length(n) <= b,
    decreases n,
{
    if n > 0 {
        if b == 0 {
            lemma2_to64();
        } else {
            lemma_pow2_unfold(b);
            lemma_bit_length_at_most(n / 2, (b - 1) as nat);
        }
    }
}

/// A number is below two to the number of its digits.
proof fn lemma_below_power_of_length(n: nat)
    ensures
        n < pow2(bit_length(n)),
    decreases n,
{
    if n == 0 {
        lemma2_to64();
    } else {
        lemma_below_power_of_length(n / 2);
        lemma_pow2_unfold(bit_length(n));
    }
}

/// Rounding a number to a unit that is more than twice as large gives zero.
proof fn lemma_round_small(n: nat, shift: nat, b: nat)
    requires
        n < pow2(b),
        b < shift,
    ensures
        round_half_even(n, shift) == 0,
{
    lemma_pow2_unfold(shift);
    if b < shift - 1 {
        lemma_pow2_strictly_increases(b, (shift - 1) as nat);
    }
    let unit = pow2(shift);
    assert(2 * n < unit);
    vstd::arithmetic::div_mod::lemma_small_mod(n, unit);
    vstd::arithmetic::div_mod::lemma_basic_div(n as int, unit as int);
}

/// Two to the `exponent`.
fn power_of_two(exponent: u32) -> (power: u128)
    requires
        exponent <= 120,
    ensures
        power == pow2(exponent as nat),
{
    let mut power: u128 = 1;
    let mut done: u32 = 0;
    proof {
        lemma2_to64();
        lemma2_to64_rest();
        lemma_pow2_adds(64, 57);
        assert(pow2(121) == 0x200_0000_0000_0000_0000_0000_0000_0000) by {
            assert(0x1_0000_0000_0000_0000 * 0x200_0000_0000_0000
                == 0x200_0000_0000_0000_0000_0000_0000_0000int) by (nonlinear_arith);
        }
    }
    while done < exponent
        invariant
            done <= exponent <= 120,
            power == pow2(done as nat),
            pow2(121) == 0x200_0000_0000_0000_0000_0000_0000_0000,
        decreases exponent - done,
    {
        proof {
            lemma_pow2_unfold((done + 1) as nat);
            lemma_pow2_strictly_increases((done + 1) as nat, 121);
        }
        power = power * 2;
        done = done + 1;
    }
    power
}

/// The number of binary digits of `n`.
fn length_of(n: u128) -> (length: u32)
    ensures
        length == bit_length(n as nat),
        n < pow2(length as nat),
        length <= 128,
{
    let mut rest: u128 = n;
    let mut length: u32 = 0;
    proof {
        lemma2_to64();
        lemma_pow2_adds(64, 64);
        assert(pow2(128) == 0x1_0000_0000_0000_0000_0000_0000_0000_0000) by {
            assert(0x1_0000_0000_0000_0000 * 0x1_0000_0000_0000_0000
                == 0x1_0000_0000_0000_0000_0000_0000_0000_0000int) by (nonlinear_arith);
        }
        lemma_bit_length_at_most(n as nat, 128);
        lemma_below_power_of_length(n as nat);
    }
    while rest > 0
        invariant
            bit_length(n as nat) == length + bit_length(rest as nat),
            bit_length(n as nat) <= 128,
        decreases rest,
    {
        rest = rest / 2;
        length = length + 1;
    }
    length
}

/// The magnitude bits of the number nearest to `n` times two to the `e`;
/// `half` is two to the `digits - 1`.
fn nearest_bits(n: u128, e: i32, digits: u32, least: i32, half: u64, infinity: u64) -> (bits: u64)
    requires
        n < 0x1_0000_0000_0000_0000_0000_0000,
        -1200 <= e <= 1200,
        -1200 <= least <= 0,
        2 <= digits <= 60,
        half == pow2((digits - 1) as nat),
        infinity < 0x8000_0000_0000_0000,
    ensures
        bits == nearest(n as nat, e as int, digits as nat, least as int, infinity as nat),
{
    proof {
        lemma2_to64();
        lemma2_to64_rest();
        lemma_pow2_adds(64, 32);
        assert(pow2(96) == 0x1_0000_0000_0000_0000_0000_0000) by {
            assert(0x1_0000_0000_0000_0000 * 0x1_0000_0000 == 0x1_0000_0000_0000_0000_0000_0000int)
                by (nonlinear_arith);
        }
        lemma_bit_length_at_most(n as nat, 96);
    }
    if n == 0 {
        return 0;
    }
    let length: i32 = length_of(n) as i32;
    let natural: i32 = e + length - digits as i32;
    let k: i32 = if natural > least {
        natural
    } else {
        least
    };
    let significand: u128 = if k >= e {
        let shift: i32 = k - e;
        if shift > 100 {
            proof {
                lemma_round_small(n as nat, shift as nat, 96);
            }
            0
        } else {
            let unit: u128 = power_of_two(shift as u32);
            proof {
                lemma_pow2_pos(shift as nat);
                if shift < 100 {
                    lemma_pow2_strictly_increases(shift as nat, 100);
                }
                lemma_pow2_adds(64, 36);
                assert(pow2(100) == 0x10_0000_0000_0000_0000_0000_0000) by {
                    assert(0x1_0000_0000_0000_0000 * 0x10_0000_0000
                        == 0x10_0000_0000_0000_0000_0000_0000int) by (nonlinear_arith);
                }
            }
            let quotient: u128 = n / unit;
            let rest: u128 = n % unit;
            if 2 * rest > unit || (2 * rest == unit && quotient % 2 == 1) {
                quotient + 1
            } else {
                quotient
            }
        }
    } else {
        let shift: i32 = e - k;
        let unit: u128 = power_of_two(shift as u32);
        proof {
            lemma_pow2_adds(length as nat, shift as nat);
            if length + shift < 60 {
                lemma_pow2_strictly_increases((length + shift) as nat, 60);
            }
            assert(n * unit < pow2((length + shift) as nat)) by (nonlinear_arith)
                requires
                    n < pow2(length as nat),
                    unit == pow2(shift as nat),
                    unit > 0,
                    pow2((length + shift) as nat) == pow2(length as nat) * pow2(shift as nat),
            ;
        }
        n * unit
    };
    let steps: u128 = (k - least) as u128;
    proof {
        if digits - 1 < 59 {
            lemma_pow2_strictly_increases((digits - 1) as nat, 59);
        }
        assert(steps * (half as u128) <= 2600 * 0x800_0000_0000_0000) by (nonlinear_arith)
            requires
                steps <= 2600,
                half <= 0x800_0000_0000_0000,
        ;
    }
    let packed: u128 = steps * (half as u128) + significand;
    if packed >= infinity as u128 {
        infinity
    } else {
        packed as u64
    }
}

/// The double-precision magnitude of `magnitude` times 100,000.
fn scale(magnitude: u64) -> (scaled: u64)
    requires
        magnitude < 0x8000_0000_0000_0000,
    ensures
        scaled == times_unit_factor(magnitude),
        scaled <= double_nan(),
{
    let field: u64 = magnitude / 0x10_0000_0000_0000;
    let fraction: u64 = magnitude % 0x10_0000_0000_0000;
    if field >= 2047 {
        if fraction == 0 {
            0x7ff0_0000_0000_0000
        } else {
            0x7ff8_0000_0000_0000
        }
    } else {
        let significand: u128 = if field == 0 {
            fraction as u128
        } else {
            fraction as u128 + 0x10_0000_0000_0000
        };
        let exponent: i32 = if field == 0 {
            -1074
        } else {
            field as i32 - 1075
        };
        proof {
            lemma2_to64_rest();
        }
        nearest_bits(
            significand * 100_000,
            exponent,
            53,
            -1074,
            0x10_0000_0000_0000,
            0x7ff0_0000_0000_0000,
        )
    }
}

/// The single-precision magnitude nearest to a double-precision magnitude.
fn narrow(magnitude: u64) -> (narrowed: u32)
    requires
        magnitude < 0x8000_0000_0000_0000,
    ensures
        narrowed == to_single(magnitude),
        narrowed <= single_nan(),
{
    let field: u64 = magnitude / 0x10_0000_0000_0000;
    let fraction: u64 = magnitude % 0x10_0000_0000_0000;
    if field >= 2047 {
        if fraction == 0 {
            0x7f80_0000
        } else {
            0x7fc0_0000
        }
    } else {
        let significand: u128 = if field == 0 {
            fraction as u128
        } else {
            fraction as u128 + 0x10_0000_0000_0000
        };
        let exponent: i32 = if field == 0 {
            -1074
        } else {
            field as i32 - 1075
        };
        proof {
            lemma2_to64();
        }
        let bits: u64 = nearest_bits(significand, exponent, 24, -149, 0x80_0000, 0x7f80_0000);
        bits as u32
    }
}

/// The fee rate for what the node's reply holds in the place of a rate:
/// none where that is not a number.
pub open spec fn rate_of(number: Option<u64>) -> Option<FeeRate> {
    match number {
        Some(btc_per_kb) => Some(FeeRate { bits: sat_per_byte(btc_per_kb) }),
        None => None,
    }
}

impl FeeRate {
    /// The rate in satoshis per byte for what the node's reply holds in the
    /// place of a rate in bitcoin per kilobyte. There is a rate exactly where
    /// there is a number.
    pub fn from_number(number: Option<u64>) -> (rate: Option<FeeRate>)
        ensures
            rate == rate_of(number),
    {
        match number {
            Some(btc_per_kb) => Some(FeeRate::from_btc_per_kb(btc_per_kb)),
            None => None,
        }
    }

    /// The rate in satoshis per byte of a rate in bitcoin per kilobyte, given
    /// as the bits of a double-precision number.
    pub fn from_btc_per_kb(btc_per_kb: u64) -> (rate: FeeRate)
        ensures
            rate.bits == sat_per_byte(btc_per_kb),
    {
        let sign: u32 = (btc_per_kb / 0x8000_0000_0000_0000) as u32;
        let magnitude: u64 = btc_per_kb % 0x8000_0000_0000_0000;
        let narrowed: u32 = narrow(scale(magnitude));
        FeeRate { bits: sign * 0x8000_0000 + narrowed }
    }
}

} // verus!
