//! Binary digits of a number.

use vstd::prelude::*;
use vstd::arithmetic::div_mod::{
    lemma_div_denominator,
    lemma_fundamental_div_mod_converse,
    lemma_mod_breakdown,
};
use vstd::arithmetic::power2::{lemma2_to64, lemma_pow2_pos, lemma_pow2_unfold, pow2};

verus! {

/// The binary digit of `value` at `place`, place 0 being the lowest.
pub open spec fn binary_digit(value: nat, place: nat) -> nat
    decreases place,
{
    if place == 0 {
        value % 2
    } else {
        binary_digit(value / 2, (place - 1) as nat)
    }
}

/// The digit at a place is the lowest digit of the quotient by the place's
/// weight.
proof fn lemma_digit_by_weight(value: nat, place: nat)
    ensures
        pow2(place) > 0,
        binary_digit(value, place) == (value / pow2(place)) % 2,
    decreases place,
{
    lemma_pow2_pos(place);
    if place == 0 {
        lemma2_to64();
    } else {
        let lower = (place - 1) as nat;
        lemma_digit_by_weight(value / 2, lower);
        lemma_pow2_unfold(place);
        lemma_div_denominator(value as int, 2, pow2(lower) as int);
    }
}

/// Below twice a divisor, the quotient is the lowest binary digit of the
/// full quotient, and the remainder is the full remainder.
proof fn lemma_split_at_place(value: nat, weight: nat)
    requires
        weight > 0,
    ensures
        (value % (2 * weight)) / weight == (value / weight) % 2,
        (value % (2 * weight)) % weight == value % weight,
{
    lemma_mod_breakdown(value as int, weight as int, 2);
    let low = value as int % (weight as int * 2);
    let digit = (value as int / weight as int) % 2;
    let rest = value as int % weight as int;
    assert(low == weight as int * digit + rest);
    assert(weight as int * digit == digit * weight as int) by (nonlinear_arith);
    lemma_fundamental_div_mod_converse(low, weight as int, digit, rest);
}

/// The ten lowest binary digits of a number, highest first.
///
/// Numbers of more than ten binary digits are not rejected: the first
/// element then holds all that lies above the nine lowest digits, wrapped at
/// 256.
pub fn binary_conversion(value: usize) -> (bits: [u8; 10])
    ensures
        bits[0] == (value as nat / 512) % 256,
        forall|i: int| 1 <= i < 10 ==> #[trigger] bits[i] == binary_digit(value as nat, (9 - i) as nat),
{
    let mut bits: [u8; 10] = [0; 10];
    let mut buffer: usize = value;
    let mut bit_value: usize = 512;
    let mut index: usize = 0;
    proof {
        lemma2_to64();
    }
    while index < 10
        invariant
            index <= 10,
            index < 10 ==> bit_value == pow2((9 - index) as nat),
            index == 0 ==> buffer == value,
            0 < index < 10 ==> buffer == value as nat % (2 * bit_value as nat),
            0 < index ==> bits[0] == (value as nat / 512) % 256,
            forall|i: int|
                1 <= i < index ==> #[trigger] bits[i] == binary_digit(
                    value as nat,
                    (9 - i) as nat,
                ),
        decreases 10 - index,
    {
        proof {
            lemma2_to64();
            lemma_pow2_pos((9 - index) as nat);
            lemma_split_at_place(value as nat, bit_value as nat);
            lemma_digit_by_weight(value as nat, (9 - index) as nat);
            if index < 9 {
                lemma_pow2_unfold((9 - index) as nat);
            }
        }
        let digit = buffer / bit_value;
        bits[index] = (digit % 256) as u8;
        buffer = buffer % bit_value;
        if index < 9 {
            bit_value = bit_value / 2;
        }
        index += 1;
    }
    bits
}

} // verus!
