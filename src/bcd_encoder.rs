use vstd::prelude::*;

verus! {

/// Storage word of a packed binary-coded-decimal value.
pub type UBcdNumber = u32;

pub const BCD_200_MASK: UBcdNumber = 1 << 9;
pub const BCD_100_MASK: UBcdNumber = 1 << 8;
pub const BCD_80_MASK: UBcdNumber = 1 << 7;
pub const BCD_40_MASK: UBcdNumber = 1 << 6;
pub const BCD_20_MASK: UBcdNumber = 1 << 5;
pub const BCD_10_MASK: UBcdNumber = 1 << 4;
pub const BCD_8_MASK: UBcdNumber = 1 << 3;
pub const BCD_4_MASK: UBcdNumber = 1 << 2;
pub const BCD_2_MASK: UBcdNumber = 1 << 1;
pub const BCD_1_MASK: UBcdNumber = 1 << 0;

pub const BITS_PER_BYTE: usize = 8;
pub const BITS_PER_DIGIT: usize = 4;
pub const DIGITS_PER_BYTE: usize = BITS_PER_BYTE / BITS_PER_DIGIT;
/// Size of `UBcdNumber` in bytes.
pub const U_BCD_NUMBER_SIZE_IN_BYTES: usize = 4;

/// Number of decimal digits that one `UBcdNumber` holds.
pub const U_BCD_NUMBER_MAX_REPRESENTABLE_DIGITS: usize = U_BCD_NUMBER_SIZE_IN_BYTES * DIGITS_PER_BYTE;

/// Largest value that `binary_to_bcd` accepts: `10^8 - 1`.
pub const MAX_REPRESENTABLE_BCD_NUMBER: UBcdNumber = 99_999_999;

pub open spec fn pow10(k: nat) -> nat
    decreases k,
{
    if k == 0 { 1 } else { 10 * pow10((k - 1) as nat) }
}

pub open spec fn pow16(k: nat) -> nat
    decreases k,
{
    if k == 0 { 1 } else { 16 * pow16((k - 1) as nat) }
}

/// The packed BCD value of `n`: its least significant decimal digit in the
/// lowest nibble, each further digit one nibble higher.
pub open spec fn bcd_of(n: nat) -> nat
    decreases n,
{
    if n == 0 { 0 } else { (n % 10) + 16 * bcd_of(n / 10) }
}

/// Reads `digits` nibbles of `b`, lowest first, each as one decimal digit.
pub open spec fn decode_bcd(b: nat, digits: nat) -> nat
    decreases digits,
{
    if digits == 0 { 0 } else { (b % 16) + 10 * decode_bcd(b / 16, (digits - 1) as nat) }
}

#[derive(Debug, PartialEq, Eq, Structural)]
pub enum BcdError {
    NumberTooLarge(UBcdNumber),
}

proof fn lemma_pow10_monotonic(i: nat, j: nat)
    requires
        i <= j,
    ensures
        pow10(i) <= pow10(j),
    decreases j,
{
    if i < j {
        lemma_pow10_monotonic(i, (j - 1) as nat);
    }
}

proof fn lemma_pow16_monotonic(i: nat, j: nat)
    requires
        i <= j,
    ensures
        pow16(i) <= pow16(j),
    decreases j,
{
    if i < j {
        lemma_pow16_monotonic(i, (j - 1) as nat);
    }
}

/// Computes `10^n`.
fn power_of_10(n: usize) -> (r: UBcdNumber)
    requires
        n <= 9,
    ensures
        r == pow10(n as nat),
    decreases n,
{
    if n == 0 {
        1
    } else {
        proof {
            lemma_pow10_monotonic((n - 1) as nat, 8);
            reveal_with_fuel(pow10, 9);
        }
        10 * power_of_10(n - 1)
    }
}

/// Packs the decimal digits of `binary_number` into nibbles, least significant
/// digit lowest. Fails when the number has more digits than the storage word
/// can hold.
pub fn binary_to_bcd(binary_number: u32) -> (r: Result<UBcdNumber, BcdError>)
    ensures
        binary_number <= MAX_REPRESENTABLE_BCD_NUMBER ==> r == Ok::<UBcdNumber, BcdError>(
            bcd_of(binary_number as nat) as UBcdNumber,
        ),
        binary_number > MAX_REPRESENTABLE_BCD_NUMBER ==> r == Err::<UBcdNumber, BcdError>(
            BcdError::NumberTooLarge(binary_number),
        ),
        r is Ok ==> bcd_of(binary_number as nat) < pow16(U_BCD_NUMBER_MAX_REPRESENTABLE_DIGITS as nat),
{
    proof {
        reveal_with_fuel(pow10, 9);
    }
    let max_representable = power_of_10(U_BCD_NUMBER_MAX_REPRESENTABLE_DIGITS) - 1;
    if binary_number > max_representable {
        return Err(BcdError::NumberTooLarge(binary_number));
    }
    proof {
        reveal_with_fuel(pow16, 9);
    }
    let mut bcd_accumulator: u64 = 0;
    let mut place: u64 = 1;
    let mut number_extractor: u32 = binary_number;
    let mut digit_index: usize = 0;
    assert(pow10(0) == 1);
    while number_extractor > 0
        invariant
            binary_number <= MAX_REPRESENTABLE_BCD_NUMBER,
            digit_index <= U_BCD_NUMBER_MAX_REPRESENTABLE_DIGITS,
            place == pow16(digit_index as nat),
            bcd_accumulator < place,
            bcd_accumulator + place * bcd_of(number_extractor as nat) == bcd_of(binary_number as nat),
            number_extractor * pow10(digit_index as nat) <= binary_number,
        decreases number_extractor,
    {
        proof {
            let i = digit_index as nat;
            let rem = number_extractor as nat;
            reveal_with_fuel(pow10, 9);
            reveal_with_fuel(pow16, 9);
            assert(pow10(i) <= rem * pow10(i)) by (nonlinear_arith)
                requires
                    rem >= 1,
            ;
            if i >= 8 {
                lemma_pow10_monotonic(8, i);
            }
            assert(i < 8);
            lemma_pow16_monotonic(i, 7);
        }
        let digit = number_extractor % 10;
        assert((digit as int) * (place as int) <= 9 * 268435456) by (nonlinear_arith)
            requires
                digit < 10,
                place <= 268435456,
        ;
        let next_accumulator = bcd_accumulator + (digit as u64) * place;
        proof {
            let p = place as int;
            let a = bcd_accumulator as int;
            let d = digit as int;
            let rem = number_extractor as int;
            let rest = bcd_of((rem / 10) as nat) as int;
            let q = pow10(digit_index as nat) as int;
            assert(bcd_of(rem as nat) == d + 16 * rest);
            assert(a + d * p + 16 * p * rest == a + p * (d + 16 * rest)) by (nonlinear_arith);
            assert(a + d * p < 16 * p) by (nonlinear_arith)
                requires
                    a < p,
                    d <= 9,
                    p > 0,
            ;
            assert((rem / 10) * (10 * q) <= rem * q) by (nonlinear_arith)
                requires
                    rem >= 0,
                    q >= 0,
            ;
        }
        bcd_accumulator = next_accumulator;
        number_extractor = number_extractor / 10;
        place = place * 16;
        digit_index = digit_index + 1;
    }
    proof {
        reveal_with_fuel(pow16, 9);
        lemma_pow16_monotonic(digit_index as nat, 8);
        assert(bcd_of(number_extractor as nat) == 0);
        assert(place * bcd_of(number_extractor as nat) == 0) by (nonlinear_arith)
            requires
                bcd_of(number_extractor as nat) == 0,
        ;
        assert(bcd_accumulator == bcd_of(binary_number as nat));
    }
    Ok(bcd_accumulator as UBcdNumber)
}

/// Decoding the packed value nibble by nibble gives back the number, for every
/// number that fits the storage word.
pub proof fn lemma_bcd_round_trip(n: u32)
    requires
        n <= MAX_REPRESENTABLE_BCD_NUMBER,
    ensures
        decode_bcd(bcd_of(n as nat), U_BCD_NUMBER_MAX_REPRESENTABLE_DIGITS as nat) == n,
{
    reveal_with_fuel(pow10, 9);
    lemma_decode_of_bcd(n as nat, 8);
}

proof fn lemma_decode_of_bcd(n: nat, k: nat)
    requires
        n < pow10(k),
    ensures
        decode_bcd(bcd_of(n), k) == n,
    decreases k,
{
    if k == 0 {
        assert(n == 0);
    } else {
        let rest = n / 10;
        let b = bcd_of(n);
        let low = n % 10;
        assert(b == low + 16 * bcd_of(rest)) by {
            if n == 0 {
                assert(rest == 0);
            }
        }
        assert((low + 16 * bcd_of(rest)) % 16 == low) by (nonlinear_arith)
            requires
                low < 10,
        ;
        assert((low + 16 * bcd_of(rest)) / 16 == bcd_of(rest)) by (nonlinear_arith)
            requires
                low < 10,
        ;
        let pk = pow10((k - 1) as nat);
        assert(rest < pk) by (nonlinear_arith)
            requires
                n < 10 * pk,
                rest == n / 10,
        ;
        lemma_decode_of_bcd(rest, (k - 1) as nat);
    }
}

} // verus!
