use wwvb::bcd_encoder::{binary_to_bcd, BcdError, UBcdNumber, MAX_REPRESENTABLE_BCD_NUMBER};

#[test]
fn test_binary_to_bcd_basic() {
    // Test BCD conversion for small numbers
    assert_eq!(binary_to_bcd(0).unwrap(), 0b0000);
    assert_eq!(binary_to_bcd(5).unwrap(), 0b0101);
    assert_eq!(binary_to_bcd(123).unwrap(), 0b000100100011); // BCD of 123
    assert_eq!(binary_to_bcd(456).unwrap(), 0b010001010110); // BCD of 456
}

#[test]
fn test_binary_to_bcd_number_too_large() {
    // Test large numbers and check that the error is returned when the number is too large
    const NUMBER_TOO_LARGE: UBcdNumber = MAX_REPRESENTABLE_BCD_NUMBER + 1;
    let result = binary_to_bcd(NUMBER_TOO_LARGE);

    match result {
        Err(BcdError::NumberTooLarge(n)) => assert_eq!(n, NUMBER_TOO_LARGE),
        Ok(_) => panic!("Expected an error, but got Ok!"),
    }
}

#[test]
fn test_binary_to_bcd_number_not_too_large() {
    // Test large numbers and check that no errors are returned when the number is large, but not too large
    const NUMBER_NOT_TOO_LARGE: UBcdNumber = MAX_REPRESENTABLE_BCD_NUMBER - 1;
    let result = binary_to_bcd(NUMBER_NOT_TOO_LARGE);

    match result {
        Err(BcdError::NumberTooLarge(n)) => panic!("Number should not be too large: {:?}", n),
        Ok(_) => (),
    }
}

fn decode_nibbles(bcd: UBcdNumber) -> u32 {
    let mut value: u32 = 0;
    let mut place: u32 = 1;
    let mut rest = bcd;
    for _ in 0..8 {
        value += (rest & 0xF) * place;
        rest >>= 4;
        if place < 10_000_000 {
            place *= 10;
        }
    }
    value
}

#[test]
fn bcd_round_trip_on_sample_values() {
    for n in [0u32, 1, 9, 10, 59, 99, 100, 366, 2024, 12_345_678, 99_999_998, 99_999_999] {
        let bcd = binary_to_bcd(n).unwrap();
        assert_eq!(decode_nibbles(bcd), n);
    }
}

#[test]
fn bcd_capacity_edge() {
    assert_eq!(binary_to_bcd(99_999_999).unwrap(), 0x9999_9999);
    assert_eq!(binary_to_bcd(100_000_000), Err(BcdError::NumberTooLarge(100_000_000)));
    assert_eq!(binary_to_bcd(u32::MAX), Err(BcdError::NumberTooLarge(u32::MAX)));
}

#[test]
fn bcd_single_and_multi_digit_values() {
    assert_eq!(binary_to_bcd(34).unwrap(), 0b0011_0100);
    assert_eq!(binary_to_bcd(10).unwrap(), 0x10);
    assert_eq!(binary_to_bcd(2024).unwrap(), 0x2024);
    assert_eq!(binary_to_bcd(12_345_678).unwrap(), 0x1234_5678);
}
