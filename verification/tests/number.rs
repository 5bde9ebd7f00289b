use simulator::number::{format_usize, is_power_of_two, parse_usize, read_usize};

#[test]
fn decimal_numbers_are_read_like_the_standard_library_does() {
    for text in [
        "", "+", "-", "0", "00", "7", "+7", "-7", "++7", "7+", " 7", "7 ", "1_000", "0x10", "12a",
        "\u{0663}", "18446744073709551615", "18446744073709551616", "+18446744073709551615",
        "99999999999999999999999", "99999999999999999999999x", "x99999999999999999999999",
        "18446744073709551615x", "1844674407370955161x5", "00000000000000000000000000x", "+x", "-5", "4294967295", "4294967296",
    ] {
        assert_eq!(parse_usize(text), text.parse::<usize>().ok(), "{:?}", text);
        match (read_usize(text), text.parse::<usize>()) {
            (Ok(n), Ok(m)) => assert_eq!(n, m),
            (Err(error), Err(expected)) => {
                assert_eq!(error.text(), expected.to_string(), "{:?}", text)
            }
            (found, expected) => panic!("{:?}: {:?} and {:?}", text, found, expected),
        }
    }
}

#[test]
fn decimal_numbers_are_written_like_the_standard_library_does() {
    for n in [0, 1, 9, 10, 24, 99, 100, 1234567890, usize::MAX] {
        assert_eq!(format_usize(n), n.to_string());
        assert_eq!(parse_usize(&format_usize(n)), Some(n));
    }
}

#[test]
fn powers_of_two_are_told_apart() {
    for n in (0..300).chain([1 << 31, (1 << 31) + 1, usize::MAX, usize::MAX / 2 + 1]) {
        assert_eq!(is_power_of_two(n), n.is_power_of_two());
    }
}
