use decay::decimal::{format_u64, parse_u16, parse_u64, parse_usize, read_unsigned, ParseFailure};

#[test]
fn writes_decimals_without_leading_zeros() {
    assert_eq!(format_u64(0), "0");
    assert_eq!(format_u64(7), "7");
    assert_eq!(format_u64(1234), "1234");
    assert_eq!(format_u64(u64::MAX), "18446744073709551615");
}

#[test]
fn reads_back_what_it_writes() {
    for n in [0, 1, 9, 10, 99, 100, 4096, u64::MAX - 1, u64::MAX] {
        assert_eq!(parse_u64(&format_u64(n)), Some(n));
    }
}

#[test]
fn reads_unsigned_numbers_as_std_does() {
    for text in ["0", "007", "+12", "65535", "65536", "", "+", "-1", "1_000", " 1", "1 ", "x"] {
        assert_eq!(parse_u16(text), text.parse::<u16>().ok(), "text: {text:?}");
        assert_eq!(parse_u64(text), text.parse::<u64>().ok(), "text: {text:?}");
        assert_eq!(parse_usize(text), text.parse::<usize>().ok(), "text: {text:?}");
    }
}

#[test]
fn names_why_a_number_does_not_parse_as_std_does() {
    let cases = [
        ("", Err(ParseFailure::Empty)),
        ("+", Err(ParseFailure::InvalidDigit)),
        ("-", Err(ParseFailure::InvalidDigit)),
        ("-1", Err(ParseFailure::InvalidDigit)),
        ("12x", Err(ParseFailure::InvalidDigit)),
        ("65536", Err(ParseFailure::PosOverflow)),
        ("655360x", Err(ParseFailure::PosOverflow)),
        ("6553x0", Err(ParseFailure::InvalidDigit)),
        ("+65535", Ok(65535)),
    ];
    for (text, expected) in cases {
        assert_eq!(read_unsigned(text, 65535), expected, "{text:?}");
        let std_kind = text.parse::<u16>().map(u64::from).map_err(|e| match e.kind() {
            std::num::IntErrorKind::Empty => ParseFailure::Empty,
            std::num::IntErrorKind::InvalidDigit => ParseFailure::InvalidDigit,
            std::num::IntErrorKind::PosOverflow => ParseFailure::PosOverflow,
            other => panic!("unexpected {other:?}"),
        });
        assert_eq!(std_kind, expected, "{text:?}");
    }
}
