//! The decimal parsers against the behavior of str::parse.

use exmebus_gateway::numparse::{parse_sint_str, parse_uint_str};

#[test]
fn unsigned_matches_str_parse() {
    for s in ["0", "7", "255", "256", "+5", "007", "", "abc", "-1", " 5", "5 ", "1.5"] {
        assert_eq!(
            parse_uint_str(s, 255),
            s.parse::<u8>().ok().map(u64::from),
            "input {:?}",
            s
        );
    }
    for s in ["65535", "65536", "+65535", "4294967295", "4294967296"] {
        assert_eq!(parse_uint_str(s, 65535), s.parse::<u16>().ok().map(u64::from));
        assert_eq!(parse_uint_str(s, 4294967295), s.parse::<u32>().ok().map(u64::from));
    }
    assert_eq!(
        parse_uint_str("18446744073709551615", u64::MAX),
        Some(u64::MAX)
    );
    assert_eq!(parse_uint_str("18446744073709551616", u64::MAX), None);
}

#[test]
fn signed_matches_str_parse() {
    for s in [
        "0", "-0", "+0", "127", "-128", "128", "-129", "abc", "", "-", "+", "--1",
    ] {
        assert_eq!(
            parse_sint_str(s, 128, 127),
            s.parse::<i8>().ok().map(i64::from),
            "input {:?}",
            s
        );
    }
    for s in ["-32768", "32767", "-32769", "32768"] {
        assert_eq!(
            parse_sint_str(s, 32768, 32767),
            s.parse::<i16>().ok().map(i64::from)
        );
    }
    for s in [
        "-9223372036854775808",
        "9223372036854775807",
        "-9223372036854775809",
        "9223372036854775808",
    ] {
        assert_eq!(
            parse_sint_str(s, 9223372036854775808, 9223372036854775807),
            s.parse::<i64>().ok()
        );
    }
}
