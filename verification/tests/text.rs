use last_port::text::{decimal_string, parse_decimal, split_once_only};

#[test]
fn decimal_rendering() {
    assert_eq!(decimal_string(0), "0");
    assert_eq!(decimal_string(7), "7");
    assert_eq!(decimal_string(10), "10");
    assert_eq!(decimal_string(115200), "115200");
    assert_eq!(decimal_string(u64::MAX), u64::MAX.to_string());
}

#[test]
fn decimal_parsing_matches_from_str() {
    for s in ["0", "42", "+42", "0042", "4294967295", "4294967296", "", "+", "-1", "1a", " 1", "١"] {
        assert_eq!(parse_decimal(s, u32::MAX as u64), s.parse::<u32>().ok().map(|v| v as u64), "{:?}", s);
    }
}

#[test]
fn decimal_round_trip() {
    for n in [0u64, 9, 10, 99, 12345, u32::MAX as u64, u64::MAX] {
        assert_eq!(parse_decimal(&decimal_string(n), u64::MAX), Some(n));
    }
}

#[test]
fn split_once_only_cases() {
    assert_eq!(split_once_only("a:b", ':'), Some(("a", "b")));
    assert_eq!(split_once_only("ä:ö", ':'), Some(("ä", "ö")));
    assert_eq!(split_once_only("ab", ':'), None);
    assert_eq!(split_once_only("a::b", ':'), None);
}
