use luro::number::{parse_i32, parse_u64};

#[test]
fn parses_like_str_parse() {
    for s in ["0", "123", "+5", "-1", "", "+", "12a", "18446744073709551615", "18446744073709551616", " 1"] {
        assert_eq!(parse_u64(s), s.parse::<u64>().ok(), "u64 {s:?}");
    }
    for s in ["0", "-42", "+7", "2147483647", "2147483648", "-2147483648", "-2147483649", "-", "x"] {
        assert_eq!(parse_i32(s), s.parse::<i32>().ok(), "i32 {s:?}");
    }
}
