use igame::parse::{parse_i32, parse_id_list};

#[test]
fn id_list_parses_comma_separated_numbers() {
    assert_eq!(parse_id_list("3,14,15"), Some(vec![3, 14, 15]));
    assert_eq!(parse_id_list("7"), Some(vec![7]));
    assert_eq!(parse_id_list(""), Some(vec![]));
    assert_eq!(parse_id_list("-2,+5"), Some(vec![-2, 5]));
}

#[test]
fn id_list_rejects_bad_pieces() {
    assert_eq!(parse_id_list("1,,2"), None);
    assert_eq!(parse_id_list("1,"), None);
    assert_eq!(parse_id_list(",1"), None);
    assert_eq!(parse_id_list("1, 2"), None);
    assert_eq!(parse_id_list("a"), None);
    assert_eq!(parse_id_list("2147483648"), None);
}

#[test]
fn i32_pieces_follow_std_parse() {
    for text in ["0", "-0", "+0", "2147483647", "-2147483648", "2147483648", "-2147483649", "+", "-", "", "12a", "007", "99999999999999999999"] {
        let n = text.chars().count();
        assert_eq!(parse_i32(text, 0, n), text.parse::<i32>().ok(), "{:?}", text);
    }
    assert_eq!(parse_i32("x42y", 1, 3), Some(42));
}
