use term_recorder::params::{parse_decimal, split_semicolons};

fn chars(s: &str) -> Vec<char> {
    s.chars().collect()
}

#[test]
fn split_keeps_empty_pieces() {
    let parts = split_semicolons(&chars("1;;38;5"));
    assert_eq!(parts, vec![chars("1"), vec![], chars("38"), chars("5")]);
    assert_eq!(split_semicolons(&[]), vec![Vec::<char>::new()]);
    assert_eq!(split_semicolons(&chars(";")), vec![Vec::<char>::new(), Vec::new()]);
}

#[test]
fn parse_follows_std_rules() {
    assert_eq!(parse_decimal(&chars("42"), 255), Some(42));
    assert_eq!(parse_decimal(&chars("+7"), 255), Some(7));
    assert_eq!(parse_decimal(&chars("007"), 255), Some(7));
    assert_eq!(parse_decimal(&chars("255"), 255), Some(255));
    assert_eq!(parse_decimal(&chars("256"), 255), None);
    assert_eq!(parse_decimal(&chars(""), 255), None);
    assert_eq!(parse_decimal(&chars("+"), 255), None);
    assert_eq!(parse_decimal(&chars("-1"), 255), None);
    assert_eq!(parse_decimal(&chars("1a"), 255), None);
    assert_eq!(parse_decimal(&chars("18446744073709551615"), usize::MAX), Some(usize::MAX));
    assert_eq!(parse_decimal(&chars("18446744073709551616"), usize::MAX), None);
    for s in ["0", "9", "+12", "300", "x", "", "99999999999"] {
        assert_eq!(parse_decimal(&chars(s), 255), s.parse::<u8>().ok().map(|v| v as usize));
    }
}
