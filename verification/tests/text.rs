use izone::text::{
    char_count, chars_of, contains_ignore_case, decimal, eq_ignore_case, parse_bounded,
    same_text, split, to_ascii_lower,
};

#[test]
fn lower_case_of_letters() {
    assert_eq!(to_ascii_lower('A'), 'a');
    assert_eq!(to_ascii_lower('Z'), 'z');
    assert_eq!(to_ascii_lower('m'), 'm');
    assert_eq!(to_ascii_lower('@'), '@');
    assert_eq!(to_ascii_lower('['), '[');
    assert_eq!(to_ascii_lower('É'), 'É');
    assert_eq!(to_ascii_lower('\u{212a}'), '\u{212a}');
}

#[test]
fn lower_case_agrees_with_std_on_ascii() {
    for code in 0u8..128 {
        let c = code as char;
        assert_eq!(to_ascii_lower(c), c.to_ascii_lowercase());
    }
}

#[test]
fn characters_and_back() {
    assert_eq!(chars_of("a°c"), vec!['a', '°', 'c']);
    assert_eq!(chars_of(""), Vec::<char>::new());
    assert_eq!(char_count("21.5°C"), 6);
    assert_eq!(char_count(""), 0);
}

#[test]
fn exact_comparison() {
    assert!(same_text("work", "work"));
    assert!(!same_text("work", "Work"));
    assert!(!same_text("work", "works"));
    assert!(!same_text("work", ""));
    assert!(same_text("", ""));
}

#[test]
fn comparison_without_case() {
    assert!(eq_ignore_case("Auto", "auto"));
    assert!(eq_ignore_case("AUTO", "auto"));
    assert!(eq_ignore_case("auto", "AuTo"));
    assert!(!eq_ignore_case("auto", "autos"));
    assert!(!eq_ignore_case("auto", "aut0"));
    assert!(!eq_ignore_case("É", "é"));
    assert!(eq_ignore_case("", ""));
}

#[test]
fn search_without_case() {
    assert!(contains_ignore_case("An ERROR occurred", "error"));
    assert!(contains_ignore_case("error", "error"));
    assert!(contains_ignore_case("xxErRoR", "error"));
    assert!(!contains_ignore_case("erro", "error"));
    assert!(!contains_ignore_case("err or", "error"));
    assert!(!contains_ignore_case("", "error"));
    assert!(contains_ignore_case("", ""));
    assert!(contains_ignore_case("abc", ""));
}

#[test]
fn numerals() {
    assert_eq!(decimal(0), "0");
    assert_eq!(decimal(7), "7");
    assert_eq!(decimal(10), "10");
    assert_eq!(decimal(255), "255");
    assert_eq!(decimal(4294967295), "4294967295");
    assert_eq!(decimal(u64::MAX), "18446744073709551615");
}

#[test]
fn numerals_agree_with_std() {
    for n in [0u64, 1, 9, 10, 11, 99, 100, 101, 999, 1000, 65535, 65536, 123456789] {
        assert_eq!(decimal(n), n.to_string());
    }
}

#[test]
fn bounded_numbers() {
    assert_eq!(parse_bounded("0", 255), Some(0));
    assert_eq!(parse_bounded("100", 255), Some(100));
    assert_eq!(parse_bounded("255", 255), Some(255));
    assert_eq!(parse_bounded("256", 255), None);
    assert_eq!(parse_bounded("+42", 255), Some(42));
    assert_eq!(parse_bounded("0042", 255), Some(42));
    assert_eq!(parse_bounded("", 255), None);
    assert_eq!(parse_bounded("+", 255), None);
    assert_eq!(parse_bounded("-1", 255), None);
    assert_eq!(parse_bounded("4 2", 255), None);
    assert_eq!(parse_bounded("42%", 255), None);
    assert_eq!(parse_bounded("4.2", 255), None);
    assert_eq!(parse_bounded("99999999999999999999999", 255), None);
    assert_eq!(parse_bounded("18446744073709551615", u64::MAX), Some(u64::MAX));
    assert_eq!(parse_bounded("18446744073709551616", u64::MAX), None);
    assert_eq!(parse_bounded("0", 0), Some(0));
    assert_eq!(parse_bounded("1", 0), None);
}

#[test]
fn bounded_numbers_agree_with_std() {
    for text in ["0", "7", "100", "255", "256", "+5", "", "x", "1x", "300", "00255"] {
        assert_eq!(parse_bounded(text, 255), text.parse::<u8>().ok().map(|v| v as u64));
    }
}

#[test]
fn splitting() {
    assert_eq!(split("08:30", ':'), vec!["08", "30"]);
    assert_eq!(split("kitchen:3:2250", ':'), vec!["kitchen", "3", "2250"]);
    assert_eq!(split("", ':'), vec![""]);
    assert_eq!(split(":", ':'), vec!["", ""]);
    assert_eq!(split("a:", ':'), vec!["a", ""]);
    assert_eq!(split(":a", ':'), vec!["", "a"]);
    assert_eq!(split("a::b", ':'), vec!["a", "", "b"]);
    assert_eq!(split("no separator", ':'), vec!["no separator"]);
    assert_eq!(split("21°5°", '°'), vec!["21", "5", ""]);
}

#[test]
fn splitting_agrees_with_std() {
    for text in ["", ":", "::", "a", "a:b", ":a:", "a:b:c:d", "ab:cd", " : "] {
        let expected: Vec<String> = text.split(':').map(|part| part.to_string()).collect();
        assert_eq!(split(text, ':'), expected);
        assert_eq!(split(text, ':').join(":"), text);
    }
}
