use cloud_backup::compose::{decimal_string, fill, join};
use cloud_backup::text::{
    digit, find, has_suffix, includes, is_word3, matches_at, only_digits, split_lines, split_on,
    to_chars,
};

fn chars(text: &str) -> Vec<char> {
    text.chars().collect()
}

fn strings(pieces: Vec<&[char]>) -> Vec<String> {
    pieces.iter().map(|p| p.iter().collect()).collect()
}

#[test]
fn characters_of_a_string() {
    assert_eq!(to_chars("héllo ☃"), chars("héllo ☃"));
    assert_eq!(to_chars(""), Vec::<char>::new());
}

#[test]
fn searching() {
    let text = chars("abcabc");
    assert!(matches_at(&text, &chars("bc"), 1));
    assert!(!matches_at(&text, &chars("bc"), 2));
    assert!(!matches_at(&text, &chars("bc"), 5));
    assert!(!matches_at(&text, &chars("bc"), 99));
    assert!(matches_at(&text, &chars(""), 6));
    assert!(!matches_at(&text, &chars(""), 7));
    assert_eq!(find(&text, &chars("bc"), 0), Some(1));
    assert_eq!(find(&text, &chars("bc"), 2), Some(4));
    assert_eq!(find(&text, &chars("bc"), 5), None);
    assert_eq!(find(&text, &chars("x"), 0), None);
    assert_eq!(find(&text, &chars(""), 0), Some(0));
    assert_eq!(find(&text, &chars(""), 6), Some(6));
    assert_eq!(find(&text, &chars(""), 7), None);
    assert_eq!(find(&text, &chars("abcabcd"), 0), None);
    assert_eq!(find(&[], &chars(""), 0), Some(0));
    assert!(includes(&text, &chars("cab")));
    assert!(!includes(&text, &chars("cba")));
    assert!(has_suffix(&text, &chars("abc")));
    assert!(has_suffix(&text, &chars("")));
    assert!(!has_suffix(&text, &chars("ab")));
    assert!(!has_suffix(&text, &chars("xabcabc")));
}

#[test]
fn digits_and_words() {
    assert!(digit('0') && digit('9'));
    assert!(!digit('a') && !digit('/') && !digit(':') && !digit('٣'));
    assert!(only_digits(&chars("0123456789")));
    assert!(only_digits(&chars("")));
    assert!(!only_digits(&chars("12a")));
    assert!(is_word3(&chars("Jan"), 'J', 'a', 'n'));
    assert!(!is_word3(&chars("Jam"), 'J', 'a', 'n'));
    assert!(!is_word3(&chars("Ja"), 'J', 'a', 'n'));
    assert!(!is_word3(&chars("Jane"), 'J', 'a', 'n'));
}

#[test]
fn splitting_agrees_with_the_standard_library() {
    for text in ["", "a", "a,b", ",", ",,", "a,,b,", ",a", "ab,cd,ef"] {
        let expected: Vec<String> = text.split(',').map(|s| s.to_string()).collect();
        assert_eq!(strings(split_on(&chars(text), ',')), expected, "{text:?}");
    }
}

#[test]
fn lines_agree_with_the_standard_library() {
    for text in [
        "",
        "\n",
        "\n\n",
        "a",
        "a\n",
        "a\nb",
        "a\r\nb\r\n",
        "a\r",
        "a\r\r\n",
        "\r\n",
        "a\n\nb\n",
        "a\rb\nc",
        "\r",
        "x\n\r",
    ] {
        let expected: Vec<String> = text.lines().map(|s| s.to_string()).collect();
        assert_eq!(strings(split_lines(&chars(text))), expected, "{text:?}");
    }
}

#[test]
fn numbers_in_decimal() {
    for n in [0u64, 1, 9, 10, 11, 99, 100, 12345, 4294967295, u64::MAX] {
        assert_eq!(decimal_string(n), n.to_string());
    }
}

#[test]
fn joining_and_filling() {
    let items = vec!["a".to_string(), String::new(), "c".to_string()];
    assert_eq!(join(&items, ", "), "a, , c");
    assert_eq!(join(&items[..1], ", "), "a");
    assert_eq!(join(&[], ", "), "");
    assert_eq!(fill(&["a=", ", b=", "."], &["1", "2"]), "a=1, b=2.");
    assert_eq!(fill(&["a=", ", b=", "."], &["1"]), "a=1, b=.");
    assert_eq!(fill(&["a=", "."], &["1", "2", "3"]), "a=1.");
    assert_eq!(fill(&["only"], &["x"]), "only");
    assert_eq!(fill(&[], &["x"]), "");
}
