use abuse_feed::text::{chars_of, contains_text, defang, int_text, join_tags};

#[test]
fn substring_found_and_missing() {
    assert!(contains_text("spamhaus_reporter", "haus"));
    assert!(!contains_text("spamhaus_reporter", "abuse"));
    assert!(contains_text("abc", "abc"));
    assert!(!contains_text("ab", "abc"));
}

#[test]
fn empty_pattern_matches_everything() {
    assert!(contains_text("anyone", ""));
    assert!(contains_text("", ""));
}

#[test]
fn defang_replaces_every_http() {
    assert_eq!(defang("http://a.example/x https://b.example"), "hxxp://a.example/x hxxps://b.example");
    assert_eq!(defang("no scheme here"), "no scheme here");
    assert_eq!(defang("httphttp"), "hxxphxxp");
    assert_eq!(defang("htt"), "htt");
    assert_eq!(defang(""), "");
}

#[test]
fn tags_join_with_colon() {
    let tags = vec!["emotet".to_string(), "epoch4".to_string(), "exe".to_string()];
    assert_eq!(join_tags(&tags), "emotet:epoch4:exe");
    assert_eq!(join_tags(&vec!["one".to_string()]), "one");
    assert_eq!(join_tags(&Vec::new()), "");
}

#[test]
fn integers_render_in_decimal() {
    assert_eq!(int_text(0), "0");
    assert_eq!(int_text(75), "75");
    assert_eq!(int_text(-42), "-42");
    assert_eq!(int_text(i32::MAX), "2147483647");
    assert_eq!(int_text(i32::MIN), "-2147483648");
}

#[test]
fn characters_are_listed_in_order() {
    assert_eq!(chars_of("añb"), vec!['a', 'ñ', 'b']);
}
