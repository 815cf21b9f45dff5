use instaling_bot::contains_text;

#[test]
fn finds_substring() {
    assert!(contains_text("https://instaling.pl/expired.php", "expired"));
    assert!(contains_text("expired", "expired"));
    assert!(contains_text("abc", ""));
}

#[test]
fn misses_substring() {
    assert!(!contains_text("https://instaling.pl/app.php", "expired"));
    assert!(!contains_text("expire", "expired"));
    assert!(!contains_text("", "x"));
}
