use instaling_bot::{Word, AUDIO_PREFIX_LEN};

const PREFIX: &str = "https://instaling.pl/sounds/";

fn saved(entries: &[(&str, &str)]) -> Vec<Word> {
    entries
        .iter()
        .map(|(id, answer)| Word::new(id.to_string(), answer.to_string()))
        .collect()
}

#[test]
fn prefix_has_the_fixed_length() {
    assert_eq!(PREFIX.len(), AUDIO_PREFIX_LEN);
}

#[test]
fn derive_strips_prefix_and_suffix() {
    let mut w = Word::new("1".to_string(), String::new());
    w.parse(&format!("{}foo.mp3", PREFIX), &Vec::new());
    assert_eq!(w.answer, "foo");
    assert_eq!(w.id, "1");
}

#[test]
fn derive_keeps_inner_extension() {
    let mut w = Word::new("1".to_string(), String::new());
    w.parse(&format!("{}a.mp3b.mp3", PREFIX), &Vec::new());
    assert_eq!(w.answer, "a.mp3b");
}

#[test]
fn derive_without_suffix_keeps_rest() {
    let mut w = Word::new("1".to_string(), String::new());
    w.parse(&format!("{}foo", PREFIX), &Vec::new());
    assert_eq!(w.answer, "foo");
}

#[test]
fn derive_of_bare_prefix_is_empty() {
    let mut w = Word::new("1".to_string(), "old".to_string());
    w.parse(PREFIX, &Vec::new());
    assert_eq!(w.answer, "");
}

#[test]
fn derive_keeps_multibyte_characters() {
    let mut w = Word::new("1".to_string(), String::new());
    w.parse(&format!("{}źdźbło.mp3", PREFIX), &Vec::new());
    assert_eq!(w.answer, "źdźbło");
}

#[test]
fn correction_overrides_url() {
    let mut w = Word::new("42".to_string(), String::new());
    w.parse(&format!("{}baz.mp3", PREFIX), &saved(&[("42", "bar")]));
    assert_eq!(w.answer, "bar");
}

#[test]
fn correction_of_other_id_is_ignored() {
    let mut w = Word::new("41".to_string(), String::new());
    w.parse(&format!("{}baz.mp3", PREFIX), &saved(&[("42", "bar")]));
    assert_eq!(w.answer, "baz");
}

#[test]
fn latest_correction_wins() {
    let mut w = Word::new("42".to_string(), String::new());
    let list = saved(&[("42", "first"), ("7", "x"), ("42", "second"), ("8", "y")]);
    w.parse(&format!("{}baz.mp3", PREFIX), &list);
    assert_eq!(w.answer, "second");
}
