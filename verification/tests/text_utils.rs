use voice_pipeline::text::{truncate_str, truncate_to_char_end};

#[test]
fn truncate_keeps_short_strings() {
    assert_eq!(truncate_str("hello", 200), "hello");
    assert_eq!(truncate_str("hello", 5), "hello");
    assert_eq!(truncate_str("", 0), "");
}

#[test]
fn truncate_cuts_on_char_boundaries() {
    assert_eq!(truncate_str("hello", 3), "hel");
    // "é" is two bytes: a cut inside it moves back.
    assert_eq!(truncate_str("aé", 2), "a");
    assert_eq!(truncate_str("日本語", 4), "日");
    assert_eq!(truncate_str("日本語", 2), "");
    let once = truncate_str("日本語テキスト", 7);
    assert_eq!(truncate_str(once, 7), once);
}

#[test]
fn char_end_cut_finishes_the_character() {
    assert_eq!(truncate_to_char_end("hello", 3), "hel");
    assert_eq!(truncate_to_char_end("hello", 200), "hello");
    assert_eq!(truncate_to_char_end("", 200), "");
    // byte 1 falls inside "é": the cut moves forward to finish it.
    assert_eq!(truncate_to_char_end("aéb", 2), "aé");
    assert_eq!(truncate_to_char_end("日本語", 4), "日本");
    let long = "x".repeat(199) + "日本";
    assert_eq!(truncate_to_char_end(&long, 200), "x".repeat(199) + "日");
}

fn listed_whitespace(c: char) -> bool {
    let v = c as u32;
    (0x09..=0x0d).contains(&v)
        || v == 0x20
        || v == 0x85
        || v == 0xa0
        || v == 0x1680
        || (0x2000..=0x200a).contains(&v)
        || v == 0x2028
        || v == 0x2029
        || v == 0x202f
        || v == 0x205f
        || v == 0x3000
}

#[test]
fn whitespace_set_is_the_listed_code_points() {
    for v in 0..=0x10ffffu32 {
        if let Some(c) = char::from_u32(v) {
            assert_eq!(c.is_whitespace(), listed_whitespace(c), "U+{:04X}", v);
        }
    }
}
