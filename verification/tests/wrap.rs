use ltui::utils::formatters::{can_truncate_text, truncate_text};
use ltui::utils::text::str_eq;
use ltui::utils::wrap::{char_len_utf8, fits, split, words, wrap_line, wrap_text, wrap_words};

fn chars(text: &str) -> Vec<char> {
    text.chars().collect()
}

fn texts(lines: &[Vec<char>]) -> Vec<String> {
    lines.iter().map(|l| l.iter().collect()).collect()
}

fn owned(lines: &[&str]) -> Vec<String> {
    lines.iter().map(|l| l.to_string()).collect()
}

#[test]
fn split_keeps_empty_pieces() {
    assert_eq!(texts(&split(&chars("a\nb"), '\n')), owned(&["a", "b"]));
    assert_eq!(texts(&split(&chars("a\n"), '\n')), owned(&["a", ""]));
    assert_eq!(texts(&split(&chars("\na"), '\n')), owned(&["", "a"]));
    assert_eq!(texts(&split(&chars("a\n\nb"), '\n')), owned(&["a", "", "b"]));
    assert_eq!(texts(&split(&chars(""), '\n')), owned(&[""]));
    assert_eq!(texts(&split(&chars("no break"), '\n')), owned(&["no break"]));
}

#[test]
fn split_agrees_with_std() {
    for text in ["", "\n", "a\nbb\n\nccc", "x\n\n\n", "héllo\nwörld\n"] {
        let expected: Vec<String> = text.split('\n').map(|p| p.to_string()).collect();
        assert_eq!(texts(&split(&chars(text), '\n')), expected);
    }
}

#[test]
fn words_are_runs_without_white_space() {
    assert_eq!(texts(&words(&chars("the quick  brown\tfox"))), owned(&["the", "quick", "brown", "fox"]));
    assert_eq!(texts(&words(&chars("  padded  "))), owned(&["padded"]));
    assert_eq!(texts(&words(&chars(""))), Vec::<String>::new());
    assert_eq!(texts(&words(&chars(" \t \r "))), Vec::<String>::new());
    assert_eq!(texts(&words(&chars("a\u{00a0}b\u{3000}c"))), owned(&["a", "b", "c"]));
}

#[test]
fn white_space_is_what_std_says_for_every_character() {
    let listed = |c: char| {
        let u = c as u32;
        (0x0009..=0x000D).contains(&u)
            || u == 0x0020
            || u == 0x0085
            || u == 0x00A0
            || u == 0x1680
            || (0x2000..=0x200A).contains(&u)
            || u == 0x2028
            || u == 0x2029
            || u == 0x202F
            || u == 0x205F
            || u == 0x3000
    };
    let mut white = 0;
    for u in 0..=0x10FFFFu32 {
        if let Some(c) = char::from_u32(u) {
            assert_eq!(c.is_whitespace(), listed(c), "U+{u:04X}");
            let text: Vec<char> = vec!['a', c, 'b'];
            let parts = words(&text).len();
            assert_eq!(parts, if listed(c) { 2 } else { 1 }, "U+{u:04X}");
            if listed(c) {
                white += 1;
            }
        }
    }
    assert_eq!(white, 25);
}

#[test]
fn words_agree_with_std() {
    for text in ["one", " two  three ", "tab\tand\u{2003}em space", "ünï cödé  wörds"] {
        let expected: Vec<String> = text.split_whitespace().map(|p| p.to_string()).collect();
        assert_eq!(texts(&words(&chars(text))), expected);
    }
}

#[test]
fn char_lengths_in_utf8() {
    for c in ['a', '\n', '\u{7f}', '\u{80}', 'é', '\u{7ff}', '\u{800}', '€', '\u{ffff}', '\u{10000}', '😀', '\u{10ffff}'] {
        assert_eq!(char_len_utf8(c), c.len_utf8());
    }
}

#[test]
fn fits_counts_bytes() {
    assert!(fits(&chars("hello"), 5));
    assert!(!fits(&chars("hello"), 4));
    assert!(fits(&chars(""), 0));
    assert!(!fits(&chars("é"), 1));
    assert!(fits(&chars("é"), 2));
    assert!(!fits(&chars("😀😀"), 7));
    assert!(fits(&chars("😀😀"), 8));
}

#[test]
fn wrap_words_fills_lines_greedily() {
    let list: Vec<Vec<char>> = ["the", "quick", "brown", "fox"].iter().map(|w| chars(w)).collect();
    assert_eq!(texts(&wrap_words(&list, 10)), owned(&["the quick", "brown fox"]));
    assert_eq!(texts(&wrap_words(&list, 9)), owned(&["the quick", "brown fox"]));
    assert_eq!(texts(&wrap_words(&list, 8)), owned(&["the", "quick", "brown", "fox"]));
    assert_eq!(texts(&wrap_words(&list, 15)), owned(&["the quick brown", "fox"]));
    assert_eq!(texts(&wrap_words(&list, 100)), owned(&["the quick brown fox"]));
    assert_eq!(texts(&wrap_words(&list, 0)), owned(&["the", "quick", "brown", "fox"]));
    assert_eq!(texts(&wrap_words(&Vec::new(), 10)), Vec::<String>::new());
}

#[test]
fn wrap_joins_words_up_to_the_width_exactly() {
    let list: Vec<Vec<char>> = ["abcde", "fg"].iter().map(|w| chars(w)).collect();
    assert_eq!(texts(&wrap_words(&list, 7)), owned(&["abcde", "fg"]));
    assert_eq!(texts(&wrap_words(&list, 8)), owned(&["abcde fg"]));
}

#[test]
fn wrap_gives_a_long_word_its_own_line() {
    let list: Vec<Vec<char>> =
        ["a", "incomprehensibilities", "b", "c"].iter().map(|w| chars(w)).collect();
    assert_eq!(texts(&wrap_words(&list, 6)), owned(&["a", "incomprehensibilities", "b c"]));
}

#[test]
fn wrap_line_keeps_a_line_that_fits() {
    assert_eq!(texts(&wrap_line(&chars("  two  spaces  "), 20)), owned(&["  two  spaces  "]));
    assert_eq!(texts(&wrap_line(&chars("  two  spaces  "), 8)), owned(&["two", "spaces"]));
    assert_eq!(texts(&wrap_line(&chars(""), 0)), owned(&[""]));
    assert_eq!(texts(&wrap_line(&chars("   "), 2)), Vec::<String>::new());
}

#[test]
fn wrap_text_parts_at_line_breaks_first() {
    assert_eq!(
        wrap_text("first line\n\nthe second line is long enough to wrap", 16),
        owned(&["first line", "", "the second line", "is long enough", "to wrap"])
    );
    assert_eq!(wrap_text("", 10), owned(&[""]));
    assert_eq!(wrap_text("a\n", 10), owned(&["a", ""]));
}

#[test]
fn wrap_text_counts_bytes_not_characters() {
    assert_eq!(wrap_text("ééé ééé", 12), owned(&["ééé", "ééé"]));
    assert_eq!(wrap_text("ééé ééé", 13), owned(&["ééé ééé"]));
    assert_eq!(wrap_text("ééé  ééé éé", 13), owned(&["ééé ééé", "éé"]));
}

#[test]
fn str_eq_compares_texts() {
    assert!(str_eq("", ""));
    assert!(str_eq("started", "started"));
    assert!(!str_eq("started", "Started"));
    assert!(!str_eq("start", "started"));
    assert!(!str_eq("started", "start"));
    assert!(str_eq("héllo", "héllo"));
    assert!(!str_eq("héllo", "hèllo"));
}

#[test]
fn truncate_text_in_wide_and_narrow_columns() {
    assert_eq!(truncate_text("short", 10), "short");
    assert_eq!(truncate_text("exactly ten", 11), "exactly ten");
    assert_eq!(truncate_text("a longer text", 10), "a longe...");
    assert_eq!(truncate_text("a longer text", 4), "a...");
    assert_eq!(truncate_text("a longer text", 3), "a l");
    assert_eq!(truncate_text("a longer text", 1), "a");
    assert_eq!(truncate_text("a longer text", 0), "");
}

#[test]
fn truncate_text_takes_characters_in_narrow_columns() {
    assert_eq!(truncate_text("é", 1), "é");
    assert_eq!(truncate_text("😀", 3), "😀");
    assert_eq!(truncate_text("éàü", 2), "éà");
    assert_eq!(truncate_text("éàüö", 3), "éàü");
}

#[test]
fn truncate_text_needs_a_cut_between_characters() {
    assert!(can_truncate_text("ééééé", 7));
    assert!(!can_truncate_text("ééééé", 6));
    assert!(can_truncate_text("ééééé", 10));
    assert!(can_truncate_text("ééééé", 3));
    assert_eq!(truncate_text("ééééé", 7), "éé...");
}
