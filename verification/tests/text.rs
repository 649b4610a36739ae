use tide::text::{join, to_chars};

fn strings(items: &[&str]) -> Vec<String> {
    items.iter().map(|s| s.to_string()).collect()
}

#[test]
fn join_puts_the_separator_between_neighbours() {
    assert_eq!(join(&strings(&["a", "b", "c"]), " "), "a b c");
    assert_eq!(join(&strings(&["a"]), " "), "a");
    assert_eq!(join(&strings(&[]), " "), "");
    assert_eq!(join(&strings(&["", ""]), ", "), ", ");
    assert_eq!(join(&strings(&["brew", "update"]), ""), "brewupdate");
}

#[test]
fn to_chars_keeps_every_character() {
    assert_eq!(to_chars("a🌊é"), vec!['a', '🌊', 'é']);
    assert_eq!(to_chars(""), Vec::<char>::new());
}

#[test]
fn characters_are_found_from_a_start() {
    let chars = to_chars("a,b,c");
    assert_eq!(tide::text::index_of_char(&chars, 0, ','), 1);
    assert_eq!(tide::text::index_of_char(&chars, 1, ','), 1);
    assert_eq!(tide::text::index_of_char(&chars, 2, ','), 3);
    assert_eq!(tide::text::index_of_char(&chars, 4, ','), 5);
    assert_eq!(tide::text::index_of_char(&chars, 5, ','), 5);
    assert_eq!(tide::text::index_of_char(&chars, 0, 'x'), 5);
}

#[test]
fn substrings_are_found_at_their_first_place() {
    let hay = to_chars("ab up up x");
    let needle = to_chars("up ");
    assert_eq!(tide::text::index_of(&hay, &needle, 0), Some(3));
    assert_eq!(tide::text::index_of(&hay, &needle, 4), Some(6));
    assert_eq!(tide::text::index_of(&hay, &needle, 7), None);
    assert_eq!(tide::text::index_of(&hay, &needle, 70), None);
    assert_eq!(tide::text::index_of(&hay, &to_chars("x"), 0), Some(9));
    assert_eq!(tide::text::index_of(&hay, &to_chars("xy"), 0), None);
    assert_eq!(tide::text::index_of(&hay, &to_chars(""), 0), Some(0));
    assert_eq!(tide::text::index_of(&hay, &to_chars(""), 10), Some(10));
    assert_eq!(tide::text::index_of(&to_chars(""), &needle, 0), None);
    assert!(tide::text::stands_at(&hay, &needle, 6));
    assert!(!tide::text::stands_at(&hay, &needle, 5));
    assert!(!tide::text::stands_at(&hay, &needle, 9));
}

#[test]
fn words_are_split_at_white_space() {
    assert_eq!(
        tide::text::split_words("  /dev/disk1s1   466Gi  \t 210Gi\n"),
        strings(&["/dev/disk1s1", "466Gi", "210Gi"])
    );
    assert_eq!(tide::text::split_words(""), Vec::<String>::new());
    assert_eq!(tide::text::split_words(" \t\n"), Vec::<String>::new());
    assert_eq!(tide::text::split_words("one"), strings(&["one"]));
    assert_eq!(tide::text::split_words("a\u{a0}b\u{3000}c"), strings(&["a", "b", "c"]));
}

#[test]
fn words_agree_with_the_standard_library() {
    for text in ["", " ", "a", " a", "a ", "a  b", "\ta\nb\r\nc ", "é 🌊\u{2003}x"] {
        let expected: Vec<String> = text.split_whitespace().map(|w| w.to_string()).collect();
        assert_eq!(tide::text::split_words(text), expected, "for {:?}", text);
    }
}

#[test]
fn trim_agrees_with_the_standard_library() {
    for text in ["", " ", "a", "  a b  ", "\t\nx\r\n", "\u{a0}é\u{3000}", " \u{2028}🌊 ", "no-space"] {
        assert_eq!(tide::text::trim(text), text.trim(), "for {:?}", text);
    }
}

#[test]
fn contains_agrees_with_the_standard_library() {
    for (hay, needle) in [
        ("", ""),
        ("abc", ""),
        ("", "a"),
        ("abc", "abc"),
        ("abc", "bc"),
        ("abc", "abcd"),
        ("aab", "ab"),
        ("discharging", "charging"),
        ("Unknown location", "Unknown"),
        ("unknown", "Unknown"),
        ("é🌊x", "🌊"),
    ] {
        assert_eq!(tide::text::contains(hay, needle), hay.contains(needle), "for {:?} in {:?}", needle, hay);
    }
}

#[test]
fn white_space_is_what_the_standard_library_calls_so() {
    let mut count = 0;
    for code in 0u32..=0x10FFFF {
        if let Some(c) = char::from_u32(code) {
            assert_eq!(tide::text::is_whitespace(c), c.is_whitespace(), "for U+{:04X}", code);
            if c.is_whitespace() {
                count += 1;
            }
        }
    }
    assert_eq!(count, 25);
    assert!(tide::text::is_whitespace(' '));
    assert!(tide::text::is_whitespace('\u{3000}'));
    assert!(!tide::text::is_whitespace('\u{200B}'));
    assert!(!tide::text::is_whitespace('a'));
}

#[test]
fn numbers_are_written_in_base_ten() {
    for n in [0u64, 1, 9, 10, 11, 99, 100, 101, 1234567890, u64::MAX - 1, u64::MAX] {
        assert_eq!(tide::text::u64_to_string(n), n.to_string());
    }
    assert_eq!(tide::text::u64_to_string(7), "7");
    assert_eq!(tide::text::u64_to_string(1000), "1000");
    assert_eq!(tide::text::u64_to_string(u64::MAX), "18446744073709551615");
}
