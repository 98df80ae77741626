use potabrowser::text::{
    append_decimal, chars_of, contains, decimal, ends_with, find, find_char, holds, is_word,
    joined, matches_at, parse_u16, same_text, skip_spaces, skip_word, slice_of, space, text_or,
};

fn chars(s: &str) -> Vec<char> {
    s.chars().collect()
}

#[test]
fn characters_are_listed_in_order() {
    assert_eq!(chars_of("héllo"), vec!['h', 'é', 'l', 'l', 'o']);
    assert_eq!(chars_of(""), Vec::<char>::new());
}

#[test]
fn texts_are_compared() {
    assert!(same_text(&chars("abc"), &chars("abc")));
    assert!(!same_text(&chars("abc"), &chars("abd")));
    assert!(!same_text(&chars("abc"), &chars("ab")));
    assert!(same_text(&chars(""), &chars("")));
    assert!(is_word("Image", "Image"));
    assert!(!is_word("Image", "image"));
}

#[test]
fn suffixes() {
    assert!(ends_with(&chars("photo.jpg"), &chars(".jpg")));
    assert!(ends_with(&chars(".jpg"), &chars(".jpg")));
    assert!(!ends_with(&chars("jpg"), &chars(".jpg")));
    assert!(!ends_with(&chars("photo.jpg "), &chars(".jpg")));
    assert!(ends_with(&chars("abc"), &chars("")));
}

#[test]
fn occurrences_are_found() {
    assert_eq!(find(&chars("a recaptcha.net b"), &chars("recaptcha.net")), Some(2));
    assert_eq!(find(&chars("aaa"), &chars("aa")), Some(0));
    assert_eq!(find(&chars("abc"), &chars("bc")), Some(1));
    assert_eq!(find(&chars("abc"), &chars("cd")), None);
    assert_eq!(find(&chars("abc"), &chars("abcd")), None);
    assert_eq!(find(&chars("abc"), &chars("")), Some(0));
    assert_eq!(find(&chars(""), &chars("")), Some(0));
    assert!(contains(&chars("xhcaptcha.comx"), &chars("hcaptcha.com")));
    assert!(!contains(&chars("hcaptcha.co"), &chars("hcaptcha.com")));
    assert!(matches_at(&chars("abcabc"), &chars("abc"), 3));
    assert!(!matches_at(&chars("abcabc"), &chars("abc"), 4));
    assert!(!matches_at(&chars("abcabc"), &chars("abc"), 2));
    assert!(!matches_at(&chars("abc"), &chars("abc"), usize::MAX));
}

#[test]
fn words_are_scanned() {
    let line = chars("  GET \t/x  HTTP/1.1");
    assert_eq!(skip_spaces(&line, 0), 2);
    assert_eq!(skip_word(&line, 2), 5);
    assert_eq!(skip_spaces(&line, 5), 7);
    assert_eq!(skip_word(&line, 7), 9);
    assert_eq!(skip_spaces(&line, 9), 11);
    assert_eq!(skip_word(&line, 11), line.len());
    assert_eq!(skip_spaces(&line, line.len()), line.len());
    assert_eq!(find_char(&line, '/', 0), 7);
    assert_eq!(find_char(&line, '/', 8), 15);
    assert_eq!(find_char(&line, '#', 0), line.len());
    assert_eq!(slice_of(&line, 2, 5), chars("GET"));
    assert_eq!(slice_of(&line, 5, 5), chars(""));
}

#[test]
fn white_space_is_unicode_white_space() {
    for c in [' ', '\t', '\n', '\r', '\u{b}', '\u{c}', '\u{85}', '\u{a0}', '\u{1680}', '\u{2000}', '\u{200a}', '\u{2028}', '\u{2029}', '\u{202f}', '\u{205f}', '\u{3000}'] {
        assert!(space(c), "{:?}", c);
        assert!(c.is_whitespace());
    }
    for c in ['a', '0', '\u{8}', '\u{e}', '\u{200b}', '\u{feff}', '\u{1f}', '\u{2007}'] {
        assert_eq!(space(c), c.is_whitespace(), "{:?}", c);
    }
}

#[test]
fn numbers_are_read_as_std_reads_them() {
    for text in ["0", "80", "443", "65535", "65536", "+1", "++1", "+", "", "-1", "08080", "000000000000080", "99999999999999999999", "1a", " 1", "1 ", "٣"] {
        assert_eq!(parse_u16(&chars(text)), text.parse::<u16>().ok(), "{:?}", text);
    }
}

#[test]
fn numbers_are_written_in_decimal() {
    assert_eq!(decimal(0), "0");
    assert_eq!(decimal(9), "9");
    assert_eq!(decimal(10), "10");
    assert_eq!(decimal(9222), "9222");
    assert_eq!(decimal(u64::MAX), "18446744073709551615");
    let mut text = String::from("id=");
    append_decimal(&mut text, 1050);
    assert_eq!(text, "id=1050");
}

#[test]
fn lists_of_texts() {
    let list = vec!["1.1.1.1".to_string(), "2.2.2.2".to_string()];
    assert!(holds(&list, &"2.2.2.2".to_string()));
    assert!(!holds(&list, &"2.2.2".to_string()));
    assert!(!holds(&Vec::new(), &"".to_string()));
    assert_eq!(text_or(Some("a".to_string()), "b"), "a");
    assert_eq!(text_or(None, "b"), "b");
    assert_eq!(joined("--lang=", "it-IT"), "--lang=it-IT");
}
