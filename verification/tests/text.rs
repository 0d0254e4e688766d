use trait_ffi_core::text::{
    chars_of, concat_texts, find_first, is_name_char_of, is_space_char, join_texts, push_decimal,
    quoted_in, replace_hyphens, sanitize, split_ranges, starts_with, str_is, text_is, text_of,
    trim_range,
};

fn chars(s: &str) -> Vec<char> {
    s.chars().collect()
}

#[test]
fn white_space_is_what_trim_drops() {
    for c in ['\t', '\n', '\u{b}', '\u{c}', '\r', ' ', '\u{85}', '\u{a0}', '\u{1680}', '\u{2000}',
        '\u{2005}', '\u{200a}', '\u{2028}', '\u{2029}', '\u{202f}', '\u{205f}', '\u{3000}']
    {
        assert!(is_space_char(c));
        assert!(c.is_whitespace());
    }
    for c in ['a', '_', '"', ',', '\u{8}', '\u{e}', '\u{200b}', '\u{2060}', '\u{feff}', '0'] {
        assert!(!is_space_char(c));
        assert!(!c.is_whitespace());
    }
}

#[test]
fn white_space_agrees_with_std_on_every_character() {
    let mut n: u32 = 0;
    while n <= 0x10FFFF {
        if let Some(c) = char::from_u32(n) {
            assert_eq!(is_space_char(c), c.is_whitespace());
        }
        n += 1;
    }
}

#[test]
fn chars_of_keeps_every_character() {
    assert_eq!(chars_of("aé→z"), vec!['a', 'é', '→', 'z']);
    assert_eq!(chars_of(""), Vec::<char>::new());
}

#[test]
fn text_of_a_range() {
    let v = chars("hello, world");
    assert_eq!(text_of(&v, 0, 5), "hello");
    assert_eq!(text_of(&v, 7, 12), "world");
    assert_eq!(text_of(&v, 3, 3), "");
}

#[test]
fn trim_range_narrows_from_both_ends() {
    let v = chars("  abi = \"c\" \t");
    assert_eq!(trim_range(&v, 0, v.len()), (2, 11));
    let blank = chars(" \n ");
    let (a, b) = trim_range(&blank, 0, blank.len());
    assert_eq!(a, b);
    let inner = chars("x  y  z");
    assert_eq!(trim_range(&inner, 1, 6), (3, 4));
}

#[test]
fn find_first_in_a_range() {
    let v = chars("a\"b\"c\"d");
    assert_eq!(find_first(&v, 0, v.len(), '"'), 1);
    assert_eq!(find_first(&v, 2, 3, '"'), 3);
    assert_eq!(find_first(&v, 2, v.len(), '"'), 3);
    assert_eq!(find_first(&v, 0, v.len(), 'z'), v.len());
    assert_eq!(find_first(&v, 4, 4, 'c'), 4);
}

#[test]
fn quoted_text_of_a_range() {
    let v = chars("abi = \"rust\"");
    assert_eq!(quoted_in(&v, 6, v.len()), Some("rust".to_string()));
    assert_eq!(quoted_in(&v, 0, v.len()), None);
    assert_eq!(quoted_in(&v, 6, v.len() - 1), None);
    assert_eq!(quoted_in(&v, 6, 7), None);
    let empty = chars("\"\"");
    assert_eq!(quoted_in(&empty, 0, empty.len()), Some(String::new()));
    let inner = chars("\"a\"b\"");
    assert_eq!(quoted_in(&inner, 0, inner.len()), Some("a\"b".to_string()));
}

#[test]
fn prefix_and_equality() {
    let v = chars("mod_path = \"a\"");
    assert!(starts_with(&v, 0, v.len(), "mod_path"));
    assert!(starts_with(&v, 0, v.len(), ""));
    assert!(!starts_with(&v, 0, v.len(), "mod_paths"));
    assert!(!starts_with(&v, 0, 3, "mod_path"));
    assert!(text_is(&v, 0, 8, "mod_path"));
    assert!(!text_is(&v, 0, 9, "mod_path"));
    assert!(str_is("rust", "rust"));
    assert!(!str_is("rust", "rus"));
    assert!(!str_is("rust", "Rust"));
}

#[test]
fn split_keeps_empty_pieces() {
    assert_eq!(split_ranges(&chars("a,bc,,d"), ','), vec![(0, 1), (2, 4), (5, 5), (6, 7)]);
    assert_eq!(split_ranges(&chars(""), ','), vec![(0, 0)]);
    assert_eq!(split_ranges(&chars(","), ','), vec![(0, 0), (1, 1)]);
    assert_eq!(split_ranges(&chars("abc"), ','), vec![(0, 3)]);
}

#[test]
fn hyphens_become_underscores() {
    assert_eq!(replace_hyphens("a-b--c"), "a_b__c");
    assert_eq!(replace_hyphens("-"), "_");
    assert_eq!(replace_hyphens("plain"), "plain");
}

#[test]
fn decimal_of_a_number() {
    let mut s = String::from("n=");
    push_decimal(&mut s, 0);
    assert_eq!(s, "n=0");
    push_decimal(&mut s, 9);
    push_decimal(&mut s, 10);
    push_decimal(&mut s, 12345678901234567890);
    assert_eq!(s, "n=091012345678901234567890");
}

#[test]
fn join_and_concat() {
    let parts = vec!["a".to_string(), "b".to_string(), "c".to_string()];
    assert_eq!(join_texts(&parts, ", "), "a, b, c");
    assert_eq!(concat_texts(&parts, ";"), "a;b;c;");
    assert_eq!(join_texts(&Vec::new(), ", "), "");
    assert_eq!(concat_texts(&Vec::new(), ";"), "");
    assert_eq!(join_texts(&vec!["only".to_string()], ", "), "only");
    assert_eq!(join_texts(&vec![String::new(), String::new()], "-"), "-");
}

#[test]
fn name_characters_are_ascii_letters_digits_and_the_underscore() {
    let mut n: u32 = 0;
    while n <= 0x10FFFF {
        if let Some(c) = char::from_u32(n) {
            assert_eq!(is_name_char_of(c), c.is_ascii_alphanumeric() || c == '_');
        }
        n += 1;
    }
}

#[test]
fn sanitize_keeps_name_characters_only() {
    assert_eq!(sanitize("my.crate"), "my_crate");
    assert_eq!(sanitize("a-b c"), "a_b_c");
    assert_eq!(sanitize("Keep_09"), "Keep_09");
    assert_eq!(sanitize("\u{3b1}\u{3b2}"), "__");
    assert_eq!(sanitize(""), "");
}
