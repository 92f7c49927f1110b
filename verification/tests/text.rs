use neenee_code::graphemes::measure;
use neenee_code::order::sort_by_key;
use neenee_code::text::{
    append_text, char_count, char_index_at, clip, contains, decimal_string, is_whitespace,
    parse_number, same_text, second_word, splice, starts_with, take_first_line, take_string, trim,
    trim_start, utf8_len,
};

#[test]
fn whitespace_is_what_the_standard_library_says() {
    for code in 0..=0x10FFFFu32 {
        if let Some(c) = char::from_u32(code) {
            assert_eq!(is_whitespace(c), c.is_whitespace(), "{code:x}");
        }
    }
}

#[test]
fn trimming_agrees_with_the_standard_library() {
    for s in ["", " ", "a", " a ", "\u{3000}b\u{a0}", "c\n\n", "\t d e \r"] {
        assert_eq!(trim(s), s.trim());
        assert_eq!(trim_start(s), s.trim_start());
    }
}

#[test]
fn numbers_go_to_text_and_back() {
    for n in [0u64, 7, 10, 99, 100, 1_234_567, u64::MAX] {
        assert_eq!(decimal_string(n), n.to_string());
    }
    assert_eq!(parse_number("0", 10), Some(0));
    assert_eq!(parse_number("+10", 10), Some(10));
    assert_eq!(parse_number("11", 10), None);
    assert_eq!(parse_number("", 10), None);
    assert_eq!(parse_number("+", 10), None);
    assert_eq!(parse_number("-1", 10), None);
    assert_eq!(parse_number("1a", 10), None);
    assert_eq!(parse_number("007", 10), Some(7));
    assert_eq!(
        parse_number("99999999999999999999999", usize::MAX),
        "99999999999999999999999".parse::<usize>().ok()
    );
}

#[test]
fn utf8_lengths_and_boundaries() {
    let s = "aé中😀";
    assert_eq!(utf8_len(s), s.len() as u128);
    assert_eq!(char_count(s), 4);
    for b in 0..=s.len() {
        let expected = if s.is_char_boundary(b) {
            Some(s[..b].chars().count())
        } else {
            None
        };
        assert_eq!(char_index_at(s, b), expected);
    }
    assert_eq!(char_index_at(s, s.len() + 1), None);
}

#[test]
fn searching_and_comparing() {
    assert!(contains("hello", "ell"));
    assert!(contains("hello", ""));
    assert!(!contains("hello", "lle"));
    assert!(starts_with("/serve 1", "/serve "));
    assert!(!starts_with("/serve", "/serve "));
    assert!(same_text("é", "é"));
    assert!(!same_text("a", "ab"));
}

#[test]
fn cutting_and_joining() {
    assert_eq!(splice("abcdef", 1, 3, "X"), "aXdef");
    assert_eq!(clip("abcdef", 3), "abc...");
    assert_eq!(clip("abc", 3), "abc");
    assert_eq!(take_first_line("a\nb"), "a");
    assert_eq!(take_first_line("ab"), "ab");
    let mut s = "ab".to_string();
    append_text(&mut s, "中");
    assert_eq!(s, "ab中");
    let mut slot = "kept".to_string();
    assert_eq!(take_string(&mut slot), "kept");
    assert_eq!(slot, "");
}

#[test]
fn second_words() {
    assert_eq!(second_word("/serve 8080 x"), Some("8080".to_string()));
    assert_eq!(second_word("  /serve\t\u{3000}80  "), Some("80".to_string()));
    assert_eq!(second_word("/serve"), None);
    assert_eq!(second_word("/serve   "), None);
    assert_eq!(second_word(""), None);
}

#[test]
fn clusters_are_measured_on_screen() {
    let cells = measure("a中e\u{301}\n");
    let offsets: Vec<usize> = cells.iter().map(|c| c.offset).collect();
    let widths: Vec<usize> = cells.iter().map(|c| c.width).collect();
    let single: Vec<bool> = cells.iter().map(|c| c.single_byte).collect();
    assert_eq!(offsets, vec![0, 1, 4, 7]);
    assert_eq!(widths, vec![1, 2, 1, 0]);
    assert_eq!(single, vec![true, false, false, true]);
    assert!(measure("").is_empty());
}

#[test]
fn sorting_is_stable() {
    assert_eq!(sort_by_key(&vec![3, 1, 3, -5, 1]), vec![3, 1, 4, 0, 2]);
    assert_eq!(sort_by_key(&vec![]), Vec::<usize>::new());
}
