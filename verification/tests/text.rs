use flox_debugger::text::{
    chars_of, parse_usize_chars, split_chars, split_str, trim_chars, trimmed_segments,
};

fn chars(s: &str) -> Vec<char> {
    s.chars().collect()
}

fn strings(segments: Vec<Vec<char>>) -> Vec<String> {
    segments.into_iter().map(|s| s.into_iter().collect()).collect()
}

#[test]
fn chars_of_returns_every_character() {
    assert_eq!(chars_of(""), Vec::<char>::new());
    assert_eq!(chars_of("a→ß"), vec!['a', '→', 'ß']);
}

#[test]
fn split_has_one_more_segment_than_separators() {
    assert_eq!(strings(split_chars(&chars(""), ':')), vec![""]);
    assert_eq!(strings(split_chars(&chars("abc"), ':')), vec!["abc"]);
    assert_eq!(strings(split_chars(&chars("a:b:c"), ':')), vec!["a", "b", "c"]);
    assert_eq!(strings(split_chars(&chars(":a::b:"), ':')), vec!["", "a", "", "b", ""]);
    assert_eq!(strings(split_chars(&chars(":"), ':')), vec!["", ""]);
}

#[test]
fn split_agrees_with_std() {
    for text in ["", "a", ":", "a:b", "::", "a::b:", "héllo:wörld", "no separator"] {
        for sep in [':', ' ', 'o'] {
            let expected: Vec<String> = text.split(sep).map(|s| s.to_string()).collect();
            assert_eq!(strings(split_chars(&chars(text), sep)), expected);
            assert_eq!(split_str(text, sep), expected);
        }
    }
}

#[test]
fn trim_removes_whitespace_at_both_ends_only() {
    let trimmed: String = trim_chars(&chars("  \t a b \n")).into_iter().collect();
    assert_eq!(trimmed, "a b");
    assert_eq!(trim_chars(&chars(" \n\t ")), Vec::<char>::new());
    assert_eq!(trim_chars(&chars("")), Vec::<char>::new());
    assert_eq!(trim_chars(&chars("x")), vec!['x']);
}

#[test]
fn trim_agrees_with_std() {
    for text in ["", " ", "a", " a", "a ", "\u{a0}a\u{2003}", "\u{3000}", "a \u{85} b", "\r\n x \u{b}"] {
        let trimmed: String = trim_chars(&chars(text)).into_iter().collect();
        assert_eq!(trimmed, text.trim());
    }
}

#[test]
fn trimmed_segments_drop_blank_segments() {
    assert_eq!(strings(trimmed_segments(" a ; ;b;; c d ;", ';')), vec!["a", "b", "c d"]);
    assert_eq!(strings(trimmed_segments("", ';')), Vec::<String>::new());
    assert_eq!(strings(trimmed_segments(" \n ", '\n')), Vec::<String>::new());
}

#[test]
fn numbers_are_read_as_std_reads_them() {
    let max = usize::MAX.to_string();
    let over = format!("{}0", usize::MAX);
    let next = format!("{}", usize::MAX as u128 + 1);
    for text in [
        "", "0", "7", "007", "10", "4294967295", "4294967296", "+5", "+", "-5", "-0", "++5", "5+",
        " 5", "5 ", "1_000", "0x10", "12a", "٣", "１２", max.as_str(), over.as_str(), next.as_str(),
        "18446744073709551615", "18446744073709551616", "99999999999999999999999999",
    ] {
        assert_eq!(parse_usize_chars(&chars(text)), text.parse::<usize>().ok(), "{text:?}");
    }
}

#[test]
fn numbers_have_their_exact_value() {
    assert_eq!(parse_usize_chars(&chars("0")), Some(0));
    assert_eq!(parse_usize_chars(&chars("19")), Some(19));
    assert_eq!(parse_usize_chars(&chars("+120")), Some(120));
    assert_eq!(parse_usize_chars(&chars(&usize::MAX.to_string())), Some(usize::MAX));
    assert_eq!(parse_usize_chars(&chars("nine")), None);
}

fn has_white_space_property(c: char) -> bool {
    matches!(
        c,
        '\u{9}'..='\u{D}'
            | ' '
            | '\u{85}'
            | '\u{A0}'
            | '\u{1680}'
            | '\u{2000}'..='\u{200A}'
            | '\u{2028}'
            | '\u{2029}'
            | '\u{202F}'
            | '\u{205F}'
            | '\u{3000}'
    )
}

#[test]
fn whitespace_is_the_white_space_property_for_every_character() {
    let mut count = 0;
    for code in 0..=0x10FFFFu32 {
        if let Some(c) = char::from_u32(code) {
            let trimmed_away = trim_chars(&vec![c]).is_empty();
            assert_eq!(trimmed_away, has_white_space_property(c), "{code:#x}");
            assert_eq!(trimmed_away, c.is_whitespace(), "{code:#x}");
            if trimmed_away {
                count += 1;
            }
        }
    }
    assert_eq!(count, 25);
}
