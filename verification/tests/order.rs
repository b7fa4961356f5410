use flox_debugger::order::chars_le;

fn chars(s: &str) -> Vec<char> {
    s.chars().collect()
}

#[test]
fn texts_are_ordered_as_strings_are() {
    let texts = ["", "a", "A", "ab", "abc", "b", "B", "PATH", "PATH_2", "Pa", "é", "z", "\u{10000}", "~"];
    for a in texts {
        for b in texts {
            assert_eq!(chars_le(&chars(a), &chars(b)), a <= b, "{a:?} {b:?}");
        }
    }
}

#[test]
fn a_text_comes_before_its_extensions() {
    assert!(chars_le(&chars("HOME"), &chars("HOMEBREW")));
    assert!(!chars_le(&chars("HOMEBREW"), &chars("HOME")));
    assert!(chars_le(&chars("HOME"), &chars("HOME")));
}
