use script_macro::text::split_lines;

#[test]
fn empty_text_has_one_empty_line() {
    assert_eq!(split_lines(""), vec![String::new()]);
}

#[test]
fn text_without_line_feed_is_one_line() {
    assert_eq!(split_lines("let x = 1;"), vec!["let x = 1;".to_string()]);
}

#[test]
fn line_feeds_separate_lines() {
    assert_eq!(split_lines("a\nb\nc"), vec!["a".to_string(), "b".to_string(), "c".to_string()]);
}

#[test]
fn trailing_line_feed_gives_an_empty_last_line() {
    assert_eq!(split_lines("a\n"), vec!["a".to_string(), String::new()]);
    assert_eq!(split_lines("\n"), vec![String::new(), String::new()]);
}

#[test]
fn empty_lines_in_the_middle_are_kept() {
    assert_eq!(split_lines("a\n\nb"), vec!["a".to_string(), String::new(), "b".to_string()]);
}

#[test]
fn carriage_returns_stay_in_their_line() {
    assert_eq!(split_lines("a\r\nb"), vec!["a\r".to_string(), "b".to_string()]);
}

#[test]
fn lines_are_what_std_splits() {
    let texts = vec!["", "\n\n", "one\ntwo\n", "\nlead", "üñí\ncödé\n\n"];
    for text in texts {
        let expected: Vec<String> = text.split('\n').map(|line| line.to_string()).collect();
        assert_eq!(split_lines(text), expected);
        assert_eq!(split_lines(text).join("\n"), text);
    }
}
