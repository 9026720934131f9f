use qstf::ui::utils::extract_prompt;

#[test]
fn plain_input_has_empty_prompt() {
    assert_eq!(
        extract_prompt("firefox"),
        Some((String::new(), "firefox".to_string()))
    );
}

#[test]
fn prompt_and_content_are_split() {
    assert_eq!(
        extract_prompt("|app|fire"),
        Some(("app".to_string(), "fire".to_string()))
    );
}

#[test]
fn only_the_first_closing_bar_splits() {
    assert_eq!(
        extract_prompt("|calc|1|2"),
        Some(("calc".to_string(), "1|2".to_string()))
    );
}

#[test]
fn missing_closing_bar_gives_none() {
    assert_eq!(extract_prompt("|app"), None);
    assert_eq!(extract_prompt("|"), None);
}

#[test]
fn empty_prompt_and_content() {
    assert_eq!(extract_prompt("||"), Some((String::new(), String::new())));
    assert_eq!(extract_prompt(""), Some((String::new(), String::new())));
}

#[test]
fn non_ascii_text_is_split_by_characters() {
    assert_eq!(
        extract_prompt("|é|ü ß"),
        Some(("é".to_string(), "ü ß".to_string()))
    );
}

#[test]
fn split_prompt_puts_the_input_back_together() {
    for s in ["|a|b", "|abc|", "||x|y", "|x y|z|w"] {
        let (p, c) = extract_prompt(s).unwrap();
        assert!(!p.contains('|'));
        assert_eq!(format!("|{}|{}", p, c), s);
    }
}
