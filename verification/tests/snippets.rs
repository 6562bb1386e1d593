use pipr::snippets::Snippet;

#[test]
fn test_parsing() {
    assert_eq!(Snippet::parse("ab||c"), Snippet::new("abc".into(), 2));
    assert_eq!(Snippet::parse("abc"), Snippet::new("abc".into(), 3));
}

#[test]
fn parse_empty_string() {
    assert_eq!(Snippet::parse(""), Snippet::new("".into(), 0));
}

#[test]
fn parse_marker_at_start() {
    assert_eq!(Snippet::parse("||abc"), Snippet::new("abc".into(), 0));
}

#[test]
fn parse_marker_at_end() {
    assert_eq!(Snippet::parse("abc||"), Snippet::new("abc".into(), 3));
}

#[test]
fn parse_removes_every_marker_but_cursor_is_first() {
    assert_eq!(Snippet::parse("a||b||c"), Snippet::new("abc".into(), 1));
}

#[test]
fn snippet_new_keeps_fields() {
    let s = Snippet::new("grep ''".into(), 6);
    assert_eq!(s.text, "grep ''");
    assert_eq!(s.cursor_offset, 6);
}
