use hpi_backend::{escape, line_count, source_context, style, DiagnosticLevel, ErrorKind};

#[test]
fn escape_ampersand_once() {
    let out = escape("a & b");
    assert_eq!(out, "a&nbsp;&amp;&nbsp;b");
    assert_eq!(out.matches('&').count(), 3);
}

#[test]
fn escape_every_special_character() {
    assert_eq!(
        escape("<a>&\t \n"),
        "&lt;a&gt;&amp;&nbsp;&nbsp;&nbsp;&nbsp;&nbsp;<br>"
    );
}

#[test]
fn escape_does_not_touch_inserted_text() {
    // the `&` of an inserted `&nbsp;` is not escaped again, nor the `<` of `<br>`
    assert_eq!(escape(" "), "&nbsp;");
    assert_eq!(escape("\n"), "<br>");
    assert_eq!(escape("&nbsp;"), "&amp;nbsp;");
}

#[test]
fn escape_empty_and_plain() {
    assert_eq!(escape(""), "");
    assert_eq!(escape("abc"), "abc");
}

#[test]
fn context_of_first_line() {
    let c = source_context("one\ntwo\nthree", 1);
    assert_eq!(c.previous, None);
    assert_eq!(c.target, "one");
    assert_eq!(c.next, Some("two".to_string()));
}

#[test]
fn context_of_middle_line() {
    let c = source_context("one\ntwo\nthree", 2);
    assert_eq!(c.previous, Some("one".to_string()));
    assert_eq!(c.target, "two");
    assert_eq!(c.next, Some("three".to_string()));
}

#[test]
fn context_of_last_line() {
    let c = source_context("one\ntwo\nthree", 3);
    assert_eq!(c.previous, Some("two".to_string()));
    assert_eq!(c.target, "three");
    assert_eq!(c.next, None);
}

#[test]
fn context_of_single_line() {
    let c = source_context("only", 1);
    assert_eq!(c.previous, None);
    assert_eq!(c.target, "only");
    assert_eq!(c.next, None);
}

#[test]
fn line_counts() {
    assert_eq!(line_count(""), 1);
    assert_eq!(line_count("a"), 1);
    assert_eq!(line_count("a\n"), 2);
    assert_eq!(line_count("a\nb\nc"), 3);
}

#[test]
fn style_table() {
    let h = style(DiagnosticLevel::Hint);
    assert_eq!((h.wide, h.narrow, h.color, h.label), ('~', '^', "#d472fe", "Hint"));
    let i = style(DiagnosticLevel::Info);
    assert_eq!((i.wide, i.narrow, i.color, i.label), ('~', '^', "#45bcf4", "Info"));
    let w = style(DiagnosticLevel::Warning);
    assert_eq!((w.wide, w.narrow, w.color, w.label), ('~', '^', "#ebc656", "Warning"));
    let e = style(DiagnosticLevel::Error(ErrorKind::Syntax));
    assert_eq!((e.wide, e.narrow, e.color, e.label), ('^', '^', "#ff616e", "Error"));
}

#[test]
fn escape_twice_changes_text() {
    let once = escape("a < b");
    assert_eq!(once, "a&nbsp;&lt;&nbsp;b");
    assert_ne!(escape(&once), once);
    assert!(!once.contains(' '));
}

#[test]
fn escape_keeps_non_ascii() {
    assert_eq!(escape("Stapelüberlauf"), "Stapelüberlauf");
}
