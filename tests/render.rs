use hpi_backend::{
    has_source_context, print_diagnostics, render_diagnostic, span_marker, Diagnostic, DiagnosticLevel, ErrorKind,
    Location, RenderError, Span, GUTTER_WIDTH,
};

fn loc(line: usize, column: usize) -> Location {
    Location { line, column, char_idx: 0 }
}

fn diag(level: DiagnosticLevel, source: &str, start: Location, end: Location, message: &str, notes: &[&str]) -> Diagnostic {
    Diagnostic {
        level,
        message: message.to_string(),
        notes: notes.iter().map(|n| n.to_string()).collect(),
        source: source.to_string(),
        path: "playground".to_string(),
        span: Span { start, end },
    }
}

fn nbsp(n: usize) -> String {
    "&nbsp;".repeat(n)
}

#[test]
fn warning_single_character_span() {
    let d = diag(DiagnosticLevel::Warning, "let x = 1", loc(1, 5), loc(1, 6), "unused variable", &[]);
    let out = render_diagnostic(&d).unwrap();
    let expected = format!(
        "<b style='color: #ebc656;'>Warning</b> in document playground:1:5<br>\
         <br>&nbsp;&nbsp;<span style='color: #4f5666;'>&nbsp;&nbsp;1&nbsp;|</span>&nbsp;let&nbsp;x&nbsp;=&nbsp;1\
         <br>{}<b style='color: #ebc656;'>^</b>\
         <br><br> <b style='color: #ebc656;'>unused variable</b>",
        nbsp(12)
    );
    assert_eq!(out, expected);
}

#[test]
fn error_with_empty_source_uses_fallback() {
    let d = diag(DiagnosticLevel::Error(ErrorKind::Syntax), "", loc(1, 1), loc(1, 2), "unexpected end", &[]);
    let out = render_diagnostic(&d).unwrap();
    assert_eq!(out, "<b style='color: #ff616e;'>Error</b> in playground <br> unexpected end");
    assert!(!out.contains("|</span>"));
}

#[test]
fn empty_span_uses_fallback_with_notes() {
    let d = diag(DiagnosticLevel::Info, "a\nb", loc(2, 1), loc(2, 1), "note this", &["first", "second"]);
    let out = render_diagnostic(&d).unwrap();
    assert_eq!(
        out,
        "<b style='color: #45bcf4;'>Info</b> in playground <br> note this\
         <br><b style='color: #4accd8;'> - Note: </b>first\
         <br><b style='color: #4accd8;'> - Note: </b>second"
    );
}

#[test]
fn hint_over_three_lines() {
    let d = diag(DiagnosticLevel::Hint, "a\nbcdefg\nc\nd\ne", loc(2, 3), loc(4, 2), "look here", &[]);
    let out = render_diagnostic(&d).unwrap();
    let marker = format!(
        "<br>{}<b style='color: #d472fe;'>~~~~ ...<br>{}<b style='color: #a0da71;'>+ 2 more lines</b></b>",
        nbsp(10),
        nbsp(10)
    );
    assert!(out.contains(&marker));
    assert!(out.contains("&nbsp;&nbsp;1&nbsp;|</span>&nbsp;a"));
    assert!(out.contains("&nbsp;&nbsp;2&nbsp;|</span>&nbsp;bcdefg"));
    assert!(out.contains("&nbsp;&nbsp;3&nbsp;|</span>&nbsp;c"));
    assert!(!out.contains("&nbsp;&nbsp;4&nbsp;|"));
}

#[test]
fn one_more_line_is_singular() {
    let d = diag(DiagnosticLevel::Warning, "ab\ncd", loc(1, 1), loc(2, 1), "m", &[]);
    let out = render_diagnostic(&d).unwrap();
    assert!(out.contains("+ 1 more line</b>"));
    assert!(!out.contains("more lines"));
}

#[test]
fn underline_has_one_glyph_per_column() {
    let d = diag(DiagnosticLevel::Error(ErrorKind::Type), "let abc = 1", loc(1, 5), loc(1, 8), "bad", &[]);
    let out = render_diagnostic(&d).unwrap();
    assert!(out.contains(&format!("<br>{}<b style='color: #ff616e;'>^^^</b><br><br>", nbsp(12))));
}

#[test]
fn context_lines_around_target() {
    let d = diag(DiagnosticLevel::Info, "one\ntwo\nthree", loc(2, 1), loc(2, 2), "m", &[]);
    let out = render_diagnostic(&d).unwrap();
    let one = out.find("1&nbsp;|</span>&nbsp;one").unwrap();
    let two = out.find("2&nbsp;|</span>&nbsp;two").unwrap();
    let mark = out.find("<b style='color: #45bcf4;'>^</b>").unwrap();
    let three = out.find("3&nbsp;|</span>&nbsp;three").unwrap();
    assert!(one < two && two < mark && mark < three);
}

#[test]
fn source_lines_are_escaped() {
    let d = diag(DiagnosticLevel::Hint, "a<b>&\tc", loc(1, 1), loc(1, 2), "m", &[]);
    let out = render_diagnostic(&d).unwrap();
    assert!(out.contains("&nbsp;a&lt;b&gt;&amp;&nbsp;&nbsp;&nbsp;&nbsp;c"));
}

#[test]
fn wide_line_numbers() {
    let source = "x\n".repeat(1000) + "y";
    let d = diag(DiagnosticLevel::Hint, &source, loc(1000, 1), loc(1000, 2), "m", &[]);
    let out = render_diagnostic(&d).unwrap();
    assert!(out.contains("playground:1000:1"));
    assert!(out.contains("999&nbsp;|</span>&nbsp;x"));
    assert!(out.contains("1000&nbsp;|</span>&nbsp;x"));
    assert!(out.contains("1001&nbsp;|</span>&nbsp;y"));
}

#[test]
fn line_beyond_document_is_error() {
    let d = diag(DiagnosticLevel::Warning, "only", loc(2, 1), loc(2, 2), "m", &[]);
    assert_eq!(render_diagnostic(&d), Err(RenderError::LineOutOfRange));
    let d = diag(DiagnosticLevel::Warning, "only", loc(1, 1), loc(3, 2), "m", &[]);
    assert_eq!(render_diagnostic(&d), Err(RenderError::LineOutOfRange));
}

#[test]
fn reversed_columns_are_malformed() {
    let d = diag(DiagnosticLevel::Warning, "abcdef", loc(1, 4), loc(1, 2), "m", &[]);
    assert_eq!(render_diagnostic(&d), Err(RenderError::MalformedSpan));
}

#[test]
fn span_past_line_end_on_one_line_is_drawn() {
    let d = diag(DiagnosticLevel::Warning, "ab", loc(1, 5), loc(1, 6), "m", &[]);
    let out = render_diagnostic(&d).unwrap();
    assert!(out.contains(&format!("<br>{}<b style='color: #ebc656;'>^</b><br><br>", nbsp(12))));
    let d = diag(DiagnosticLevel::Warning, "ab", loc(1, 5), loc(1, 8), "m", &[]);
    let out = render_diagnostic(&d).unwrap();
    assert!(out.contains(&format!("<br>{}<b style='color: #ebc656;'>~~~</b><br><br>", nbsp(12))));
}

#[test]
fn reversed_lines_are_malformed() {
    let d = diag(DiagnosticLevel::Warning, "ab\ncd", loc(2, 1), loc(1, 1), "m", &[]);
    assert_eq!(render_diagnostic(&d), Err(RenderError::MalformedSpan));
}

#[test]
fn column_past_line_end_is_malformed() {
    let d = diag(DiagnosticLevel::Warning, "ab\ncd", loc(1, 5), loc(2, 1), "m", &[]);
    assert_eq!(render_diagnostic(&d), Err(RenderError::MalformedSpan));
    let d = diag(DiagnosticLevel::Warning, "ab", loc(1, 0), loc(1, 2), "m", &[]);
    assert_eq!(render_diagnostic(&d), Err(RenderError::MalformedSpan));
}

#[test]
fn set_keeps_input_order() {
    let a = diag(DiagnosticLevel::Hint, "x", loc(1, 1), loc(1, 2), "A", &[]);
    let b = diag(DiagnosticLevel::Error(ErrorKind::Semantic), "", loc(1, 1), loc(1, 1), "B", &[]);
    let c = diag(DiagnosticLevel::Warning, "y\nz", loc(2, 1), loc(2, 2), "C", &[]);
    let expected = format!(
        "{}<br><br>{}<br><br>{}",
        render_diagnostic(&a).unwrap(),
        render_diagnostic(&b).unwrap(),
        render_diagnostic(&c).unwrap()
    );
    assert_eq!(print_diagnostics(&[a, b, c]).unwrap(), expected);
}

#[test]
fn empty_set_is_empty_text() {
    assert_eq!(print_diagnostics(&[]).unwrap(), "");
}

#[test]
fn set_fails_with_first_error() {
    let a = diag(DiagnosticLevel::Hint, "x", loc(1, 1), loc(1, 2), "A", &[]);
    let b = diag(DiagnosticLevel::Hint, "x", loc(5, 1), loc(5, 2), "B", &[]);
    let c = diag(DiagnosticLevel::Hint, "x", loc(1, 3), loc(1, 1), "C", &[]);
    assert_eq!(print_diagnostics(&[a, b, c]), Err(RenderError::LineOutOfRange));
}

#[test]
fn marker_single_column() {
    let m = span_marker(DiagnosticLevel::Info, loc(1, 5), loc(1, 6), "let x = 1").unwrap();
    assert_eq!(m.indent, 5 + GUTTER_WIDTH);
    assert_eq!(m.markup, "<b style='color: #45bcf4;'>^</b>");
}

#[test]
fn marker_wide_run() {
    let m = span_marker(DiagnosticLevel::Warning, loc(1, 2), loc(1, 6), "abcdefg").unwrap();
    assert_eq!(m.indent, 9);
    assert_eq!(m.markup, "<b style='color: #ebc656;'>~~~~</b>");
}

#[test]
fn marker_multi_line() {
    let m = span_marker(DiagnosticLevel::Error(ErrorKind::Reference), loc(3, 2), loc(7, 1), "abc").unwrap();
    assert_eq!(
        m.markup,
        format!("<b style='color: #ff616e;'>^^ ...<br>{}<b style='color: #a0da71;'>+ 4 more lines</b></b>", nbsp(9))
    );
}

#[test]
fn marker_of_zero_width_is_malformed() {
    assert!(span_marker(DiagnosticLevel::Hint, loc(1, 3), loc(1, 3), "abc").is_err());
}

#[test]
fn context_predicate() {
    let d = diag(DiagnosticLevel::Hint, "x", loc(1, 1), loc(1, 2), "m", &[]);
    assert!(has_source_context(&d));
    let d = diag(DiagnosticLevel::Hint, "", loc(1, 1), loc(1, 2), "m", &[]);
    assert!(!has_source_context(&d));
    let d = diag(DiagnosticLevel::Hint, "x", loc(1, 1), loc(1, 1), "m", &[]);
    assert!(!has_source_context(&d));
}
