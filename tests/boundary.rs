use hpi_backend::{
    print_diagnostics, Backend, Diagnostic, DiagnosticLevel, ErrorKind, Location, RenderError,
    RunResult, Span, WasmDiagnostic, WasmDiagnosticLevel, WasmErrorKind, WasmLocation, WasmSpan,
    WasmRuntimeErrorKind,
};

fn sample(level: DiagnosticLevel, line: usize) -> Diagnostic {
    Diagnostic {
        level,
        message: "msg".to_string(),
        notes: vec![],
        source: "abc\ndef".to_string(),
        path: "p".to_string(),
        span: Span {
            start: Location { line, column: 1, char_idx: 4 },
            end: Location { line, column: 3, char_idx: 6 },
        },
    }
}

#[test]
fn wasm_diagnostic_keeps_fields() {
    let w = WasmDiagnostic::from(sample(DiagnosticLevel::Error(ErrorKind::Type), 2));
    assert_eq!(w.level, WasmDiagnosticLevel::Error);
    assert_eq!(w.error, Some(WasmErrorKind::Type));
    assert_eq!(w.message, "msg");
    assert_eq!(
        w.span,
        WasmSpan {
            start: WasmLocation { line: 2, column: 1, char_idx: 4 },
            end: WasmLocation { line: 2, column: 3, char_idx: 6 },
        }
    );
}

#[test]
fn wasm_diagnostic_without_error_kind() {
    let w = WasmDiagnostic::from(sample(DiagnosticLevel::Warning, 1));
    assert_eq!(w.level, WasmDiagnosticLevel::Warning);
    assert_eq!(w.error, None);
}

#[test]
fn error_kinds_map_one_to_one() {
    assert_eq!(WasmErrorKind::from(ErrorKind::Syntax), WasmErrorKind::Syntax);
    assert_eq!(WasmErrorKind::from(ErrorKind::Semantic), WasmErrorKind::Semantic);
    assert_eq!(WasmErrorKind::from(ErrorKind::Reference), WasmErrorKind::Reference);
    assert_eq!(WasmDiagnosticLevel::from(DiagnosticLevel::Hint), WasmDiagnosticLevel::Hint);
    assert_eq!(WasmDiagnosticLevel::from(DiagnosticLevel::Info), WasmDiagnosticLevel::Info);
}

#[test]
fn backend_names() {
    assert_eq!(Backend::from_name("tree"), Some(Backend::Tree));
    assert_eq!(Backend::from_name("Tree"), None);
    assert_eq!(Backend::from_name(""), None);
}

#[test]
fn runtime_error_kind_text() {
    assert_eq!(WasmRuntimeErrorKind::Unknown.to_string(), "Unbekannter Fehler");
    assert_eq!(WasmRuntimeErrorKind::StackOverflow.to_string(), "Stapelüberlauf");
}

#[test]
fn run_result_ok() {
    let ds = vec![sample(DiagnosticLevel::Hint, 1)];
    let r = RunResult::new_ok(3, &ds).unwrap();
    assert_eq!(r.code, Some(3));
    assert!(r.runtime_error.is_none());
    assert_eq!(r.diagnostics, Some(print_diagnostics(&ds).unwrap()));
}

#[test]
fn run_result_error() {
    let r = RunResult::new_error("division by zero".to_string(), &[]).unwrap();
    assert_eq!(r.code, None);
    let e = r.runtime_error.unwrap();
    assert_eq!(e.kind, "Unbekannter Fehler");
    assert_eq!(e.message, "division by zero");
    assert_eq!(r.diagnostics, Some(String::new()));
}

#[test]
fn run_result_rejected_and_failing() {
    let r = RunResult::new_rejected(&[sample(DiagnosticLevel::Info, 2)]).unwrap();
    assert!(r.code.is_none() && r.runtime_error.is_none());
    assert!(r.diagnostics.unwrap().contains("in document p:2:1"));
    let bad = sample(DiagnosticLevel::Info, 9);
    assert!(matches!(RunResult::new_ok(0, &[bad]), Err(RenderError::LineOutOfRange)));
}
