//! The shape in which diagnostics cross to the host: severity, error kind,
//! message and span, each field kept as it was.

use vstd::prelude::*;
use crate::diagnostic::{Diagnostic, DiagnosticLevel, ErrorKind, Location, Span};

verus! {

/// The error kind as the host sees it.
#[derive(Clone, Copy, Debug, PartialEq, Eq, Structural)]
pub enum WasmErrorKind {
    Syntax,
    Type,
    Semantic,
    Reference,
}

impl From<ErrorKind> for WasmErrorKind {
    fn from(src: ErrorKind) -> Self {
        match src {
            ErrorKind::Syntax => WasmErrorKind::Syntax,
            ErrorKind::Type => WasmErrorKind::Type,
            ErrorKind::Semantic => WasmErrorKind::Semantic,
            ErrorKind::Reference => WasmErrorKind::Reference,
        }
    }
}

impl vstd::std_specs::convert::FromSpecImpl<ErrorKind> for WasmErrorKind {
    open spec fn obeys_from_spec() -> bool {
        true
    }

    open spec fn from_spec(src: ErrorKind) -> Self {
        wasm_error_kind(src)
    }
}

pub open spec fn wasm_error_kind(src: ErrorKind) -> WasmErrorKind {
    match src {
        ErrorKind::Syntax => WasmErrorKind::Syntax,
        ErrorKind::Type => WasmErrorKind::Type,
        ErrorKind::Semantic => WasmErrorKind::Semantic,
        ErrorKind::Reference => WasmErrorKind::Reference,
    }
}

/// The severity as the host sees it; an error's kind travels separately.
#[derive(Clone, Copy, Debug, PartialEq, Eq, Structural)]
pub enum WasmDiagnosticLevel {
    Hint,
    Info,
    Warning,
    Error,
}

impl From<DiagnosticLevel> for WasmDiagnosticLevel {
    fn from(src: DiagnosticLevel) -> Self {
        match src {
            DiagnosticLevel::Hint => WasmDiagnosticLevel::Hint,
            DiagnosticLevel::Info => WasmDiagnosticLevel::Info,
            DiagnosticLevel::Warning => WasmDiagnosticLevel::Warning,
            DiagnosticLevel::Error(_) => WasmDiagnosticLevel::Error,
        }
    }
}

impl vstd::std_specs::convert::FromSpecImpl<DiagnosticLevel> for WasmDiagnosticLevel {
    open spec fn obeys_from_spec() -> bool {
        true
    }

    open spec fn from_spec(src: DiagnosticLevel) -> Self {
        wasm_level(src)
    }
}

pub open spec fn wasm_level(src: DiagnosticLevel) -> WasmDiagnosticLevel {
    match src {
        DiagnosticLevel::Hint => WasmDiagnosticLevel::Hint,
        DiagnosticLevel::Info => WasmDiagnosticLevel::Info,
        DiagnosticLevel::Warning => WasmDiagnosticLevel::Warning,
        DiagnosticLevel::Error(_) => WasmDiagnosticLevel::Error,
    }
}

/// A location as the host sees it.
#[derive(Clone, Copy, Debug, PartialEq, Eq, Structural)]
pub struct WasmLocation {
    pub line: usize,
    pub column: usize,
    pub char_idx: usize,
}

impl From<Location> for WasmLocation {
    fn from(src: Location) -> Self {
        WasmLocation { line: src.line, column: src.column, char_idx: src.char_idx }
    }
}

impl vstd::std_specs::convert::FromSpecImpl<Location> for WasmLocation {
    open spec fn obeys_from_spec() -> bool {
        true
    }

    open spec fn from_spec(src: Location) -> Self {
        wasm_location(src)
    }
}

pub open spec fn wasm_location(src: Location) -> WasmLocation {
    WasmLocation { line: src.line, column: src.column, char_idx: src.char_idx }
}

/// A span as the host sees it.
#[derive(Clone, Copy, Debug, PartialEq, Eq, Structural)]
pub struct WasmSpan {
    pub start: WasmLocation,
    pub end: WasmLocation,
}

impl From<Span> for WasmSpan {
    fn from(src: Span) -> Self {
        WasmSpan { start: WasmLocation::from(src.start), end: WasmLocation::from(src.end) }
    }
}

impl vstd::std_specs::convert::FromSpecImpl<Span> for WasmSpan {
    open spec fn obeys_from_spec() -> bool {
        true
    }

    open spec fn from_spec(src: Span) -> Self {
        wasm_span(src)
    }
}

pub open spec fn wasm_span(src: Span) -> WasmSpan {
    WasmSpan { start: wasm_location(src.start), end: wasm_location(src.end) }
}

/// A diagnostic as the host sees it. `error` is present exactly when
/// `level` is `Error`.
#[derive(Clone, Debug)]
pub struct WasmDiagnostic {
    pub level: WasmDiagnosticLevel,
    pub error: Option<WasmErrorKind>,
    pub message: String,
    pub span: WasmSpan,
}

/// The error kind of a severity, if it is an error.
pub open spec fn error_of(level: DiagnosticLevel) -> Option<WasmErrorKind> {
    match level {
        DiagnosticLevel::Error(kind) => Some(wasm_error_kind(kind)),
        _ => None,
    }
}

impl From<Diagnostic> for WasmDiagnostic {
    fn from(src: Diagnostic) -> Self {
        let error = match src.level {
            DiagnosticLevel::Error(kind) => Some(WasmErrorKind::from(kind)),
            _ => None,
        };
        WasmDiagnostic {
            level: WasmDiagnosticLevel::from(src.level),
            error,
            message: src.message,
            span: WasmSpan::from(src.span),
        }
    }
}

impl vstd::std_specs::convert::FromSpecImpl<Diagnostic> for WasmDiagnostic {
    open spec fn obeys_from_spec() -> bool {
        true
    }

    open spec fn from_spec(src: Diagnostic) -> Self {
        WasmDiagnostic {
            level: wasm_level(src.level),
            error: error_of(src.level),
            message: src.message,
            span: wasm_span(src.span),
        }
    }
}

} // verus!
