//! Renders analyzer diagnostics into a styled, source-annotated markup block.

pub mod context;
pub mod diagnostic;
pub mod marker;
pub mod render;
pub mod run;
pub mod text;
pub mod wasm;

pub use context::{line_count, lines_of, source_context, SourceContext};
pub use diagnostic::{
    style, Diagnostic, DiagnosticLevel, ErrorKind, Location, RenderError, SeverityStyle, Span,
};
pub use marker::{span_marker, SpanMarker, GUTTER_WIDTH};
pub use render::{has_source_context, print_diagnostics, render_diagnostic};
pub use run::{Backend, RunResult, WasmRuntimeError, WasmRuntimeErrorKind};
pub use text::{escape, escaped};
pub use wasm::{WasmDiagnostic, WasmDiagnosticLevel, WasmErrorKind, WasmLocation, WasmSpan};
