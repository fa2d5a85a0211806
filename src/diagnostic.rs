//! The diagnostics that the analyzer hands over, and the severity style table.

use vstd::prelude::*;

verus! {

/// The class of an error diagnostic.
#[derive(Clone, Copy, Debug, PartialEq, Eq, Structural)]
pub enum ErrorKind {
    Syntax,
    Type,
    Semantic,
    Reference,
}

/// The severity of a diagnostic; only an error carries a kind.
#[derive(Clone, Copy, Debug, PartialEq, Eq, Structural)]
pub enum DiagnosticLevel {
    Hint,
    Info,
    Warning,
    Error(ErrorKind),
}

/// A position in a document. `line` and `column` count from 1; `char_idx`
/// is the index of the character in the whole document.
#[derive(Clone, Copy, Debug, PartialEq, Eq, Structural)]
pub struct Location {
    pub line: usize,
    pub column: usize,
    pub char_idx: usize,
}

/// The region a diagnostic points at. Columns are half open: the span
/// covers `start.column` up to, not including, `end.column`.
#[derive(Clone, Copy, Debug, PartialEq, Eq, Structural)]
pub struct Span {
    pub start: Location,
    pub end: Location,
}

impl Span {
    /// A span of no width: it starts and ends at the same line and column.
    pub open spec fn spec_is_empty(&self) -> bool {
        self.start.line == self.end.line && self.start.column == self.end.column
    }

    /// Whether the span has no width.
    #[verifier::when_used_as_spec(spec_is_empty)]
    pub fn is_empty(&self) -> (r: bool)
        ensures
            r == self.spec_is_empty(),
    {
        self.start.line == self.end.line && self.start.column == self.end.column
    }
}

/// One finding of the analyzer about one document.
#[derive(Clone, Debug)]
pub struct Diagnostic {
    pub level: DiagnosticLevel,
    pub message: String,
    pub notes: Vec<String>,
    /// The full text of the document.
    pub source: String,
    /// The document's path or name.
    pub path: String,
    pub span: Span,
}

/// Why a diagnostic cannot be rendered with its source context.
#[derive(Clone, Copy, Debug, PartialEq, Eq, Structural)]
pub enum RenderError {
    /// The span's lines or columns cannot give a marker of positive length.
    MalformedSpan,
    /// The span names a line that the document does not have.
    LineOutOfRange,
}

/// How a severity is drawn: the glyph of an underline, the glyph of a
/// single-column marker, the colour and the label.
#[derive(Clone, Copy, Debug)]
pub struct SeverityStyle {
    pub wide: char,
    pub narrow: char,
    pub color: &'static str,
    pub label: &'static str,
}

pub open spec fn wide_glyph(level: DiagnosticLevel) -> char {
    match level {
        DiagnosticLevel::Error(_) => '^',
        _ => '~',
    }
}

pub open spec fn narrow_glyph(level: DiagnosticLevel) -> char {
    '^'
}

pub open spec fn color_of(level: DiagnosticLevel) -> Seq<char> {
    match level {
        DiagnosticLevel::Hint => "#d472fe"@,
        DiagnosticLevel::Info => "#45bcf4"@,
        DiagnosticLevel::Warning => "#ebc656"@,
        DiagnosticLevel::Error(_) => "#ff616e"@,
    }
}

pub open spec fn label_of(level: DiagnosticLevel) -> Seq<char> {
    match level {
        DiagnosticLevel::Hint => "Hint"@,
        DiagnosticLevel::Info => "Info"@,
        DiagnosticLevel::Warning => "Warning"@,
        DiagnosticLevel::Error(_) => "Error"@,
    }
}

/// The style of a severity: hints are magenta, infos blue, warnings yellow
/// and errors red; errors underline with `^`, the others with `~`.
pub fn style(level: DiagnosticLevel) -> (r: SeverityStyle)
    ensures
        r.wide == wide_glyph(level),
        r.narrow == narrow_glyph(level),
        r.color@ == color_of(level),
        r.label@ == label_of(level),
{
    match level {
        DiagnosticLevel::Hint => SeverityStyle { wide: '~', narrow: '^', color: "#d472fe", label: "Hint" },
        DiagnosticLevel::Info => SeverityStyle { wide: '~', narrow: '^', color: "#45bcf4", label: "Info" },
        DiagnosticLevel::Warning => SeverityStyle { wide: '~', narrow: '^', color: "#ebc656", label: "Warning" },
        DiagnosticLevel::Error(_) => SeverityStyle { wide: '^', narrow: '^', color: "#ff616e", label: "Error" },
    }
}

} // verus!
