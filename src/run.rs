//! The outcome of running a program, as handed to the host.

use vstd::prelude::*;
use crate::diagnostic::{Diagnostic, RenderError};
use crate::render::{print_diagnostics, rendered_all};

verus! {

/// The interpreters a program can run on.
#[derive(Clone, Copy, Debug, PartialEq, Eq, Structural)]
pub enum Backend {
    Tree,
}

impl Backend {
    /// The backend of a name: `"tree"` is the tree-walking interpreter; any
    /// other name names none.
    pub fn from_name(name: &str) -> (r: Option<Backend>)
        ensures
            r is Some <==> name@ == "tree"@,
            r is Some ==> r == Some(Backend::Tree),
    {
        let given = String::from_str(name);
        let tree = String::from_str("tree");
        if given == tree {
            Some(Backend::Tree)
        } else {
            None
        }
    }
}

/// The classes of runtime errors.
#[derive(Clone, Copy, Debug, PartialEq, Eq, Structural)]
pub enum WasmRuntimeErrorKind {
    StackOverflow,
    Arithmetic,
    OutOfMem,
    Unknown,
}

pub open spec fn runtime_error_text(kind: WasmRuntimeErrorKind) -> Seq<char> {
    match kind {
        WasmRuntimeErrorKind::StackOverflow => "Stapelüberlauf"@,
        WasmRuntimeErrorKind::Arithmetic => "Rechenfehler"@,
        WasmRuntimeErrorKind::OutOfMem => "Kein Speicher mehr übrig"@,
        WasmRuntimeErrorKind::Unknown => "Unbekannter Fehler"@,
    }
}

impl WasmRuntimeErrorKind {
    /// The text shown for the kind.
    pub fn to_string(&self) -> (r: String)
        ensures
            r@ == runtime_error_text(*self),
    {
        match self {
            WasmRuntimeErrorKind::StackOverflow => String::from_str("Stapelüberlauf"),
            WasmRuntimeErrorKind::Arithmetic => String::from_str("Rechenfehler"),
            WasmRuntimeErrorKind::OutOfMem => String::from_str("Kein Speicher mehr übrig"),
            WasmRuntimeErrorKind::Unknown => String::from_str("Unbekannter Fehler"),
        }
    }
}

/// A runtime error: its kind, as text, and its message.
#[derive(Clone, Debug)]
pub struct WasmRuntimeError {
    pub kind: String,
    pub message: String,
}

/// What a run hands back: the exit code of a program that ended, the error
/// of one that failed, and the rendered diagnostics.
#[derive(Clone, Debug)]
pub struct RunResult {
    pub code: Option<i64>,
    pub runtime_error: Option<WasmRuntimeError>,
    pub diagnostics: Option<String>,
}

/// `diagnostics` holds the rendering of `ds`.
pub open spec fn holds_rendering(diagnostics: Option<String>, ds: Seq<Diagnostic>) -> bool {
    diagnostics is Some && rendered_all(ds) == Ok::<Seq<char>, RenderError>(diagnostics->0@)
}

impl RunResult {
    /// A program that ended with exit code `code`.
    pub fn new_ok(code: i64, diagnostics: &[Diagnostic]) -> (r: Result<RunResult, RenderError>)
        ensures
            r is Ok <==> rendered_all(diagnostics@) is Ok,
            r matches Ok(v) ==> (v.code == Some(code) && v.runtime_error is None
                && holds_rendering(v.diagnostics, diagnostics@)),
            r matches Err(e) ==> rendered_all(diagnostics@) == Err::<Seq<char>, RenderError>(e),
    {
        match print_diagnostics(diagnostics) {
            Ok(text) => Ok(RunResult { code: Some(code), runtime_error: None, diagnostics: Some(text) }),
            Err(e) => Err(e),
        }
    }

    /// A program that failed at runtime with `message`; the kind of the
    /// error is unknown.
    pub fn new_error(message: String, diagnostics: &[Diagnostic]) -> (r: Result<RunResult, RenderError>)
        ensures
            r is Ok <==> rendered_all(diagnostics@) is Ok,
            r matches Ok(v) ==> (v.code is None && holds_rendering(v.diagnostics, diagnostics@)
                && (v.runtime_error matches Some(err)
                && err.kind@ == runtime_error_text(WasmRuntimeErrorKind::Unknown)
                && err.message == message)),
            r matches Err(e) ==> rendered_all(diagnostics@) == Err::<Seq<char>, RenderError>(e),
    {
        match print_diagnostics(diagnostics) {
            Ok(text) => {
                let kind = WasmRuntimeErrorKind::Unknown.to_string();
                Ok(RunResult {
                    code: None,
                    runtime_error: Some(WasmRuntimeError { kind, message }),
                    diagnostics: Some(text),
                })
            },
            Err(e) => Err(e),
        }
    }

    /// A program that the analyzer refused: no exit code, no runtime error,
    /// only the diagnostics.
    pub fn new_rejected(diagnostics: &[Diagnostic]) -> (r: Result<RunResult, RenderError>)
        ensures
            r is Ok <==> rendered_all(diagnostics@) is Ok,
            r matches Ok(v) ==> (v.code is None && v.runtime_error is None
                && holds_rendering(v.diagnostics, diagnostics@)),
            r matches Err(e) ==> rendered_all(diagnostics@) == Err::<Seq<char>, RenderError>(e),
    {
        match print_diagnostics(diagnostics) {
            Ok(text) => Ok(RunResult { code: None, runtime_error: None, diagnostics: Some(text) }),
            Err(e) => Err(e),
        }
    }
}

} // verus!
