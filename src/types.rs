use vstd::prelude::*;

verus! {

/// The languages that a caller may ask for.
#[derive(Clone, Copy, Debug, PartialEq, Eq, Structural)]
pub enum LanguageKind {
    Javascript,
    Python,
}

/// A language together with an optional version string.
#[derive(Clone, Debug, PartialEq, Eq)]
pub struct Language {
    pub kind: LanguageKind,
    pub version: Option<String>,
}

/// The transport encoding of a file's content.
#[derive(Clone, Copy, Debug, PartialEq, Eq, Structural)]
pub enum Encoding {
    Utf8,
    Base64,
    Hex,
}

/// A source file as handed in by a caller: its content is still encoded.
#[derive(Clone, Debug, PartialEq, Eq)]
pub struct File {
    pub name: String,
    pub content: Vec<u8>,
    pub encoding: Option<Encoding>,
}

/// Resource limits. Only `time_ms` is enforced; the others are accepted and
/// carried along.
#[derive(Clone, Copy, Debug, PartialEq, Eq, Structural)]
pub struct Limits {
    pub time_ms: Option<u64>,
    pub memory_bytes: Option<u64>,
    pub file_size_bytes: Option<u64>,
    pub max_processes: Option<u32>,
}

/// What one stage (compile or run) of an execution produced.
#[derive(Clone, Debug, PartialEq, Eq)]
pub struct StageResult {
    pub stdout: String,
    pub stderr: String,
    pub exit_code: Option<i32>,
    pub signal: Option<String>,
}

/// The result of an execution.
#[derive(Clone, Debug, PartialEq, Eq)]
pub struct ExecResult {
    pub compile: Option<StageResult>,
    pub run: StageResult,
    pub time_ms: Option<u64>,
    pub memory_bytes: Option<u64>,
}

/// The error taxonomy seen by callers of the engine.
#[derive(Clone, Debug, PartialEq, Eq)]
pub enum Error {
    UnsupportedLanguage,
    CompilationFailed(StageResult),
    RuntimeFailed(StageResult),
    Timeout,
    ResourceExceeded,
    Internal(String),
}

/// The errors raised inside the engine, before they are mapped to [`Error`].
#[derive(Clone, Debug, PartialEq, Eq)]
pub enum ExecError {
    UnsupportedLanguage(String),
    CompilationFailed(String),
    RuntimeError(String),
    Timeout,
    ResourceExceeded,
    Internal(String),
    IoError(String),
}

/// The one language kind that this engine runs.
pub open spec fn supported_kind() -> LanguageKind {
    LanguageKind::Javascript
}

} // verus!
