use vstd::prelude::*;
use crate::types::{Error, ExecError, StageResult};
use crate::decode::internal_error;

verus! {

/// The stage result that carries a failure message: empty standard output,
/// the message as standard error, exit code 1 and no signal.
pub open spec fn is_failure_stage(s: StageResult, message: Seq<char>) -> bool {
    &&& s.stdout@ == Seq::<char>::empty()
    &&& s.stderr@ == message
    &&& s.exit_code == Some(1i32)
    &&& s.signal is None
}

fn failure_stage(message: String) -> (r: StageResult)
    ensures
        is_failure_stage(r, message@),
{
    StageResult { stdout: String::new(), stderr: message, exit_code: Some(1), signal: None }
}

/// Maps an engine error to the error taxonomy seen by callers. The kind is
/// kept; messages of failed stages become a stage result.
pub fn boundary_error(e: ExecError) -> (r: Error)
    ensures
        match e {
            ExecError::UnsupportedLanguage(_) => r is UnsupportedLanguage,
            ExecError::CompilationFailed(m) => r matches Error::CompilationFailed(s) && is_failure_stage(s, m@),
            ExecError::RuntimeError(m) => r matches Error::RuntimeFailed(s) && is_failure_stage(s, m@),
            ExecError::Timeout => r is Timeout,
            ExecError::ResourceExceeded => r is ResourceExceeded,
            ExecError::Internal(m) => r matches Error::Internal(x) && x@ == m@,
            ExecError::IoError(m) => r matches Error::Internal(x) && x@ == "IO error: "@ + m@,
        },
{
    match e {
        ExecError::UnsupportedLanguage(_) => Error::UnsupportedLanguage,
        ExecError::CompilationFailed(m) => Error::CompilationFailed(failure_stage(m)),
        ExecError::RuntimeError(m) => Error::RuntimeFailed(failure_stage(m)),
        ExecError::Timeout => Error::Timeout,
        ExecError::ResourceExceeded => Error::ResourceExceeded,
        ExecError::Internal(m) => Error::Internal(m),
        ExecError::IoError(m) => match internal_error("IO error: ", &m) {
            ExecError::Internal(x) => Error::Internal(x),
            _ => Error::Internal(m),
        },
    }
}

} // verus!
