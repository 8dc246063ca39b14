use vstd::prelude::*;
use vstd::utf8::*;
use crate::types::{Error, ExecError, ExecResult, File, Language, LanguageKind, Limits, StageResult, supported_kind};
use crate::decode::{decode_content, decoded_content, internal_error, utf8_text};
use crate::errors::boundary_error;

verus! {

/// The text that `String::from_utf8_lossy` makes of a byte sequence.
pub uninterp spec fn lossy_utf8(bytes: Seq<u8>) -> Seq<char>;

/// Relies on `String::from_utf8_lossy`: the text depends on the bytes alone,
/// and well-formed UTF-8 is kept as it is.
#[verifier::external_body]
fn lossy_text(bytes: &Vec<u8>) -> (r: String)
    ensures
        r@ == lossy_utf8(bytes@),
        valid_utf8(bytes@) ==> r@ == decode_utf8(bytes@),
{
    String::from_utf8_lossy(bytes).into_owned()
}

/// Everything needed to launch one execution: the script to store, the
/// interpreters to try in order, and what to hand to the child process.
pub struct LaunchPlan {
    pub script: String,
    pub programs: Vec<String>,
    pub args: Vec<String>,
    pub env: Vec<(String, String)>,
    pub stdin: Option<String>,
    pub time_limit_ms: Option<u64>,
}

/// The wall-clock limit that `limits` asks for, if any.
pub open spec fn time_limit(limits: Option<Limits>) -> Option<u64> {
    match limits {
        Some(l) => l.time_ms,
        None => None,
    }
}

/// How a launched child process ended.
pub enum WaitOutcome {
    /// It exited in time; `code` is absent where no exit status was reported.
    Exited { code: Option<i32>, stdout: Vec<u8>, stderr: Vec<u8> },
    /// The deadline passed and the child was killed.
    TimedOut,
    /// The deadline passed and killing the child failed.
    KillFailed(String),
}

/// Plans the execution of `code`: the script is the code followed by a line
/// break, `node` is tried before `nodejs`, and the arguments, environment and
/// standard input are passed on unchanged.
pub fn plan_launch(
    code: &String,
    args: Vec<String>,
    env: Vec<(String, String)>,
    stdin: Option<String>,
    limits: Option<Limits>,
) -> (r: LaunchPlan)
    ensures
        r.script@ == code@ + "\n"@,
        r.programs@.len() == 2,
        r.programs@[0]@ == "node"@,
        r.programs@[1]@ == "nodejs"@,
        r.args == args,
        r.env == env,
        r.stdin == stdin,
        r.time_limit_ms == time_limit(limits),
{
    let mut script = code.clone();
    script.append("\n");
    let mut programs: Vec<String> = Vec::new();
    programs.push("node".to_owned());
    programs.push("nodejs".to_owned());
    let time_limit_ms = match limits {
        Some(l) => l.time_ms,
        None => None,
    };
    LaunchPlan { script, programs, args, env, stdin, time_limit_ms }
}

/// What follows a failed launch of `plan.programs[attempt]`: the index of the
/// next interpreter to try, or, after the last one, the launch error.
pub fn after_launch_failure(plan: &LaunchPlan, attempt: usize, detail: String) -> (r: Result<usize, ExecError>)
    requires
        attempt < plan.programs@.len(),
    ensures
        attempt + 1 < plan.programs@.len() ==> r == Ok::<usize, ExecError>((attempt + 1) as usize),
        attempt + 1 >= plan.programs@.len() ==> (r matches Err(ExecError::IoError(m)) && m@ == detail@),
{
    if attempt < plan.programs.len() - 1 {
        Ok(attempt + 1)
    } else {
        Err(ExecError::IoError(detail))
    }
}

/// Turns the way a child process ended, and the time it took, into the
/// result of the execution: a timeout is an error without any output; an
/// exit gives the run stage's output, decoded permissively, and its exit code.
pub fn complete_execution(outcome: WaitOutcome, elapsed_ms: u64) -> (r: Result<ExecResult, ExecError>)
    ensures
        match outcome {
            WaitOutcome::Exited { code, stdout, stderr } => r matches Ok(res) && {
                &&& res.compile is None
                &&& res.run.stdout@ == lossy_utf8(stdout@)
                &&& res.run.stderr@ == lossy_utf8(stderr@)
                &&& (valid_utf8(stdout@) ==> res.run.stdout@ == decode_utf8(stdout@))
                &&& (valid_utf8(stderr@) ==> res.run.stderr@ == decode_utf8(stderr@))
                &&& res.run.exit_code == code
                &&& res.run.signal is None
                &&& res.time_ms == Some(elapsed_ms)
                &&& res.memory_bytes is None
            },
            WaitOutcome::TimedOut => r matches Err(ExecError::Timeout),
            WaitOutcome::KillFailed(m) => r matches Err(ExecError::Internal(x)) && x@ == "Failed to kill process: "@ + m@,
        },
{
    match outcome {
        WaitOutcome::Exited { code, stdout, stderr } => {
            let run = StageResult {
                stdout: lossy_text(&stdout),
                stderr: lossy_text(&stderr),
                exit_code: code,
                signal: None,
            };
            Ok(ExecResult { compile: None, run, time_ms: Some(elapsed_ms), memory_bytes: None })
        },
        WaitOutcome::TimedOut => Err(ExecError::Timeout),
        WaitOutcome::KillFailed(m) => Err(internal_error("Failed to kill process: ", &m)),
    }
}

/// A file name that marks the entrypoint of a one-shot run.
pub open spec fn is_conventional_entry(name: Seq<char>) -> bool {
    name == "main.js"@ || name == "index.js"@
}

/// The file a one-shot run executes: the first one with a conventional
/// entrypoint name, else the first one; `None` for no files.
pub open spec fn entry_choice(files: Seq<File>) -> Option<int> {
    if exists|i: int| 0 <= i < files.len() && is_conventional_entry(#[trigger] files[i].name@) {
        Some(choose|i: int| 0 <= i < files.len() && is_conventional_entry(#[trigger] files[i].name@)
            && forall|j: int| 0 <= j < i ==> !is_conventional_entry(#[trigger] files[j].name@))
    } else if files.len() > 0 {
        Some(0)
    } else {
        None
    }
}

proof fn lemma_first_conventional(files: Seq<File>, i: int)
    requires
        0 <= i < files.len(),
        is_conventional_entry(files[i].name@),
        forall|j: int| 0 <= j < i ==> !is_conventional_entry(#[trigger] files[j].name@),
    ensures
        entry_choice(files) == Some(i),
{
    let k = choose|k: int| 0 <= k < files.len() && is_conventional_entry(#[trigger] files[k].name@)
        && forall|j: int| 0 <= j < k ==> !is_conventional_entry(#[trigger] files[j].name@);
    assert(k == i) by {
        if k < i {
            assert(!is_conventional_entry(files[k].name@));
        }
        if i < k {
            assert(!is_conventional_entry(files[i].name@));
        }
    }
}

fn is_entry_name(name: &String) -> (r: bool)
    ensures
        r == is_conventional_entry(name@),
{
    let main_js = "main.js".to_owned();
    let index_js = "index.js".to_owned();
    *name == main_js || *name == index_js
}

/// Picks the file that a one-shot run executes (see [`entry_choice`]).
pub fn select_entry(files: &Vec<File>) -> (r: Option<usize>)
    ensures
        match r {
            Some(i) => i < files@.len() && entry_choice(files@) == Some(i as int),
            None => entry_choice(files@) is None,
        },
{
    let mut i: usize = 0;
    while i < files.len()
        invariant
            i <= files@.len(),
            forall|j: int| 0 <= j < i ==> !is_conventional_entry(#[trigger] files@[j].name@),
        decreases files@.len() - i,
    {
        if is_entry_name(&files[i].name) {
            proof {
                lemma_first_conventional(files@, i as int);
            }
            return Some(i);
        }
        i = i + 1;
    }
    if files.len() > 0 {
        Some(0)
    } else {
        None
    }
}

/// The program text of a one-shot run: refused with `UnsupportedLanguage`
/// for any language but the one this engine runs; an internal error for no
/// files, a decoding failure, or decoded content that is not UTF-8 text.
pub fn one_shot_source(language: &Language, files: &Vec<File>) -> (r: Result<String, Error>)
    ensures
        language.kind != supported_kind() ==> r matches Err(Error::UnsupportedLanguage),
        language.kind == supported_kind() ==> match entry_choice(files@) {
            None => r matches Err(Error::Internal(_)),
            Some(i) => match decoded_content(files@[i].content@, files@[i].encoding) {
                None => r matches Err(Error::Internal(_)),
                Some(b) => if valid_utf8(b) {
                    (r matches Ok(s) && s@ == decode_utf8(b))
                } else {
                    r matches Err(Error::Internal(_))
                },
            },
        },
{
    if language.kind != LanguageKind::Javascript {
        return Err(Error::UnsupportedLanguage);
    }
    let i = match select_entry(files) {
        Some(i) => i,
        None => return Err(Error::Internal("No JavaScript files provided".to_owned())),
    };
    let content = match decode_content(&files[i]) {
        Ok(c) => c,
        Err(e) => return Err(boundary_error(e)),
    };
    match utf8_text(&content) {
        Ok(s) => Ok(s),
        Err(detail) => {
            let mut m = "Invalid UTF-8 in JavaScript code: ".to_owned();
            m.append(detail.as_str());
            Err(Error::Internal(m))
        },
    }
}

} // verus!
