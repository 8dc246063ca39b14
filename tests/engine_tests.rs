use exec_js::engine::{after_launch_failure, complete_execution, one_shot_source, plan_launch, select_entry, WaitOutcome};
use exec_js::errors::boundary_error;
use exec_js::types::{Encoding, Error, ExecError, File, Language, LanguageKind, Limits, StageResult};

fn limits(time_ms: Option<u64>) -> Limits {
    Limits { time_ms, memory_bytes: Some(1024), file_size_bytes: None, max_processes: None }
}

fn js_file(name: &str, text: &str) -> File {
    File { name: name.to_string(), content: text.as_bytes().to_vec(), encoding: None }
}

#[test]
fn hello_program_result() {
    let outcome = WaitOutcome::Exited { code: Some(0), stdout: b"hello\n".to_vec(), stderr: Vec::new() };
    let res = complete_execution(outcome, 12).unwrap();
    assert_eq!(res.compile, None);
    assert_eq!(res.run, StageResult { stdout: "hello\n".to_string(), stderr: String::new(), exit_code: Some(0), signal: None });
    assert_eq!(res.time_ms, Some(12));
    assert_eq!(res.memory_bytes, None);
}

#[test]
fn non_zero_exit_is_no_error_and_missing_code_stays_absent() {
    let outcome = WaitOutcome::Exited { code: Some(3), stdout: Vec::new(), stderr: b"boom".to_vec() };
    let res = complete_execution(outcome, 0).unwrap();
    assert_eq!(res.run.exit_code, Some(3));
    assert_eq!(res.run.stderr, "boom");
    let outcome = WaitOutcome::Exited { code: None, stdout: Vec::new(), stderr: Vec::new() };
    assert_eq!(complete_execution(outcome, 0).unwrap().run.exit_code, None);
}

#[test]
fn output_is_decoded_permissively() {
    let outcome = WaitOutcome::Exited { code: Some(0), stdout: vec![b'h', 0xff, b'i'], stderr: Vec::new() };
    assert_eq!(complete_execution(outcome, 1).unwrap().run.stdout, "h\u{FFFD}i");
}

#[test]
fn deadline_gives_timeout_without_result() {
    assert_eq!(complete_execution(WaitOutcome::TimedOut, 500), Err(ExecError::Timeout));
    assert_eq!(boundary_error(ExecError::Timeout), Error::Timeout);
}

#[test]
fn failed_kill_is_an_internal_error() {
    let r = complete_execution(WaitOutcome::KillFailed("denied".to_string()), 5);
    assert_eq!(r, Err(ExecError::Internal("Failed to kill process: denied".to_string())));
}

#[test]
fn launch_plan_layout() {
    let plan = plan_launch(&"console.log(1)".to_string(), vec!["a".to_string()], vec![("K".to_string(), "V".to_string())], Some("in".to_string()), Some(limits(Some(250))));
    assert_eq!(plan.script, "console.log(1)\n");
    assert_eq!(plan.programs, vec!["node".to_string(), "nodejs".to_string()]);
    assert_eq!(plan.args, vec!["a".to_string()]);
    assert_eq!(plan.env, vec![("K".to_string(), "V".to_string())]);
    assert_eq!(plan.stdin, Some("in".to_string()));
    assert_eq!(plan.time_limit_ms, Some(250));
    let unbounded = plan_launch(&String::new(), vec![], vec![], None, Some(limits(None)));
    assert_eq!(unbounded.time_limit_ms, None);
    assert_eq!(plan_launch(&String::new(), vec![], vec![], None, None).time_limit_ms, None);
}

#[test]
fn launch_falls_back_once_then_fails() {
    let plan = plan_launch(&"x".to_string(), vec![], vec![], None, None);
    assert_eq!(after_launch_failure(&plan, 0, "no node".to_string()), Ok(1));
    assert_eq!(after_launch_failure(&plan, 1, "no nodejs".to_string()), Err(ExecError::IoError("no nodejs".to_string())));
}

#[test]
fn entry_prefers_conventional_names() {
    let files = vec![js_file("lib.js", "a"), js_file("index.js", "b"), js_file("main.js", "c")];
    assert_eq!(select_entry(&files), Some(1));
    let files = vec![js_file("lib.js", "a"), js_file("util.js", "b")];
    assert_eq!(select_entry(&files), Some(0));
    assert_eq!(select_entry(&Vec::new()), None);
}

#[test]
fn one_shot_source_cases() {
    let js = Language { kind: LanguageKind::Javascript, version: None };
    let py = Language { kind: LanguageKind::Python, version: None };
    let files = vec![js_file("lib.js", "a"), js_file("main.js", "run()")];
    assert_eq!(one_shot_source(&js, &files), Ok("run()".to_string()));
    assert_eq!(one_shot_source(&py, &files), Err(Error::UnsupportedLanguage));
    assert_eq!(one_shot_source(&js, &Vec::new()), Err(Error::Internal("No JavaScript files provided".to_string())));
    let encoded = vec![File { name: "main.js".to_string(), content: b"6869".to_vec(), encoding: Some(Encoding::Hex) }];
    assert_eq!(one_shot_source(&js, &encoded), Ok("hi".to_string()));
    let bad = vec![File { name: "main.js".to_string(), content: vec![0xff], encoding: None }];
    assert!(matches!(one_shot_source(&js, &bad), Err(Error::Internal(_))));
}

#[test]
fn boundary_error_mapping() {
    let failed = |m: &str| StageResult { stdout: String::new(), stderr: m.to_string(), exit_code: Some(1), signal: None };
    assert_eq!(boundary_error(ExecError::UnsupportedLanguage("ruby".to_string())), Error::UnsupportedLanguage);
    assert_eq!(boundary_error(ExecError::CompilationFailed("c".to_string())), Error::CompilationFailed(failed("c")));
    assert_eq!(boundary_error(ExecError::RuntimeError("r".to_string())), Error::RuntimeFailed(failed("r")));
    assert_eq!(boundary_error(ExecError::ResourceExceeded), Error::ResourceExceeded);
    assert_eq!(boundary_error(ExecError::Internal("i".to_string())), Error::Internal("i".to_string()));
    assert_eq!(boundary_error(ExecError::IoError("disk".to_string())), Error::Internal("IO error: disk".to_string()));
}
