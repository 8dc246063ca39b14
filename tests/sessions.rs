use exec_js::registry::SessionRegistry;
use exec_js::types::{Encoding, Error, File, Language, LanguageKind};

fn js() -> Language {
    Language { kind: LanguageKind::Javascript, version: None }
}

fn text_file(name: &str, text: &str) -> File {
    File { name: name.to_string(), content: text.as_bytes().to_vec(), encoding: None }
}

#[test]
fn handles_start_at_one_and_are_never_reused() {
    let mut reg = SessionRegistry::new();
    let a = reg.create(js()).unwrap();
    let b = reg.create(js()).unwrap();
    assert_eq!(a, 1);
    assert_eq!(b, 2);
    reg.close(a);
    let c = reg.create(js()).unwrap();
    assert_eq!(c, 3);
}

#[test]
fn unsupported_language_is_refused() {
    let mut reg = SessionRegistry::new();
    let r = reg.create(Language { kind: LanguageKind::Python, version: Some("3".to_string()) });
    assert_eq!(r, Err(Error::UnsupportedLanguage));
}

#[test]
fn fresh_session_lists_no_files() {
    let mut reg = SessionRegistry::new();
    let h = reg.create(js()).unwrap();
    assert_eq!(reg.list_files(h, "/".to_string()).unwrap(), Vec::<String>::new());
}

#[test]
fn uploading_a_name_twice_lists_it_once() {
    let mut reg = SessionRegistry::new();
    let h = reg.create(js()).unwrap();
    reg.upload(h, text_file("main.js", "one")).unwrap();
    reg.upload(h, text_file("main.js", "two")).unwrap();
    reg.upload(h, text_file("lib.js", "three")).unwrap();
    let mut names = reg.list_files(h, "ignored".to_string()).unwrap();
    names.sort();
    assert_eq!(names, vec!["lib.js".to_string(), "main.js".to_string()]);
    assert_eq!(reg.download(h, "main.js".to_string()).unwrap(), b"two".to_vec());
}

#[test]
fn download_returns_decoded_content() {
    let mut reg = SessionRegistry::new();
    let h = reg.create(js()).unwrap();
    let f = File { name: "data.bin".to_string(), content: b"68656c6c6f".to_vec(), encoding: Some(Encoding::Hex) };
    reg.upload(h, f).unwrap();
    assert_eq!(reg.download(h, "data.bin".to_string()).unwrap(), b"hello".to_vec());
}

#[test]
fn failed_upload_leaves_the_session_unchanged() {
    let mut reg = SessionRegistry::new();
    let h = reg.create(js()).unwrap();
    let f = File { name: "x.js".to_string(), content: b"abc".to_vec(), encoding: Some(Encoding::Hex) };
    assert!(matches!(reg.upload(h, f), Err(Error::Internal(_))));
    assert_eq!(reg.list_files(h, "/".to_string()).unwrap(), Vec::<String>::new());
}

#[test]
fn missing_entrypoint_is_an_internal_error() {
    let mut reg = SessionRegistry::new();
    let h = reg.create(js()).unwrap();
    reg.upload(h, text_file("lib.js", "x")).unwrap();
    match reg.entry_source(h, "main.js".to_string()) {
        Err(Error::Internal(m)) => assert_eq!(m, "Entrypoint file 'main.js' not found"),
        other => panic!("unexpected {:?}", other),
    }
}

#[test]
fn entrypoint_that_is_not_text_is_an_internal_error() {
    let mut reg = SessionRegistry::new();
    let h = reg.create(js()).unwrap();
    reg.upload(h, File { name: "main.js".to_string(), content: vec![0xc3, 0x28], encoding: None }).unwrap();
    assert!(matches!(reg.entry_source(h, "main.js".to_string()), Err(Error::Internal(_))));
}

#[test]
fn entrypoint_source_is_the_stored_text() {
    let mut reg = SessionRegistry::new();
    let h = reg.create(js()).unwrap();
    reg.upload(h, text_file("main.js", "console.log('hi');")).unwrap();
    assert_eq!(reg.entry_source(h, "main.js".to_string()).unwrap(), "console.log('hi');");
}

#[test]
fn close_of_unknown_handle_is_no_error_and_closed_handles_fail() {
    let mut reg = SessionRegistry::new();
    reg.close(42);
    let h = reg.create(js()).unwrap();
    reg.upload(h, text_file("main.js", "x")).unwrap();
    reg.close(h);
    reg.close(h);
    let gone = Err(Error::Internal("Session not found".to_string()));
    assert_eq!(reg.upload(h, text_file("a.js", "y")), gone.clone().map(|_: ()| ()));
    assert_eq!(reg.download(h, "main.js".to_string()), gone.clone().map(|_: ()| Vec::new()));
    assert_eq!(reg.list_files(h, "/".to_string()), gone.clone().map(|_: ()| Vec::new()));
    assert_eq!(reg.set_working_dir(h, "/tmp".to_string()), gone.clone());
    assert_eq!(reg.entry_source(h, "main.js".to_string()), gone.map(|_: ()| String::new()));
}

#[test]
fn sessions_do_not_see_each_others_files() {
    let mut reg = SessionRegistry::new();
    let one = reg.create(js()).unwrap();
    let two = reg.create(js()).unwrap();
    reg.upload(one, text_file("a.js", "1")).unwrap();
    assert_eq!(reg.list_files(two, "/".to_string()).unwrap(), Vec::<String>::new());
    assert!(matches!(reg.download(two, "a.js".to_string()), Err(Error::Internal(_))));
    assert_eq!(reg.list_files(one, "/".to_string()).unwrap(), vec!["a.js".to_string()]);
}

#[test]
fn working_dir_is_recorded() {
    let mut reg = SessionRegistry::new();
    let h = reg.create(js()).unwrap();
    assert_eq!(reg.set_working_dir(h, "/work".to_string()), Ok(()));
    reg.upload(h, text_file("main.js", "x")).unwrap();
    assert_eq!(reg.entry_source(h, "main.js".to_string()).unwrap(), "x");
}
