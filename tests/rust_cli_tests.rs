use cp::rust_io::{file_stem, process_args, Os, RustAction, RustArgError, RustFlags};

fn args(v: &[&str]) -> Vec<String> {
    v.iter().map(|s| s.to_string()).collect()
}

#[test]
fn stem_of_source_path() {
    assert_eq!(file_stem(b"src/bin/a.rs", b'/'), b"a".to_vec());
    assert_eq!(file_stem(b"sol", b'/'), b"sol".to_vec());
    assert_eq!(file_stem(b"x.y.rs", b'/'), b"x".to_vec());
    assert_eq!(file_stem(b"C:\\p\\b.rs", b'\\'), b"b".to_vec());
    assert_eq!(file_stem(b"dir/.rs", b'/'), b"".to_vec());
}

#[test]
fn rust_flags_and_name() {
    match process_args(&args(&["src/bin/sol.rs", "-rop"]), Os::Unix) {
        Ok(RustAction::Run(name, flags)) => {
            assert_eq!(name, b"sol".to_vec());
            assert_eq!(flags, RustFlags { release: true, output_file: true, parallel: true });
        }
        other => panic!("unexpected {:?}", other),
    }
    match process_args(&args(&["--parallel", "b"]), Os::Unix) {
        Ok(RustAction::Run(name, flags)) => {
            assert_eq!(name, b"b".to_vec());
            assert_eq!(flags, RustFlags { release: false, output_file: false, parallel: true });
        }
        other => panic!("unexpected {:?}", other),
    }
}

#[test]
fn rust_lone_hyphen_is_accepted() {
    assert!(matches!(process_args(&args(&["a", "-"]), Os::Unix), Ok(RustAction::Run(_, _))));
}

#[test]
fn rust_help_and_errors() {
    assert!(matches!(process_args(&args(&["-ph"]), Os::Unix), Ok(RustAction::Help)));
    assert!(matches!(process_args(&args(&["--help"]), Os::Unix), Ok(RustAction::Help)));
    match process_args(&args(&["a", "-w"]), Os::Unix) {
        Err(RustArgError::Invalid(a)) => assert_eq!(a, "-w"),
        other => panic!("unexpected {:?}", other),
    }
    match process_args(&args(&["a", "b"]), Os::Unix) {
        Err(RustArgError::Invalid(a)) => assert_eq!(a, "b"),
        other => panic!("unexpected {:?}", other),
    }
    assert!(matches!(process_args(&args(&["-r"]), Os::Unix), Err(RustArgError::NoInputFile)));
}

#[test]
fn rust_empty_stem_lets_a_later_name_in() {
    match process_args(&args(&[".rs", "b.rs"]), Os::Unix) {
        Ok(RustAction::Run(name, _)) => assert_eq!(name, b"b".to_vec()),
        other => panic!("unexpected {:?}", other),
    }
}
