use cp::runner::{job_report, IndexStyle, JobFailure, JobOutcome, Schedule, aborts_batch};
use cp::{cpp_io, rust_io, template};

fn names(v: &[&str]) -> Vec<String> {
    v.iter().map(|s| s.to_string()).collect()
}

#[test]
fn cmd_args_debug_build() {
    assert_eq!(
        cpp_io::cmd_args("a.cpp", false, false),
        vec!["-O0", "-fsanitize=address,undefined", "-DDEBUG", "-g", "a.cpp"]
    );
}

#[test]
fn cmd_args_release_with_warnings() {
    assert_eq!(
        cpp_io::cmd_args("a.cpp", true, true),
        vec![
            "-Ofast",
            "a.cpp",
            "-Wall",
            "-Wextra",
            "-Wno-sign-conversion",
            "-Wshadow",
            "-D_GLIBCXX_ASSERTIONS",
            "-fmax-errors=2"
        ]
    );
}

#[test]
fn frame_width_falls_back_to_default() {
    assert_eq!(cpp_io::frame_width(None), 100);
    assert_eq!(cpp_io::frame_width(Some((132, 40))), 132);
}

#[test]
fn cpp_print_cool_frames_message() {
    let mut out = Vec::new();
    cpp_io::print_cool("hello", &mut out);
    let text = String::from_utf8(out).unwrap();
    assert!(text.contains("> hello <"));
    assert!(text.ends_with('\n'));
}

#[test]
fn cpp_schedule_follows_thread_count() {
    let plan = cpp_io::run_test_cases("./a.out", names(&["x"]), false, 1);
    assert_eq!(plan.schedule, Schedule::Sequential);
    let plan = cpp_io::run_test_cases("./a.out", names(&["x"]), false, 0);
    assert_eq!(plan.schedule, Schedule::Sequential);
    let plan = cpp_io::run_test_cases("./a.out", names(&["x"]), false, 3);
    assert_eq!(plan.schedule, Schedule::Pooled(3));
}

#[test]
fn persisted_indices_follow_sorted_inputs() {
    let plan = cpp_io::run_test_cases("./a.out", names(&["t/a", "t/b", "t/c"]), true, 4);
    assert_eq!(plan.binary, "./a.out");
    // Jobs finish in any order; each still writes the file of its own index.
    for k in [2usize, 0, 1] {
        let j = &plan.jobs[k];
        assert_eq!(j.file_number, Some(k));
        let r = job_report(
            j,
            JobOutcome::Finished {
                elapsed_ms: 1,
                stdout: j.input.as_bytes().to_vec(),
                stderr: Vec::new(),
            },
            IndexStyle::Parens,
            80,
        );
        let f = r.result_file.unwrap();
        assert_eq!(f.path, format!("output/output.{}.txt", k).into_bytes());
        assert_eq!(f.contents, ["t/a", "t/b", "t/c"][k].as_bytes().to_vec());
    }
}

#[test]
fn failing_job_leaves_siblings_intact() {
    let plan = cpp_io::run_test_cases("./a.out", names(&["i1", "i2", "i3", "i4", "i5"]), true, 2);
    let mut reports = Vec::new();
    for (k, j) in plan.jobs.iter().enumerate() {
        let outcome = if k == 2 {
            assert!(!aborts_batch(plan.schedule, JobFailure::StdinWrite));
            JobOutcome::Failed(JobFailure::StdinWrite, b"Broken pipe".to_vec())
        } else {
            JobOutcome::Finished {
                elapsed_ms: k as u128,
                stdout: vec![b'0' + k as u8],
                stderr: Vec::new(),
            }
        };
        reports.push(job_report(j, outcome, IndexStyle::Parens, 60));
    }
    assert!(reports[2].result_file.is_none());
    assert!(String::from_utf8_lossy(&reports[2].console).contains("i3: ERROR: Broken pipe"));
    for k in [0usize, 1, 3, 4] {
        let f = reports[k].result_file.as_ref().unwrap();
        assert_eq!(f.path, format!("output/output.{}.txt", k).into_bytes());
        assert_eq!(f.contents, vec![b'0' + k as u8]);
        let line = format!("i{}: {}ms (output.{}.txt)", k + 1, k, k);
        assert!(String::from_utf8_lossy(&reports[k].console).contains(&line));
    }
}

#[test]
fn get_cmd_unix_paths() {
    let (args, run) = rust_io::get_cmd("/w", "sol", false, rust_io::Os::Unix);
    assert_eq!(args, vec!["build", "--bin", "sol"]);
    assert_eq!(run, "/w/target/debug/sol");
    let (args, run) = rust_io::get_cmd("/w", "sol", true, rust_io::Os::Unix);
    assert_eq!(args, vec!["build", "--bin", "sol", "--release"]);
    assert_eq!(run, "/w/target/release/sol");
}

#[test]
fn get_cmd_windows_paths() {
    let (_, run) = rust_io::get_cmd("C:\\w", "sol", true, rust_io::Os::Windows);
    assert_eq!(run, "C:\\w\\target\\release\\sol.exe");
}

#[test]
fn rust_print_cool_uses_fixed_width() {
    let mut out = Vec::new();
    rust_io::print_cool("in: 3ms", &mut out);
    let mut expected = "-".repeat(34);
    expected.push_str("> in: 3ms <");
    expected.push_str(&"-".repeat(35));
    expected.push('\n');
    assert_eq!(String::from_utf8(out).unwrap(), expected);
}

#[test]
fn rust_schedule_follows_parallel_flag() {
    let plan = rust_io::run_test_cases(names(&["a", "b"]), "./b", &[false, true, true], 6);
    assert_eq!(plan.schedule, Schedule::Pooled(6));
    assert_eq!(plan.jobs[1].file_number, Some(1));
    let plan = rust_io::run_test_cases(names(&["a"]), "./b", &[false, false, false], 6);
    assert_eq!(plan.schedule, Schedule::Sequential);
    assert_eq!(plan.jobs[0].file_number, None);
}

#[test]
fn solve_echoes_count() {
    let mut out = Vec::new();
    template::solve(17, &mut out);
    assert_eq!(out, b"17\n".to_vec());
}
