use crate::banner::{banner, write_banner};
use crate::runner::{is_plan_of, plan_jobs, Schedule, TestPlan};
use vstd::prelude::*;
use vstd::string::StringSliceAdditionalSpecFns;

verus! {

/// The frame width used when no terminal reports its own.
pub const DEFAULT_COLUMNS: usize = 100;

/// Relies on `term_size::dimensions` to report the terminal's width and
/// height, or `None` where no standard stream is a terminal. What it reports
/// depends on the terminal, so nothing is assumed of it.
pub assume_specification[ term_size::dimensions ]() -> (r: Option<(usize, usize)>);

/// The compiler flags that build `file_name`: optimised for a release build,
/// else with sanitizers, the `DEBUG` macro and debug information; with the
/// warning set added on request.
pub open spec fn cmd_args_spec(file_name: Seq<char>, release: bool, warning: bool) -> Seq<Seq<char>> {
    (if release {
        seq!["-Ofast"@, file_name]
    } else {
        seq!["-O0"@, "-fsanitize=address,undefined"@, "-DDEBUG"@, "-g"@, file_name]
    }) + (if warning {
        seq![
            "-Wall"@,
            "-Wextra"@,
            "-Wno-sign-conversion"@,
            "-Wshadow"@,
            "-D_GLIBCXX_ASSERTIONS"@,
            "-fmax-errors=2"@,
        ]
    } else {
        Seq::empty()
    })
}

/// The arguments of the compiler run that builds `file_name`.
pub fn cmd_args<'a>(file_name: &'a str, release: bool, warning: bool) -> (r: Vec<&'a str>)
    ensures
        r@.map_values(|s: &str| s@) == cmd_args_spec(file_name@, release, warning),
{
    let mut args: Vec<&'a str> = if release {
        vec!["-Ofast", file_name]
    } else {
        vec!["-O0", "-fsanitize=address,undefined", "-DDEBUG", "-g", file_name]
    };
    if warning {
        args.push("-Wall");
        args.push("-Wextra");
        args.push("-Wno-sign-conversion");
        args.push("-Wshadow");
        args.push("-D_GLIBCXX_ASSERTIONS");
        args.push("-fmax-errors=2");
    }
    assert(args@.map_values(|s: &str| s@) =~= cmd_args_spec(file_name@, release, warning));
    args
}

/// The frame width for banners: the terminal's width where one is known,
/// else the default.
pub fn frame_width(dimensions: Option<(usize, usize)>) -> (r: usize)
    ensures
        r == match dimensions {
            Some((w, _)) => w,
            None => DEFAULT_COLUMNS,
        },
{
    match dimensions {
        Some((w, _)) => w,
        None => DEFAULT_COLUMNS,
    }
}

/// Appends to `stdout` the banner that frames `mid` across the terminal, or
/// across the default width where no terminal reports one.
pub fn print_cool(mid: &str, stdout: &mut Vec<u8>)
    ensures
        exists|w: nat| final(stdout)@ == old(stdout)@ + #[trigger] banner(mid.spec_bytes(), w),
{
    let width = frame_width(term_size::dimensions());
    write_banner(mid.as_bytes(), width, stdout);
    assert(stdout@ == old(stdout)@ + banner(mid.spec_bytes(), width as nat));
}

/// The plan for running `binary` against `inputs`: in a pool of `n_threads`
/// workers when more than one is asked for, else one job after another.
pub fn run_test_cases(binary: &str, inputs: Vec<String>, output_file: bool, n_threads: usize) -> (r:
    TestPlan)
    ensures
        r.schedule == if n_threads > 1 {
            Schedule::Pooled(n_threads)
        } else {
            Schedule::Sequential
        },
        is_plan_of(r, binary@, inputs@, output_file),
{
    let schedule = if n_threads > 1 {
        Schedule::Pooled(n_threads)
    } else {
        Schedule::Sequential
    };
    plan_jobs(binary, &inputs, output_file, schedule)
}

} // verus!
