use crate::banner::{banner, write_banner};
use crate::bytes::bytes_eq;
use crate::cli::{FLAG_HELP, FLAG_OUTPUT, FLAG_PARALLEL, FLAG_RELEASE, HYPHEN};
use crate::runner::{is_plan_of, path_bytes, plan_jobs, Schedule, SLASH, TestPlan};
use vstd::prelude::*;
use vstd::string::StringExecFns;
use vstd::string::StringSliceAdditionalSpecFns;

verus! {

/// The fixed frame width of banners.
pub const COL: usize = 80;

/// The family of the host system, which decides how a built binary's path
/// is written.
#[derive(Clone, Copy, Debug, PartialEq, Eq, Structural)]
pub enum Os {
    Windows,
    Unix,
}

/// The path of the binary that `cargo build --bin file_name` leaves under
/// `current_dir`.
pub open spec fn binary_path_spec(current_dir: Seq<char>, file_name: Seq<char>, release: bool, os: Os) -> Seq<char> {
    let profile = if release {
        "release"@
    } else {
        "debug"@
    };
    match os {
        Os::Windows => current_dir + "\\target\\"@ + profile + "\\"@ + file_name + ".exe"@,
        Os::Unix => current_dir + "/target/"@ + profile + "/"@ + file_name,
    }
}

/// The arguments of the cargo run that builds `file_name`.
pub open spec fn build_args_spec(file_name: Seq<char>, release: bool) -> Seq<Seq<char>> {
    if release {
        seq!["build"@, "--bin"@, file_name, "--release"@]
    } else {
        seq!["build"@, "--bin"@, file_name]
    }
}

/// The cargo arguments that build `file_name`, and the path of the binary
/// that the build leaves.
pub fn get_cmd<'a>(current_dir: &str, file_name: &'a str, release: bool, os: Os) -> (r: (
    Vec<&'a str>,
    String,
))
    ensures
        r.0@.map_values(|s: &str| s@) == build_args_spec(file_name@, release),
        r.1@ == binary_path_spec(current_dir@, file_name@, release, os),
{
    let profile = if release {
        "release"
    } else {
        "debug"
    };
    let mut cmd_run = String::from_str(current_dir);
    match os {
        Os::Windows => {
            cmd_run.append("\\target\\");
            cmd_run.append(profile);
            cmd_run.append("\\");
            cmd_run.append(file_name);
            cmd_run.append(".exe");
        },
        Os::Unix => {
            cmd_run.append("/target/");
            cmd_run.append(profile);
            cmd_run.append("/");
            cmd_run.append(file_name);
        },
    }
    let mut cmd_args: Vec<&'a str> = vec!["build", "--bin", file_name];
    if release {
        cmd_args.push("--release");
    }
    assert(cmd_args@.map_values(|s: &str| s@) =~= build_args_spec(file_name@, release));
    assert(cmd_run@ =~= binary_path_spec(current_dir@, file_name@, release, os));
    (cmd_args, cmd_run)
}

/// Appends to `stdout` the banner that frames `mid` across the fixed width.
pub fn print_cool(mid: &str, stdout: &mut Vec<u8>)
    ensures
        final(stdout)@ == old(stdout)@ + banner(mid.spec_bytes(), COL as nat),
{
    write_banner(mid.as_bytes(), COL, stdout);
}

/// The plan for running `binary` against `inputs`. The flags are, in order:
/// release build, persisted output, parallel run; a parallel run uses a pool
/// of all `available` workers.
pub fn run_test_cases(inputs: Vec<String>, binary: &str, flag: &[bool], available: usize) -> (r:
    TestPlan)
    requires
        flag@.len() >= 3,
        available >= 1,
    ensures
        r.schedule == if flag@[2] {
            Schedule::Pooled(available)
        } else {
            Schedule::Sequential
        },
        is_plan_of(r, binary@, inputs@, flag@[1]),
{
    let schedule = if flag[2] {
        Schedule::Pooled(available)
    } else {
        Schedule::Sequential
    };
    plan_jobs(binary, &inputs, flag[1], schedule)
}

/// The byte of a Windows path separator, `\\`.
pub const BACKSLASH: u8 = 92;

/// The byte of `.`.
pub const DOT: u8 = 46;

/// The options of a cargo build-and-run.
#[derive(Clone, Copy, Debug, PartialEq, Eq, Structural)]
pub struct RustFlags {
    /// Build in release mode.
    pub release: bool,
    /// Write each run's output to its own result file.
    pub output_file: bool,
    /// Run the jobs in a pool of all available workers.
    pub parallel: bool,
}

/// What the cargo runner's command line asks for.
#[derive(Clone, Debug)]
pub enum RustAction {
    /// Build the binary of this name (its bytes) and run it with these options.
    Run(Vec<u8>, RustFlags),
    /// Print the usage text.
    Help,
}

/// Why the cargo runner's command line is refused.
#[derive(Clone, Debug)]
pub enum RustArgError {
    /// This argument is not understood, or names a second binary.
    Invalid(String),
    /// No binary was named.
    NoInputFile,
}

/// The verdict on a command line, with arguments named by position.
pub enum RustVerdict {
    Run(RustFlags, Seq<u8>),
    Help,
    Invalid(nat),
    NoInputFile,
}

/// The path separator of the host system.
pub open spec fn separator(os: Os) -> u8 {
    match os {
        Os::Windows => BACKSLASH,
        Os::Unix => SLASH,
    }
}

/// Where the last component of `path` starts: just after its last `sep`.
pub open spec fn component_start(path: Seq<u8>, sep: u8) -> int
    decreases path.len(),
{
    if path.len() == 0 {
        0
    } else if path.last() == sep {
        path.len() as int
    } else {
        component_start(path.drop_last(), sep)
    }
}

/// Where the first `.` of `s` at or after `i` stands, or its length.
pub open spec fn dot_at(s: Seq<u8>, i: int) -> int
    decreases s.len() - i,
{
    if i < 0 || i >= s.len() {
        s.len() as int
    } else if s[i] == DOT {
        i
    } else {
        dot_at(s, i + 1)
    }
}

/// The binary name that a source path stands for: its last component, up to
/// the component's first `.`.
pub open spec fn stem(path: Seq<u8>, sep: u8) -> Seq<u8> {
    let base = path.subrange(component_start(path, sep), path.len() as int);
    base.subrange(0, dot_at(base, 0))
}

/// Reads the cluster of short flags of `b` from position `i` on.
pub open spec fn rust_short_flags(b: Seq<u8>, i: int, f: RustFlags) -> Option<Option<RustFlags>>
    decreases b.len() - i,
{
    if i < 0 || i >= b.len() {
        Some(Some(f))
    } else if b[i] == FLAG_RELEASE {
        rust_short_flags(b, i + 1, RustFlags { release: true, ..f })
    } else if b[i] == FLAG_OUTPUT {
        rust_short_flags(b, i + 1, RustFlags { output_file: true, ..f })
    } else if b[i] == FLAG_PARALLEL {
        rust_short_flags(b, i + 1, RustFlags { parallel: true, ..f })
    } else if b[i] == FLAG_HELP {
        Some(None)
    } else {
        None
    }
}

/// Reads a long flag.
pub open spec fn rust_long_flag(b: Seq<u8>, f: RustFlags) -> Option<Option<RustFlags>> {
    if b == "--release".spec_bytes() {
        Some(Some(RustFlags { release: true, ..f }))
    } else if b == "--output-file".spec_bytes() {
        Some(Some(RustFlags { output_file: true, ..f }))
    } else if b == "--parallel".spec_bytes() {
        Some(Some(RustFlags { parallel: true, ..f }))
    } else if b == "--help".spec_bytes() {
        Some(None)
    } else {
        None
    }
}

/// Reads the arguments from position `k` on, with options `f` and binary
/// name `name` so far. In the results of the flag readers, `None` is an
/// invalid argument and `Some(None)` a request for help.
pub open spec fn rust_parse_from(args: Seq<String>, k: int, f: RustFlags, name: Seq<u8>, os: Os) -> RustVerdict
    decreases args.len() - k,
{
    if k < 0 || k >= args.len() {
        if name.len() == 0 {
            RustVerdict::NoInputFile
        } else {
            RustVerdict::Run(f, name)
        }
    } else {
        let b = path_bytes(args[k]@);
        if b.len() > 0 && b[0] == HYPHEN {
            let step = if b.len() > 1 && b[1] == HYPHEN {
                rust_long_flag(b, f)
            } else {
                rust_short_flags(b, 1, f)
            };
            match step {
                None => RustVerdict::Invalid(k as nat),
                Some(None) => RustVerdict::Help,
                Some(Some(g)) => rust_parse_from(args, k + 1, g, name, os),
            }
        } else if name.len() == 0 {
            rust_parse_from(args, k + 1, f, stem(b, separator(os)), os)
        } else {
            RustVerdict::Invalid(k as nat)
        }
    }
}

/// The verdict on a whole command line (without the program's name),
/// starting from a debug build with console output, run one job at a time.
pub open spec fn rust_parse_args_spec(args: Seq<String>, os: Os) -> RustVerdict {
    rust_parse_from(args, 0, RustFlags { release: false, output_file: false, parallel: false }, Seq::empty(), os)
}

/// The binary name that the source path `path` stands for.
pub fn file_stem(path: &[u8], sep: u8) -> (r: Vec<u8>)
    ensures
        r@ == stem(path@, sep),
{
    let mut start: usize = 0;
    let mut i: usize = 0;
    while i < path.len()
        invariant
            i <= path@.len(),
            start == component_start(path@.subrange(0, i as int), sep),
            start <= i,
        decreases path@.len() - i,
    {
        assert(path@.subrange(0, i + 1).drop_last() =~= path@.subrange(0, i as int));
        if path[i] == sep {
            start = i + 1;
        }
        i = i + 1;
    }
    assert(path@.subrange(0, i as int) =~= path@);
    let ghost base = path@.subrange(start as int, path@.len() as int);
    let mut name: Vec<u8> = Vec::new();
    let mut j: usize = start;
    while j < path.len() && path[j] != DOT
        invariant
            start <= j <= path@.len(),
            base == path@.subrange(start as int, path@.len() as int),
            name@ == base.subrange(0, j - start),
            dot_at(base, j - start) == dot_at(base, 0),
        decreases path@.len() - j,
    {
        name.push(path[j]);
        j = j + 1;
        assert(name@ =~= base.subrange(0, j - start));
    }
    name
}

/// Reads a long flag.
fn read_rust_long_flag(b: &[u8], f: RustFlags) -> (r: Option<Option<RustFlags>>)
    ensures
        r == rust_long_flag(b@, f),
{
    if bytes_eq(b, "--release".as_bytes()) {
        Some(Some(RustFlags { release: true, ..f }))
    } else if bytes_eq(b, "--output-file".as_bytes()) {
        Some(Some(RustFlags { output_file: true, ..f }))
    } else if bytes_eq(b, "--parallel".as_bytes()) {
        Some(Some(RustFlags { parallel: true, ..f }))
    } else if bytes_eq(b, "--help".as_bytes()) {
        Some(None)
    } else {
        None
    }
}

/// Reads the cluster of short flags that follows the hyphen of `b`.
fn read_rust_short_flags(b: &[u8], f: RustFlags) -> (r: Option<Option<RustFlags>>)
    requires
        b@.len() >= 1,
    ensures
        r == rust_short_flags(b@, 1, f),
{
    let mut g = f;
    let mut i: usize = 1;
    while i < b.len()
        invariant
            1 <= i <= b@.len(),
            rust_short_flags(b@, i as int, g) == rust_short_flags(b@, 1, f),
        decreases b@.len() - i,
    {
        let c = b[i];
        if c == FLAG_RELEASE {
            g = RustFlags { release: true, ..g };
        } else if c == FLAG_OUTPUT {
            g = RustFlags { output_file: true, ..g };
        } else if c == FLAG_PARALLEL {
            g = RustFlags { parallel: true, ..g };
        } else if c == FLAG_HELP {
            return Some(None);
        } else {
            return None;
        }
        i = i + 1;
    }
    Some(Some(g))
}

/// Reads the cargo runner's command line (without the program's name): the
/// binary to build, named by the stem of a source path, and the options;
/// help; or the reason the line is refused. Flags come long (`--release`,
/// `--output-file`, `--parallel`, `--help`) or as clusters of short ones
/// (`-rop`).
pub fn process_args(args: &Vec<String>, os: Os) -> (r: Result<RustAction, RustArgError>)
    ensures
        match rust_parse_args_spec(args@, os) {
            RustVerdict::Run(f, name) => r matches Ok(RustAction::Run(n, g)) && n@ == name && g == f,
            RustVerdict::Help => r matches Ok(RustAction::Help),
            RustVerdict::Invalid(k) => r matches Err(RustArgError::Invalid(a)) && a@ == args@[k as int]@,
            RustVerdict::NoInputFile => r matches Err(RustArgError::NoInputFile),
        },
{
    let sep: u8 = match os {
        Os::Windows => BACKSLASH,
        Os::Unix => SLASH,
    };
    let mut f = RustFlags { release: false, output_file: false, parallel: false };
    let mut name: Vec<u8> = Vec::new();
    let mut k: usize = 0;
    while k < args.len()
        invariant
            k <= args@.len(),
            sep == separator(os),
            rust_parse_from(args@, k as int, f, name@, os) == rust_parse_args_spec(args@, os),
        decreases args@.len() - k,
    {
        let b = args[k].as_str().as_bytes();
        assert(b@ == path_bytes(args@[k as int]@));
        if b.len() > 0 && b[0] == HYPHEN {
            let step = if b.len() > 1 && b[1] == HYPHEN {
                read_rust_long_flag(b, f)
            } else {
                read_rust_short_flags(b, f)
            };
            match step {
                None => {
                    return Err(RustArgError::Invalid(args[k].clone()));
                },
                Some(None) => {
                    return Ok(RustAction::Help);
                },
                Some(Some(g)) => {
                    f = g;
                },
            }
        } else if name.len() == 0 {
            name = file_stem(b, sep);
        } else {
            return Err(RustArgError::Invalid(args[k].clone()));
        }
        k = k + 1;
    }
    if name.len() == 0 {
        Err(RustArgError::NoInputFile)
    } else {
        Ok(RustAction::Run(name, f))
    }
}

} // verus!
