use crate::bytes::bytes_eq;
use crate::runner::path_bytes;
use vstd::prelude::*;
use vstd::string::StringSliceAdditionalSpecFns;

verus! {

/// The byte of `-`.
pub const HYPHEN: u8 = 45;

/// The byte of the digit `0`.
pub const DIGIT_ZERO: u8 = 48;

/// The byte of the digit `9`.
pub const DIGIT_NINE: u8 = 57;

/// The byte of the short flag for a release build.
pub const FLAG_RELEASE: u8 = 114;

/// The byte of the short flag for persisted output.
pub const FLAG_OUTPUT: u8 = 111;

/// The byte of the short flag for a parallel run.
pub const FLAG_PARALLEL: u8 = 112;

/// The byte of the short flag for warnings.
pub const FLAG_WARNING: u8 = 119;

/// The byte of the short flag for help.
pub const FLAG_HELP: u8 = 104;

/// The options of a build-and-run.
#[derive(Clone, Copy, Debug, PartialEq, Eq, Structural)]
pub struct CppFlags {
    /// Build with optimisations rather than sanitizers.
    pub release: bool,
    /// Write each run's output to its own result file.
    pub output_file: bool,
    /// Build with the warning set.
    pub warning: bool,
    /// The number of workers; more than one runs the jobs in a pool.
    pub n_threads: usize,
}

/// What one argument does to the options being read.
#[derive(Clone, Copy, Debug, PartialEq, Eq, Structural)]
pub enum ArgStep {
    /// Go on with these options; `true` when the argument is the source file.
    Go(CppFlags, bool),
    /// Help was asked for: stop reading.
    Help,
    /// The argument is not understood.
    Invalid,
}

/// What the command line asks for.
#[derive(Clone, Debug)]
pub enum CliAction {
    /// Build `file_name` and run it with these options.
    Run(String, CppFlags),
    /// Print the usage text.
    Help,
}

/// Why a command line is refused.
#[derive(Clone, Debug)]
pub enum CliError {
    /// This argument is not understood, or names a second source file.
    Invalid(String),
    /// No source file was named.
    NoInputFile,
}

/// The verdict on a command line, with arguments named by position.
pub enum ArgsVerdict {
    Run(CppFlags, nat),
    Help,
    Invalid(nat),
    NoInputFile,
}

pub open spec fn is_digit(b: u8) -> bool {
    DIGIT_ZERO <= b <= DIGIT_NINE
}

/// Where the run of digits that starts at `start` ends.
pub open spec fn digit_end(b: Seq<u8>, start: int) -> int
    decreases b.len() - start,
{
    if 0 <= start < b.len() && is_digit(b[start]) {
        digit_end(b, start + 1)
    } else {
        start
    }
}

/// The value of a run of decimal digits.
pub open spec fn digits_value(d: Seq<u8>) -> nat
    decreases d.len(),
{
    if d.len() == 0 {
        0
    } else {
        digits_value(d.drop_last()) * 10 + (d.last() - DIGIT_ZERO) as nat
    }
}

/// The worker count that a parallel flag followed by the digits in
/// `[start, end)` asks for: the number given, capped by the machine's
/// `available` workers, or all of them when no number is given; `None`
/// when the number does not fit in a `usize`.
pub open spec fn thread_count(b: Seq<u8>, start: int, end: int, available: usize) -> Option<usize> {
    if end <= start {
        Some(available)
    } else {
        let v = digits_value(b.subrange(start, end));
        if v > usize::MAX {
            None
        } else if v < available {
            Some(v as usize)
        } else {
            Some(available)
        }
    }
}

/// Reads the cluster of short flags of `b` from position `i` on.
pub open spec fn short_flags(b: Seq<u8>, i: int, f: CppFlags, available: usize) -> ArgStep
    decreases b.len() - i,
{
    if i < 0 || i >= b.len() {
        ArgStep::Go(f, false)
    } else if b[i] == FLAG_RELEASE {
        short_flags(b, i + 1, CppFlags { release: true, ..f }, available)
    } else if b[i] == FLAG_OUTPUT {
        short_flags(b, i + 1, CppFlags { output_file: true, ..f }, available)
    } else if b[i] == FLAG_WARNING {
        short_flags(b, i + 1, CppFlags { warning: true, ..f }, available)
    } else if b[i] == FLAG_PARALLEL {
        let end = digit_end(b, i + 1);
        match thread_count(b, i + 1, end, available) {
            None => ArgStep::Invalid,
            Some(n) => if i < end <= b.len() {
                short_flags(b, end, CppFlags { n_threads: n, ..f }, available)
            } else {
                ArgStep::Invalid
            },
        }
    } else if b[i] == FLAG_HELP {
        ArgStep::Help
    } else {
        ArgStep::Invalid
    }
}

/// What one argument, given as its bytes, does to the options `f`;
/// `has_name` tells whether a source file was named before.
pub open spec fn arg_step(b: Seq<u8>, f: CppFlags, has_name: bool, available: usize) -> ArgStep {
    if b.len() == 0 {
        ArgStep::Invalid
    } else if b[0] == HYPHEN {
        if b.len() < 2 {
            ArgStep::Invalid
        } else if b[1] == HYPHEN {
            if b == "--release".spec_bytes() {
                ArgStep::Go(CppFlags { release: true, ..f }, false)
            } else if b == "--output-file".spec_bytes() {
                ArgStep::Go(CppFlags { output_file: true, ..f }, false)
            } else if b == "--parallel".spec_bytes() {
                ArgStep::Go(CppFlags { n_threads: available, ..f }, false)
            } else if b == "--warning".spec_bytes() {
                ArgStep::Go(CppFlags { warning: true, ..f }, false)
            } else if b == "--help".spec_bytes() {
                ArgStep::Help
            } else {
                ArgStep::Invalid
            }
        } else {
            short_flags(b, 1, f, available)
        }
    } else if has_name {
        ArgStep::Invalid
    } else {
        ArgStep::Go(f, true)
    }
}

/// Reads the arguments from position `k` on, with options `f` so far and
/// the position of the source file, if one was named.
pub open spec fn parse_from(
    args: Seq<String>,
    k: int,
    f: CppFlags,
    name: Option<nat>,
    available: usize,
) -> ArgsVerdict
    decreases args.len() - k,
{
    if k < 0 || k >= args.len() {
        match name {
            Some(i) => ArgsVerdict::Run(f, i),
            None => ArgsVerdict::NoInputFile,
        }
    } else {
        match arg_step(path_bytes(args[k]@), f, name is Some, available) {
            ArgStep::Help => ArgsVerdict::Help,
            ArgStep::Invalid => ArgsVerdict::Invalid(k as nat),
            ArgStep::Go(g, takes_name) => parse_from(
                args,
                k + 1,
                g,
                if takes_name {
                    Some(k as nat)
                } else {
                    name
                },
                available,
            ),
        }
    }
}

/// The options before any argument is read: a debug build, console output,
/// no warnings, one worker.
pub open spec fn default_flags() -> CppFlags {
    CppFlags { release: false, output_file: false, warning: false, n_threads: 1 }
}

/// The verdict on a whole command line (without the program's name).
pub open spec fn parse_args_spec(args: Seq<String>, available: usize) -> ArgsVerdict {
    parse_from(args, 0, default_flags(), None, available)
}

/// Reads the run of digits of `bytes` that starts at `start` as a worker
/// count, sets `n_threads` to it (see `thread_count`) and returns where the
/// run ends; `None`, with `n_threads` untouched, when the number does not
/// fit in a `usize`.
pub fn change_n_threads(n_threads: &mut usize, bytes: &[u8], start: usize, available: usize) -> (r:
    Option<usize>)
    requires
        start <= bytes@.len(),
    ensures
        ({
            let end = digit_end(bytes@, start as int);
            match thread_count(bytes@, start as int, end, available) {
                None => r is None && *final(n_threads) == *old(n_threads),
                Some(n) => r == Some(end as usize) && *final(n_threads) == n,
            }
        }),
        start <= digit_end(bytes@, start as int) <= bytes@.len(),
{
    let len: usize = bytes.len();
    let mut j: usize = start;
    let mut value: usize = 0;
    let mut overflow = false;
    while j < len && DIGIT_ZERO <= bytes[j] && bytes[j] <= DIGIT_NINE
        invariant
            len == bytes@.len(),
            start <= j <= len,
            digit_end(bytes@, start as int) == digit_end(bytes@, j as int),
            !overflow ==> value == digits_value(bytes@.subrange(start as int, j as int)),
            overflow ==> digits_value(bytes@.subrange(start as int, j as int)) > usize::MAX,
        decreases len - j,
    {
        let d: usize = (bytes[j] - DIGIT_ZERO) as usize;
        assert(bytes@.subrange(start as int, j + 1).drop_last() =~= bytes@.subrange(start as int, j as int));
        if !overflow {
            match value.checked_mul(10) {
                Some(v) => match v.checked_add(d) {
                    Some(w) => {
                        value = w;
                    },
                    None => {
                        overflow = true;
                    },
                },
                None => {
                    overflow = true;
                },
            }
        }
        j = j + 1;
    }
    if j > start && overflow {
        return None;
    }
    if j > start {
        *n_threads = if value < available {
            value
        } else {
            available
        };
    } else {
        *n_threads = available;
    }
    Some(j)
}

/// Reads the cluster of short flags that follows the hyphen of `b`.
fn read_short_flags(b: &[u8], f: CppFlags, available: usize) -> (r: ArgStep)
    requires
        b@.len() >= 1,
    ensures
        r == short_flags(b@, 1, f, available),
{
    let mut g = f;
    let mut i: usize = 1;
    while i < b.len()
        invariant
            1 <= i <= b@.len(),
            short_flags(b@, i as int, g, available) == short_flags(b@, 1, f, available),
        decreases b@.len() - i,
    {
        let c = b[i];
        if c == FLAG_RELEASE {
            g = CppFlags { release: true, ..g };
            i = i + 1;
        } else if c == FLAG_OUTPUT {
            g = CppFlags { output_file: true, ..g };
            i = i + 1;
        } else if c == FLAG_WARNING {
            g = CppFlags { warning: true, ..g };
            i = i + 1;
        } else if c == FLAG_PARALLEL {
            let mut n: usize = g.n_threads;
            match change_n_threads(&mut n, b, i + 1, available) {
                None => {
                    return ArgStep::Invalid;
                },
                Some(end) => {
                    g = CppFlags { n_threads: n, ..g };
                    i = end;
                },
            }
        } else if c == FLAG_HELP {
            return ArgStep::Help;
        } else {
            return ArgStep::Invalid;
        }
    }
    ArgStep::Go(g, false)
}

/// What one argument does to the options `f`.
pub fn read_arg(arg: &str, f: CppFlags, has_name: bool, available: usize) -> (r: ArgStep)
    ensures
        r == arg_step(arg.spec_bytes(), f, has_name, available),
{
    let b = arg.as_bytes();
    if b.len() == 0 {
        ArgStep::Invalid
    } else if b[0] == HYPHEN {
        if b.len() < 2 {
            ArgStep::Invalid
        } else if b[1] == HYPHEN {
            if bytes_eq(b, "--release".as_bytes()) {
                ArgStep::Go(CppFlags { release: true, ..f }, false)
            } else if bytes_eq(b, "--output-file".as_bytes()) {
                ArgStep::Go(CppFlags { output_file: true, ..f }, false)
            } else if bytes_eq(b, "--parallel".as_bytes()) {
                ArgStep::Go(CppFlags { n_threads: available, ..f }, false)
            } else if bytes_eq(b, "--warning".as_bytes()) {
                ArgStep::Go(CppFlags { warning: true, ..f }, false)
            } else if bytes_eq(b, "--help".as_bytes()) {
                ArgStep::Help
            } else {
                ArgStep::Invalid
            }
        } else {
            read_short_flags(b, f, available)
        }
    } else if has_name {
        ArgStep::Invalid
    } else {
        ArgStep::Go(f, true)
    }
}

/// The position of the source file, as a natural number.
pub open spec fn name_index(name: Option<usize>) -> Option<nat> {
    match name {
        Some(i) => Some(i as nat),
        None => None,
    }
}

/// Reads the command line (without the program's name): the source file to
/// build and the options, help, or the reason the line is refused. Flags
/// come long (`--release`, `--output-file`, `--parallel`, `--warning`,
/// `--help`) or as clusters of short ones (`-rp4o`), where `p` may carry a
/// worker count; exactly one other argument names the source file.
pub fn process_args(args: &Vec<String>, available: usize) -> (r: Result<CliAction, CliError>)
    ensures
        match parse_args_spec(args@, available) {
            ArgsVerdict::Run(f, k) => r matches Ok(CliAction::Run(name, g)) && name@ == args@[k as int]@
                && g == f,
            ArgsVerdict::Help => r matches Ok(CliAction::Help),
            ArgsVerdict::Invalid(k) => r matches Err(CliError::Invalid(a)) && a@ == args@[k as int]@,
            ArgsVerdict::NoInputFile => r matches Err(CliError::NoInputFile),
        },
{
    let mut f = CppFlags { release: false, output_file: false, warning: false, n_threads: 1 };
    let mut name: Option<usize> = None;
    let mut k: usize = 0;
    while k < args.len()
        invariant
            k <= args@.len(),
            name matches Some(i) ==> i < k,
            parse_from(args@, k as int, f, name_index(name), available) == parse_args_spec(args@, available),
        decreases args@.len() - k,
    {
        match read_arg(args[k].as_str(), f, name.is_some(), available) {
            ArgStep::Help => {
                return Ok(CliAction::Help);
            },
            ArgStep::Invalid => {
                return Err(CliError::Invalid(args[k].clone()));
            },
            ArgStep::Go(g, takes_name) => {
                f = g;
                if takes_name {
                    name = Some(k);
                }
            },
        }
        k = k + 1;
    }
    match name {
        Some(i) => Ok(CliAction::Run(args[i].clone(), f)),
        None => Err(CliError::NoInputFile),
    }
}

} // verus!
