use crate::banner::{banner, write_banner};
use crate::bytes::{push_bytes, push_str};
use crate::decimal::{decimal, lemma_decimal_injective, push_decimal};
use vstd::prelude::*;
use vstd::string::StringSliceAdditionalSpecFns;
use vstd::utf8::encode_utf8;

verus! {

/// The directory, relative to the working directory, that holds result files.
pub const OUTPUT_DIR: &'static str = "output";

/// The tag that marks a file, or a directory of files, as test input.
pub const INPUT_TAG: &'static str = "input";

/// The byte of a path separator, `/`.
pub const SLASH: u8 = 47;

/// Where the display name of a path starts: just after its last `/`, or at
/// its start when it has none.
pub open spec fn name_start(path: Seq<u8>) -> int
    decreases path.len(),
{
    if path.len() == 0 {
        0
    } else if path.last() == SLASH {
        path.len() as int
    } else {
        name_start(path.drop_last())
    }
}

/// The display name of a path: the part after its last `/`.
pub open spec fn basename(path: Seq<u8>) -> Seq<u8> {
    path.subrange(name_start(path), path.len() as int)
}

/// How the report line of a persisted run names its result file.
#[derive(Clone, Copy, Debug, PartialEq, Eq, Structural)]
pub enum IndexStyle {
    /// `name: 12ms (output.3.txt)`
    Parens,
    /// `name: 12ms | output.3.txt`
    Bar,
}

/// How the jobs of a batch are executed.
#[derive(Clone, Copy, Debug, PartialEq, Eq, Structural)]
pub enum Schedule {
    /// One after another on the caller's thread; the first fatal error ends
    /// the batch.
    Sequential,
    /// Spread over a pool with the given number of workers; a failing job
    /// affects no other.
    Pooled(usize),
}

/// One run of the binary against one input file.
#[derive(Clone, Debug)]
pub struct RunJob {
    /// The path of the input file.
    pub input: String,
    /// The index that names the run's result file, when output is persisted.
    pub file_number: Option<usize>,
}

/// A batch of runs of one binary.
#[derive(Clone, Debug)]
pub struct TestPlan {
    /// The path of the binary under test.
    pub binary: String,
    /// How the jobs are executed.
    pub schedule: Schedule,
    /// One job per input file, in the order of the inputs.
    pub jobs: Vec<RunJob>,
}

/// `plan` runs `binary` once per input, in the inputs' order; with output
/// persisted, job `i` writes the result file numbered `i`.
pub open spec fn is_plan_of(plan: TestPlan, binary: Seq<char>, inputs: Seq<String>, output_file: bool) -> bool {
    &&& plan.binary@ == binary
    &&& plan.jobs@.len() == inputs.len()
    &&& forall|i: int|
        0 <= i < inputs.len() ==> (#[trigger] plan.jobs@[i]).input@ == inputs[i]@
            && plan.jobs@[i].file_number == if output_file {
            Some(i as usize)
        } else {
            None
        }
}

/// Builds the plan of a batch: one job per input file, in the inputs' order,
/// numbered by position when output is persisted.
pub fn plan_jobs(binary: &str, inputs: &Vec<String>, output_file: bool, schedule: Schedule) -> (r:
    TestPlan)
    ensures
        r.schedule == schedule,
        is_plan_of(r, binary@, inputs@, output_file),
{
    let mut jobs: Vec<RunJob> = Vec::new();
    let mut i: usize = 0;
    while i < inputs.len()
        invariant
            i <= inputs@.len(),
            jobs@.len() == i,
            forall|k: int|
                0 <= k < i ==> (#[trigger] jobs@[k]).input@ == inputs@[k]@
                    && jobs@[k].file_number == if output_file {
                    Some(k as usize)
                } else {
                    None
                },
        decreases inputs@.len() - i,
    {
        let file_number = if output_file {
            Some(i)
        } else {
            None
        };
        jobs.push(RunJob { input: inputs[i].clone(), file_number });
        i = i + 1;
    }
    TestPlan { binary: binary.to_owned(), schedule, jobs }
}

/// The display name of a path: the part after its last `/`.
pub fn display_name(path: &str) -> (r: Vec<u8>)
    ensures
        r@ == basename(path.spec_bytes()),
{
    let bytes = path.as_bytes();
    let mut start: usize = 0;
    let mut i: usize = 0;
    while i < bytes.len()
        invariant
            i <= bytes@.len(),
            bytes@ == path.spec_bytes(),
            start == name_start(bytes@.subrange(0, i as int)),
            start <= i,
        decreases bytes@.len() - i,
    {
        assert(bytes@.subrange(0, i + 1).drop_last() =~= bytes@.subrange(0, i as int));
        if bytes[i] == SLASH {
            start = i + 1;
        }
        i = i + 1;
    }
    assert(bytes@.subrange(0, i as int) =~= bytes@);
    let mut name: Vec<u8> = Vec::new();
    let mut j: usize = start;
    while j < bytes.len()
        invariant
            start <= j <= bytes@.len(),
            name@ == bytes@.subrange(start as int, j as int),
        decreases bytes@.len() - j,
    {
        name.push(bytes[j]);
        j = j + 1;
        assert(name@ =~= bytes@.subrange(start as int, j as int));
    }
    name
}

/// The name of the result file of run `i`.
pub open spec fn result_file_name_of(i: nat) -> Seq<u8> {
    "output.".spec_bytes() + decimal(i) + ".txt".spec_bytes()
}

/// The path of the result file of run `i`, relative to the working directory.
pub open spec fn result_path_of(i: nat) -> Seq<u8> {
    OUTPUT_DIR.spec_bytes() + seq![SLASH] + result_file_name_of(i)
}

/// The path of the result file of run `i`.
pub fn result_path(i: usize) -> (r: Vec<u8>)
    ensures
        r@ == result_path_of(i as nat),
{
    let mut out: Vec<u8> = Vec::new();
    push_str(OUTPUT_DIR, &mut out);
    out.push(SLASH);
    push_str("output.", &mut out);
    push_decimal(i as u128, &mut out);
    push_str(".txt", &mut out);
    assert(out@ =~= result_path_of(i as nat));
    out
}

/// The report line of a finished run: the input's name, the elapsed
/// milliseconds and, when output is persisted, the result file's name.
pub open spec fn report_line_of(
    name: Seq<u8>,
    elapsed_ms: nat,
    file_number: Option<usize>,
    style: IndexStyle,
) -> Seq<u8> {
    let timing = name + ": ".spec_bytes() + decimal(elapsed_ms) + "ms".spec_bytes();
    match file_number {
        None => timing,
        Some(i) => match style {
            IndexStyle::Parens => timing + " (".spec_bytes() + result_file_name_of(i as nat)
                + ")".spec_bytes(),
            IndexStyle::Bar => timing + " | ".spec_bytes() + result_file_name_of(i as nat),
        },
    }
}

/// The report line of a run that failed with the given cause.
pub open spec fn error_line_of(name: Seq<u8>, cause: Seq<u8>) -> Seq<u8> {
    name + ": ERROR: ".spec_bytes() + cause
}

/// What a run prints about its standard error: nothing when it is empty,
/// else a `(stderr)` banner and the bytes themselves.
pub open spec fn stderr_part_of(stderr: Seq<u8>, width: nat) -> Seq<u8> {
    if stderr.len() == 0 {
        Seq::empty()
    } else {
        banner("(stderr)".spec_bytes(), width) + stderr
    }
}

/// The report line of a finished run.
pub fn report_line(name: &[u8], elapsed_ms: u128, file_number: Option<usize>, style: IndexStyle) -> (r:
    Vec<u8>)
    ensures
        r@ == report_line_of(name@, elapsed_ms as nat, file_number, style),
{
    let mut out: Vec<u8> = Vec::new();
    push_bytes(name, &mut out);
    push_str(": ", &mut out);
    push_decimal(elapsed_ms, &mut out);
    push_str("ms", &mut out);
    match file_number {
        None => {},
        Some(i) => {
            match style {
                IndexStyle::Parens => push_str(" (", &mut out),
                IndexStyle::Bar => push_str(" | ", &mut out),
            }
            push_str("output.", &mut out);
            push_decimal(i as u128, &mut out);
            push_str(".txt", &mut out);
            match style {
                IndexStyle::Parens => push_str(")", &mut out),
                IndexStyle::Bar => {},
            }
        },
    }
    assert(out@ =~= report_line_of(name@, elapsed_ms as nat, file_number, style));
    out
}

/// Why a run failed.
#[derive(Clone, Copy, Debug, PartialEq, Eq, Structural)]
pub enum JobFailure {
    /// The binary could not be started.
    Spawn,
    /// The binary did not take its input: it closed or refused its standard input.
    StdinWrite,
    /// The binary's exit or output could not be collected.
    Wait,
    /// An input file could not be read, or a result file written.
    Filesystem,
}

/// How one run ended.
#[derive(Clone, Debug)]
pub enum JobOutcome {
    /// The run failed, with a human-readable cause.
    Failed(JobFailure, Vec<u8>),
    /// The binary ran to its end.
    Finished { elapsed_ms: u128, stdout: Vec<u8>, stderr: Vec<u8> },
}

/// A file to write: its path, relative to the working directory, and its bytes.
#[derive(Clone, Debug)]
pub struct ResultFile {
    pub path: Vec<u8>,
    pub contents: Vec<u8>,
}

/// What a run leaves behind: the bytes it prints to the console, under one
/// hold of the console, and the result file it writes, if any.
#[derive(Clone, Debug)]
pub struct JobReport {
    pub console: Vec<u8>,
    pub result_file: Option<ResultFile>,
}

/// The bytes of a path as the UTF-8 encoding of its characters.
pub open spec fn path_bytes(path: Seq<char>) -> Seq<u8> {
    encode_utf8(path)
}

/// Whether a failure of this kind ends the batch: only where jobs run one
/// after another, and never for a binary that refused its input.
pub open spec fn aborts_batch_spec(schedule: Schedule, failure: JobFailure) -> bool {
    schedule == Schedule::Sequential && failure != JobFailure::StdinWrite
}

/// Whether a failure of this kind ends the batch.
pub fn aborts_batch(schedule: Schedule, failure: JobFailure) -> (r: bool)
    ensures
        r == aborts_batch_spec(schedule, failure),
{
    match schedule {
        Schedule::Sequential => match failure {
            JobFailure::StdinWrite => false,
            _ => true,
        },
        Schedule::Pooled(_) => false,
    }
}

/// What the console shows of a finished run.
pub open spec fn finished_console_of(
    name: Seq<u8>,
    elapsed_ms: nat,
    file_number: Option<usize>,
    style: IndexStyle,
    width: nat,
    stdout: Seq<u8>,
    stderr: Seq<u8>,
) -> Seq<u8> {
    banner(report_line_of(name, elapsed_ms, file_number, style), width) + (if file_number is None {
        stdout
    } else {
        Seq::empty()
    }) + stderr_part_of(stderr, width)
}

/// Turns the outcome of a job into what it prints and writes. A failure is
/// one framed error line; a finished run is its framed report line, its
/// standard output (on the console, or verbatim in the result file that its
/// number names) and its standard error, if any, behind a banner of its own.
pub fn job_report(job: &RunJob, outcome: JobOutcome, style: IndexStyle, width: usize) -> (r:
    JobReport)
    ensures
        ({
            let name = basename(path_bytes(job.input@));
            match outcome {
                JobOutcome::Failed(_, cause) => r.console@ == banner(
                    error_line_of(name, cause@),
                    width as nat,
                ) && r.result_file is None,
                JobOutcome::Finished { elapsed_ms, stdout, stderr } => r.console@
                    == finished_console_of(
                    name,
                    elapsed_ms as nat,
                    job.file_number,
                    style,
                    width as nat,
                    stdout@,
                    stderr@,
                ) && match job.file_number {
                    None => r.result_file is None,
                    Some(i) => r.result_file matches Some(f) && f.path@ == result_path_of(i as nat)
                        && f.contents@ == stdout@,
                },
            }
        }),
{
    let name = display_name(job.input.as_str());
    let mut console: Vec<u8> = Vec::new();
    match outcome {
        JobOutcome::Failed(_, cause) => {
            let mut line: Vec<u8> = Vec::new();
            push_bytes(name.as_slice(), &mut line);
            push_str(": ERROR: ", &mut line);
            push_bytes(cause.as_slice(), &mut line);
            write_banner(line.as_slice(), width, &mut console);
            assert(line@ =~= error_line_of(name@, cause@));
            JobReport { console, result_file: None }
        },
        JobOutcome::Finished { elapsed_ms, stdout, stderr } => {
            let ghost stdout_bytes = stdout@;
            let line = report_line(name.as_slice(), elapsed_ms, job.file_number, style);
            write_banner(line.as_slice(), width, &mut console);
            let result_file = match job.file_number {
                None => {
                    push_bytes(stdout.as_slice(), &mut console);
                    None
                },
                Some(i) => Some(ResultFile { path: result_path(i), contents: stdout }),
            };
            if stderr.len() > 0 {
                write_banner("(stderr)".as_bytes(), width, &mut console);
                push_bytes(stderr.as_slice(), &mut console);
            }
            assert(console@ =~= finished_console_of(
                name@,
                elapsed_ms as nat,
                job.file_number,
                style,
                width as nat,
                stdout_bytes,
                stderr@,
            ));
            JobReport { console, result_file }
        },
    }
}

/// Result files are stable and never shared: with output persisted, the job
/// for the `i`-th input writes the file numbered `i`, whatever the order in
/// which jobs finish, and two distinct inputs never write the same path.
pub proof fn lemma_index_stability(
    plan: TestPlan,
    binary: Seq<char>,
    inputs: Seq<String>,
    i: int,
    j: int,
)
    requires
        is_plan_of(plan, binary, inputs, true),
        0 <= i < inputs.len(),
        0 <= j < inputs.len(),
        i != j,
    ensures
        plan.jobs@[i].input@ == inputs[i]@,
        plan.jobs@[i].file_number == Some(i as usize),
        result_path_of(i as nat) != result_path_of(j as nat),
{
    assert(plan.jobs@[i].input@ == inputs[i]@);
    assert(plan.jobs@[j].input@ == inputs[j]@);
    if result_path_of(i as nat) == result_path_of(j as nat) {
        lemma_result_path_injective(i as nat, j as nat);
    }
}

/// Distinct run numbers name distinct result paths.
pub proof fn lemma_result_path_injective(a: nat, b: nat)
    requires
        result_path_of(a) == result_path_of(b),
    ensures
        a == b,
{
    let head = OUTPUT_DIR.spec_bytes() + seq![SLASH] + "output.".spec_bytes();
    let tail = ".txt".spec_bytes();
    let pa = result_path_of(a);
    let pb = result_path_of(b);
    assert(pa =~= head + decimal(a) + tail);
    assert(pb =~= head + decimal(b) + tail);
    assert(decimal(a) =~= pa.subrange(head.len() as int, pa.len() - tail.len()));
    assert(decimal(b) =~= pb.subrange(head.len() as int, pb.len() - tail.len()));
    lemma_decimal_injective(a, b);
}

/// Whether `tag` occurs in `text` as a contiguous run of bytes.
pub open spec fn contains_bytes(text: Seq<u8>, tag: Seq<u8>) -> bool {
    exists|k: int| 0 <= k && k + tag.len() <= text.len() && #[trigger] text.subrange(k, k + tag.len()) == tag
}

/// Whether `tag` occurs in `text` at position `k`.
fn occurs_at(text: &[u8], tag: &[u8], k: usize) -> (r: bool)
    requires
        k + tag@.len() <= text@.len(),
    ensures
        r == (text@.subrange(k as int, k + tag@.len()) == tag@),
{
    let n: usize = text.len();
    let mut i: usize = 0;
    while i < tag.len()
        invariant
            n == text@.len(),
            k + tag@.len() <= text@.len(),
            i <= tag@.len(),
            forall|m: int| 0 <= m < i ==> text@[k + m] == tag@[m],
        decreases tag@.len() - i,
    {
        if text[k + i] != tag[i] {
            assert(text@.subrange(k as int, k + tag@.len())[i as int] != tag@[i as int]);
            return false;
        }
        i = i + 1;
    }
    assert(text@.subrange(k as int, k + tag@.len()) =~= tag@);
    true
}

/// Whether a name marks test input: it holds the input tag.
pub fn has_input_tag(name: &[u8]) -> (r: bool)
    ensures
        r == contains_bytes(name@, INPUT_TAG.spec_bytes()),
{
    let tag = INPUT_TAG.as_bytes();
    if tag.len() == 0 {
        assert(name@.subrange(0, 0 + tag@.len() as int) =~= tag@);
        return true;
    }
    if tag.len() > name.len() {
        return false;
    }
    let n: usize = name.len();
    let last: usize = n - tag.len();
    let mut k: usize = 0;
    while k <= last
        invariant
            tag@ == INPUT_TAG.spec_bytes(),
            tag@.len() >= 1,
            n == name@.len(),
            last + tag@.len() == name@.len(),
            k <= last + 1,
            forall|m: int| 0 <= m < k ==> #[trigger] name@.subrange(m, m + tag@.len()) != tag@,
        decreases last + 1 - k,
    {
        if occurs_at(name, tag, k) {
            return true;
        }
        k = k + 1;
    }
    false
}

} // verus!
