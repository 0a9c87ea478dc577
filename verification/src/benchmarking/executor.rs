//! The commands that measure a run, and what their output becomes.

use vstd::prelude::*;
use vstd::utf8::{decode_utf8, valid_utf8};

use crate::command::{Command, CommandParsingError, CommandView, strings_view};
use crate::config::benchmark::BenchmarkPoint;
use crate::database::utilities::BenchmarkRecord;
use crate::flame_graph::{frequency_text, FlameFrequency};
use crate::number::{decimal, u64_to_string};
use crate::process::{ProcessOutput, string_from_utf8};
use crate::text::{owned, path_join, path_join_spec, push_str, trim_end, trim_end_spec};

verus! {

/// `cmd` run under `program`, whose arguments are `prefix` followed by the
/// words of `cmd`; it runs in `cmd`'s directory with `cmd`'s environment.
pub open spec fn wrapped(program: Seq<char>, prefix: Seq<Seq<char>>, cmd: CommandView) -> CommandView {
    CommandView {
        program,
        arguments: prefix.push(cmd.program) + cmd.arguments,
        cwd: cmd.cwd,
        envs: cmd.envs,
    }
}

/// The run command for one point: the point's decimal text appended as an
/// argument and given as the STEP variable.
pub open spec fn with_point(run: CommandView, point: BenchmarkPoint) -> CommandView {
    CommandView {
        arguments: run.arguments.push(decimal(point as nat)),
        envs: run.envs.push(("STEP"@, decimal(point as nat))),
        ..run
    }
}

/// The run command for one point (see `with_point`).
pub fn point_command(run: &Command, point: BenchmarkPoint) -> (r: Command)
    ensures
        r@ == with_point(run@, point),
{
    let step = u64_to_string(point);
    run.clone().with_arg(step.clone()).with_env("STEP", step.as_str())
}

/// A command made of a program and literal arguments.
fn literal_command(program: &str, args: Vec<String>) -> (r: Command)
    ensures
        r@ == (CommandView { program: program@, arguments: strings_view(args@), cwd: None, envs: Seq::empty() }),
{
    Command::new_args(owned(program), args)
}

/// Why an unmeasured command (env script, prepare or teardown phase) failed.
#[derive(Debug, Clone)]
pub enum PlainCommandError {
    Parsing(CommandParsingError),
    Spawning(String),
    TimedOut,
    Failed(ProcessOutput),
}

/// The result of an unmeasured command: `None` when it timed out, otherwise
/// what it handed back; it fails unless it exited with code zero.
pub fn plain_command_result(outcome: Option<ProcessOutput>) -> (r: Result<(), PlainCommandError>)
    ensures
        match outcome {
            None => r matches Err(PlainCommandError::TimedOut),
            Some(o) => if o.spec_success() {
                r is Ok
            } else {
                r matches Err(PlainCommandError::Failed(f)) && f == o
            },
        },
{
    match outcome {
        None => Err(PlainCommandError::TimedOut),
        Some(o) => {
            if o.success() {
                Ok(())
            } else {
                Err(PlainCommandError::Failed(o))
            }
        },
    }
}

/// Why building the benchmark project failed.
#[derive(Debug, Clone)]
pub enum CompileError {
    /// The build command line could not be parsed (a session reports this as
    /// `BenchmarkingError::ParsingRun`, see `Session::build`).
    CommandParsing(CommandParsingError),
    /// The build command could not be started.
    CompilationStarting(String),
    /// The build command exited unsuccessfully.
    CompilationRunning(ProcessOutput),
}

/// The result of running the build command: `spawned` is its output, or why
/// it could not be started. It succeeds exactly when the command started and
/// exited with code zero; otherwise the error carries the reason or the
/// output.
pub fn build_source(spawned: Result<ProcessOutput, String>) -> (r: Result<(), CompileError>)
    ensures
        match spawned {
            Err(m) => r matches Err(CompileError::CompilationStarting(x)) && x == m,
            Ok(output) => {
                &&& output.spec_success() ==> r is Ok
                &&& !output.spec_success() ==> (r matches Err(CompileError::CompilationRunning(o)) && o == output)
            },
        },
{
    match spawned {
        Err(m) => Err(CompileError::CompilationStarting(m)),
        Ok(output) => {
            if output.success() {
                Ok(())
            } else {
                Err(CompileError::CompilationRunning(output))
            }
        },
    }
}

/// Why a measured run failed.
#[derive(Debug, Clone)]
pub enum MeasurementError {
    ExecutionFailed(ProcessOutput),
    CommandBuildingFailed(String),
    WrongOutputFormat,
    TempFile(String),
    FileReadingFailed(String),
}

/// Measures runs with any command, given the run command as arguments.
#[derive(Debug)]
pub struct CommandExecutor(Command);

impl View for CommandExecutor {
    type V = CommandView;

    closed spec fn view(&self) -> CommandView {
        self.0@
    }
}

impl CommandExecutor {
    /// Measures with `command`, which runs `run_command` (in its directory,
    /// with its environment).
    pub fn new(command: Command, run_command: Command) -> (r: CommandExecutor)
        ensures
            r@ == wrapped(command@.program, command@.arguments, run_command@),
    {
        let program = command.program().to_owned();
        let args = command.args().clone();
        CommandExecutor(Command::wrapping(program, args, run_command))
    }

    /// The command measuring one point.
    pub fn measured_command(&self, point: BenchmarkPoint) -> (r: Command)
        ensures
            r@ == with_point(self@, point),
    {
        point_command(&self.0, point)
    }

    /// The record of a measured run: what it printed on stdout then stderr,
    /// without trailing white space; a failure unless it exited with code
    /// zero and printed UTF-8.
    pub fn handle_output(output: ProcessOutput) -> (r: Result<BenchmarkRecord, MeasurementError>)
        ensures
            !output.spec_success() ==> (r matches Err(MeasurementError::ExecutionFailed(o)) && o == output),
            output.spec_success() && !(valid_utf8(output.stdout@) && valid_utf8(output.stderr@))
                ==> r matches Err(MeasurementError::WrongOutputFormat),
            output.spec_success() && valid_utf8(output.stdout@) && valid_utf8(output.stderr@)
                ==> (r matches Ok(BenchmarkRecord::Data(d)) && d@ == trim_end_spec(
                decode_utf8(output.stdout@) + decode_utf8(output.stderr@),
            )),
    {
        if !output.success() {
            return Err(MeasurementError::ExecutionFailed(output));
        }
        let stderr_bytes = output.stderr;
        let out = match string_from_utf8(output.stdout) {
            Some(s) => s,
            None => return Err(MeasurementError::WrongOutputFormat),
        };
        let err = match string_from_utf8(stderr_bytes) {
            Some(s) => s,
            None => return Err(MeasurementError::WrongOutputFormat),
        };
        let mut all = out;
        push_str(&mut all, err.as_str());
        Ok(BenchmarkRecord::Data(trim_end(all.as_str())))
    }
}

/// Which tool an output-file executor wraps the run command with.
#[derive(Debug, Clone, Copy, PartialEq, Eq, Structural)]
pub enum OutputKind {
    /// `time -o <file> -f %e`: the elapsed seconds.
    Time,
    /// `perf stat --json -o <file>`: the perf counters.
    PerfStat,
}

/// Measures runs with a tool that writes its measurement to a file.
#[derive(Debug)]
pub struct OutputExecutor {
    kind: OutputKind,
    run_command: Command,
}

/// The tool command writing its measurement of `cmd` to `path`.
pub open spec fn output_command(kind: OutputKind, path: Seq<char>, cmd: CommandView) -> CommandView {
    match kind {
        OutputKind::Time => wrapped("time"@, seq!["-o"@, path, "-f"@, "%e"@], cmd),
        OutputKind::PerfStat => wrapped("perf"@, seq!["stat"@, "--json"@, "-o"@, path], cmd),
    }
}

impl OutputExecutor {
    /// Measures elapsed time with `time`.
    pub fn new_time(run_command: Command) -> (r: OutputExecutor)
        ensures
            r.kind() == OutputKind::Time,
            r.run_command_view() == run_command@,
    {
        OutputExecutor { kind: OutputKind::Time, run_command }
    }

    /// Measures perf counters with `perf stat`.
    pub fn new_perf_stat(run_command: Command) -> (r: OutputExecutor)
        ensures
            r.kind() == OutputKind::PerfStat,
            r.run_command_view() == run_command@,
    {
        OutputExecutor { kind: OutputKind::PerfStat, run_command }
    }

    /// The tool used.
    pub closed spec fn kind(&self) -> OutputKind {
        self.kind
    }

    /// The run command measured.
    pub closed spec fn run_command_view(&self) -> CommandView {
        self.run_command@
    }

    /// The command measuring one point, writing the measurement to `path`.
    pub fn measured_command(&self, path: &str, point: BenchmarkPoint) -> (r: Command)
        ensures
            r@ == output_command(self.kind(), path@, with_point(self.run_command_view(), point)),
    {
        let cmd = point_command(&self.run_command, point);
        let mut args: Vec<String> = Vec::new();
        let tool = match self.kind {
            OutputKind::Time => {
                args.push(owned("-o"));
                args.push(owned(path));
                args.push(owned("-f"));
                args.push(owned("%e"));
                "time"
            },
            OutputKind::PerfStat => {
                args.push(owned("stat"));
                args.push(owned("--json"));
                args.push(owned("-o"));
                args.push(owned(path));
                "perf"
            },
        };
        let ghost prefix = strings_view(args@);
        let r = Command::wrapping(owned(tool), args, cmd);
        assert(r@.arguments =~= output_command(self.kind(), path@, with_point(self.run_command_view(), point)).arguments);
        r
    }

    /// The record of a measured run: what the tool wrote to its file, without
    /// trailing white space; a failure unless the run exited with code zero.
    pub fn handle_output(output: ProcessOutput, file_contents: String) -> (r: Result<BenchmarkRecord, MeasurementError>)
        ensures
            output.spec_success() ==> (r matches Ok(BenchmarkRecord::Data(d)) && d@ == trim_end_spec(file_contents@)),
            !output.spec_success() ==> (r matches Err(MeasurementError::ExecutionFailed(o)) && o == output),
    {
        if output.success() {
            Ok(BenchmarkRecord::Data(trim_end(file_contents.as_str())))
        } else {
            Err(MeasurementError::ExecutionFailed(output))
        }
    }
}

/// Records flame graphs: `perf record | perf script | stackcollapse-perf.pl`,
/// the folded stacks stored in a file of the store directory.
#[derive(Debug)]
pub struct FlameExecutor {
    pub flame_repo: String,
    pub store_dir: String,
    pub frequency: String,
    pub run_command: Command,
}

/// The three commands of the flame-graph pipeline for one point.
pub open spec fn flame_commands(flame_repo: Seq<char>, frequency: Seq<char>, run: CommandView, point: BenchmarkPoint) -> Seq<CommandView> {
    seq![
        wrapped(
            "perf"@,
            seq!["record"@, "-F"@, frequency, "-a"@, "-g"@, "-o"@, "-"@, "--"@],
            with_point(run, point),
        ),
        CommandView {
            program: "perf"@,
            arguments: seq!["script"@, "-i"@, "-"@],
            cwd: None,
            envs: Seq::empty(),
        },
        CommandView {
            program: path_join_spec(flame_repo, "stackcollapse-perf.pl"@),
            arguments: Seq::empty(),
            cwd: None,
            envs: Seq::empty(),
        },
    ]
}

impl FlameExecutor {
    /// Records at `frequency`, with flame-graph scripts from `flame_repo`.
    pub fn new(flame_repo: String, store_dir: String, frequency: FlameFrequency, run_command: Command) -> (r: FlameExecutor)
        ensures
            r.flame_repo == flame_repo,
            r.store_dir == store_dir,
            r.frequency_view() == frequency_text(frequency),
            r.run_command_view() == run_command@,
    {
        FlameExecutor { flame_repo, store_dir, frequency: frequency.to_string(), run_command }
    }

    /// The sampling frequency as handed to `perf record -F`.
    pub open spec fn frequency_view(&self) -> Seq<char> {
        self.frequency@
    }

    /// The run command recorded.
    pub open spec fn run_command_view(&self) -> CommandView {
        self.run_command@
    }

    /// The commands of the pipeline for one point, in order.
    pub fn commands(&self, point: BenchmarkPoint) -> (r: Vec<Command>)
        ensures
            r@.map_values(|c: Command| c@) == flame_commands(self.flame_repo@, self.frequency_view(), self.run_command_view(), point),
    {
        let mut rec_args: Vec<String> = Vec::new();
        rec_args.push(owned("record"));
        rec_args.push(owned("-F"));
        rec_args.push(self.frequency.clone());
        rec_args.push(owned("-a"));
        rec_args.push(owned("-g"));
        rec_args.push(owned("-o"));
        rec_args.push(owned("-"));
        rec_args.push(owned("--"));
        let run = point_command(&self.run_command, point);
        let record = Command::wrapping(owned("perf"), rec_args, run);
        let mut script_args: Vec<String> = Vec::new();
        script_args.push(owned("script"));
        script_args.push(owned("-i"));
        script_args.push(owned("-"));
        let script = literal_command("perf", script_args);
        let collapse_path = path_join(self.flame_repo.as_str(), "stackcollapse-perf.pl");
        let collapse = Command::new_args(collapse_path, Vec::new());
        let mut r: Vec<Command> = Vec::new();
        r.push(record);
        r.push(script);
        r.push(collapse);
        proof {
            let want = flame_commands(self.flame_repo@, self.frequency_view(), self.run_command_view(), point);
            assert(r@[0]@.arguments =~= want[0].arguments);
            assert(r@[0]@ == want[0]);
            assert(r@[1]@.arguments =~= want[1].arguments);
            assert(r@[1]@ == want[1]);
            assert(r@[2]@.arguments =~= want[2].arguments);
            assert(r@[2]@ == want[2]);
            assert(r@.map_values(|c: Command| c@) =~= want);
        }
        r
    }
}

/// The hyphenated text of a UUID: 36 characters, `-` at positions 8, 13, 18
/// and 23, lower-case hexadecimal digits elsewhere.
pub open spec fn is_uuid_text(s: Seq<char>) -> bool {
    &&& s.len() == 36
    &&& forall|i: int| 0 <= i < 36 ==> (if i == 8 || i == 13 || i == 18 || i == 23 {
        #[trigger] s[i] == '-'
    } else {
        ('0' <= s[i] <= '9') || ('a' <= s[i] <= 'f')
    })
}

/// A fresh name for a recording: `uuid::Uuid::new_v4()` as text (its
/// `Display` form, the lower-case hyphenated one). The UUID is random, so the
/// contract states only the shape of the text, never its value.
#[verifier::external_body]
fn random_file_name() -> (r: String)
    ensures
        is_uuid_text(r@),
{
    uuid::Uuid::new_v4().to_string()
}

impl FlameExecutor {
    /// The path of a new recording: a fresh random name in the store directory.
    pub fn next_file_path(&self) -> (r: String)
        ensures
            exists|name: Seq<char>| is_uuid_text(name) && r@ == path_join_spec(self.store_dir@, name),
    {
        let name = random_file_name();
        let r = path_join(self.store_dir.as_str(), name.as_str());
        assert(is_uuid_text(name@) && r@ == path_join_spec(self.store_dir@, name@));
        r
    }
}

/// How one process of the flame-graph pipeline ended, once the last one did.
#[derive(Debug, Clone, Copy, PartialEq, Eq, Structural)]
pub enum StageOutcome {
    /// It had not finished.
    StillRunning,
    /// It exited, successfully or not.
    Exited { success: bool },
}

/// Why a flame-graph recording failed: the position of the process at fault
/// in the pipeline.
#[derive(Debug, Clone, Copy, PartialEq, Eq, Structural)]
pub enum PipelineFailure {
    /// It was still running when the last one finished.
    StillRunning { stage: usize },
    /// It exited unsuccessfully.
    Failed { stage: usize },
}

/// The position of the first process that did not exit successfully.
pub open spec fn first_unsuccessful(stages: Seq<StageOutcome>) -> Option<int>
    decreases stages.len(),
{
    if stages.len() == 0 {
        None
    } else {
        match first_unsuccessful(stages.drop_last()) {
            Some(k) => Some(k),
            None => if stages.last() == (StageOutcome::Exited { success: true }) {
                None
            } else {
                Some(stages.len() - 1)
            },
        }
    }
}

/// The record of a flame-graph recording written to `path`. `last` is how
/// the last process ended (`None`: it timed out) and `earlier` how the others
/// had. A timeout is recorded as such; otherwise the last process, then each
/// earlier one in order, must have exited successfully.
pub fn pipeline_result(path: String, last: Option<bool>, earlier: &Vec<StageOutcome>) -> (r: Result<BenchmarkRecord, PipelineFailure>)
    ensures
        last is None ==> r == Ok::<BenchmarkRecord, PipelineFailure>(BenchmarkRecord::Timeout),
        last == Some(false) ==> r == Err::<BenchmarkRecord, PipelineFailure>(PipelineFailure::Failed { stage: earlier.len() }),
        last == Some(true) ==> match first_unsuccessful(earlier@) {
            None => r matches Ok(BenchmarkRecord::FilePath(p)) && p@ == path@,
            Some(k) => r == Err::<BenchmarkRecord, PipelineFailure>(if earlier@[k] == StageOutcome::StillRunning {
                PipelineFailure::StillRunning { stage: k as usize }
            } else {
                PipelineFailure::Failed { stage: k as usize }
            }),
        },
{
    match last {
        None => return Ok(BenchmarkRecord::Timeout),
        Some(false) => return Err(PipelineFailure::Failed { stage: earlier.len() }),
        Some(true) => {},
    }
    let mut i: usize = 0;
    while i < earlier.len()
        invariant
            i <= earlier.len(),
            last == Some(true),
            first_unsuccessful(earlier@.take(i as int)) is None,
        decreases earlier.len() - i,
    {
        assert(earlier@.take(i + 1).drop_last() =~= earlier@.take(i as int));
        match earlier[i] {
            StageOutcome::StillRunning => {
                proof {
                    lemma_first_unsuccessful_prefix(earlier@, (i + 1) as int);
                }
                return Err(PipelineFailure::StillRunning { stage: i });
            },
            StageOutcome::Exited { success: false } => {
                proof {
                    lemma_first_unsuccessful_prefix(earlier@, (i + 1) as int);
                }
                return Err(PipelineFailure::Failed { stage: i });
            },
            StageOutcome::Exited { success: true } => {},
        }
        i = i + 1;
    }
    assert(earlier@.take(earlier.len() as int) =~= earlier@);
    Ok(BenchmarkRecord::FilePath(path))
}

/// The first unsuccessful process of a prefix is the first of the whole.
pub proof fn lemma_first_unsuccessful_prefix(stages: Seq<StageOutcome>, k: int)
    requires
        0 <= k <= stages.len(),
        first_unsuccessful(stages.take(k)) is Some,
    ensures
        first_unsuccessful(stages) == first_unsuccessful(stages.take(k)),
    decreases stages.len() - k,
{
    if k < stages.len() {
        assert(stages.take(k + 1).drop_last() =~= stages.take(k));
        lemma_first_unsuccessful_prefix(stages, k + 1);
    } else {
        assert(stages.take(k) =~= stages);
    }
}

} // verus!
