//! One upload job: its command line, and what to make of each thing that the
//! caller reports while the command is looked for, started and waited for.

use crate::signal::is_raised;
use crate::signal::lowered_flag;
use crate::signal::raise_on;
use crate::signal::StopSignal;
use crate::text::contains;
use crate::text::decimal;
use crate::text::decimal_string;
use crate::text::lowercase_of;
use crate::text::occurs_in;
use crate::text::to_lowercase;
use std::sync::atomic::AtomicBool;
use std::sync::Arc;
use vstd::prelude::*;
use vstd::string::*;

verus! {

/// The name by which the upload client is started.
pub const IMMICH_CLI_COMMAND: &'static str = "immich";

/// The exit code with which the program ends when a stop signal has arrived.
pub const SIGNAL_EXIT_CODE: i32 = 130;

/// The pause between two looks at a running command, in milliseconds.
pub const POLL_INTERVAL_MILLIS: u64 = 100;

/// The exit code that is shown for a command that ended without one.
pub const MISSING_EXIT_CODE: i32 = -1;

/// Why a job failed.
#[derive(Debug)]
pub enum ExecuteError {
    /// The client asked for authentication. The batch cannot go on.
    AuthFailed(String),
    /// The client could not be found. The batch cannot go on.
    ImmichCliNotFound(String),
    /// Anything else. The job is given up and the batch goes on.
    Other(String),
}

/// An `ExecuteError` as a mathematical value.
pub enum Failure {
    AuthFailed(Seq<char>),
    ImmichCliNotFound(Seq<char>),
    Other(Seq<char>),
}

impl View for ExecuteError {
    type V = Failure;

    open spec fn view(&self) -> Failure {
        match self {
            ExecuteError::AuthFailed(message) => Failure::AuthFailed(message@),
            ExecuteError::ImmichCliNotFound(place) => Failure::ImmichCliNotFound(place@),
            ExecuteError::Other(message) => Failure::Other(message@),
        }
    }
}

impl Failure {
    /// The line that tells a user of the failure.
    pub open spec fn message(self) -> Seq<char> {
        match self {
            Failure::AuthFailed(message) => "Authentication failed: "@ + message,
            Failure::ImmichCliNotFound(place) => "Immich CLI not found at "@ + place,
            Failure::Other(message) => message,
        }
    }
}

impl ExecuteError {
    /// The line that tells a user of the failure.
    pub fn message(&self) -> (line: String)
        ensures
            line@ == self@.message(),
    {
        match self {
            ExecuteError::AuthFailed(message) => {
                let mut line = String::from_str("Authentication failed: ");
                line.append(message.as_str());
                line
            },
            ExecuteError::ImmichCliNotFound(place) => {
                let mut line = String::from_str("Immich CLI not found at ");
                line.append(place.as_str());
                line
            },
            ExecuteError::Other(message) => message.clone(),
        }
    }
}

/// What a job ended with, as a mathematical value.
pub open spec fn outcome_view(outcome: Result<(), ExecuteError>) -> Result<(), Failure> {
    match outcome {
        Ok(_) => Ok(()),
        Err(error) => Err(error@),
    }
}

/// One upload job: the directory to upload and the album to put it in.
#[derive(Debug)]
pub struct ExecuteArgs {
    /// The directory whose contents are uploaded.
    pub path: String,
    /// The album that receives them.
    pub album_name: String,
    /// Whether the command is only shown and not run.
    pub dry_run: bool,
}

/// An `ExecuteArgs` as a mathematical value.
pub struct Job {
    pub path: Seq<char>,
    pub album_name: Seq<char>,
    pub dry_run: bool,
}

impl View for ExecuteArgs {
    type V = Job;

    open spec fn view(&self) -> Job {
        Job { path: self.path@, album_name: self.album_name@, dry_run: self.dry_run }
    }
}

impl Clone for ExecuteArgs {
    fn clone(&self) -> (copy: Self)
        ensures
            copy@ == self@,
    {
        ExecuteArgs {
            path: self.path.clone(),
            album_name: self.album_name.clone(),
            dry_run: self.dry_run,
        }
    }
}

/// Something that can carry out a job.
pub trait Execute {
    /// Whether `outcome` is a way in which this executor may end `job`.
    /// Unless an executor says otherwise, every outcome is.
    open spec fn may_end_with(&self, job: Job, outcome: Result<(), Failure>) -> bool {
        true
    }

    /// Carries out the job and says how it ended.
    fn execute(&self, args: &ExecuteArgs) -> (outcome: Result<(), ExecuteError>)
        ensures
            self.may_end_with(args@, outcome_view(outcome)),
    ;
}

/// The arguments that the client is started with for a job: a recursive
/// upload that takes hidden files along, runs 24 transfers at a time and puts
/// everything in the job's album.
pub open spec fn command_args_of(job: Job) -> Seq<Seq<char>> {
    seq!["upload"@, "-H"@, "-r"@, "-c"@, "24"@, "-A"@, job.album_name, job.path]
}

/// The command of a job as it is shown to a user, album and directory in
/// double quotes.
pub open spec fn command_display_of(job: Job) -> Seq<char> {
    "immich upload -H -r -c 24 -A \""@ + job.album_name + "\" \""@ + job.path + "\""@
}

/// The command that is shown for a job is the command that is run for it:
/// the name of the client and then the arguments, in their order, each after
/// a blank, with the album and the directory in double quotes.
pub proof fn lemma_display_shows_the_arguments(job: Job)
    ensures
        command_args_of(job).len() == 8,
        command_display_of(job) == IMMICH_CLI_COMMAND@ + " "@ + command_args_of(job)[0] + " "@
            + command_args_of(job)[1] + " "@ + command_args_of(job)[2] + " "@ + command_args_of(
            job,
        )[3] + " "@ + command_args_of(job)[4] + " "@ + command_args_of(job)[5] + " \""@
            + command_args_of(job)[6] + "\" \""@ + command_args_of(job)[7] + "\""@,
{
    reveal_strlit("immich");
    reveal_strlit(" ");
    reveal_strlit("upload");
    reveal_strlit("-H");
    reveal_strlit("-r");
    reveal_strlit("-c");
    reveal_strlit("24");
    reveal_strlit("-A");
    reveal_strlit(" \"");
    reveal_strlit("immich upload -H -r -c 24 -A \"");
}

/// What the search for the client found.
#[derive(Debug)]
pub enum CliProbe {
    /// The client could be started.
    Started,
    /// No program of that name was found.
    NotFound,
    /// The search failed otherwise, for the reason given.
    Failed(String),
}

/// The result of a search for the client.
pub open spec fn probe_outcome(probe: CliProbe) -> Result<(), Failure> {
    match probe {
        CliProbe::Started => Ok(()),
        CliProbe::NotFound => Err(
            Failure::ImmichCliNotFound("'immich' command not found in PATH"@),
        ),
        CliProbe::Failed(reason) => Err(
            Failure::Other("Failed to check for 'immich' command: "@ + reason@),
        ),
    }
}

/// What is to be done for a job once the client has been looked for.
#[derive(Debug)]
pub enum Prepared {
    /// The job is over and no process is started for it. After a dry run
    /// `shown` holds the command that a real run would have started.
    Over { outcome: Result<(), ExecuteError>, shown: Option<String> },
    /// The client is to be started with `command_args`; `command_line` shows
    /// the same command to a user.
    Start { command_args: Vec<String>, command_line: String },
}

/// `Prepared` as a mathematical value.
pub enum PreparedView {
    Over { outcome: Result<(), Failure>, shown: Option<Seq<char>> },
    Start { command_args: Seq<Seq<char>>, command_line: Seq<char> },
}

impl View for Prepared {
    type V = PreparedView;

    open spec fn view(&self) -> PreparedView {
        match self {
            Prepared::Over { outcome, shown } => PreparedView::Over {
                outcome: outcome_view(*outcome),
                shown: match shown {
                    Some(line) => Some(line@),
                    None => None,
                },
            },
            Prepared::Start { command_args, command_line } => PreparedView::Start {
                command_args: command_args.deep_view(),
                command_line: command_line@,
            },
        }
    }
}

/// What is to be done for `job` when the search for the client gave `probe`:
/// without the client the job fails, a dry run ends well with the command
/// line to show, and any other job has the client started.
pub open spec fn prepared_for(job: Job, probe: CliProbe) -> PreparedView {
    if probe_outcome(probe) is Err {
        PreparedView::Over { outcome: probe_outcome(probe), shown: None }
    } else if job.dry_run {
        PreparedView::Over { outcome: Ok(()), shown: Some(command_display_of(job)) }
    } else {
        PreparedView::Start {
            command_args: command_args_of(job),
            command_line: command_display_of(job),
        }
    }
}

/// How the attempt to start the client went.
#[derive(Debug)]
pub enum Launch {
    /// The client runs, and both of its output streams are being read.
    Running,
    /// The working directory could not be told, for the reason given.
    NoWorkingDirectory(String),
    /// The client could not be started, for the reason given.
    SpawnFailed(String),
    /// The client runs but its standard output cannot be read.
    NoStdout,
    /// The client runs but its standard error cannot be read.
    NoStderr,
}

/// The failure that an attempt to start the command shown as `display` ends
/// the job with, if any.
pub open spec fn launch_failure_of(launch: Launch, display: Seq<char>) -> Option<Failure> {
    match launch {
        Launch::Running => None,
        Launch::NoWorkingDirectory(reason) => Some(
            Failure::Other("Failed to get current working directory: "@ + reason@),
        ),
        Launch::SpawnFailed(reason) => Some(
            Failure::Other("Failed to spawn command '"@ + display + "': "@ + reason@),
        ),
        Launch::NoStdout => Some(Failure::Other("Failed to capture stdout"@)),
        Launch::NoStderr => Some(Failure::Other("Failed to capture stderr"@)),
    }
}

/// What the look at the cancellation flag asks for.
#[derive(Debug, Clone, Copy, PartialEq, Eq, Structural)]
pub enum SignalStep {
    /// No signal has arrived: go on.
    Continue,
    /// A signal has arrived: kill the running command, if there is one, and
    /// end the program with `exit_code`.
    Terminate { exit_code: i32 },
}

/// What a look at a started command found.
#[derive(Debug)]
pub enum Poll {
    /// It still runs.
    Running,
    /// It has ended, with this exit code if it ended by itself.
    Exited(Option<i32>),
    /// Its state could not be read, for the reason given.
    Failed(String),
}

/// What is to be done after a look at a started command.
#[derive(Debug)]
pub enum WaitStep {
    /// Pause for `millis` milliseconds, then look at the flag and the command
    /// again.
    Sleep { millis: u64 },
    /// The command has ended: wait for both output streams to be read to
    /// their end, then classify `code` with the lines of standard error.
    Collect { code: Option<i32> },
    /// The job ends with this failure.
    Fail(ExecuteError),
}

/// `WaitStep` as a mathematical value.
pub enum WaitStepView {
    Sleep { millis: u64 },
    Collect { code: Option<i32> },
    Fail(Failure),
}

impl View for WaitStep {
    type V = WaitStepView;

    open spec fn view(&self) -> WaitStepView {
        match self {
            WaitStep::Sleep { millis } => WaitStepView::Sleep { millis: *millis },
            WaitStep::Collect { code } => WaitStepView::Collect { code: *code },
            WaitStep::Fail(error) => WaitStepView::Fail(error@),
        }
    }
}

/// What is to be done after a look at a started command found `poll`.
pub open spec fn wait_step_of(poll: Poll) -> WaitStepView {
    match poll {
        Poll::Running => WaitStepView::Sleep { millis: POLL_INTERVAL_MILLIS },
        Poll::Exited(code) => WaitStepView::Collect { code },
        Poll::Failed(reason) => WaitStepView::Fail(
            Failure::Other("Error waiting for process: "@ + reason@),
        ),
    }
}

/// A line that is already in lowercase names one of the words by which a
/// request for authentication is known.
pub open spec fn has_auth_token(lowered: Seq<char>) -> bool {
    ||| occurs_in("auth"@, lowered)
    ||| occurs_in("login"@, lowered)
    ||| occurs_in("credential"@, lowered)
    ||| occurs_in("unauthorized"@, lowered)
}

/// A line speaks of authentication: its lowercase form names one of the
/// words.
pub open spec fn speaks_of_auth(line: Seq<char>) -> bool {
    has_auth_token(lowercase_of(line))
}

/// One of the lines, each already in lowercase, names one of the words.
pub open spec fn some_has_auth_token(lowered: Seq<String>) -> bool {
    exists|i: int| 0 <= i < lowered.len() && has_auth_token(#[trigger] lowered[i]@)
}

/// One of the lines speaks of authentication.
pub open spec fn any_speaks_of_auth(lines: Seq<String>) -> bool {
    exists|i: int| 0 <= i < lines.len() && speaks_of_auth(#[trigger] lines[i]@)
}

/// The exit code that is shown for a command that ended with `code`.
pub open spec fn shown_code(code: Option<i32>) -> int {
    match code {
        Some(c) => c as int,
        None => MISSING_EXIT_CODE as int,
    }
}

/// What a job ends with when its command, shown as `display`, ended with
/// `code`, and `auth_seen` tells whether its standard error spoke of
/// authentication. Only the exit code 0 is a success.
pub open spec fn outcome_of_exit(code: Option<i32>, auth_seen: bool, display: Seq<char>) -> Result<
    (),
    Failure,
> {
    if code == Some(0i32) {
        Ok(())
    } else if auth_seen {
        Err(
            Failure::AuthFailed(
                "Immich CLI authentication required. Exit code: "@ + decimal(shown_code(code))
                    + ". Please authenticate first."@,
            ),
        )
    } else {
        Err(
            Failure::Other(
                "Command '"@ + display + "' failed with exit code "@ + decimal(shown_code(code)),
            ),
        )
    }
}

/// Runs the jobs' commands, as far as that is a matter of rules: it says what
/// to do next, and the caller does it.
pub struct Executer {
    signal_received: Arc<AtomicBool>,
}

impl Executer {
    /// An executer whose flag is raised when the program is interrupted or
    /// asked to terminate. Where a handler cannot be installed, the flag is
    /// never raised by that signal.
    pub fn new() -> Self {
        let signal_received = lowered_flag();
        let _ = raise_on(StopSignal::Interrupt, &signal_received);
        let _ = raise_on(StopSignal::Terminate, &signal_received);
        Executer { signal_received }
    }

    /// An executer that watches a flag of the caller's.
    pub fn with_flag(signal_received: Arc<AtomicBool>) -> (executer: Self)
        ensures
            executer.flag() == signal_received,
    {
        Executer { signal_received }
    }

    /// The flag that the executer watches.
    pub closed spec fn flag(&self) -> Arc<AtomicBool> {
        self.signal_received
    }

    /// The arguments that the client is started with for the job.
    pub fn build_command_args(&self, args: &ExecuteArgs) -> (command_args: Vec<String>)
        ensures
            command_args.deep_view() == command_args_of(args@),
    {
        let mut command_args: Vec<String> = Vec::new();
        command_args.push(String::from_str("upload"));
        command_args.push(String::from_str("-H"));
        command_args.push(String::from_str("-r"));
        command_args.push(String::from_str("-c"));
        command_args.push(String::from_str("24"));
        command_args.push(String::from_str("-A"));
        command_args.push(args.album_name.clone());
        command_args.push(args.path.clone());
        command_args
    }

    /// The command of the job as it is shown to a user.
    pub fn format_command_display(&self, args: &ExecuteArgs) -> (display: String)
        ensures
            display@ == command_display_of(args@),
    {
        let mut display = String::from_str("immich upload -H -r -c 24 -A \"");
        display.append(args.album_name.as_str());
        display.append("\" \"");
        display.append(args.path.as_str());
        display.append("\"");
        display
    }

    /// Whether the client can be used, given what the search for it found.
    pub fn check_immich_cli_exists(probe: &CliProbe) -> (found: Result<(), ExecuteError>)
        ensures
            outcome_view(found) == probe_outcome(*probe),
    {
        match probe {
            CliProbe::Started => Ok(()),
            CliProbe::NotFound => Err(
                ExecuteError::ImmichCliNotFound(
                    String::from_str("'immich' command not found in PATH"),
                ),
            ),
            CliProbe::Failed(reason) => {
                let mut message = String::from_str("Failed to check for 'immich' command: ");
                message.append(reason.as_str());
                Err(ExecuteError::Other(message))
            },
        }
    }

    /// What is to be done for a job, given what the search for the client
    /// found. A dry run never has the client started, and ends well whenever
    /// the client was found.
    pub fn prepare(&self, args: &ExecuteArgs, probe: &CliProbe) -> (prepared: Prepared)
        ensures
            prepared@ == prepared_for(args@, *probe),
            args.dry_run ==> prepared is Over,
            args.dry_run && *probe is Started ==> prepared@ == (PreparedView::Over {
                outcome: Ok(()),
                shown: Some(command_display_of(args@)),
            }),
    {
        match Self::check_immich_cli_exists(probe) {
            Err(error) => Prepared::Over { outcome: Err(error), shown: None },
            Ok(_) => {
                let command_args = self.build_command_args(args);
                let command_line = self.format_command_display(args);
                if args.dry_run {
                    Prepared::Over { outcome: Ok(()), shown: Some(command_line) }
                } else {
                    Prepared::Start { command_args, command_line }
                }
            },
        }
    }

    /// The failure that the job ends with after the attempt to start its
    /// command, shown as `display`; none when the command runs.
    pub fn launch_failure(launch: &Launch, display: &str) -> (failure: Option<ExecuteError>)
        ensures
            failure is Some <==> launch_failure_of(*launch, display@) is Some,
            failure matches Some(error) ==> Some(error@) == launch_failure_of(*launch, display@),
    {
        match launch {
            Launch::Running => None,
            Launch::NoWorkingDirectory(reason) => {
                let mut message = String::from_str("Failed to get current working directory: ");
                message.append(reason.as_str());
                Some(ExecuteError::Other(message))
            },
            Launch::SpawnFailed(reason) => {
                let mut message = String::from_str("Failed to spawn command '");
                message.append(display);
                message.append("': ");
                message.append(reason.as_str());
                Some(ExecuteError::Other(message))
            },
            Launch::NoStdout => Some(
                ExecuteError::Other(String::from_str("Failed to capture stdout")),
            ),
            Launch::NoStderr => Some(
                ExecuteError::Other(String::from_str("Failed to capture stderr")),
            ),
        }
    }

    /// What a look at the flag asks for: once it is raised, the end of the
    /// program with the exit code of an interrupted one.
    pub fn signal_step(received: bool) -> (step: SignalStep)
        ensures
            received ==> step == (SignalStep::Terminate { exit_code: SIGNAL_EXIT_CODE }),
            !received ==> step == SignalStep::Continue,
    {
        if received {
            SignalStep::Terminate { exit_code: SIGNAL_EXIT_CODE }
        } else {
            SignalStep::Continue
        }
    }

    /// Looks at the flag. A signal may arrive at any moment, so nothing says
    /// which of the two steps comes back; the exit code is always the same.
    pub fn check_signal(&self) -> (step: SignalStep)
        ensures
            step == SignalStep::Continue || step == (SignalStep::Terminate {
                exit_code: SIGNAL_EXIT_CODE,
            }),
    {
        Self::signal_step(is_raised(&self.signal_received))
    }

    /// What is to be done after a look at the started command.
    pub fn wait_step(poll: &Poll) -> (step: WaitStep)
        ensures
            step@ == wait_step_of(*poll),
    {
        match poll {
            Poll::Running => WaitStep::Sleep { millis: POLL_INTERVAL_MILLIS },
            Poll::Exited(code) => WaitStep::Collect { code: *code },
            Poll::Failed(reason) => {
                let mut message = String::from_str("Error waiting for process: ");
                message.append(reason.as_str());
                WaitStep::Fail(ExecuteError::Other(message))
            },
        }
    }

    /// Whether a line that is already in lowercase names one of the words
    /// `auth`, `login`, `credential`, `unauthorized`.
    pub fn names_auth_token(lowered: &str) -> (named: bool)
        ensures
            named == has_auth_token(lowered@),
    {
        contains(lowered, "auth") || contains(lowered, "login") || contains(lowered, "credential")
            || contains(lowered, "unauthorized")
    }

    /// Whether one of the lines, each already in lowercase, names one of the
    /// words.
    pub fn any_names_auth_token(lowered: &Vec<String>) -> (named: bool)
        ensures
            named == some_has_auth_token(lowered@),
    {
        let mut i: usize = 0;
        while i < lowered.len()
            invariant
                i <= lowered.len(),
                forall|k: int| 0 <= k < i ==> !has_auth_token(#[trigger] lowered@[k]@),
            decreases lowered.len() - i,
        {
            if Self::names_auth_token(lowered[i].as_str()) {
                return true;
            }
            i += 1;
        }
        false
    }

    /// The lines in lowercase, one for one.
    pub fn lowercase_lines(lines: &Vec<String>) -> (lowered: Vec<String>)
        ensures
            lowered.len() == lines.len(),
            forall|i: int|
                0 <= i < lines.len() ==> #[trigger] lowered@[i]@ == lowercase_of(lines@[i]@),
    {
        let mut lowered: Vec<String> = Vec::new();
        let mut i: usize = 0;
        while i < lines.len()
            invariant
                i <= lines.len(),
                lowered.len() == i,
                forall|k: int| 0 <= k < i ==> #[trigger] lowered@[k]@ == lowercase_of(lines@[k]@),
            decreases lines.len() - i,
        {
            lowered.push(to_lowercase(lines[i].as_str()));
            i += 1;
        }
        lowered
    }

    /// What a job ends with when its command, shown as `display`, ended with
    /// `code`, and `auth_seen` tells whether its standard error spoke of
    /// authentication.
    pub fn exit_outcome(code: Option<i32>, auth_seen: bool, display: &str) -> (outcome: Result<
        (),
        ExecuteError,
    >)
        ensures
            outcome_view(outcome) == outcome_of_exit(code, auth_seen, display@),
    {
        let shown: i32 = match code {
            Some(c) => {
                if c == 0 {
                    return Ok(());
                }
                c
            },
            None => MISSING_EXIT_CODE,
        };
        let number = decimal_string(shown);
        if auth_seen {
            let mut message = String::from_str("Immich CLI authentication required. Exit code: ");
            message.append(number.as_str());
            message.append(". Please authenticate first.");
            Err(ExecuteError::AuthFailed(message))
        } else {
            let mut message = String::from_str("Command '");
            message.append(display);
            message.append("' failed with exit code ");
            message.append(number.as_str());
            Err(ExecuteError::Other(message))
        }
    }

    /// What a job ends with when its command, shown as `display`, ended with
    /// `code` and wrote `error_lines` to its standard error. The exit code 0
    /// is a success whatever was written. Any other end is an authentication
    /// failure if one of the lines speaks of authentication, and an ordinary
    /// failure if none does.
    pub fn classify_exit(code: Option<i32>, error_lines: &Vec<String>, display: &str) -> (outcome:
        Result<(), ExecuteError>)
        ensures
            outcome_view(outcome) == outcome_of_exit(
                code,
                any_speaks_of_auth(error_lines@),
                display@,
            ),
            code == Some(0i32) ==> outcome is Ok,
            code != Some(0i32) && any_speaks_of_auth(error_lines@) ==> outcome matches Err(
                ExecuteError::AuthFailed(_),
            ),
            code != Some(0i32) && !any_speaks_of_auth(error_lines@) ==> outcome matches Err(
                ExecuteError::Other(_),
            ),
    {
        let lowered = Self::lowercase_lines(error_lines);
        let auth_seen = Self::any_names_auth_token(&lowered);
        proof {
            if some_has_auth_token(lowered@) {
                let i = choose|i: int|
                    0 <= i < lowered.len() && has_auth_token(#[trigger] lowered@[i]@);
                assert(speaks_of_auth(error_lines@[i]@));
            }
            if any_speaks_of_auth(error_lines@) {
                let i = choose|i: int|
                    0 <= i < error_lines.len() && speaks_of_auth(#[trigger] error_lines@[i]@);
                assert(has_auth_token(lowered@[i]@));
            }
        }
        Self::exit_outcome(code, auth_seen, display)
    }
}

} // verus!
