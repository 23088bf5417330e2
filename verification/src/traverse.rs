//! Through a batch of upload jobs: which failure lets the batch go on, which
//! one ends it, and how the whole traversal ends.

use crate::arguments::Arguments;
use crate::execute::outcome_view;
use crate::execute::Execute;
use crate::execute::ExecuteArgs;
use crate::execute::ExecuteError;
use crate::execute::Failure;
use crate::execute::Job;
use crate::scan::jobs_view;
use crate::scan::scan;
use crate::scan::scanned;
use crate::scan::BasePath;
use crate::scan::Scan;
use vstd::prelude::*;
use vstd::string::*;

verus! {

/// Why a traversal ended early.
#[derive(Debug)]
pub enum TraverseError {
    /// Nothing is at the path that the user named.
    PathNotFound(String),
    /// The path that the user named is not a directory.
    PathNotDirectory(String),
    /// The base directory could not be read.
    DirectoryUnreadable { path: String, reason: String },
    /// An entry of `directory` could not be read.
    EntryUnreadable { directory: String, reason: String },
    /// A child directory could not be read.
    ChildUnreadable { path: String, reason: String },
    /// A child directory has no name that can be written as text.
    InvalidChildName,
    /// A grandchild directory has no name that can be written as text.
    InvalidGrandchildName,
    /// A job failed for want of authentication.
    AuthenticationFailed,
    /// A job failed because the client is not installed.
    ImmichCliMissing,
}

/// A `TraverseError` as a mathematical value.
pub enum Stop {
    PathNotFound(Seq<char>),
    PathNotDirectory(Seq<char>),
    DirectoryUnreadable { path: Seq<char>, reason: Seq<char> },
    EntryUnreadable { directory: Seq<char>, reason: Seq<char> },
    ChildUnreadable { path: Seq<char>, reason: Seq<char> },
    InvalidChildName,
    InvalidGrandchildName,
    AuthenticationFailed,
    ImmichCliMissing,
}

impl View for TraverseError {
    type V = Stop;

    open spec fn view(&self) -> Stop {
        match self {
            TraverseError::PathNotFound(path) => Stop::PathNotFound(path@),
            TraverseError::PathNotDirectory(path) => Stop::PathNotDirectory(path@),
            TraverseError::DirectoryUnreadable { path, reason } => Stop::DirectoryUnreadable {
                path: path@,
                reason: reason@,
            },
            TraverseError::EntryUnreadable { directory, reason } => Stop::EntryUnreadable {
                directory: directory@,
                reason: reason@,
            },
            TraverseError::ChildUnreadable { path, reason } => Stop::ChildUnreadable {
                path: path@,
                reason: reason@,
            },
            TraverseError::InvalidChildName => Stop::InvalidChildName,
            TraverseError::InvalidGrandchildName => Stop::InvalidGrandchildName,
            TraverseError::AuthenticationFailed => Stop::AuthenticationFailed,
            TraverseError::ImmichCliMissing => Stop::ImmichCliMissing,
        }
    }
}

impl Stop {
    /// The line that tells a user why the traversal ended.
    pub open spec fn message(self) -> Seq<char> {
        match self {
            Stop::PathNotFound(path) => "Path does not exist: "@ + path,
            Stop::PathNotDirectory(path) => "Path is not a directory: "@ + path,
            Stop::DirectoryUnreadable { path, .. } => "Failed to read directory: "@ + path,
            Stop::EntryUnreadable { directory, .. } => "Failed to read entry in "@ + directory,
            Stop::ChildUnreadable { path, .. } => "Failed to read child directory: "@ + path,
            Stop::InvalidChildName => "Invalid child directory name"@,
            Stop::InvalidGrandchildName => "Invalid grandchild directory name"@,
            Stop::AuthenticationFailed => "Aborting due to authentication failure"@,
            Stop::ImmichCliMissing => "Aborting because Immich CLI is not installed"@,
        }
    }

    /// Whether a job's failure ended the batch.
    pub open spec fn is_abort(self) -> bool {
        self is AuthenticationFailed || self is ImmichCliMissing
    }
}

impl TraverseError {
    /// The line that tells a user why the traversal ended.
    pub fn message(&self) -> (line: String)
        ensures
            line@ == self@.message(),
    {
        match self {
            TraverseError::PathNotFound(path) => {
                let mut line = String::from_str("Path does not exist: ");
                line.append(path.as_str());
                line
            },
            TraverseError::PathNotDirectory(path) => {
                let mut line = String::from_str("Path is not a directory: ");
                line.append(path.as_str());
                line
            },
            TraverseError::DirectoryUnreadable { path, .. } => {
                let mut line = String::from_str("Failed to read directory: ");
                line.append(path.as_str());
                line
            },
            TraverseError::EntryUnreadable { directory, .. } => {
                let mut line = String::from_str("Failed to read entry in ");
                line.append(directory.as_str());
                line
            },
            TraverseError::ChildUnreadable { path, .. } => {
                let mut line = String::from_str("Failed to read child directory: ");
                line.append(path.as_str());
                line
            },
            TraverseError::InvalidChildName => String::from_str("Invalid child directory name"),
            TraverseError::InvalidGrandchildName => String::from_str(
                "Invalid grandchild directory name",
            ),
            TraverseError::AuthenticationFailed => String::from_str(
                "Aborting due to authentication failure",
            ),
            TraverseError::ImmichCliMissing => String::from_str(
                "Aborting because Immich CLI is not installed",
            ),
        }
    }
}

/// The failure of a scan, as a mathematical value.
pub open spec fn stop_view(failure: Option<TraverseError>) -> Option<Stop> {
    match failure {
        Some(error) => Some(error@),
        None => None,
    }
}

/// The end of a traversal, as a mathematical value.
pub open spec fn traverse_view(end: Result<(), TraverseError>) -> Result<(), Stop> {
    match end {
        Ok(_) => Ok(()),
        Err(error) => Err(error@),
    }
}

/// The end that a job's outcome puts to the batch, if it puts one: a failure
/// of authentication and a missing client end it, anything else lets it go
/// on.
pub open spec fn abort_of(outcome: Result<(), Failure>) -> Option<Stop> {
    match outcome {
        Err(Failure::AuthFailed(_)) => Some(Stop::AuthenticationFailed),
        Err(Failure::ImmichCliNotFound(_)) => Some(Stop::ImmichCliMissing),
        _ => None,
    }
}

/// The outcomes in a record, as mathematical values.
pub open spec fn outcomes_view(log: Seq<Result<(), ExecuteError>>) -> Seq<Result<(), Failure>> {
    log.map_values(|outcome: Result<(), ExecuteError>| outcome_view(outcome))
}

/// `outcomes` is the course of a batch of `jobs` in the hands of `executor`:
/// the jobs were tried from the first on, in order and without a gap, and
/// `outcomes` holds what the executor ended each of them with; the batch
/// went on after every outcome that does not end it, and stopped right
/// after the first one that does.
pub open spec fn is_batch_course<E: Execute>(
    executor: &E,
    jobs: Seq<Job>,
    outcomes: Seq<Result<(), Failure>>,
) -> bool {
    &&& outcomes.len() <= jobs.len()
    &&& forall|i: int|
        0 <= i < outcomes.len() ==> executor.may_end_with(jobs[i], #[trigger] outcomes[i])
    &&& forall|i: int| 0 <= i < outcomes.len() - 1 ==> abort_of(#[trigger] outcomes[i]) is None
    &&& outcomes.len() < jobs.len() ==> outcomes.len() > 0 && abort_of(outcomes.last()) is Some
}

/// The end that the first of the outcomes to end a batch puts to it.
pub open spec fn first_abort(outcomes: Seq<Result<(), Failure>>) -> Option<Stop>
    decreases outcomes.len(),
{
    if outcomes.len() == 0 {
        None
    } else if abort_of(outcomes[0]) is Some {
        abort_of(outcomes[0])
    } else {
        first_abort(outcomes.drop_first())
    }
}

/// How a traversal ends when its jobs ended with `outcomes` and its scan
/// with `failure`: with the end that a job put to the batch; else with the
/// failure of the scan; else well.
pub open spec fn verdict(outcomes: Seq<Result<(), Failure>>, failure: Option<Stop>) -> Result<
    (),
    Stop,
> {
    match first_abort(outcomes) {
        Some(stop) => Err(stop),
        None => match failure {
            Some(stop) => Err(stop),
            None => Ok(()),
        },
    }
}

/// Whether the batch has to end after a job with this outcome, and how.
pub fn after_job(outcome: &Result<(), ExecuteError>) -> (abort: Option<TraverseError>)
    ensures
        stop_view(abort) == abort_of(outcome_view(*outcome)),
{
    match outcome {
        Err(ExecuteError::AuthFailed(_)) => Some(TraverseError::AuthenticationFailed),
        Err(ExecuteError::ImmichCliNotFound(_)) => Some(TraverseError::ImmichCliMissing),
        _ => None,
    }
}

/// Hands the jobs to `executor` one after the other, in order, and stops
/// after the first whose outcome ends the batch. The record holds what each
/// job that was tried ended with. What the outcomes are is up to the
/// executor.
pub fn run_batch<E: Execute>(executor: &E, jobs: &Vec<ExecuteArgs>) -> (log: Vec<
    Result<(), ExecuteError>,
>)
    ensures
        is_batch_course(executor, jobs_view(jobs@), outcomes_view(log@)),
{
    let mut log: Vec<Result<(), ExecuteError>> = Vec::new();
    let mut i: usize = 0;
    while i < jobs.len()
        invariant
            i <= jobs.len(),
            log.len() == i,
            forall|k: int|
                0 <= k < i ==> executor.may_end_with(
                    jobs@[k]@,
                    outcome_view(#[trigger] log@[k]),
                ),
            forall|k: int| 0 <= k < i ==> abort_of(outcome_view(#[trigger] log@[k])) is None,
        decreases jobs.len() - i,
    {
        let outcome = executor.execute(&jobs[i]);
        let abort = after_job(&outcome);
        log.push(outcome);
        if abort.is_some() {
            return log;
        }
        i += 1;
    }
    log
}

/// How a traversal ends when its jobs ended as `log` tells and its scan with
/// `failure`.
pub fn conclude(log: &Vec<Result<(), ExecuteError>>, failure: Option<TraverseError>) -> (end:
    Result<(), TraverseError>)
    ensures
        traverse_view(end) == verdict(outcomes_view(log@), stop_view(failure)),
{
    let ghost outcomes = outcomes_view(log@);
    let mut i: usize = 0;
    assert(outcomes.skip(0) =~= outcomes);
    while i < log.len()
        invariant
            i <= log.len(),
            outcomes == outcomes_view(log@),
            first_abort(outcomes.skip(i as int)) == first_abort(outcomes),
        decreases log.len() - i,
    {
        assert(outcomes.skip(i as int).drop_first() =~= outcomes.skip(i + 1));
        match after_job(&log[i]) {
            Some(abort) => {
                return Err(abort);
            },
            None => {},
        }
        i += 1;
    }
    match failure {
        Some(error) => Err(error),
        None => Ok(()),
    }
}

/// Uploads every grandchild directory of the directory that the user named:
/// scans what was found there, hands the jobs to `executor` in the order of
/// the listing, and stops at the first job that ends the batch. A job that
/// fails otherwise is left behind and the next one is tried. A failure of
/// the scan is reported once the jobs found before it are done.
///
/// The outcomes of the jobs are up to the executor. Whatever they are, the
/// traversal ends well only if the scan did, and it fails only with the end
/// that a job put to the batch or with the failure of the scan. Where there
/// is no job to do, the scan alone decides; so a path that is missing or no
/// directory is reported as such and no job is tried.
pub fn traverse<E: Execute>(arguments: &Arguments, base: &BasePath, executor: &E) -> (end: Result<
    (),
    TraverseError,
>)
    ensures
        exists|outcomes: Seq<Result<(), Failure>>|
            #[trigger] is_batch_course(executor, scanned(*base, arguments@).jobs, outcomes)
                && traverse_view(end) == verdict(outcomes, scanned(*base, arguments@).failure),
        end is Ok ==> scanned(*base, arguments@).failure is None,
        end matches Err(error) ==> error@.is_abort() || Some(error@) == scanned(
            *base,
            arguments@,
        ).failure,
        scanned(*base, arguments@).jobs.len() == 0 ==> traverse_view(end) == verdict(
            Seq::empty(),
            scanned(*base, arguments@).failure,
        ),
        *base is Missing ==> traverse_view(end) == Err::<(), Stop>(
            Stop::PathNotFound(arguments.path@),
        ),
        *base is NotDirectory ==> traverse_view(end) == Err::<(), Stop>(
            Stop::PathNotDirectory(arguments.path@),
        ),
{
    let Scan { jobs, failure } = scan(arguments, base);
    let log = run_batch(executor, &jobs);
    proof {
        let outcomes = outcomes_view(log@);
        lemma_first_abort_is_abort(outcomes);
        assert(is_batch_course(executor, scanned(*base, arguments@).jobs, outcomes));
    }
    conclude(&log, failure)
}

/// The end that a job puts to a batch is never one of the failures of a
/// scan.
pub proof fn lemma_first_abort_is_abort(outcomes: Seq<Result<(), Failure>>)
    ensures
        first_abort(outcomes) matches Some(stop) ==> stop.is_abort(),
    decreases outcomes.len(),
{
    if outcomes.len() > 0 && abort_of(outcomes[0]) is None {
        lemma_first_abort_is_abort(outcomes.drop_first());
    }
}

/// In the course of a batch no outcome but the last ends the batch: the
/// batch ended early exactly if the last outcome says so, and every job was
/// tried if it did not.
pub proof fn lemma_course_ends_at_first_abort<E: Execute>(
    executor: &E,
    jobs: Seq<Job>,
    outcomes: Seq<Result<(), Failure>>,
)
    requires
        is_batch_course(executor, jobs, outcomes),
    ensures
        first_abort(outcomes) is Some <==> outcomes.len() > 0 && abort_of(outcomes.last()) is Some,
        first_abort(outcomes) is Some ==> first_abort(outcomes) == abort_of(outcomes.last()),
        first_abort(outcomes) is None ==> outcomes.len() == jobs.len(),
    decreases outcomes.len(),
{
    if outcomes.len() > 1 {
        let rest = outcomes.drop_first();
        let rest_jobs = jobs.drop_first();
        assert forall|i: int| 0 <= i < rest.len() implies executor.may_end_with(
            rest_jobs[i],
            #[trigger] rest[i],
        ) by {
            assert(rest[i] == outcomes[i + 1]);
        }
        assert forall|i: int| 0 <= i < rest.len() - 1 implies abort_of(#[trigger] rest[i])
            is None by {
            assert(rest[i] == outcomes[i + 1]);
        }
        assert(rest.last() == outcomes.last());
        lemma_course_ends_at_first_abort(executor, rest_jobs, rest);
    } else if outcomes.len() == 1 {
        assert(first_abort(outcomes.drop_first()) is None);
    }
}

} // verus!
