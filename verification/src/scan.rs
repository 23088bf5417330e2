//! From a directory listing to upload jobs.
//!
//! The listing is what the caller read from the file system, two levels deep
//! and in the order in which the file system gave it, with every failure to
//! read left at the place where it occurred.

use crate::arguments::Arguments;
use crate::arguments::Request;
use crate::execute::ExecuteArgs;
use crate::execute::Job;
use crate::text::eq_ignore_ascii_case;
use crate::text::eq_ignoring_ascii_case;
use crate::traverse::stop_view;
use crate::traverse::Stop;
use crate::traverse::TraverseError;
use vstd::prelude::*;
use vstd::string::*;

verus! {

/// An entry of a child directory.
#[derive(Debug)]
pub enum GrandchildEntry {
    /// The entry could not be read, for the reason given.
    Unreadable(String),
    /// The entry is not a directory.
    NotDirectory,
    /// The entry is a directory; `name` is its last component, where that can
    /// be written as text.
    Directory { path: String, name: Option<String> },
}

/// An entry of the base directory.
#[derive(Debug)]
pub enum ChildEntry {
    /// The entry could not be read, for the reason given.
    Unreadable(String),
    /// The entry is not a directory.
    NotDirectory,
    /// The entry is a directory; `name` is its last component, where that can
    /// be written as text, and `entries` is what reading it gave: its
    /// entries, or the reason for which it could not be read.
    Directory { path: String, name: Option<String>, entries: Result<Vec<GrandchildEntry>, String> },
}

/// What was found at the path that the user named.
#[derive(Debug)]
pub enum BasePath {
    /// Nothing is there.
    Missing,
    /// Something is there that is not a directory.
    NotDirectory,
    /// A directory is there, and reading it gave its entries, or failed for
    /// the reason given.
    Directory(Result<Vec<ChildEntry>, String>),
}

/// The name `other`, in any mix of capital and small letters.
pub open spec fn is_other(name: Seq<char>) -> bool {
    eq_ignoring_ascii_case(name, "other"@)
}

/// The album of a grandchild directory: its own name, unless that is `other`
/// in any mix of capital and small letters; then the name of its parent.
pub open spec fn album_name_of(child_name: Seq<char>, grandchild_name: Seq<char>) -> Seq<char> {
    if is_other(grandchild_name) {
        child_name
    } else {
        grandchild_name
    }
}

/// The album of a grandchild directory.
pub fn album_name(child_name: &str, grandchild_name: &str) -> (album: String)
    ensures
        album@ == album_name_of(child_name@, grandchild_name@),
        is_other(grandchild_name@) ==> album@ == child_name@,
        !is_other(grandchild_name@) ==> album@ == grandchild_name@,
{
    if eq_ignore_ascii_case(grandchild_name, "other") {
        String::from_str(child_name)
    } else {
        String::from_str(grandchild_name)
    }
}

/// A directory has a name to go by: one that can be written as text and is
/// not empty.
pub open spec fn usable_name(name: Option<String>) -> bool {
    name matches Some(text) && text@.len() > 0
}

/// What a scan gives: the jobs found, in the order of the listing, up to the
/// first thing that could not be read or named, and that failure.
pub struct Scanned {
    pub jobs: Seq<Job>,
    pub failure: Option<Stop>,
}

/// The scan of the entries of one child directory.
pub open spec fn scan_grandchildren(
    child_name: Seq<char>,
    child_path: Seq<char>,
    entries: Seq<GrandchildEntry>,
    dry_run: bool,
) -> Scanned
    decreases entries.len(),
{
    if entries.len() == 0 {
        Scanned { jobs: Seq::empty(), failure: None }
    } else {
        match entries[0] {
            GrandchildEntry::Unreadable(reason) => Scanned {
                jobs: Seq::empty(),
                failure: Some(Stop::EntryUnreadable { directory: child_path, reason: reason@ }),
            },
            GrandchildEntry::NotDirectory => scan_grandchildren(
                child_name,
                child_path,
                entries.drop_first(),
                dry_run,
            ),
            GrandchildEntry::Directory { path, name } => {
                if usable_name(name) {
                    let rest = scan_grandchildren(
                        child_name,
                        child_path,
                        entries.drop_first(),
                        dry_run,
                    );
                    Scanned {
                        jobs: seq![
                            Job {
                                path: path@,
                                album_name: album_name_of(child_name, name.unwrap()@),
                                dry_run,
                            },
                        ] + rest.jobs,
                        failure: rest.failure,
                    }
                } else {
                    Scanned { jobs: Seq::empty(), failure: Some(Stop::InvalidGrandchildName) }
                }
            },
        }
    }
}

/// The scan of the entries of the base directory, which is at `base_path`.
pub open spec fn scan_children(
    base_path: Seq<char>,
    entries: Seq<ChildEntry>,
    dry_run: bool,
) -> Scanned
    decreases entries.len(),
{
    if entries.len() == 0 {
        Scanned { jobs: Seq::empty(), failure: None }
    } else {
        match entries[0] {
            ChildEntry::Unreadable(reason) => Scanned {
                jobs: Seq::empty(),
                failure: Some(Stop::EntryUnreadable { directory: base_path, reason: reason@ }),
            },
            ChildEntry::NotDirectory => scan_children(base_path, entries.drop_first(), dry_run),
            ChildEntry::Directory { path, name, entries: inner } => {
                if !usable_name(name) {
                    Scanned { jobs: Seq::empty(), failure: Some(Stop::InvalidChildName) }
                } else {
                    match inner {
                        Err(reason) => Scanned {
                            jobs: Seq::empty(),
                            failure: Some(Stop::ChildUnreadable { path: path@, reason: reason@ }),
                        },
                        Ok(grandchildren) => {
                            let first = scan_grandchildren(
                                name.unwrap()@,
                                path@,
                                grandchildren@,
                                dry_run,
                            );
                            if first.failure is Some {
                                first
                            } else {
                                let rest = scan_children(base_path, entries.drop_first(), dry_run);
                                Scanned { jobs: first.jobs + rest.jobs, failure: rest.failure }
                            }
                        },
                    }
                }
            },
        }
    }
}

/// The scan of what was found at the path that the user named.
pub open spec fn scanned(base: BasePath, request: Request) -> Scanned {
    match base {
        BasePath::Missing => Scanned {
            jobs: Seq::empty(),
            failure: Some(Stop::PathNotFound(request.path)),
        },
        BasePath::NotDirectory => Scanned {
            jobs: Seq::empty(),
            failure: Some(Stop::PathNotDirectory(request.path)),
        },
        BasePath::Directory(Err(reason)) => Scanned {
            jobs: Seq::empty(),
            failure: Some(Stop::DirectoryUnreadable { path: request.path, reason: reason@ }),
        },
        BasePath::Directory(Ok(children)) => scan_children(
            request.path,
            children@,
            request.dry_run,
        ),
    }
}

/// The number of directories among the entries of a child directory.
pub open spec fn grandchild_directories(entries: Seq<GrandchildEntry>) -> nat
    decreases entries.len(),
{
    if entries.len() == 0 {
        0
    } else {
        (if entries[0] is Directory {
            1nat
        } else {
            0nat
        }) + grandchild_directories(entries.drop_first())
    }
}

/// The entries of a child entry: what reading it gave if it is a directory
/// that could be read, and nothing otherwise.
pub open spec fn entries_of(entry: ChildEntry) -> Seq<GrandchildEntry> {
    match entry {
        ChildEntry::Directory { entries: Ok(grandchildren), .. } => grandchildren@,
        _ => Seq::empty(),
    }
}

/// The number of grandchild directories that a child entry holds.
pub open spec fn grandchildren_of(entry: ChildEntry) -> nat {
    grandchild_directories(entries_of(entry))
}

/// The number of pairs of a child directory and a grandchild directory in
/// it, over the entries of the base directory.
pub open spec fn directory_pairs(entries: Seq<ChildEntry>) -> nat
    decreases entries.len(),
{
    if entries.len() == 0 {
        0
    } else {
        grandchildren_of(entries[0]) + directory_pairs(entries.drop_first())
    }
}

/// The place of the `k`-th directory among the entries of a child
/// directory, counting from 0.
pub open spec fn directory_at(entries: Seq<GrandchildEntry>, k: int) -> int
    decreases entries.len(),
{
    if entries.len() == 0 {
        0
    } else if entries[0] is Directory && k == 0 {
        0
    } else if entries[0] is Directory {
        1 + directory_at(entries.drop_first(), k - 1)
    } else {
        1 + directory_at(entries.drop_first(), k)
    }
}

/// The place of the `k`-th pair of a child directory and a grandchild
/// directory in a listing, counting from 0 in the order of the listing: the
/// place of the child among the entries of the base directory, and the place
/// of the grandchild among the entries of the child.
pub open spec fn pair_at(children: Seq<ChildEntry>, k: int) -> (int, int)
    decreases children.len(),
{
    if children.len() == 0 {
        (0, 0)
    } else if k < grandchildren_of(children[0]) {
        (0, directory_at(entries_of(children[0]), k))
    } else {
        let rest = pair_at(children.drop_first(), k - grandchildren_of(children[0]));
        (rest.0 + 1, rest.1)
    }
}

/// `job` is the job of the grandchild directory `grandchild` of the child
/// directory `child`: it uploads the grandchild, to the album that the rule
/// of names gives the two.
pub open spec fn is_job_of(
    job: Job,
    child: ChildEntry,
    grandchild: GrandchildEntry,
    dry_run: bool,
) -> bool {
    &&& child matches ChildEntry::Directory { name: child_name, .. }
    &&& usable_name(child_name)
    &&& grandchild matches GrandchildEntry::Directory { path, name }
    &&& usable_name(name)
    &&& job == Job {
        path: path@,
        album_name: album_name_of(child_name.unwrap()@, name.unwrap()@),
        dry_run,
    }
}

/// `job` is the job of the `j`-th entry of the `i`-th child.
pub open spec fn stems_from(
    job: Job,
    children: Seq<ChildEntry>,
    i: int,
    j: int,
    dry_run: bool,
) -> bool {
    &&& 0 <= i < children.len()
    &&& children[i] matches ChildEntry::Directory { entries: Ok(grandchildren), .. }
    &&& 0 <= j < grandchildren@.len()
    &&& is_job_of(job, children[i], grandchildren@[j], dry_run)
}

/// The jobs in a list, as mathematical values.
pub open spec fn jobs_view(jobs: Seq<ExecuteArgs>) -> Seq<Job> {
    jobs.map_values(|job: ExecuteArgs| job@)
}

/// What a scan found.
#[derive(Debug)]
pub struct Scan {
    /// The jobs, in the order of the listing.
    pub jobs: Vec<ExecuteArgs>,
    /// What ended the scan early, if anything did.
    pub failure: Option<TraverseError>,
}

impl View for Scan {
    type V = Scanned;

    open spec fn view(&self) -> Scanned {
        Scanned { jobs: jobs_view(self.jobs@), failure: stop_view(self.failure) }
    }
}

/// The name that a directory goes by, if it has one.
fn name_to_go_by(name: &Option<String>) -> (text: Option<&str>)
    ensures
        text is Some <==> usable_name(*name),
        text matches Some(t) ==> t@ == name.unwrap()@,
{
    match name {
        Some(text) => {
            if text.as_str().is_empty() {
                None
            } else {
                Some(text.as_str())
            }
        },
        None => None,
    }
}

/// Scans the entries of one child directory and adds its jobs to `jobs`.
fn scan_grandchildren_into(
    jobs: &mut Vec<ExecuteArgs>,
    child_name: &str,
    child_path: &str,
    entries: &Vec<GrandchildEntry>,
    dry_run: bool,
) -> (failure: Option<TraverseError>)
    ensures
        jobs_view(final(jobs)@) == jobs_view(old(jobs)@) + scan_grandchildren(
            child_name@,
            child_path@,
            entries@,
            dry_run,
        ).jobs,
        stop_view(failure) == scan_grandchildren(
            child_name@,
            child_path@,
            entries@,
            dry_run,
        ).failure,
{
    let ghost whole = scan_grandchildren(child_name@, child_path@, entries@, dry_run);
    let mut i: usize = 0;
    assert(entries@.skip(0) =~= entries@);
    while i < entries.len()
        invariant
            i <= entries.len(),
            whole == scan_grandchildren(child_name@, child_path@, entries@, dry_run),
            jobs_view(jobs@) + scan_grandchildren(
                child_name@,
                child_path@,
                entries@.skip(i as int),
                dry_run,
            ).jobs == jobs_view(old(jobs)@) + whole.jobs,
            scan_grandchildren(child_name@, child_path@, entries@.skip(i as int), dry_run).failure
                == whole.failure,
        decreases entries.len() - i,
    {
        assert(entries@.skip(i as int).drop_first() =~= entries@.skip(i + 1));
        match &entries[i] {
            GrandchildEntry::Unreadable(reason) => {
                return Some(
                    TraverseError::EntryUnreadable {
                        directory: String::from_str(child_path),
                        reason: reason.clone(),
                    },
                );
            },
            GrandchildEntry::NotDirectory => {},
            GrandchildEntry::Directory { path, name } => {
                match name_to_go_by(name) {
                    None => {
                        return Some(TraverseError::InvalidGrandchildName);
                    },
                    Some(text) => {
                        let job = ExecuteArgs {
                            path: path.clone(),
                            album_name: album_name(child_name, text),
                            dry_run,
                        };
                        jobs.push(job);
                    },
                }
            },
        }
        i += 1;
    }
    None
}

/// Scans the entries of the base directory and adds their jobs to `jobs`.
fn scan_children_into(
    jobs: &mut Vec<ExecuteArgs>,
    base_path: &str,
    entries: &Vec<ChildEntry>,
    dry_run: bool,
) -> (failure: Option<TraverseError>)
    ensures
        jobs_view(final(jobs)@) == jobs_view(old(jobs)@) + scan_children(
            base_path@,
            entries@,
            dry_run,
        ).jobs,
        stop_view(failure) == scan_children(base_path@, entries@, dry_run).failure,
{
    let ghost whole = scan_children(base_path@, entries@, dry_run);
    let mut i: usize = 0;
    assert(entries@.skip(0) =~= entries@);
    while i < entries.len()
        invariant
            i <= entries.len(),
            whole == scan_children(base_path@, entries@, dry_run),
            jobs_view(jobs@) + scan_children(base_path@, entries@.skip(i as int), dry_run).jobs
                == jobs_view(old(jobs)@) + whole.jobs,
            scan_children(base_path@, entries@.skip(i as int), dry_run).failure == whole.failure,
        decreases entries.len() - i,
    {
        assert(entries@.skip(i as int).drop_first() =~= entries@.skip(i + 1));
        match &entries[i] {
            ChildEntry::Unreadable(reason) => {
                return Some(
                    TraverseError::EntryUnreadable {
                        directory: String::from_str(base_path),
                        reason: reason.clone(),
                    },
                );
            },
            ChildEntry::NotDirectory => {},
            ChildEntry::Directory { path, name, entries: inner } => {
                match (name_to_go_by(name), inner) {
                    (None, _) => {
                        return Some(TraverseError::InvalidChildName);
                    },
                    (Some(_), Err(reason)) => {
                        return Some(
                            TraverseError::ChildUnreadable {
                                path: path.clone(),
                                reason: reason.clone(),
                            },
                        );
                    },
                    (Some(text), Ok(grandchildren)) => {
                        let failure = scan_grandchildren_into(
                            jobs,
                            text,
                            path.as_str(),
                            grandchildren,
                            dry_run,
                        );
                        if failure.is_some() {
                            return failure;
                        }
                    },
                }
            },
        }
        i += 1;
    }
    None
}

/// Turns what was found at the path that the user named into jobs, one for
/// each grandchild directory, in the order of the listing. Entries that are
/// not directories are passed over at both levels. The scan ends at the
/// first entry or directory that could not be read or has no usable name,
/// with the jobs found before it.
///
/// A path that is missing or no directory gives that failure and no job. A
/// scan that nothing stopped gives as many jobs as there are pairs of a
/// child directory and a grandchild directory, and the job at each place is
/// the job of the pair at that place. Every job has an album with a name,
/// and is a dry run exactly if the user asked for one.
pub fn scan(arguments: &Arguments, base: &BasePath) -> (scan: Scan)
    ensures
        scan@ == scanned(*base, arguments@),
        *base is Missing ==> scan.jobs@.len() == 0 && scan@.failure == Some(
            Stop::PathNotFound(arguments.path@),
        ),
        *base is NotDirectory ==> scan.jobs@.len() == 0 && scan@.failure == Some(
            Stop::PathNotDirectory(arguments.path@),
        ),
        *base matches BasePath::Directory(Ok(children)) ==> {
            &&& scan.jobs@.len() <= directory_pairs(children@)
            &&& scan.failure is None ==> scan.jobs@.len() == directory_pairs(children@)
            &&& forall|k: int|
                0 <= k < scan.jobs@.len() ==> stems_from(
                    #[trigger] scan@.jobs[k],
                    children@,
                    pair_at(children@, k).0,
                    pair_at(children@, k).1,
                    arguments.dry_run,
                )
        },
        forall|k: int|
            0 <= k < scan.jobs@.len() ==> (#[trigger] scan.jobs@[k]).album_name@.len() > 0
                && scan.jobs@[k].dry_run == arguments.dry_run,
{
    let mut jobs: Vec<ExecuteArgs> = Vec::new();
    assert(jobs_view(jobs@) =~= Seq::<Job>::empty());
    let failure = match base {
        BasePath::Missing => Some(TraverseError::PathNotFound(arguments.path.clone())),
        BasePath::NotDirectory => Some(TraverseError::PathNotDirectory(arguments.path.clone())),
        BasePath::Directory(Err(reason)) => Some(
            TraverseError::DirectoryUnreadable {
                path: arguments.path.clone(),
                reason: reason.clone(),
            },
        ),
        BasePath::Directory(Ok(children)) => {
            let failure = scan_children_into(
                &mut jobs,
                arguments.path.as_str(),
                children,
                arguments.dry_run,
            );
            proof {
                lemma_job_count(arguments.path@, children@, arguments.dry_run);
                assert forall|k: int| 0 <= k < jobs@.len() implies stems_from(
                    #[trigger] jobs_view(jobs@)[k],
                    children@,
                    pair_at(children@, k).0,
                    pair_at(children@, k).1,
                    arguments.dry_run,
                ) by {
                    lemma_job_origin(arguments.path@, children@, arguments.dry_run, k);
                }
                assert forall|k: int| 0 <= k < jobs@.len() implies (#[trigger] jobs@[k])
                    .album_name@.len() > 0 && jobs@[k].dry_run == arguments.dry_run by {
                    lemma_job_is_well_formed(arguments.path@, children@, arguments.dry_run, k);
                }
            }
            failure
        },
    };
    Scan { jobs, failure }
}

/// A scan of a child directory finds at most one job for each directory in
/// it, and exactly one where nothing stopped it: entries that are not
/// directories are never counted.
pub proof fn lemma_grandchild_job_count(
    child_name: Seq<char>,
    child_path: Seq<char>,
    entries: Seq<GrandchildEntry>,
    dry_run: bool,
)
    ensures
        scan_grandchildren(child_name, child_path, entries, dry_run).jobs.len()
            <= grandchild_directories(entries),
        scan_grandchildren(child_name, child_path, entries, dry_run).failure is None
            ==> scan_grandchildren(child_name, child_path, entries, dry_run).jobs.len()
            == grandchild_directories(entries),
    decreases entries.len(),
{
    if entries.len() > 0 {
        lemma_grandchild_job_count(child_name, child_path, entries.drop_first(), dry_run);
    }
}

/// A scan finds at most one job for each pair of a child directory and a
/// grandchild directory in it, and exactly one where nothing stopped it:
/// what is not a directory is never counted, at either level.
pub proof fn lemma_job_count(base_path: Seq<char>, children: Seq<ChildEntry>, dry_run: bool)
    ensures
        scan_children(base_path, children, dry_run).jobs.len() <= directory_pairs(children),
        scan_children(base_path, children, dry_run).failure is None ==> scan_children(
            base_path,
            children,
            dry_run,
        ).jobs.len() == directory_pairs(children),
    decreases children.len(),
{
    if children.len() > 0 {
        lemma_job_count(base_path, children.drop_first(), dry_run);
        match children[0] {
            ChildEntry::Directory { path, name, entries: Ok(grandchildren) } => {
                if usable_name(name) {
                    lemma_grandchild_job_count(name.unwrap()@, path@, grandchildren@, dry_run);
                }
            },
            _ => {},
        }
    }
}

/// The `k`-th directory among some entries is one of the entries, and a
/// directory.
pub proof fn lemma_directory_at(entries: Seq<GrandchildEntry>, k: int)
    requires
        0 <= k < grandchild_directories(entries),
    ensures
        0 <= directory_at(entries, k) < entries.len(),
        entries[directory_at(entries, k)] is Directory,
    decreases entries.len(),
{
    if entries[0] is Directory {
        if k > 0 {
            lemma_directory_at(entries.drop_first(), k - 1);
        }
    } else {
        lemma_directory_at(entries.drop_first(), k);
    }
}

/// A later directory among some entries stands at a later place.
pub proof fn lemma_directories_follow_the_listing(
    entries: Seq<GrandchildEntry>,
    earlier: int,
    later: int,
)
    requires
        0 <= earlier < later < grandchild_directories(entries),
    ensures
        directory_at(entries, earlier) < directory_at(entries, later),
    decreases entries.len(),
{
    if entries[0] is Directory {
        if earlier > 0 {
            lemma_directories_follow_the_listing(entries.drop_first(), earlier - 1, later - 1);
        } else {
            lemma_directory_at(entries.drop_first(), later - 1);
        }
    } else {
        lemma_directories_follow_the_listing(entries.drop_first(), earlier, later);
    }
}

/// The `k`-th pair of a listing is a child directory that could be read and
/// a directory among its entries.
pub proof fn lemma_pair_at(children: Seq<ChildEntry>, k: int)
    requires
        0 <= k < directory_pairs(children),
    ensures
        0 <= pair_at(children, k).0 < children.len(),
        0 <= pair_at(children, k).1 < entries_of(children[pair_at(children, k).0]).len(),
        entries_of(children[pair_at(children, k).0])[pair_at(children, k).1] is Directory,
    decreases children.len(),
{
    if k < grandchildren_of(children[0]) {
        lemma_directory_at(entries_of(children[0]), k);
    } else {
        lemma_pair_at(children.drop_first(), k - grandchildren_of(children[0]));
    }
}

/// A later pair of a listing stands at a later place: in a later child, or
/// in the same child at a later entry.
pub proof fn lemma_pairs_follow_the_listing(children: Seq<ChildEntry>, earlier: int, later: int)
    requires
        0 <= earlier < later < directory_pairs(children),
    ensures
        pair_at(children, earlier).0 < pair_at(children, later).0 || (pair_at(
            children,
            earlier,
        ).0 == pair_at(children, later).0 && pair_at(children, earlier).1 < pair_at(
            children,
            later,
        ).1),
    decreases children.len(),
{
    let first = grandchildren_of(children[0]);
    if later < first {
        lemma_directories_follow_the_listing(entries_of(children[0]), earlier, later);
    } else if earlier < first {
        lemma_pair_at(children.drop_first(), later - first);
    } else {
        lemma_pairs_follow_the_listing(children.drop_first(), earlier - first, later - first);
    }
}

/// The `k`-th job that the scan of a child directory finds is the job of the
/// `k`-th directory among its entries.
pub proof fn lemma_grandchild_job_origin(
    child: ChildEntry,
    entries: Seq<GrandchildEntry>,
    dry_run: bool,
    k: int,
)
    requires
        child matches ChildEntry::Directory { name, .. } && usable_name(name),
        0 <= k < scan_grandchildren(
            child->name.unwrap()@,
            child->path@,
            entries,
            dry_run,
        ).jobs.len(),
    ensures
        0 <= directory_at(entries, k) < entries.len(),
        is_job_of(
            scan_grandchildren(child->name.unwrap()@, child->path@, entries, dry_run).jobs[k],
            child,
            entries[directory_at(entries, k)],
            dry_run,
        ),
    decreases entries.len(),
{
    match entries[0] {
        GrandchildEntry::Unreadable(_) => {},
        GrandchildEntry::NotDirectory => {
            lemma_grandchild_job_origin(child, entries.drop_first(), dry_run, k);
        },
        GrandchildEntry::Directory { .. } => {
            if k > 0 {
                lemma_grandchild_job_origin(child, entries.drop_first(), dry_run, k - 1);
            }
        },
    }
}

/// The `k`-th job that a scan finds is the job of the `k`-th pair of a child
/// directory and a grandchild directory in the listing: it uploads that
/// grandchild, and its album is the one that the rule of names gives the
/// two. So the jobs come in the order of the listing, and none is left out
/// before the scan ends.
pub proof fn lemma_job_origin(
    base_path: Seq<char>,
    children: Seq<ChildEntry>,
    dry_run: bool,
    k: int,
)
    requires
        0 <= k < scan_children(base_path, children, dry_run).jobs.len(),
    ensures
        stems_from(
            scan_children(base_path, children, dry_run).jobs[k],
            children,
            pair_at(children, k).0,
            pair_at(children, k).1,
            dry_run,
        ),
    decreases children.len(),
{
    match children[0] {
        ChildEntry::Directory { path, name, entries: Ok(grandchildren) } => {
            let first = scan_grandchildren(name.unwrap()@, path@, grandchildren@, dry_run);
            lemma_grandchild_job_count(name.unwrap()@, path@, grandchildren@, dry_run);
            if k < first.jobs.len() {
                lemma_grandchild_job_origin(children[0], grandchildren@, dry_run, k);
            } else {
                lemma_job_origin(base_path, children.drop_first(), dry_run, k - first.jobs.len());
            }
        },
        _ => {
            lemma_job_origin(base_path, children.drop_first(), dry_run, k);
        },
    }
}

/// The album of a job that a scan finds has a name, and the job is a dry run
/// exactly if the scan was asked for one.
pub proof fn lemma_job_is_well_formed(
    base_path: Seq<char>,
    children: Seq<ChildEntry>,
    dry_run: bool,
    k: int,
)
    requires
        0 <= k < scan_children(base_path, children, dry_run).jobs.len(),
    ensures
        scan_children(base_path, children, dry_run).jobs[k].album_name.len() > 0,
        scan_children(base_path, children, dry_run).jobs[k].dry_run == dry_run,
{
    lemma_job_origin(base_path, children, dry_run, k);
}

} // verus!
