//! The dispatch queue: signals that name a job, and the choice of the job
//! that a signal starts.

use vstd::prelude::*;
use crate::registry::{
    distinct_folders, find_jobs, scan, JobCatalog, JobRunnerError, JobView, TreeEntry,
};
use crate::script::names_of;
use crate::shutdown::ShutdownState;
use crate::text::{has_substring, is_substring};

verus! {

/// The directory that is watched for requests to run a job.
pub const QUEUE_DIR: &'static str = "queue";

/// Time between two polls of the queue, in nanoseconds.
pub const QUEUE_POLL_NANOS: u128 = 1_000_000_000;

/// A request to run a job, by name.
#[derive(Clone, Debug)]
pub struct DispatchSignal {
    pub job_name: String,
}

impl View for DispatchSignal {
    type V = Seq<char>;

    open spec fn view(&self) -> Seq<char> {
        self.job_name@
    }
}

/// The names that a list of signals asks for, in order.
pub open spec fn requests_of(signals: Seq<DispatchSignal>) -> Seq<Seq<char>> {
    signals.map_values(|signal: DispatchSignal| signal@)
}

/// One poll of the queue: every trigger that was observed becomes exactly
/// one signal, in the order of observation.
pub fn launch_job_queue_poller(triggers: Vec<String>) -> (signals: Vec<DispatchSignal>)
    ensures
        requests_of(signals@) == names_of(triggers@),
{
    let mut signals: Vec<DispatchSignal> = Vec::new();
    let mut i: usize = 0;
    while i < triggers.len()
        invariant
            i <= triggers@.len(),
            requests_of(signals@) == names_of(triggers@.take(i as int)),
        decreases triggers@.len() - i,
    {
        let signal = DispatchSignal { job_name: triggers[i].clone() };
        assert(requests_of(signals@.push(signal)) == requests_of(signals@).push(signal@));
        signals.push(signal);
        i = i + 1;
    }
    signals
}

/// A job answers a signal when the signal's name occurs in the name of the
/// job's root folder.
pub open spec fn answers(job: JobView, signal: Seq<char>) -> bool {
    is_substring(signal, job.name)
}

/// `index` is the position of the first job of the catalog that answers
/// `signal`.
pub open spec fn is_first_match(jobs: Seq<JobView>, signal: Seq<char>, index: int) -> bool {
    &&& 0 <= index < jobs.len()
    &&& answers(jobs[index], signal)
    &&& forall|earlier: int| 0 <= earlier < index ==> !answers(#[trigger] jobs[earlier], signal)
}

/// No job of the catalog answers `signal`.
pub open spec fn no_match(jobs: Seq<JobView>, signal: Seq<char>) -> bool {
    forall|index: int| 0 <= index < jobs.len() ==> !answers(#[trigger] jobs[index], signal)
}

/// The position of the first job of the catalog that answers the signal, in
/// the order in which the jobs were discovered.
pub fn find_job(catalog: &JobCatalog, signal: &DispatchSignal) -> (found: Option<usize>)
    ensures
        match found {
            Some(index) => is_first_match(catalog@, signal@, index as int),
            None => no_match(catalog@, signal@),
        },
{
    let count = catalog.len();
    let mut index: usize = 0;
    while index < count
        invariant
            count == catalog@.len(),
            index <= count,
            forall|earlier: int|
                0 <= earlier < index ==> !answers(#[trigger] catalog@[earlier], signal@),
        decreases count - index,
    {
        let job = catalog.job(index);
        if has_substring(job.name.as_str(), signal.job_name.as_str()) {
            return Some(index);
        }
        index = index + 1;
    }
    None
}

/// The line that announces each job of a catalog, in catalog order.
pub open spec fn announcements(jobs: Seq<JobView>) -> Seq<Seq<char>> {
    jobs.map_values(|job: JobView| "FOUND JOB AT "@ + job.root_folder)
}

/// Prepares the orchestrator from a walk of the configuration tree: builds
/// the catalog of the jobs that the walk defines and the lines that announce
/// them, one line for each job and so one for each directory. Without a job
/// there is nothing to orchestrate.
pub fn start_orchestrator(entries: &Vec<TreeEntry>) -> (result: Result<
    (JobCatalog, Vec<String>),
    JobRunnerError,
>)
    ensures
        match scan(entries@) {
            Ok(jobs) => result matches Ok((catalog, found)) && catalog@ == jobs && names_of(found@)
                == announcements(jobs) && distinct_folders(jobs),
            Err(kind) => result matches Err(error) && error.kind == kind,
        },
{
    let jobs = match find_jobs(entries) {
        Ok(jobs) => jobs,
        Err(error) => { return Err(error); },
    };
    let mut found: Vec<String> = Vec::new();
    let mut index: usize = 0;
    while index < jobs.len()
        invariant
            index <= jobs@.len(),
            names_of(found@) == announcements(jobs@.take(index as int)),
        decreases jobs@.len() - index,
    {
        let mut line = String::from_str("FOUND JOB AT ");
        line.append(jobs.job(index).root_folder.as_str());
        assert(names_of(found@.push(line)) == names_of(found@).push(line@));
        found.push(line);
        index = index + 1;
    }
    Ok((jobs, found))
}

/// What the dispatch consumer does with a signal.
#[derive(Clone, Copy, Debug, PartialEq, Eq, Structural)]
pub enum Dispatch {
    /// A worker is started for the job at this position of the catalog, on a
    /// task of its own.
    Start(usize),
    /// No job answers the signal; it is dropped with a diagnostic.
    NoMatch,
    /// A shutdown was requested; no new signal is consumed.
    NotAccepting,
}

/// Decides what one signal leads to. Once a shutdown was requested, nothing
/// is started any more; before that, the first job that answers the signal
/// is started, and a signal that no job answers is dropped.
pub fn dispatch(catalog: &JobCatalog, signal: &DispatchSignal, shutdown: ShutdownState) -> (decision:
    Dispatch)
    ensures
        match decision {
            Dispatch::Start(index) => shutdown.accepts_dispatch() && is_first_match(
                catalog@,
                signal@,
                index as int,
            ),
            Dispatch::NoMatch => shutdown.accepts_dispatch() && no_match(catalog@, signal@),
            Dispatch::NotAccepting => !shutdown.accepts_dispatch(),
        },
{
    if !shutdown.is_accepting_dispatch() {
        return Dispatch::NotAccepting;
    }
    match find_job(catalog, signal) {
        Some(index) => Dispatch::Start(index),
        None => Dispatch::NoMatch,
    }
}

/// The first match is unique: a signal cannot start two different jobs of
/// one catalog.
pub proof fn lemma_first_match_is_unique(
    jobs: Seq<JobView>,
    signal: Seq<char>,
    first: int,
    second: int,
)
    requires
        is_first_match(jobs, signal, first),
        is_first_match(jobs, signal, second),
    ensures
        first == second,
{
}

/// A signal either has a first match or no match at all, never both.
pub proof fn lemma_match_or_no_match(jobs: Seq<JobView>, signal: Seq<char>)
    ensures
        no_match(jobs, signal) <==> !exists|index: int| is_first_match(jobs, signal, index),
{
    if !no_match(jobs, signal) {
        let some = choose|index: int|
            0 <= index < jobs.len() && answers(#[trigger] jobs[index], signal);
        lemma_least_match(jobs, signal, some);
    }
    if exists|index: int| is_first_match(jobs, signal, index) {
        let index = choose|index: int| is_first_match(jobs, signal, index);
    }
}

/// Below every job that answers a signal there is a first one that does.
proof fn lemma_least_match(jobs: Seq<JobView>, signal: Seq<char>, upper: int)
    requires
        0 <= upper < jobs.len(),
        answers(jobs[upper], signal),
    ensures
        exists|index: int| is_first_match(jobs, signal, index),
    decreases upper,
{
    if forall|earlier: int| 0 <= earlier < upper ==> !answers(#[trigger] jobs[earlier], signal) {
        assert(is_first_match(jobs, signal, upper));
    } else {
        let earlier = choose|earlier: int|
            0 <= earlier < upper && answers(#[trigger] jobs[earlier], signal);
        lemma_least_match(jobs, signal, earlier);
    }
}

} // verus!
