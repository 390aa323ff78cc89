//! The job registry: discovery of jobs in what a walk of the configuration
//! tree has found.

use vstd::prelude::*;
use crate::script::names_of;
use crate::text::has_prefix;

verus! {

/// Name prefix of the script that starts a job's worker. A directory that
/// holds such a script is a job.
pub const AGENT_INIT: &'static str = "agent_init";

/// One entry found by the walk of the configuration tree.
#[derive(Clone, Debug)]
pub struct TreeEntry {
    /// The entry's path.
    pub path: String,
    /// The last component of the path.
    pub file_name: String,
    /// Whether the entry is a regular file, links followed.
    pub is_file: bool,
    /// The path of the directory that holds the entry.
    pub folder: String,
    /// The last component of `folder`.
    pub folder_name: String,
}

/// One runnable job.
#[derive(Clone, Debug)]
pub struct Job {
    /// The name of the job's root folder.
    pub name: String,
    /// The directory that holds the job's scripts.
    pub root_folder: String,
    /// The path of the script that starts the job's worker.
    pub agent_init: String,
    /// The path of the script that cleans up after the job, if it has one.
    pub agent_cleanup: Option<String>,
    /// The paths of the job's step scripts, in order.
    pub steps: Vec<String>,
}

/// A job over the characters of its names and paths.
pub struct JobView {
    pub name: Seq<char>,
    pub root_folder: Seq<char>,
    pub agent_init: Seq<char>,
    pub agent_cleanup: Option<Seq<char>>,
    pub steps: Seq<Seq<char>>,
}

impl View for Job {
    type V = JobView;

    open spec fn view(&self) -> JobView {
        JobView {
            name: self.name@,
            root_folder: self.root_folder@,
            agent_init: self.agent_init@,
            agent_cleanup: match self.agent_cleanup {
                Some(path) => Some(path@),
                None => None,
            },
            steps: names_of(self.steps@),
        }
    }
}

/// Why no catalog could be built.
#[derive(Debug)]
pub struct JobRunnerError {
    pub kind: JobRunnerErrorKind,
}

/// The failures of a scan.
#[derive(Clone, Copy, Debug, PartialEq, Eq, Structural)]
pub enum JobRunnerErrorKind {
    /// No agent-init script is anywhere under the configuration root.
    NoJobsFound,
}

/// Whether `entry` is an agent-init script: a regular file whose name starts
/// with the agent-init prefix.
pub open spec fn is_agent_init(entry: TreeEntry) -> bool {
    entry.is_file && AGENT_INIT@.is_prefix_of(entry.file_name@)
}

/// The job that the agent-init script `entry` defines: the directory that
/// holds the script is its root folder and gives it its name.
pub open spec fn job_of(entry: TreeEntry) -> JobView {
    JobView {
        name: entry.folder_name@,
        root_folder: entry.folder@,
        agent_init: entry.path@,
        agent_cleanup: None,
        steps: Seq::empty(),
    }
}

/// Some job of the list has `folder` as its root folder.
pub open spec fn holds_folder(jobs: Seq<JobView>, folder: Seq<char>) -> bool {
    exists|index: int| 0 <= index < jobs.len() && (#[trigger] jobs[index]).root_folder == folder
}

/// No two jobs of the list have the same root folder.
pub open spec fn distinct_folders(jobs: Seq<JobView>) -> bool {
    forall|i: int, j: int|
        0 <= i < j < jobs.len() ==> (#[trigger] jobs[i]).root_folder != (
        #[trigger] jobs[j]).root_folder
}

/// The jobs that a walk defines: one for every directory that holds an
/// agent-init script, in the order in which the walk first meets such a
/// script. A directory with several agent-init scripts is one job, with the
/// script that the walk met first. Two directories are two jobs, also where
/// their last components, and so the names of the two jobs, are the same.
pub open spec fn discovered(entries: Seq<TreeEntry>) -> Seq<JobView>
    decreases entries.len(),
{
    if entries.len() == 0 {
        Seq::empty()
    } else {
        let earlier = discovered(entries.drop_last());
        let entry = entries.last();
        if is_agent_init(entry) && !holds_folder(earlier, entry.folder@) {
            earlier.push(job_of(entry))
        } else {
            earlier
        }
    }
}

/// The jobs of a list, each over its characters.
pub open spec fn jobs_of(jobs: Seq<Job>) -> Seq<JobView> {
    jobs.map_values(|job: Job| job@)
}

/// The jobs found by one scan: at least one, and no two with the same root
/// folder. A catalog is never changed after it was built: a later scan
/// builds a new one.
#[derive(Debug)]
pub struct JobCatalog {
    jobs: Vec<Job>,
}

impl View for JobCatalog {
    type V = Seq<JobView>;

    closed spec fn view(&self) -> Seq<JobView> {
        jobs_of(self.jobs@)
    }
}

impl JobCatalog {
    /// A catalog holds at least one job and every root folder once.
    #[verifier::type_invariant]
    spec fn well_formed(self) -> bool {
        self.jobs@.len() > 0 && distinct_folders(jobs_of(self.jobs@))
    }

    /// The number of jobs in the catalog; it is never zero.
    pub fn len(&self) -> (count: usize)
        ensures
            count == self@.len(),
            count > 0,
            distinct_folders(self@),
    {
        proof {
            use_type_invariant(self);
        }
        self.jobs.len()
    }

    /// The job at position `index` in the order of discovery.
    pub fn job(&self, index: usize) -> (job: &Job)
        requires
            index < self@.len(),
        ensures
            job@ == self@[index as int],
    {
        &self.jobs[index]
    }
}

/// Whether `entry` is an agent-init script.
pub fn is_agent_init_script(entry: &TreeEntry) -> (found: bool)
    ensures
        found == is_agent_init(*entry),
{
    entry.is_file && has_prefix(entry.file_name.as_str(), AGENT_INIT)
}

/// Whether some job of the list has `folder` as its root folder.
fn is_known_folder(jobs: &Vec<Job>, folder: &String) -> (known: bool)
    ensures
        known == holds_folder(jobs_of(jobs@), folder@),
{
    let mut index: usize = 0;
    while index < jobs.len()
        invariant
            index <= jobs@.len(),
            forall|earlier: int|
                0 <= earlier < index ==> (#[trigger] jobs_of(jobs@)[earlier]).root_folder
                    != folder@,
        decreases jobs@.len() - index,
    {
        if jobs[index].root_folder == *folder {
            assert(jobs_of(jobs@)[index as int].root_folder == folder@);
            return true;
        }
        index = index + 1;
    }
    false
}

/// The outcome of a scan, over characters.
pub open spec fn scanned(result: Result<JobCatalog, JobRunnerError>) -> Result<
    Seq<JobView>,
    JobRunnerErrorKind,
> {
    match result {
        Ok(catalog) => Ok(catalog@),
        Err(error) => Err(error.kind),
    }
}

/// What a scan of a walk yields: the jobs it defines, or `NoJobsFound` where
/// it defines none.
pub open spec fn scan(entries: Seq<TreeEntry>) -> Result<Seq<JobView>, JobRunnerErrorKind> {
    if discovered(entries).len() == 0 {
        Err(JobRunnerErrorKind::NoJobsFound)
    } else {
        Ok(discovered(entries))
    }
}

/// Builds the catalog of the jobs that a walk of the configuration tree
/// defines. Every directory that holds an agent-init script is in the
/// catalog exactly once, whatever the number of such scripts in it and
/// whatever its name; so two jobs of a catalog never share a root folder,
/// and they share a name where two directories have the same last
/// component. The catalog holds copies of the paths and depends on nothing
/// but the entries handed in.
pub fn find_jobs(entries: &Vec<TreeEntry>) -> (result: Result<JobCatalog, JobRunnerError>)
    ensures
        scanned(result) == scan(entries@),
        result matches Ok(catalog) ==> distinct_folders(catalog@),
        result matches Ok(catalog) ==> forall|at: int|
            0 <= at < entries@.len() && is_agent_init(#[trigger] entries@[at]) ==> holds_folder(
                catalog@,
                entries@[at].folder@,
            ),
{
    let mut jobs: Vec<Job> = Vec::new();
    let mut i: usize = 0;
    while i < entries.len()
        invariant
            i <= entries@.len(),
            jobs_of(jobs@) == discovered(entries@.take(i as int)),
        decreases entries@.len() - i,
    {
        let entry = &entries[i];
        assert(entries@.take(i + 1).drop_last() == entries@.take(i as int));
        if is_agent_init_script(entry) && !is_known_folder(&jobs, &entry.folder) {
            let job = Job {
                name: entry.folder_name.clone(),
                root_folder: entry.folder.clone(),
                agent_init: entry.path.clone(),
                agent_cleanup: None,
                steps: Vec::new(),
            };
            assert(job@ == job_of(*entry)) by {
                assert(names_of(job.steps@) == Seq::<Seq<char>>::empty());
            }
            jobs.push(job);
        }
        i = i + 1;
    }
    assert(entries@.take(i as int) == entries@);
    proof {
        lemma_one_job_per_folder(entries@);
        lemma_every_job_folder_is_listed(entries@);
    }
    if jobs.len() == 0 {
        return Err(JobRunnerError { kind: JobRunnerErrorKind::NoJobsFound });
    }
    Ok(JobCatalog { jobs })
}

/// A directory is one job, however many agent-init scripts it holds: no two
/// jobs that a walk defines have the same root folder. Every job comes from
/// an agent-init script of the walk.
pub proof fn lemma_one_job_per_folder(entries: Seq<TreeEntry>)
    ensures
        distinct_folders(discovered(entries)),
        forall|index: int|
            0 <= index < discovered(entries).len() ==> exists|at: int|
                0 <= at < entries.len() && is_agent_init(#[trigger] entries[at]) && job_of(
                    entries[at],
                ) == (#[trigger] discovered(entries)[index]),
    decreases entries.len(),
{
    if entries.len() > 0 {
        let shorter = entries.drop_last();
        lemma_one_job_per_folder(shorter);
        assert forall|index: int| 0 <= index < discovered(entries).len() implies exists|at: int|
            0 <= at < entries.len() && is_agent_init(#[trigger] entries[at]) && job_of(entries[at])
                == (#[trigger] discovered(entries)[index]) by {
            if index < discovered(shorter).len() {
                let at = choose|at: int|
                    0 <= at < shorter.len() && is_agent_init(#[trigger] shorter[at]) && job_of(
                        shorter[at],
                    ) == discovered(shorter)[index];
                assert(entries[at] == shorter[at]);
            } else {
                assert(job_of(entries[entries.len() - 1]) == discovered(entries)[index]);
            }
        }
    }
}

/// No directory with an agent-init script is left out, whatever its name:
/// for every agent-init script of the walk, the directory that holds it is
/// the root folder of a job.
pub proof fn lemma_every_job_folder_is_listed(entries: Seq<TreeEntry>)
    ensures
        forall|at: int|
            0 <= at < entries.len() && is_agent_init(#[trigger] entries[at]) ==> holds_folder(
                discovered(entries),
                entries[at].folder@,
            ),
    decreases entries.len(),
{
    if entries.len() > 0 {
        let shorter = entries.drop_last();
        let jobs = discovered(entries);
        lemma_every_job_folder_is_listed(shorter);
        assert forall|at: int|
            0 <= at < entries.len() && is_agent_init(#[trigger] entries[at]) implies holds_folder(
            jobs,
            entries[at].folder@,
        ) by {
            if at < shorter.len() {
                assert(entries[at] == shorter[at]);
                let index = choose|index: int|
                    0 <= index < discovered(shorter).len() && (
                    #[trigger] discovered(shorter)[index]).root_folder == shorter[at].folder@;
                assert(jobs[index].root_folder == entries[at].folder@);
            } else if holds_folder(discovered(shorter), entries[at].folder@) {
                let index = choose|index: int|
                    0 <= index < discovered(shorter).len() && (
                    #[trigger] discovered(shorter)[index]).root_folder == entries[at].folder@;
                assert(jobs[index].root_folder == entries[at].folder@);
            } else {
                assert(jobs[jobs.len() - 1].root_folder == entries[at].folder@);
            }
        }
    }
}

/// A scan sees a job that was added after an earlier scan: scanning a walk
/// that has one more entry at its end yields the jobs of the shorter walk,
/// followed by the job of the new entry where it is an agent-init script in
/// a directory that is no job yet.
pub proof fn lemma_rescan_sees_added_entry(entries: Seq<TreeEntry>, added: TreeEntry)
    ensures
        discovered(entries.push(added)) == if is_agent_init(added) && !holds_folder(
            discovered(entries),
            added.folder@,
        ) {
            discovered(entries).push(job_of(added))
        } else {
            discovered(entries)
        },
{
    assert(entries.push(added).drop_last() == entries);
}

} // verus!
