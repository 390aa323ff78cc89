//! The worker supervisor: the life of the child process that runs a job's
//! agent-init script.

use vstd::prelude::*;
use crate::registry::{Job, AGENT_INIT};
use crate::script::{find_script, listed, resolution_in, FileEntry, ScriptError};
use crate::shutdown::ShutdownSignal;

verus! {

/// The line written to a worker's standard input once it has started.
pub const HANDSHAKE: &'static str = "ls\n";

/// How a worker's process ended.
#[derive(Clone, Copy, Debug, PartialEq, Eq, Structural)]
pub struct ExitOutcome {
    /// The exit code; none where the process was ended by a signal.
    pub code: Option<i32>,
}

impl ExitOutcome {
    /// A worker has succeeded exactly when it exited with code 0.
    pub open spec fn succeeded(self) -> bool {
        self.code == Some(0i32)
    }

    /// Whether the worker has succeeded.
    pub fn success(self) -> (ok: bool)
        ensures
            ok == self.succeeded(),
    {
        match self.code {
            Some(code) => code == 0,
            None => false,
        }
    }
}

/// Why a worker has no exit outcome.
#[derive(Clone, Copy, Debug, PartialEq, Eq, Structural)]
pub enum WorkerError {
    /// The operating system could not create the child process.
    SpawnFailed,
    /// Waiting for the child process failed.
    WaitFailed,
}

/// Where a worker stands. It starts, runs, and ends as completed or failed.
#[derive(Clone, Copy, Debug, PartialEq, Eq, Structural)]
pub enum WorkerState {
    /// The agent-init script is resolved; no child process exists yet.
    Starting,
    /// The child process exists and has not been waited for to its end.
    Running,
    /// The wait for the child process has returned its exit status.
    Completed(ExitOutcome),
    /// The worker has ended without an exit status.
    Failed(WorkerError),
}

/// How far the shutdown has pressed a worker to end.
#[derive(Clone, Copy, Debug, PartialEq, Eq, Structural)]
pub enum Termination {
    NotRequested,
    /// The child was asked to stop and clean up.
    Graceful,
    /// The child was killed.
    Forced,
}

/// What the supervising task learns while it supervises.
#[derive(Clone, Copy, Debug, PartialEq, Eq, Structural)]
pub enum WorkerEvent {
    /// The child process was created.
    Spawned,
    /// The child process could not be created.
    SpawnFailed,
    /// The wait for the child returned, with the child's exit code if it has
    /// one.
    Exited(Option<i32>),
    /// The wait for the child returned an error.
    WaitFailed,
    /// The shutdown reached the level of immediate shutdown.
    StopRequested,
    /// The shutdown reached the level of forced termination.
    KillRequested,
}

/// What the supervising task has to do next.
#[derive(Clone, Copy, Debug, PartialEq, Eq, Structural)]
pub enum WorkerAction {
    /// Write the handshake to the child's standard input, then wait for the
    /// child to end.
    Handshake,
    /// Ask the child's process group to stop, and go on waiting.
    RequestStop,
    /// Kill the child, then wait for it.
    Kill,
    /// Release the child's pipes and report the outcome; the task is done.
    Report,
    /// Go on as before.
    Nothing,
}

/// The part of a worker that supervision changes.
#[derive(Clone, Copy, Debug, PartialEq, Eq, Structural)]
pub struct Supervision {
    pub state: WorkerState,
    pub termination: Termination,
}

impl WorkerState {
    /// Nothing happens to a worker any more once it has completed or failed.
    pub open spec fn is_terminal(self) -> bool {
        self is Completed || self is Failed
    }
}

impl WorkerEvent {
    /// The event is the return of a wait for the child process.
    pub open spec fn is_wait_return(self) -> bool {
        self is Exited || self is WaitFailed
    }
}

impl Supervision {
    /// Where every worker begins.
    pub open spec fn initial() -> Supervision {
        Supervision { state: WorkerState::Starting, termination: Termination::NotRequested }
    }

    /// The supervision after `event`, and the action that the event calls
    /// for. Events that do not fit the state change nothing: a request to
    /// stop or kill that was already acted on, and whatever reaches a worker
    /// that is done.
    pub open spec fn step(self, event: WorkerEvent) -> (Supervision, WorkerAction) {
        match (self.state, event) {
            (WorkerState::Starting, WorkerEvent::Spawned) => (
                Supervision { state: WorkerState::Running, ..self },
                WorkerAction::Handshake,
            ),
            (WorkerState::Starting, WorkerEvent::SpawnFailed) => (
                Supervision { state: WorkerState::Failed(WorkerError::SpawnFailed), ..self },
                WorkerAction::Report,
            ),
            (WorkerState::Running, WorkerEvent::Exited(code)) => (
                Supervision { state: WorkerState::Completed(ExitOutcome { code }), ..self },
                WorkerAction::Report,
            ),
            (WorkerState::Running, WorkerEvent::WaitFailed) => (
                Supervision { state: WorkerState::Failed(WorkerError::WaitFailed), ..self },
                WorkerAction::Report,
            ),
            (WorkerState::Running, WorkerEvent::StopRequested) => if self.termination
                == Termination::NotRequested {
                (Supervision { termination: Termination::Graceful, ..self }, WorkerAction::RequestStop)
            } else {
                (self, WorkerAction::Nothing)
            },
            (WorkerState::Running, WorkerEvent::KillRequested) => if self.termination
                != Termination::Forced {
                (Supervision { termination: Termination::Forced, ..self }, WorkerAction::Kill)
            } else {
                (self, WorkerAction::Nothing)
            },
            _ => (self, WorkerAction::Nothing),
        }
    }

    /// The supervision after a sequence of events.
    pub open spec fn after(self, events: Seq<WorkerEvent>) -> Supervision
        decreases events.len(),
    {
        if events.len() == 0 {
            self
        } else {
            self.after(events.drop_last()).step(events.last()).0
        }
    }

    /// What the worker reports when it is done.
    pub open spec fn outcome(self) -> Option<Result<ExitOutcome, WorkerError>> {
        match self.state {
            WorkerState::Completed(outcome) => Some(Ok(outcome)),
            WorkerState::Failed(error) => Some(Err(error)),
            _ => None,
        }
    }
}

/// One supervised worker.
#[derive(Debug)]
pub struct WorkerProcess {
    job: String,
    root_folder: String,
    script: String,
    supervision: Supervision,
}

impl WorkerProcess {
    /// The name of the job that the worker executes.
    pub closed spec fn job(&self) -> Seq<char> {
        self.job@
    }

    /// The job's root folder, the worker's working directory.
    pub closed spec fn root_folder(&self) -> Seq<char> {
        self.root_folder@
    }

    /// The name of the agent-init script that the worker runs.
    pub closed spec fn script(&self) -> Seq<char> {
        self.script@
    }

    /// The worker's state and the pressure on it to end.
    pub closed spec fn supervision(&self) -> Supervision {
        self.supervision
    }

    /// The name of the job that the worker executes.
    pub fn job_name(&self) -> (name: &str)
        ensures
            name@ == self.job(),
    {
        self.job.as_str()
    }

    /// The directory in which the worker's script is run.
    pub fn working_directory(&self) -> (path: &str)
        ensures
            path@ == self.root_folder(),
    {
        self.root_folder.as_str()
    }

    /// The name of the agent-init script that the worker runs.
    pub fn script_name(&self) -> (name: &str)
        ensures
            name@ == self.script(),
    {
        self.script.as_str()
    }

    /// Where the worker stands.
    pub fn state(&self) -> (state: WorkerState)
        ensures
            state == self.supervision().state,
    {
        self.supervision.state
    }

    /// How far the worker was pressed to end.
    pub fn termination(&self) -> (termination: Termination)
        ensures
            termination == self.supervision().termination,
    {
        self.supervision.termination
    }

    /// Takes in one event and answers with what the supervising task has to
    /// do next. The job, its folder and its script stay as they are.
    pub fn on_event(&mut self, event: WorkerEvent) -> (action: WorkerAction)
        ensures
            (final(self).supervision(), action) == old(self).supervision().step(event),
            final(self).job() == old(self).job(),
            final(self).root_folder() == old(self).root_folder(),
            final(self).script() == old(self).script(),
    {
        let current = self.supervision;
        let (next, action) = match (current.state, event) {
            (WorkerState::Starting, WorkerEvent::Spawned) => (
                Supervision { state: WorkerState::Running, termination: current.termination },
                WorkerAction::Handshake,
            ),
            (WorkerState::Starting, WorkerEvent::SpawnFailed) => (
                Supervision {
                    state: WorkerState::Failed(WorkerError::SpawnFailed),
                    termination: current.termination,
                },
                WorkerAction::Report,
            ),
            (WorkerState::Running, WorkerEvent::Exited(code)) => (
                Supervision {
                    state: WorkerState::Completed(ExitOutcome { code }),
                    termination: current.termination,
                },
                WorkerAction::Report,
            ),
            (WorkerState::Running, WorkerEvent::WaitFailed) => (
                Supervision {
                    state: WorkerState::Failed(WorkerError::WaitFailed),
                    termination: current.termination,
                },
                WorkerAction::Report,
            ),
            (WorkerState::Running, WorkerEvent::StopRequested) => match current.termination {
                Termination::NotRequested => (
                    Supervision { state: current.state, termination: Termination::Graceful },
                    WorkerAction::RequestStop,
                ),
                _ => (current, WorkerAction::Nothing),
            },
            (WorkerState::Running, WorkerEvent::KillRequested) => match current.termination {
                Termination::Forced => (current, WorkerAction::Nothing),
                _ => (
                    Supervision { state: current.state, termination: Termination::Forced },
                    WorkerAction::Kill,
                ),
            },
            _ => (current, WorkerAction::Nothing),
        };
        self.supervision = next;
        action
    }

    /// The worker's report: its exit outcome or its error once it is done,
    /// nothing before.
    pub fn outcome(&self) -> (report: Option<Result<ExitOutcome, WorkerError>>)
        ensures
            report == self.supervision().outcome(),
    {
        match self.supervision.state {
            WorkerState::Completed(outcome) => Some(Ok(outcome)),
            WorkerState::Failed(error) => Some(Err(error)),
            _ => None,
        }
    }
}

/// What a shutdown signal means to a worker: the immediate shutdown asks it
/// to stop, the forced termination kills it. The cooldown lets it finish,
/// and at the last level the process exits without seeing to its workers.
pub open spec fn event_of(signal: ShutdownSignal) -> Option<WorkerEvent> {
    match signal {
        ShutdownSignal::Cooldown => None,
        ShutdownSignal::ImmediateShutdown => Some(WorkerEvent::StopRequested),
        ShutdownSignal::ForceTermination => Some(WorkerEvent::KillRequested),
        ShutdownSignal::Terminate => None,
    }
}

/// The event that a shutdown signal is to a worker, if it is one.
pub fn worker_event(signal: ShutdownSignal) -> (event: Option<WorkerEvent>)
    ensures
        event == event_of(signal),
{
    match signal {
        ShutdownSignal::Cooldown => None,
        ShutdownSignal::ImmediateShutdown => Some(WorkerEvent::StopRequested),
        ShutdownSignal::ForceTermination => Some(WorkerEvent::KillRequested),
        ShutdownSignal::Terminate => None,
    }
}

/// Prepares the worker of a job. `listing` is what came of listing the
/// job's root folder. Where the folder was listed and exactly one regular
/// file there starts with the agent-init prefix, the worker is ready to be
/// started with that script in that folder; otherwise the resolution error
/// is handed on.
pub fn run_job(job_to_run: &Job, listing: &Result<Vec<FileEntry>, String>) -> (result: Result<
    WorkerProcess,
    ScriptError,
>)
    ensures
        match resolution_in(listed(*listing), AGENT_INIT@) {
            Ok(script) => result matches Ok(worker) && worker.script() == script && worker.job()
                == job_to_run@.name && worker.root_folder() == job_to_run@.root_folder
                && worker.supervision() == Supervision::initial(),
            Err(failure) => result matches Err(error) && error@ == failure,
        },
{
    match find_script(listing, AGENT_INIT) {
        Ok(agent_init_script) => Ok(
            WorkerProcess {
                job: job_to_run.name.clone(),
                root_folder: job_to_run.root_folder.clone(),
                script: agent_init_script,
                supervision: Supervision {
                    state: WorkerState::Starting,
                    termination: Termination::NotRequested,
                },
            },
        ),
        Err(error) => Err(error),
    }
}

/// A worker that has a child process is done only after a wait for that
/// child has returned: whenever a worker is running after `from` events and
/// done after `until` events, one of the events in between is the return of
/// a wait. This holds whether or not the worker was asked to stop or was
/// killed on the way.
pub proof fn lemma_done_only_after_wait(events: Seq<WorkerEvent>, from: int, until: int)
    requires
        0 <= from <= until <= events.len(),
        Supervision::initial().after(events.take(from)).state == WorkerState::Running,
        Supervision::initial().after(events.take(until)).state.is_terminal(),
    ensures
        exists|at: int|
            from <= at < until && (#[trigger] events[at]).is_wait_return()
                && Supervision::initial().after(events.take(at)).state == WorkerState::Running,
    decreases until - from,
{
    let start = Supervision::initial();
    if from < until {
        let before = start.after(events.take(until - 1));
        assert(events.take(until).drop_last() == events.take(until - 1));
        if before.state.is_terminal() {
            lemma_done_only_after_wait(events, from, until - 1);
        } else {
            assert(before.state == WorkerState::Running) by {
                lemma_no_way_back_to_starting(events, from, until - 1);
            }
        }
    }
}

/// A worker that is running never becomes one that is starting.
proof fn lemma_no_way_back_to_starting(events: Seq<WorkerEvent>, from: int, until: int)
    requires
        0 <= from <= until <= events.len(),
        Supervision::initial().after(events.take(from)).state != WorkerState::Starting,
    ensures
        Supervision::initial().after(events.take(until)).state != WorkerState::Starting,
    decreases until - from,
{
    if from < until {
        lemma_no_way_back_to_starting(events, from, until - 1);
        assert(events.take(until).drop_last() == events.take(until - 1));
    }
}

/// The pressure on a worker never eases, and a worker that is done stays as
/// it is: one event moves the termination forward or leaves it, and changes
/// nothing of a worker that has completed or failed.
pub proof fn lemma_step_moves_forward(supervision: Supervision, event: WorkerEvent)
    ensures
        supervision.state.is_terminal() ==> supervision.step(event) == (
            supervision,
            WorkerAction::Nothing,
        ),
        supervision.termination == Termination::Forced ==> supervision.step(event).0.termination
            == Termination::Forced,
        supervision.termination == Termination::Graceful ==> supervision.step(event).0.termination
            != Termination::NotRequested,
        supervision.step(event).1 == WorkerAction::Kill ==> supervision.step(event).0.state
            == WorkerState::Running,
{
}

} // verus!
