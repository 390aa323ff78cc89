use formica::registry::Job;
use formica::script::{FileEntry, ScriptErrorKind};
use formica::shutdown::ShutdownSignal;
use formica::worker::{
    run_job, worker_event, ExitOutcome, Termination, WorkerAction, WorkerError, WorkerEvent,
    WorkerProcess, WorkerState, HANDSHAKE,
};

fn file(name: &str) -> FileEntry {
    FileEntry { name: name.to_string(), is_file: true }
}

fn job() -> Job {
    Job {
        name: "build".to_string(),
        root_folder: "formica_conf/jobs/build".to_string(),
        agent_init: "formica_conf/jobs/build/agent_init.sh".to_string(),
        agent_cleanup: None,
        steps: Vec::new(),
    }
}

fn worker() -> WorkerProcess {
    run_job(&job(), &Ok(vec![file("agent_init.sh"), file("step_1.sh")])).unwrap()
}

fn running() -> WorkerProcess {
    let mut worker = worker();
    assert_eq!(worker.on_event(WorkerEvent::Spawned), WorkerAction::Handshake);
    worker
}

#[test]
fn handshake_is_one_line() {
    assert_eq!(HANDSHAKE, "ls\n");
}

#[test]
fn worker_is_prepared_from_the_resolved_script() {
    let worker = worker();
    assert_eq!(worker.job_name(), "build");
    assert_eq!(worker.working_directory(), "formica_conf/jobs/build");
    assert_eq!(worker.script_name(), "agent_init.sh");
    assert_eq!(worker.state(), WorkerState::Starting);
    assert_eq!(worker.termination(), Termination::NotRequested);
    assert_eq!(worker.outcome(), None);
}

#[test]
fn job_without_agent_init_script_has_no_worker() {
    let error = run_job(&job(), &Ok(vec![file("step_1.sh")])).unwrap_err();
    assert!(matches!(error.kind, ScriptErrorKind::NoScriptFound));
}

#[test]
fn job_with_several_agent_init_scripts_has_no_worker() {
    let error = run_job(&job(), &Ok(vec![file("agent_init.sh"), file("agent_init.bat")])).unwrap_err();
    match error.kind {
        ScriptErrorKind::TooManyScriptsFound(names) => {
            assert_eq!(names, vec!["agent_init.sh".to_string(), "agent_init.bat".to_string()]);
        }
        other => panic!("unexpected error {:?}", other),
    }
}

#[test]
fn job_whose_folder_could_not_be_listed_has_no_worker() {
    let error = run_job(&job(), &Err("formica_conf/jobs/build: not found".to_string())).unwrap_err();
    match error.kind {
        ScriptErrorKind::DirectoryNotListed(reason) => {
            assert_eq!(reason, "formica_conf/jobs/build: not found");
        }
        other => panic!("unexpected error {:?}", other),
    }
}

#[test]
fn worker_runs_to_its_end() {
    let mut worker = worker();
    assert_eq!(worker.on_event(WorkerEvent::Spawned), WorkerAction::Handshake);
    assert_eq!(worker.state(), WorkerState::Running);
    assert_eq!(worker.outcome(), None);
    assert_eq!(worker.on_event(WorkerEvent::Exited(Some(0))), WorkerAction::Report);
    assert_eq!(worker.state(), WorkerState::Completed(ExitOutcome { code: Some(0) }));
    assert_eq!(worker.outcome(), Some(Ok(ExitOutcome { code: Some(0) })));
    assert!(ExitOutcome { code: Some(0) }.success());
}

#[test]
fn abnormal_exit_is_reported_with_its_status() {
    let mut worker = running();
    assert_eq!(worker.on_event(WorkerEvent::Exited(Some(17))), WorkerAction::Report);
    assert_eq!(worker.outcome(), Some(Ok(ExitOutcome { code: Some(17) })));
    assert!(!ExitOutcome { code: Some(17) }.success());
    assert!(!ExitOutcome { code: None }.success());
}

#[test]
fn spawn_failure_is_reported_and_ends_the_worker() {
    let mut worker = worker();
    assert_eq!(worker.on_event(WorkerEvent::SpawnFailed), WorkerAction::Report);
    assert_eq!(worker.state(), WorkerState::Failed(WorkerError::SpawnFailed));
    assert_eq!(worker.outcome(), Some(Err(WorkerError::SpawnFailed)));
    assert_eq!(worker.on_event(WorkerEvent::Spawned), WorkerAction::Nothing);
    assert_eq!(worker.state(), WorkerState::Failed(WorkerError::SpawnFailed));
}

#[test]
fn failed_wait_is_reported() {
    let mut worker = running();
    assert_eq!(worker.on_event(WorkerEvent::WaitFailed), WorkerAction::Report);
    assert_eq!(worker.outcome(), Some(Err(WorkerError::WaitFailed)));
}

#[test]
fn killed_worker_is_done_only_after_the_wait() {
    let mut worker = running();
    assert_eq!(worker.on_event(WorkerEvent::KillRequested), WorkerAction::Kill);
    assert_eq!(worker.state(), WorkerState::Running);
    assert_eq!(worker.termination(), Termination::Forced);
    assert_eq!(worker.outcome(), None);
    assert_eq!(worker.on_event(WorkerEvent::Exited(None)), WorkerAction::Report);
    assert_eq!(worker.state(), WorkerState::Completed(ExitOutcome { code: None }));
    assert_eq!(worker.outcome(), Some(Ok(ExitOutcome { code: None })));
}

#[test]
fn stop_request_is_acted_on_once() {
    let mut worker = running();
    assert_eq!(worker.on_event(WorkerEvent::StopRequested), WorkerAction::RequestStop);
    assert_eq!(worker.termination(), Termination::Graceful);
    assert_eq!(worker.on_event(WorkerEvent::StopRequested), WorkerAction::Nothing);
    assert_eq!(worker.state(), WorkerState::Running);
    assert_eq!(worker.on_event(WorkerEvent::KillRequested), WorkerAction::Kill);
    assert_eq!(worker.on_event(WorkerEvent::KillRequested), WorkerAction::Nothing);
    assert_eq!(worker.on_event(WorkerEvent::StopRequested), WorkerAction::Nothing);
    assert_eq!(worker.termination(), Termination::Forced);
    assert_eq!(worker.state(), WorkerState::Running);
}

#[test]
fn finished_worker_ignores_everything() {
    let mut worker = running();
    worker.on_event(WorkerEvent::Exited(Some(1)));
    for event in [
        WorkerEvent::Spawned,
        WorkerEvent::SpawnFailed,
        WorkerEvent::Exited(Some(0)),
        WorkerEvent::WaitFailed,
        WorkerEvent::StopRequested,
        WorkerEvent::KillRequested,
    ] {
        assert_eq!(worker.on_event(event), WorkerAction::Nothing);
        assert_eq!(worker.state(), WorkerState::Completed(ExitOutcome { code: Some(1) }));
        assert_eq!(worker.termination(), Termination::NotRequested);
    }
}

#[test]
fn starting_worker_waits_for_the_spawn() {
    let mut worker = worker();
    for event in [
        WorkerEvent::Exited(Some(0)),
        WorkerEvent::WaitFailed,
        WorkerEvent::StopRequested,
        WorkerEvent::KillRequested,
    ] {
        assert_eq!(worker.on_event(event), WorkerAction::Nothing);
        assert_eq!(worker.state(), WorkerState::Starting);
        assert_eq!(worker.termination(), Termination::NotRequested);
    }
    assert_eq!(worker.job_name(), "build");
    assert_eq!(worker.script_name(), "agent_init.sh");
}

#[test]
fn shutdown_signals_reach_workers_from_the_second_level() {
    assert_eq!(worker_event(ShutdownSignal::Cooldown), None);
    assert_eq!(worker_event(ShutdownSignal::ImmediateShutdown), Some(WorkerEvent::StopRequested));
    assert_eq!(worker_event(ShutdownSignal::ForceTermination), Some(WorkerEvent::KillRequested));
    assert_eq!(worker_event(ShutdownSignal::Terminate), None);
}
