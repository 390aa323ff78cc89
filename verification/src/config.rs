//! The configuration synchronizer: bootstrap of the configuration directory,
//! the initial refresh, and the periodic refresh that follows.

use vstd::prelude::*;
use crate::script::{
    find_script, listed, names_of, resolution_in, resolved, ExecutionOutput, ExecutionRecord,
    FileEntry, ScriptError, ScriptErrorKind, ScriptFailure,
};

verus! {

/// The configuration directory, relative to the working directory.
pub const CONFIG: &'static str = "formica_conf";

/// Name prefix of the script that creates the configuration directory.
pub const CONFIG_INIT_PREFIX: &'static str = "config_init";

/// Name prefix of the script that brings the configuration up to date.
pub const UPDATE: &'static str = "update";

/// Time between two periodic refreshes, in nanoseconds: five minutes.
pub const UPDATE_DELAY_NANOS: u128 = 300_000_000_000;

/// Time between two wake-ups of the periodic refresh, in nanoseconds.
pub const TICK_NANOS: u128 = 1_000_000_000;

/// Why startup cannot go on.
#[derive(Debug)]
pub struct InitError {
    pub kind: InitErrorKind,
}

/// The failures of the bootstrap and of the initial refresh. All of them
/// are fatal.
#[derive(Debug)]
pub enum InitErrorKind {
    /// The working directory holds no init script.
    NoInitScriptFound,
    /// The working directory holds more than one init script; all are named.
    TooManyInitScriptsFound(Vec<String>),
    /// The init script did not exit with code 0; its output is kept.
    InitScriptExecutionError(ExecutionOutput),
    /// The working directory could not be listed; the reason is kept.
    WorkingDirectoryNotListed(String),
    /// The init script could not be started; the reason is kept.
    InitScriptNotStarted(String),
    /// The configuration directory holds no update script.
    NoUpdateScriptInsideConfig,
    /// The configuration directory holds more than one update script; all
    /// are named.
    TooManyUpdateScriptsFound(Vec<String>),
    /// The update script did not exit with code 0; its output is kept.
    UpdateScriptExecutionError(ExecutionOutput),
    /// The configuration directory could not be listed; the reason is kept.
    ConfigDirectoryNotListed(String),
    /// The update script could not be started; the reason is kept.
    UpdateScriptNotStarted(String),
}

/// What a startup error says, over the characters of what it carries.
pub enum InitFailure {
    NoInitScriptFound,
    TooManyInitScriptsFound(Seq<Seq<char>>),
    InitScriptExecutionError(ExecutionRecord),
    WorkingDirectoryNotListed(Seq<char>),
    InitScriptNotStarted(Seq<char>),
    NoUpdateScriptInsideConfig,
    TooManyUpdateScriptsFound(Seq<Seq<char>>),
    UpdateScriptExecutionError(ExecutionRecord),
    ConfigDirectoryNotListed(Seq<char>),
    UpdateScriptNotStarted(Seq<char>),
}

impl View for InitErrorKind {
    type V = InitFailure;

    open spec fn view(&self) -> InitFailure {
        match self {
            InitErrorKind::NoInitScriptFound => InitFailure::NoInitScriptFound,
            InitErrorKind::TooManyInitScriptsFound(names) => InitFailure::TooManyInitScriptsFound(
                names_of(names@),
            ),
            InitErrorKind::InitScriptExecutionError(output) => InitFailure::InitScriptExecutionError(
                output@,
            ),
            InitErrorKind::NoUpdateScriptInsideConfig => InitFailure::NoUpdateScriptInsideConfig,
            InitErrorKind::TooManyUpdateScriptsFound(names) => InitFailure::TooManyUpdateScriptsFound(
                names_of(names@),
            ),
            InitErrorKind::UpdateScriptExecutionError(
                output,
            ) => InitFailure::UpdateScriptExecutionError(output@),
            InitErrorKind::WorkingDirectoryNotListed(
                reason,
            ) => InitFailure::WorkingDirectoryNotListed(reason@),
            InitErrorKind::InitScriptNotStarted(reason) => InitFailure::InitScriptNotStarted(
                reason@,
            ),
            InitErrorKind::ConfigDirectoryNotListed(reason) => InitFailure::ConfigDirectoryNotListed(
                reason@,
            ),
            InitErrorKind::UpdateScriptNotStarted(reason) => InitFailure::UpdateScriptNotStarted(
                reason@,
            ),
        }
    }
}

impl View for InitError {
    type V = InitFailure;

    open spec fn view(&self) -> InitFailure {
        self.kind@
    }
}

/// What came of resolving and running a script, over characters.
pub open spec fn attempted(attempt: Result<ExecutionOutput, ScriptError>) -> Result<
    ExecutionRecord,
    ScriptFailure,
> {
    match attempt {
        Ok(output) => Ok(output@),
        Err(error) => Err(error@),
    }
}

/// The outcome of a startup step, over characters.
pub open spec fn concluded(result: Result<(), InitError>) -> Result<(), InitFailure> {
    match result {
        Ok(()) => Ok(()),
        Err(error) => Err(error@),
    }
}

/// The verdict on the bootstrap: it passes exactly when the init script was
/// found, was the only one, and exited with code 0.
pub open spec fn bootstrap_verdict(attempt: Result<ExecutionRecord, ScriptFailure>) -> Result<
    (),
    InitFailure,
> {
    match attempt {
        Ok(output) => if output.code == Some(0i32) {
            Ok(())
        } else {
            Err(InitFailure::InitScriptExecutionError(output))
        },
        Err(ScriptFailure::NoScriptFound) => Err(InitFailure::NoInitScriptFound),
        Err(ScriptFailure::TooManyScriptsFound(names)) => Err(
            InitFailure::TooManyInitScriptsFound(names),
        ),
        Err(ScriptFailure::DirectoryNotListed(reason)) => Err(
            InitFailure::WorkingDirectoryNotListed(reason),
        ),
        Err(ScriptFailure::ScriptNotStarted(reason)) => Err(
            InitFailure::InitScriptNotStarted(reason),
        ),
    }
}

/// The verdict on the initial refresh: it passes exactly when the update
/// script was found, was the only one, and exited with code 0.
pub open spec fn initial_update_verdict(attempt: Result<ExecutionRecord, ScriptFailure>) -> Result<
    (),
    InitFailure,
> {
    match attempt {
        Ok(output) => if output.code == Some(0i32) {
            Ok(())
        } else {
            Err(InitFailure::UpdateScriptExecutionError(output))
        },
        Err(ScriptFailure::NoScriptFound) => Err(InitFailure::NoUpdateScriptInsideConfig),
        Err(ScriptFailure::TooManyScriptsFound(names)) => Err(
            InitFailure::TooManyUpdateScriptsFound(names),
        ),
        Err(ScriptFailure::DirectoryNotListed(reason)) => Err(
            InitFailure::ConfigDirectoryNotListed(reason),
        ),
        Err(ScriptFailure::ScriptNotStarted(reason)) => Err(
            InitFailure::UpdateScriptNotStarted(reason),
        ),
    }
}

/// Judges the bootstrap of the configuration directory. `attempt` is what
/// came of resolving the init script in the working directory and, where it
/// was resolved, of running it there. The bootstrap passes exactly when the
/// script ran and exited with code 0; every other attempt is a fatal error
/// of its own kind.
pub fn config_fetch(attempt: Result<ExecutionOutput, ScriptError>) -> (result: Result<
    (),
    InitError,
>)
    ensures
        concluded(result) == bootstrap_verdict(attempted(attempt)),
{
    match attempt {
        Ok(execution_result) => {
            if !execution_result.success() {
                return Err(
                    InitError { kind: InitErrorKind::InitScriptExecutionError(execution_result) },
                );
            }
            Ok(())
        },
        Err(no_script) => match no_script.kind {
            ScriptErrorKind::NoScriptFound => Err(
                InitError { kind: InitErrorKind::NoInitScriptFound },
            ),
            ScriptErrorKind::TooManyScriptsFound(duplicate_scripts) => Err(
                InitError { kind: InitErrorKind::TooManyInitScriptsFound(duplicate_scripts) },
            ),
            ScriptErrorKind::DirectoryNotListed(reason) => Err(
                InitError { kind: InitErrorKind::WorkingDirectoryNotListed(reason) },
            ),
            ScriptErrorKind::ScriptNotStarted(reason) => Err(
                InitError { kind: InitErrorKind::InitScriptNotStarted(reason) },
            ),
        },
    }
}

/// Resolves the update script in the configuration directory. `listing` is
/// what came of listing that directory.
pub fn update_config(listing: &Result<Vec<FileEntry>, String>) -> (result: Result<
    String,
    ScriptError,
>)
    ensures
        resolved(result) == resolution_in(listed(*listing), UPDATE@),
{
    find_script(listing, UPDATE)
}

/// Judges the refresh that startup performs before any job is accepted.
/// `attempt` is what came of resolving the update script in the
/// configuration directory and, where it was resolved, of running it there.
pub fn initial_config_update(attempt: Result<ExecutionOutput, ScriptError>) -> (result: Result<
    (),
    InitError,
>)
    ensures
        concluded(result) == initial_update_verdict(attempted(attempt)),
{
    match attempt {
        Ok(update_script_execution) => {
            if !update_script_execution.success() {
                return Err(
                    InitError {
                        kind: InitErrorKind::UpdateScriptExecutionError(update_script_execution),
                    },
                );
            }
            Ok(())
        },
        Err(update_error) => match update_error.kind {
            ScriptErrorKind::NoScriptFound => Err(
                InitError { kind: InitErrorKind::NoUpdateScriptInsideConfig },
            ),
            ScriptErrorKind::TooManyScriptsFound(duplicate_scripts) => Err(
                InitError { kind: InitErrorKind::TooManyUpdateScriptsFound(duplicate_scripts) },
            ),
            ScriptErrorKind::DirectoryNotListed(reason) => Err(
                InitError { kind: InitErrorKind::ConfigDirectoryNotListed(reason) },
            ),
            ScriptErrorKind::ScriptNotStarted(reason) => Err(
                InitError { kind: InitErrorKind::UpdateScriptNotStarted(reason) },
            ),
        },
    }
}

/// Why a periodic refresh left the configuration as it was. None of these
/// stops the orchestrator: it keeps running on the configuration it has.
#[derive(Debug)]
pub enum RefreshWarning {
    /// No update script is in the configuration directory any more.
    UpdateScriptDisappeared,
    /// More than one update script is there; all are named.
    TooManyUpdateScripts(Vec<String>),
    /// The update script ran and did not exit with code 0.
    UpdateScriptFailed(ExecutionOutput),
    /// The configuration directory could not be listed; the reason is kept.
    ConfigDirectoryNotListed(String),
    /// The update script could not be started; the reason is kept.
    UpdateScriptNotStarted(String),
}

/// What a refresh warning says, over the characters of what it carries.
pub enum RefreshNote {
    UpdateScriptDisappeared,
    TooManyUpdateScripts(Seq<Seq<char>>),
    UpdateScriptFailed(ExecutionRecord),
    ConfigDirectoryNotListed(Seq<char>),
    UpdateScriptNotStarted(Seq<char>),
}

impl View for RefreshWarning {
    type V = RefreshNote;

    open spec fn view(&self) -> RefreshNote {
        match self {
            RefreshWarning::UpdateScriptDisappeared => RefreshNote::UpdateScriptDisappeared,
            RefreshWarning::TooManyUpdateScripts(names) => RefreshNote::TooManyUpdateScripts(
                names_of(names@),
            ),
            RefreshWarning::UpdateScriptFailed(output) => RefreshNote::UpdateScriptFailed(output@),
            RefreshWarning::ConfigDirectoryNotListed(reason) => RefreshNote::ConfigDirectoryNotListed(
                reason@,
            ),
            RefreshWarning::UpdateScriptNotStarted(reason) => RefreshNote::UpdateScriptNotStarted(
                reason@,
            ),
        }
    }
}

/// What a periodic refresh has to warn of, if anything.
pub open spec fn periodic_update_note(attempt: Result<ExecutionRecord, ScriptFailure>) -> Option<
    RefreshNote,
> {
    match attempt {
        Ok(output) => if output.code == Some(0i32) {
            None
        } else {
            Some(RefreshNote::UpdateScriptFailed(output))
        },
        Err(ScriptFailure::NoScriptFound) => Some(RefreshNote::UpdateScriptDisappeared),
        Err(ScriptFailure::TooManyScriptsFound(names)) => Some(
            RefreshNote::TooManyUpdateScripts(names),
        ),
        Err(ScriptFailure::DirectoryNotListed(reason)) => Some(
            RefreshNote::ConfigDirectoryNotListed(reason),
        ),
        Err(ScriptFailure::ScriptNotStarted(reason)) => Some(
            RefreshNote::UpdateScriptNotStarted(reason),
        ),
    }
}

/// The warning of a periodic refresh, over characters.
pub open spec fn noted(warning: Option<RefreshWarning>) -> Option<RefreshNote> {
    match warning {
        Some(warning) => Some(warning@),
        None => None,
    }
}

/// Judges a periodic refresh. `attempt` is what came of resolving the update
/// script and, where it was resolved, of running it. The answer is at most
/// a warning to log.
pub fn periodic_config_update(attempt: Result<ExecutionOutput, ScriptError>) -> (warning: Option<
    RefreshWarning,
>)
    ensures
        noted(warning) == periodic_update_note(attempted(attempt)),
{
    match attempt {
        Ok(execution) => {
            if execution.success() {
                None
            } else {
                Some(RefreshWarning::UpdateScriptFailed(execution))
            }
        },
        Err(update_err) => match update_err.kind {
            ScriptErrorKind::NoScriptFound => Some(RefreshWarning::UpdateScriptDisappeared),
            ScriptErrorKind::TooManyScriptsFound(duplicate_scripts) => Some(
                RefreshWarning::TooManyUpdateScripts(duplicate_scripts),
            ),
            ScriptErrorKind::DirectoryNotListed(reason) => Some(
                RefreshWarning::ConfigDirectoryNotListed(reason),
            ),
            ScriptErrorKind::ScriptNotStarted(reason) => Some(
                RefreshWarning::UpdateScriptNotStarted(reason),
            ),
        },
    }
}

/// The initial and the periodic refresh judge alike and differ in what
/// follows: whatever makes the initial refresh fail makes the periodic one
/// warn, and nothing else does.
pub proof fn lemma_periodic_refresh_warns_where_initial_fails(
    attempt: Result<ExecutionRecord, ScriptFailure>,
)
    ensures
        periodic_update_note(attempt) is Some <==> initial_update_verdict(attempt) is Err,
        attempt matches Ok(output) && output.code == Some(0i32) <==> initial_update_verdict(
            attempt,
        ) is Ok,
{
}

/// The clock of the periodic refresh. Times are readings of a monotonic
/// clock in nanoseconds.
#[derive(Clone, Copy, Debug)]
pub struct BackgroundUpdater {
    last_execution_time: u128,
    job_update_delay: u128,
}

impl BackgroundUpdater {
    /// The reading at which the last refresh was started, or at which the
    /// updater was launched if none was started yet.
    pub closed spec fn last_execution(&self) -> nat {
        self.last_execution_time as nat
    }

    /// The time that has to pass after a refresh before the next one.
    pub closed spec fn delay(&self) -> nat {
        self.job_update_delay as nat
    }

    /// Whether a wake-up at reading `now` has to refresh: more than the delay
    /// has passed since the last execution.
    pub open spec fn is_due(&self, now: nat) -> bool {
        now - self.last_execution() > self.delay()
    }

    /// One wake-up of the periodic task at reading `now`. Answers whether the
    /// configuration has to be refreshed now; if so, `now` becomes the time
    /// of the last execution. Nothing of how a refresh ends is kept here, so
    /// a refresh that fails is tried again once the delay has passed.
    pub fn tick(&mut self, now: u128) -> (refresh: bool)
        ensures
            refresh == old(self).is_due(now as nat),
            final(self).delay() == old(self).delay(),
            final(self).last_execution() == if refresh {
                now as nat
            } else {
                old(self).last_execution()
            },
    {
        if now > self.last_execution_time && now - self.last_execution_time
            > self.job_update_delay {
            self.last_execution_time = now;
            true
        } else {
            false
        }
    }
}

/// Starts the clock of the periodic refresh at reading `now`, with the
/// delay of five minutes.
pub fn launch_background_updater(now: u128) -> (updater: BackgroundUpdater)
    ensures
        updater.last_execution() == now,
        updater.delay() == UPDATE_DELAY_NANOS,
{
    BackgroundUpdater { last_execution_time: now, job_update_delay: UPDATE_DELAY_NANOS }
}

} // verus!
