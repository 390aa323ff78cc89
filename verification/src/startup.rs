//! The order of startup: bootstrap where the configuration is missing, then
//! the initial refresh, then the scan for jobs, and only then service.

use vstd::prelude::*;

verus! {

/// A stage of startup. Each stage is one piece of work outside; how that
/// work ended decides the stage that follows.
#[derive(Clone, Copy, Debug, PartialEq, Eq, Structural)]
pub enum StartupStage {
    /// The init script is resolved and run in the working directory.
    Bootstrap,
    /// The update script is resolved and run in the configuration directory.
    InitialRefresh,
    /// The configuration tree is walked and the job catalog is built.
    Scan,
    /// The queue is polled, signals are dispatched and the configuration is
    /// refreshed periodically.
    Serving,
    /// A stage has failed; the process reports the error and exits.
    Failed,
}

impl StartupStage {
    /// The stage that startup begins with: the bootstrap where the
    /// configuration directory is missing, the initial refresh where it is
    /// there already.
    pub open spec fn first(config_present: bool) -> StartupStage {
        if config_present {
            StartupStage::InitialRefresh
        } else {
            StartupStage::Bootstrap
        }
    }

    /// The stage that follows this one once its work has ended.
    pub open spec fn following(self, succeeded: bool) -> StartupStage {
        match self {
            StartupStage::Bootstrap => if succeeded {
                StartupStage::InitialRefresh
            } else {
                StartupStage::Failed
            },
            StartupStage::InitialRefresh => if succeeded {
                StartupStage::Scan
            } else {
                StartupStage::Failed
            },
            StartupStage::Scan => if succeeded {
                StartupStage::Serving
            } else {
                StartupStage::Failed
            },
            StartupStage::Serving => StartupStage::Serving,
            StartupStage::Failed => StartupStage::Failed,
        }
    }

    /// The stage reached from this one after pieces of work that ended as
    /// `outcomes` says.
    pub open spec fn after(self, outcomes: Seq<bool>) -> StartupStage
        decreases outcomes.len(),
    {
        if outcomes.len() == 0 {
            self
        } else {
            self.after(outcomes.drop_last()).following(outcomes.last())
        }
    }

    /// The number of pieces of work that lie between this stage and service.
    pub open spec fn distance(self) -> nat {
        match self {
            StartupStage::Bootstrap => 3,
            StartupStage::InitialRefresh => 2,
            StartupStage::Scan => 1,
            _ => 0,
        }
    }

    /// Moves on from this stage, whose work has ended with or without
    /// success.
    pub fn advance(self, succeeded: bool) -> (next: StartupStage)
        ensures
            next == self.following(succeeded),
    {
        match self {
            StartupStage::Bootstrap => if succeeded {
                StartupStage::InitialRefresh
            } else {
                StartupStage::Failed
            },
            StartupStage::InitialRefresh => if succeeded {
                StartupStage::Scan
            } else {
                StartupStage::Failed
            },
            StartupStage::Scan => if succeeded {
                StartupStage::Serving
            } else {
                StartupStage::Failed
            },
            StartupStage::Serving => StartupStage::Serving,
            StartupStage::Failed => StartupStage::Failed,
        }
    }
}

/// Begins startup. `config_present` says whether the configuration
/// directory exists.
pub fn initialize(config_present: bool) -> (stage: StartupStage)
    ensures
        stage == StartupStage::first(config_present),
{
    if config_present {
        StartupStage::InitialRefresh
    } else {
        StartupStage::Bootstrap
    }
}

/// Where the configuration directory exists, the bootstrap is never run:
/// whatever comes of the work of startup, no stage that is reached is the
/// bootstrap.
pub proof fn lemma_no_bootstrap_with_config(outcomes: Seq<bool>)
    ensures
        StartupStage::first(true).after(outcomes) != StartupStage::Bootstrap,
    decreases outcomes.len(),
{
    if outcomes.len() > 0 {
        lemma_no_bootstrap_with_config(outcomes.drop_last());
    }
}

/// No stage leads to the bootstrap: it is run at most once, and only as the
/// first stage.
pub proof fn lemma_bootstrap_only_first(stage: StartupStage, succeeded: bool)
    ensures
        stage.following(succeeded) != StartupStage::Bootstrap,
{
}

/// Service begins only after every stage before it has ended with success,
/// in order: the bootstrap where it is needed, then the initial refresh,
/// then the scan.
pub proof fn lemma_service_needs_every_stage(stage: StartupStage, outcomes: Seq<bool>)
    requires
        stage.after(outcomes) == StartupStage::Serving,
    ensures
        outcomes.len() >= stage.distance(),
        forall|i: int| 0 <= i < stage.distance() ==> outcomes[i],
        stage != StartupStage::Failed,
    decreases outcomes.len(),
{
    if outcomes.len() > 0 {
        let earlier = outcomes.drop_last();
        let before = stage.after(earlier);
        if before == StartupStage::Serving {
            lemma_service_needs_every_stage(stage, earlier);
        } else {
            lemma_stage_reached(stage, earlier);
        }
        assert forall|i: int| 0 <= i < stage.distance() implies outcomes[i] by {
            if i < earlier.len() {
                assert(outcomes[i] == earlier[i]);
            }
        }
    }
}

/// A stage before service is reached exactly by the successes that lead to
/// it.
proof fn lemma_stage_reached(stage: StartupStage, outcomes: Seq<bool>)
    requires
        stage.after(outcomes).distance() > 0,
    ensures
        stage.distance() == stage.after(outcomes).distance() + outcomes.len(),
        forall|i: int| 0 <= i < outcomes.len() ==> outcomes[i],
    decreases outcomes.len(),
{
    if outcomes.len() > 0 {
        let earlier = outcomes.drop_last();
        lemma_stage_reached(stage, earlier);
        assert forall|i: int| 0 <= i < outcomes.len() implies outcomes[i] by {
            if i < earlier.len() {
                assert(outcomes[i] == earlier[i]);
            }
        }
    }
}

/// A stage that fails ends startup: nothing that follows leads to service.
pub proof fn lemma_failure_is_final(outcomes: Seq<bool>)
    ensures
        StartupStage::Failed.after(outcomes) == StartupStage::Failed,
    decreases outcomes.len(),
{
    if outcomes.len() > 0 {
        lemma_failure_is_final(outcomes.drop_last());
    }
}

} // verus!
