//! The shutdown coordinator: a four-level escalation driven by operator
//! interrupts.

use vstd::prelude::*;

verus! {

/// The process-wide shutdown level. It only ever moves forward, one level per
/// interrupt, and stays at `Terminated` once that is reached.
#[derive(Clone, Copy, Debug, PartialEq, Eq, Structural)]
pub enum ShutdownState {
    Running,
    CooldownRequested,
    ImmediateShutdownRequested,
    ForceTerminationRequested,
    Terminated,
}

/// What is broadcast to the background activities when a level is entered.
#[derive(Clone, Copy, Debug, PartialEq, Eq, Structural)]
pub enum ShutdownSignal {
    /// No new dispatch signals are consumed; running workers finish.
    Cooldown,
    /// Running workers are asked to stop and clean up.
    ImmediateShutdown,
    /// Worker supervision is torn down without waiting for a graceful exit.
    ForceTermination,
    /// The process exits at once.
    Terminate,
}

impl ShutdownState {
    /// Number of interrupts that lead from `Running` to this state.
    pub open spec fn level(self) -> nat {
        match self {
            ShutdownState::Running => 0,
            ShutdownState::CooldownRequested => 1,
            ShutdownState::ImmediateShutdownRequested => 2,
            ShutdownState::ForceTerminationRequested => 3,
            ShutdownState::Terminated => 4,
        }
    }

    /// The state that one more interrupt leads to.
    pub open spec fn escalated(self) -> ShutdownState {
        match self {
            ShutdownState::Running => ShutdownState::CooldownRequested,
            ShutdownState::CooldownRequested => ShutdownState::ImmediateShutdownRequested,
            ShutdownState::ImmediateShutdownRequested => ShutdownState::ForceTerminationRequested,
            ShutdownState::ForceTerminationRequested => ShutdownState::Terminated,
            ShutdownState::Terminated => ShutdownState::Terminated,
        }
    }

    /// The signal that entering the next level broadcasts; none once
    /// `Terminated` is reached, since no transition is left.
    pub open spec fn announcement(self) -> Option<ShutdownSignal> {
        match self {
            ShutdownState::Running => Some(ShutdownSignal::Cooldown),
            ShutdownState::CooldownRequested => Some(ShutdownSignal::ImmediateShutdown),
            ShutdownState::ImmediateShutdownRequested => Some(ShutdownSignal::ForceTermination),
            ShutdownState::ForceTerminationRequested => Some(ShutdownSignal::Terminate),
            ShutdownState::Terminated => None,
        }
    }

    /// The state reached from this one after `n` interrupts.
    pub open spec fn after_interrupts(self, n: nat) -> ShutdownState
        decreases n,
    {
        if n == 0 {
            self
        } else {
            self.escalated().after_interrupts((n - 1) as nat)
        }
    }

    /// Whether the dispatch consumer may still take new signals.
    pub open spec fn accepts_dispatch(self) -> bool {
        self == ShutdownState::Running
    }

    /// The level of this state, from 0 for `Running` to 4 for `Terminated`.
    pub fn escalation_level(self) -> (level: u8)
        ensures
            level == self.level(),
    {
        match self {
            ShutdownState::Running => 0,
            ShutdownState::CooldownRequested => 1,
            ShutdownState::ImmediateShutdownRequested => 2,
            ShutdownState::ForceTerminationRequested => 3,
            ShutdownState::Terminated => 4,
        }
    }

    /// Whether new dispatch signals are still consumed in this state.
    pub fn is_accepting_dispatch(self) -> (accepting: bool)
        ensures
            accepting == self.accepts_dispatch(),
    {
        match self {
            ShutdownState::Running => true,
            _ => false,
        }
    }
}

/// Owner of the shutdown level. Other components see the level only through
/// `state` or through the signals that `interrupt` hands out.
pub struct ShutdownCoordinator {
    state: ShutdownState,
}

impl ShutdownCoordinator {
    /// The current level.
    pub closed spec fn view(&self) -> ShutdownState {
        self.state
    }

    /// A coordinator of a process that has seen no interrupt yet.
    pub fn new() -> (coordinator: Self)
        ensures
            coordinator@ == ShutdownState::Running,
    {
        ShutdownCoordinator { state: ShutdownState::Running }
    }

    /// Read-only snapshot of the current level.
    pub fn state(&self) -> (state: ShutdownState)
        ensures
            state == self@,
    {
        self.state
    }

    /// Handles one operator interrupt: moves one level forward and returns
    /// the signal to broadcast for the level that was entered.
    pub fn interrupt(&mut self) -> (broadcast: Option<ShutdownSignal>)
        ensures
            final(self)@ == old(self)@.escalated(),
            broadcast == old(self)@.announcement(),
    {
        let (next, broadcast) = match self.state {
            ShutdownState::Running => (
                ShutdownState::CooldownRequested,
                Some(ShutdownSignal::Cooldown),
            ),
            ShutdownState::CooldownRequested => (
                ShutdownState::ImmediateShutdownRequested,
                Some(ShutdownSignal::ImmediateShutdown),
            ),
            ShutdownState::ImmediateShutdownRequested => (
                ShutdownState::ForceTerminationRequested,
                Some(ShutdownSignal::ForceTermination),
            ),
            ShutdownState::ForceTerminationRequested => (
                ShutdownState::Terminated,
                Some(ShutdownSignal::Terminate),
            ),
            ShutdownState::Terminated => (ShutdownState::Terminated, None),
        };
        self.state = next;
        broadcast
    }
}

/// What the operator is told at startup about leaving: one line that
/// introduces the escalation and one line for each of its four levels, in
/// the order in which interrupts reach them.
pub open spec fn exit_logic() -> Seq<Seq<char>> {
    seq![
        "Successive Ctrl + C presses will exit, in the following way:"@,
        "Press Ctrl + C again to start a slow shutdown: no new jobs will be accepted, but the existing ones will run their course and only then will Formica shutdown."@,
        "Press Ctrl + C again to start an immediate shutdown: all jobs will be terminated and the agent machines cleaned up."@,
        "Press Ctrl + C again to force termination of all agent tracker processes: all the trackers will be terminated without cleaning up the agent machines (at your own risk!)"@,
        "Press Ctrl + C one more time to exit immediately (very much at your own risk, zombie processes may be left running on the machine)."@,
    ]
}

/// The lines that explain the escalation to the operator.
pub fn explain_exit_logic() -> (lines: Vec<String>)
    ensures
        lines@.map_values(|line: String| line@) == exit_logic(),
{
    let mut lines: Vec<String> = Vec::new();
    lines.push(String::from_str("Successive Ctrl + C presses will exit, in the following way:"));
    lines.push(
        String::from_str(
            "Press Ctrl + C again to start a slow shutdown: no new jobs will be accepted, but the existing ones will run their course and only then will Formica shutdown.",
        ),
    );
    lines.push(
        String::from_str(
            "Press Ctrl + C again to start an immediate shutdown: all jobs will be terminated and the agent machines cleaned up.",
        ),
    );
    lines.push(
        String::from_str(
            "Press Ctrl + C again to force termination of all agent tracker processes: all the trackers will be terminated without cleaning up the agent machines (at your own risk!)",
        ),
    );
    lines.push(
        String::from_str(
            "Press Ctrl + C one more time to exit immediately (very much at your own risk, zombie processes may be left running on the machine).",
        ),
    );
    lines
}

/// One interrupt moves the shutdown exactly one level forward, until
/// `Terminated` is reached; there it stays. No level is skipped and none is
/// gone back to.
pub proof fn lemma_interrupt_advances_one_level(state: ShutdownState)
    ensures
        state != ShutdownState::Terminated ==> state.escalated().level() == state.level() + 1,
        state == ShutdownState::Terminated ==> state.escalated() == ShutdownState::Terminated,
        state.escalated().level() >= state.level(),
{
}

/// After `n` interrupts the shutdown stands `n` levels further, and at
/// `Terminated` once that would be past the last level.
pub proof fn lemma_level_after_interrupts(state: ShutdownState, n: nat)
    ensures
        state.after_interrupts(n).level() == if state.level() + n <= 4 {
            state.level() + n
        } else {
            4
        },
    decreases n,
{
    if n > 0 {
        lemma_level_after_interrupts(state.escalated(), (n - 1) as nat);
    }
}

/// The observed state never goes back: what is seen after more interrupts
/// is at least as far as what was seen after fewer.
pub proof fn lemma_interrupts_never_regress(state: ShutdownState, fewer: nat, more: nat)
    requires
        fewer <= more,
    ensures
        state.after_interrupts(fewer).level() <= state.after_interrupts(more).level(),
{
    lemma_level_after_interrupts(state, fewer);
    lemma_level_after_interrupts(state, more);
}

/// Each level is announced once: counted from `Running`, the interrupt with
/// number `n + 1` announces the signal of level `n + 1` while there is such a
/// level, and nothing after that.
pub proof fn lemma_each_level_announced_once(n: nat)
    ensures
        ShutdownState::Running.after_interrupts(n).announcement() == if n == 0 {
            Some(ShutdownSignal::Cooldown)
        } else if n == 1 {
            Some(ShutdownSignal::ImmediateShutdown)
        } else if n == 2 {
            Some(ShutdownSignal::ForceTermination)
        } else if n == 3 {
            Some(ShutdownSignal::Terminate)
        } else {
            None
        },
{
    lemma_level_after_interrupts(ShutdownState::Running, n);
}

} // verus!
