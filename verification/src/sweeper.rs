//! The background sweep: at a fixed period every user's expired entries are
//! migrated, so that entries are sealed even if nobody ever asks for them.
//!
//! The sweeper waits, runs one migration and reports how it ended. A failed
//! batch is reported and the sweeper goes on: the batch was rolled back, and the
//! next tick takes it up again.

use crate::error::MigrationError;
use crate::migration::Selector;
use vstd::prelude::*;

verus! {

/// Seconds between two sweeps.
pub const SWEEP_PERIOD_SECS: u64 = 300;

/// Where the sweeper stands.
#[derive(Clone, Copy, Debug, PartialEq, Eq, Structural)]
pub enum SweeperState {
    /// Between two rounds.
    Idle,
    /// The timer runs.
    Waiting,
    /// The migration runs.
    Running,
    /// Shut down for good.
    Stopped,
}

/// What the driver of the sweeper reports.
#[derive(Clone, Copy, Debug, PartialEq, Eq)]
pub enum SweeperEvent {
    /// The driver is ready for the next round.
    Wake,
    /// The timer has run out.
    TimerElapsed,
    /// The migration is over, with so many entries migrated or with a failure.
    MigrationFinished(Result<usize, MigrationError>),
    /// The process shuts down.
    Shutdown,
}

/// What the sweeper asks of its driver.
#[derive(Clone, Copy, Debug, PartialEq, Eq)]
pub enum SweeperAction {
    /// Wait so many seconds, then report `TimerElapsed`.
    ArmTimer(u64),
    /// Run the migration transaction for the selector, then report how it
    /// ended.
    Migrate(Selector),
    /// Log how the round ended, a failure loudly, then report `Wake`.
    Report(Result<usize, MigrationError>),
    /// Go on waiting for what was asked before.
    KeepWaiting,
    /// Leave the loop.
    Exit,
}

/// The sweeper as a transition function.
///
/// A shutdown stops it from any state, and nothing starts it again. From idle
/// it arms the timer, when the timer runs out it migrates for all users, and
/// however the migration ended it reports and is idle again. An event that the
/// state does not await changes nothing.
pub open spec fn sweep(state: SweeperState, event: SweeperEvent) -> (SweeperState, SweeperAction) {
    match (state, event) {
        (SweeperState::Stopped, _) => (SweeperState::Stopped, SweeperAction::Exit),
        (_, SweeperEvent::Shutdown) => (SweeperState::Stopped, SweeperAction::Exit),
        (SweeperState::Idle, SweeperEvent::Wake) => (
            SweeperState::Waiting,
            SweeperAction::ArmTimer(SWEEP_PERIOD_SECS),
        ),
        (SweeperState::Waiting, SweeperEvent::TimerElapsed) => (
            SweeperState::Running,
            SweeperAction::Migrate(Selector::AllUsers),
        ),
        (SweeperState::Running, SweeperEvent::MigrationFinished(outcome)) => (
            SweeperState::Idle,
            SweeperAction::Report(outcome),
        ),
        (state, _) => (state, SweeperAction::KeepWaiting),
    }
}

impl SweeperState {
    /// The state of a sweeper that has not begun.
    pub fn new() -> (state: SweeperState)
        ensures
            state == SweeperState::Idle,
    {
        SweeperState::Idle
    }

    /// Takes what the driver reports and says what to do next.
    pub fn step(self, event: SweeperEvent) -> (r: (SweeperState, SweeperAction))
        ensures
            r == sweep(self, event),
    {
        match (self, event) {
            (SweeperState::Stopped, _) => (SweeperState::Stopped, SweeperAction::Exit),
            (_, SweeperEvent::Shutdown) => (SweeperState::Stopped, SweeperAction::Exit),
            (SweeperState::Idle, SweeperEvent::Wake) => (
                SweeperState::Waiting,
                SweeperAction::ArmTimer(SWEEP_PERIOD_SECS),
            ),
            (SweeperState::Waiting, SweeperEvent::TimerElapsed) => (
                SweeperState::Running,
                SweeperAction::Migrate(Selector::AllUsers),
            ),
            (SweeperState::Running, SweeperEvent::MigrationFinished(outcome)) => (
                SweeperState::Idle,
                SweeperAction::Report(outcome),
            ),
            (state, _) => (state, SweeperAction::KeepWaiting),
        }
    }
}

/// A failed batch does not stop the sweep: after any outcome of a migration,
/// good or bad, the sweeper is idle, and the round that follows is the same.
pub proof fn lemma_failure_is_isolated(outcome: Result<usize, MigrationError>)
    ensures
        sweep(SweeperState::Running, SweeperEvent::MigrationFinished(outcome)) == (
            SweeperState::Idle,
            SweeperAction::Report(outcome),
        ),
        sweep(SweeperState::Idle, SweeperEvent::Wake) == (
            SweeperState::Waiting,
            SweeperAction::ArmTimer(SWEEP_PERIOD_SECS),
        ),
        sweep(SweeperState::Waiting, SweeperEvent::TimerElapsed) == (
            SweeperState::Running,
            SweeperAction::Migrate(Selector::AllUsers),
        ),
{
}

/// Only a shutdown stops the sweeper, and a shutdown always does.
pub proof fn lemma_stops_on_shutdown_only(state: SweeperState, event: SweeperEvent)
    ensures
        sweep(state, SweeperEvent::Shutdown).0 == SweeperState::Stopped,
        state != SweeperState::Stopped && event != SweeperEvent::Shutdown ==> sweep(state, event).0
            != SweeperState::Stopped,
{
}

} // verus!
