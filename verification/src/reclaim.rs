//! The rhythm of the reclamation of idle rooms: sleep for the poll interval,
//! sweep once, and again, without end.

use crate::config::POLL_INTERVAL_SECS;
use vstd::prelude::*;

verus! {

/// What the reclamation is doing.
#[derive(Clone, Copy, Debug, PartialEq, Eq, Structural)]
pub enum ReclaimState {
    Sleeping,
    Sweeping,
}

/// What whoever runs the reclamation does next.
#[derive(Clone, Copy, Debug, PartialEq, Eq, Structural)]
pub enum ReclaimAction {
    /// Wait for this many seconds.
    Sleep(u64),
    /// Sweep the registry once.
    Sweep,
}

/// The state and the action that follow `state`, once what it stands for is
/// done: after a sleep the sweep, after a sweep the sleep of one poll interval.
pub open spec fn reclaim_next(state: ReclaimState) -> (ReclaimState, ReclaimAction) {
    match state {
        ReclaimState::Sleeping => (ReclaimState::Sweeping, ReclaimAction::Sweep),
        ReclaimState::Sweeping => (
            ReclaimState::Sleeping,
            ReclaimAction::Sleep(POLL_INTERVAL_SECS),
        ),
    }
}

/// How the reclamation starts: with a sleep of one poll interval.
pub fn reclaim_begin() -> (r: (ReclaimState, ReclaimAction))
    ensures
        r == (ReclaimState::Sleeping, ReclaimAction::Sleep(POLL_INTERVAL_SECS)),
{
    (ReclaimState::Sleeping, ReclaimAction::Sleep(POLL_INTERVAL_SECS))
}

/// Decides what follows `state`, once what it stands for is done.
pub fn reclaim_step(state: ReclaimState) -> (r: (ReclaimState, ReclaimAction))
    ensures
        r == reclaim_next(state),
{
    match state {
        ReclaimState::Sleeping => (ReclaimState::Sweeping, ReclaimAction::Sweep),
        ReclaimState::Sweeping => (ReclaimState::Sleeping, ReclaimAction::Sleep(POLL_INTERVAL_SECS)),
    }
}

/// The reclamation never ends and never fails: every state has a successor,
/// sleeping and sweeping take turns, and every sleep lasts one poll interval,
/// whatever the idle timeout is.
pub proof fn lemma_reclaim_alternates(state: ReclaimState)
    ensures
        reclaim_next(state).0 != state,
        reclaim_next(reclaim_next(state).0).0 == state,
        reclaim_next(state).1 is Sweep <==> state is Sleeping,
        reclaim_next(state).1 is Sleep ==> reclaim_next(state).1 == ReclaimAction::Sleep(60),
{
}

} // verus!
