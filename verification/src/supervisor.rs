//! The supervisor's wait-loop decisions. After the fork the supervisor
//! multiplexes three event sources: child termination, the wall-clock
//! timer, and the periodic poll that samples accumulated CPU time against
//! the user-time cap. The blocking waits, the kill and the reap are
//! syscalls performed by the caller; which of them to perform next, and
//! which timer won the race, is decided here.

use vstd::prelude::*;

use crate::config::Limits;
use crate::config::TimeSpan;
use crate::outcome::spec_classify;
use crate::outcome::synthesize_run_info;
use crate::outcome::RunInfo;
use crate::outcome::TimerEvent;
use crate::outcome::UsageSnapshot;
use crate::outcome::WaitStatus;

verus! {

/// One readiness event of the supervisor's wait loop.
#[derive(Debug, Eq, PartialEq, Copy, Clone)]
pub enum SupervisorEvent {
    /// The child terminated with the given wait status.
    ChildExited(WaitStatus),
    /// The wall-clock timer expired.
    WallTimerFired,
    /// The poll timer ticked; the sample is the CPU user time accumulated
    /// so far.
    UserPollSample(TimeSpan),
}

/// What the supervisor does in response to an event.
#[derive(Debug, Eq, PartialEq, Copy, Clone)]
pub enum SupervisorAction {
    /// Block on the event sources again.
    KeepWaiting,
    /// Send SIGKILL to the child, then keep waiting for the reap.
    KillChild,
    /// Reap the child, then snapshot the cgroups and classify.
    ReapChild(WaitStatus),
}

/// What the wait loop carries between events: which timer, if any, has
/// already won the race. The winner becomes the tentative classification.
#[derive(Debug, Eq, PartialEq, Copy, Clone)]
pub struct SupervisorState {
    pub winner: TimerEvent,
}

/// The state the wait loop starts in: no timer has fired.
pub fn initial_state() -> (s: SupervisorState)
    ensures
        s.winner == TimerEvent::NotFired,
{
    SupervisorState { winner: TimerEvent::NotFired }
}

/// The wait loop's transition: a terminated child is reaped whatever
/// happened before; the first timer to fire records itself as the winner
/// and has the child killed; everything after the first win, and every
/// poll sample under the cap, keeps waiting.
pub open spec fn spec_step(state: SupervisorState, event: SupervisorEvent, limits: Limits) -> (
    SupervisorState,
    SupervisorAction,
) {
    match event {
        SupervisorEvent::ChildExited(status) => (state, SupervisorAction::ReapChild(status)),
        SupervisorEvent::WallTimerFired => if state.winner is NotFired {
            (SupervisorState { winner: TimerEvent::Wall }, SupervisorAction::KillChild)
        } else {
            (state, SupervisorAction::KeepWaiting)
        },
        SupervisorEvent::UserPollSample(cpu) => if state.winner is NotFired
            && (limits.user_time matches Some(t) && cpu.0 >= t.0) {
            (SupervisorState { winner: TimerEvent::User }, SupervisorAction::KillChild)
        } else {
            (state, SupervisorAction::KeepWaiting)
        },
    }
}

/// Advances the wait loop by one event.
pub fn step(state: SupervisorState, event: SupervisorEvent, limits: &Limits) -> (r: (
    SupervisorState,
    SupervisorAction,
))
    ensures
        r == spec_step(state, event, *limits),
{
    match event {
        SupervisorEvent::ChildExited(status) => (state, SupervisorAction::ReapChild(status)),
        SupervisorEvent::WallTimerFired => match state.winner {
            TimerEvent::NotFired => (
                SupervisorState { winner: TimerEvent::Wall },
                SupervisorAction::KillChild,
            ),
            _ => (state, SupervisorAction::KeepWaiting),
        },
        SupervisorEvent::UserPollSample(cpu) => {
            let over_cap = match limits.user_time {
                Some(t) => cpu.0 >= t.0,
                None => false,
            };
            match state.winner {
                TimerEvent::NotFired => if over_cap {
                    (SupervisorState { winner: TimerEvent::User }, SupervisorAction::KillChild)
                } else {
                    (state, SupervisorAction::KeepWaiting)
                },
                _ => (state, SupervisorAction::KeepWaiting),
            }
        },
    }
}

/// The race has one winner: a recorded winner never changes, a kill is
/// issued exactly when a timer newly wins, and the winner only moves away
/// from `NotFired` to the timer of the event that won.
pub proof fn lemma_first_timer_wins(state: SupervisorState, event: SupervisorEvent, limits: Limits)
    ensures
        !(state.winner is NotFired) ==> spec_step(state, event, limits).0.winner == state.winner,
        (spec_step(state, event, limits).1 is KillChild) <==> (state.winner is NotFired) && !(
        spec_step(state, event, limits).0.winner is NotFired),
        spec_step(state, event, limits).0.winner is Wall ==> state.winner is Wall || event
            == SupervisorEvent::WallTimerFired,
        spec_step(state, event, limits).0.winner is User ==> state.winner is User || (
        event matches SupervisorEvent::UserPollSample(cpu) && limits.user_time matches Some(t)
            && cpu.0 >= t.0),
{
}

/// After the reap, the wait loop's winner and the cgroup snapshot settle
/// the outcome: steps nine to eleven of the supervisor in one call.
pub fn conclude(
    state: SupervisorState,
    status: WaitStatus,
    usage: UsageSnapshot,
    limits: &Limits,
    wall_time: TimeSpan,
) -> (r: RunInfo)
    ensures
        r.result == spec_classify(status, usage, state.winner, *limits),
        r.wall_time == wall_time,
        r.user_time == usage.cpu,
        r.memory == usage.memory,
{
    synthesize_run_info(status, usage, state.winner, limits, wall_time)
}

} // verus!
