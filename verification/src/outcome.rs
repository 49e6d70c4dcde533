//! Classification of a finished run: the wait status, the cgroup usage
//! snapshot and the winning timer are combined into a single authoritative
//! outcome, applying the rules in a fixed order.

use vstd::prelude::*;

use crate::config::Limits;
use crate::config::SpaceUsage;
use crate::config::TimeSpan;

verus! {

/// How the kernel reported the child's termination.
#[derive(Debug, Eq, PartialEq, Copy, Clone)]
pub enum WaitStatus {
    Exited(u8),
    Signaled(i32),
}

/// Which timer, if any, won the race against the child's termination.
#[derive(Debug, Eq, PartialEq, Copy, Clone)]
pub enum TimerEvent {
    NotFired,
    Wall,
    User,
}

/// The cgroup counters read after the child was reaped: accumulated CPU
/// user time, peak resident memory, and concurrent task count. A counter
/// whose controller was not configured reads as zero.
#[derive(Debug, Eq, PartialEq, Copy, Clone)]
pub struct UsageSnapshot {
    pub cpu: TimeSpan,
    pub memory: SpaceUsage,
    pub pids: usize,
}

/// The authoritative classification of one run.
#[derive(Debug, Eq, PartialEq, Copy, Clone)]
pub enum RunInfoResult {
    Success,
    NonZeroExitStatus(u8),
    KilledBySignal(i32),
    WallTimeExceeded,
    UserTimeExceeded,
    MemoryLimitExceeded,
}

/// The outcome of one run together with its measured usage.
#[derive(Debug, Eq, PartialEq, Copy, Clone)]
pub struct RunInfo {
    pub result: RunInfoResult,
    pub wall_time: TimeSpan,
    pub user_time: TimeSpan,
    pub memory: SpaceUsage,
}

/// The user-time cap was hit: either its poll timer won the race, or the
/// sampled CPU time reached the cap.
pub open spec fn user_time_exceeded(usage: UsageSnapshot, timer: TimerEvent, limits: Limits) -> bool {
    timer is User || (limits.user_time matches Some(t) && usage.cpu.0 >= t.0)
}

/// The memory cap was hit: peak usage reached the cap. Checked even for a
/// clean exit, because memory-at-limit is authoritative.
pub open spec fn memory_exceeded(usage: UsageSnapshot, limits: Limits) -> bool {
    limits.memory matches Some(m) && usage.memory.0 >= m.0
}

/// The classification rules, applied in order: wall timer first, then the
/// user-time cap, then the memory cap, then the wait status itself.
pub open spec fn spec_classify(
    status: WaitStatus,
    usage: UsageSnapshot,
    timer: TimerEvent,
    limits: Limits,
) -> RunInfoResult {
    if timer is Wall {
        RunInfoResult::WallTimeExceeded
    } else if user_time_exceeded(usage, timer, limits) {
        RunInfoResult::UserTimeExceeded
    } else if memory_exceeded(usage, limits) {
        RunInfoResult::MemoryLimitExceeded
    } else {
        match status {
            WaitStatus::Exited(code) => if code == 0 {
                RunInfoResult::Success
            } else {
                RunInfoResult::NonZeroExitStatus(code)
            },
            WaitStatus::Signaled(signal) => RunInfoResult::KilledBySignal(signal),
        }
    }
}

/// Derives the single outcome variant for one run.
pub fn classify(
    status: WaitStatus,
    usage: UsageSnapshot,
    timer: TimerEvent,
    limits: &Limits,
) -> (r: RunInfoResult)
    ensures
        r == spec_classify(status, usage, timer, *limits),
{
    match timer {
        TimerEvent::Wall => RunInfoResult::WallTimeExceeded,
        TimerEvent::User => RunInfoResult::UserTimeExceeded,
        TimerEvent::NotFired => {
            let user_hit = match limits.user_time {
                Some(t) => usage.cpu.0 >= t.0,
                None => false,
            };
            if user_hit {
                RunInfoResult::UserTimeExceeded
            } else {
                let memory_hit = match limits.memory {
                    Some(m) => usage.memory.0 >= m.0,
                    None => false,
                };
                if memory_hit {
                    RunInfoResult::MemoryLimitExceeded
                } else {
                    match status {
                        WaitStatus::Exited(code) => if code == 0 {
                            RunInfoResult::Success
                        } else {
                            RunInfoResult::NonZeroExitStatus(code)
                        },
                        WaitStatus::Signaled(signal) => RunInfoResult::KilledBySignal(signal),
                    }
                }
            }
        },
    }
}

/// Combines the classification with the measured usage: wall time as the
/// supervisor measured it, CPU time and memory from the cgroup snapshot.
pub fn synthesize_run_info(
    status: WaitStatus,
    usage: UsageSnapshot,
    timer: TimerEvent,
    limits: &Limits,
    wall_time: TimeSpan,
) -> (r: RunInfo)
    ensures
        r.result == spec_classify(status, usage, timer, *limits),
        r.wall_time == wall_time,
        r.user_time == usage.cpu,
        r.memory == usage.memory,
{
    RunInfo { result: classify(status, usage, timer, limits), wall_time, user_time: usage.cpu, memory: usage.memory }
}

impl RunInfo {
    /// Holds exactly when the run ended in a clean zero exit within every cap.
    pub fn is_success(&self) -> (r: bool)
        ensures
            r == (self.result is Success),
    {
        match self.result {
            RunInfoResult::Success => true,
            _ => false,
        }
    }
}

/// Classification is total and deterministic: for every triple of wait
/// status, usage snapshot and winning timer, the rule order picks exactly
/// one outcome variant, and the clauses below name it for each case.
pub proof fn lemma_classification_total(
    status: WaitStatus,
    usage: UsageSnapshot,
    timer: TimerEvent,
    limits: Limits,
)
    ensures
        timer is Wall ==> spec_classify(status, usage, timer, limits)
            == RunInfoResult::WallTimeExceeded,
        !(timer is Wall) && user_time_exceeded(usage, timer, limits) ==> spec_classify(
            status,
            usage,
            timer,
            limits,
        ) == RunInfoResult::UserTimeExceeded,
        !(timer is Wall) && !user_time_exceeded(usage, timer, limits) && memory_exceeded(
            usage,
            limits,
        ) ==> spec_classify(status, usage, timer, limits) == RunInfoResult::MemoryLimitExceeded,
        !(timer is Wall) && !user_time_exceeded(usage, timer, limits) && !memory_exceeded(
            usage,
            limits,
        ) ==> spec_classify(status, usage, timer, limits) == match status {
            WaitStatus::Exited(code) => if code == 0 {
                RunInfoResult::Success
            } else {
                RunInfoResult::NonZeroExitStatus(code)
            },
            WaitStatus::Signaled(signal) => RunInfoResult::KilledBySignal(signal),
        },
{
}

} // verus!
