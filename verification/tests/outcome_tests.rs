use sandbox::config::Limits;
use sandbox::config::SpaceUsage;
use sandbox::config::TimeSpan;
use sandbox::outcome::classify;
use sandbox::outcome::synthesize_run_info;
use sandbox::outcome::RunInfoResult;
use sandbox::outcome::TimerEvent;
use sandbox::outcome::UsageSnapshot;
use sandbox::outcome::WaitStatus;

fn quiet_usage() -> UsageSnapshot {
    UsageSnapshot {
        cpu: TimeSpan::from_nanoseconds(0),
        memory: SpaceUsage::from_bytes(0),
        pids: 1,
    }
}

#[test]
fn clean_exit_is_success() {
    let r = classify(
        WaitStatus::Exited(0),
        quiet_usage(),
        TimerEvent::NotFired,
        &Limits::default(),
    );
    assert_eq!(r, RunInfoResult::Success);
}

#[test]
fn nonzero_exit_keeps_its_code() {
    let r = classify(
        WaitStatus::Exited(23),
        quiet_usage(),
        TimerEvent::NotFired,
        &Limits::default(),
    );
    assert_eq!(r, RunInfoResult::NonZeroExitStatus(23));
}

#[test]
fn signal_death_keeps_its_signal() {
    let r = classify(
        WaitStatus::Signaled(11),
        quiet_usage(),
        TimerEvent::NotFired,
        &Limits::default(),
    );
    assert_eq!(r, RunInfoResult::KilledBySignal(11));
}

#[test]
fn wall_timer_wins_over_the_kill_it_caused() {
    // The wall timer fired and killed the child; cause of death, not the
    // mechanism, is reported.
    let r = classify(
        WaitStatus::Signaled(9),
        quiet_usage(),
        TimerEvent::Wall,
        &Limits::default(),
    );
    assert_eq!(r, RunInfoResult::WallTimeExceeded);
}

#[test]
fn user_timer_wins_when_wall_did_not_fire() {
    let r = classify(
        WaitStatus::Signaled(9),
        quiet_usage(),
        TimerEvent::User,
        &Limits::default(),
    );
    assert_eq!(r, RunInfoResult::UserTimeExceeded);
}

#[test]
fn sampled_cpu_at_the_cap_is_user_time_exceeded() {
    let limits = Limits::new(None, Some(TimeSpan::from_seconds(1)), None, None, None);
    let usage = UsageSnapshot {
        cpu: TimeSpan::from_milliseconds(1500),
        memory: SpaceUsage::from_bytes(0),
        pids: 1,
    };
    let r = classify(WaitStatus::Exited(0), usage, TimerEvent::NotFired, &limits);
    assert_eq!(r, RunInfoResult::UserTimeExceeded);
}

#[test]
fn memory_at_the_cap_beats_a_clean_exit() {
    let limits = Limits::new(None, None, Some(SpaceUsage::from_mebibytes(64)), None, None);
    let usage = UsageSnapshot {
        cpu: TimeSpan::from_nanoseconds(0),
        memory: SpaceUsage::from_mebibytes(64),
        pids: 1,
    };
    let r = classify(WaitStatus::Exited(0), usage, TimerEvent::NotFired, &limits);
    assert_eq!(r, RunInfoResult::MemoryLimitExceeded);
}

#[test]
fn memory_under_the_cap_does_not_trip() {
    let limits = Limits::new(None, None, Some(SpaceUsage::from_mebibytes(64)), None, None);
    let usage = UsageSnapshot {
        cpu: TimeSpan::from_nanoseconds(0),
        memory: SpaceUsage::from_mebibytes(63),
        pids: 1,
    };
    let r = classify(WaitStatus::Exited(0), usage, TimerEvent::NotFired, &limits);
    assert_eq!(r, RunInfoResult::Success);
}

#[test]
fn rule_order_wall_before_user_before_memory() {
    // Every cap is hit at once; the wall timer is reported.
    let limits = Limits::new(
        Some(TimeSpan::from_milliseconds(100)),
        Some(TimeSpan::from_milliseconds(1)),
        Some(SpaceUsage::from_bytes(1)),
        None,
        None,
    );
    let usage = UsageSnapshot {
        cpu: TimeSpan::from_seconds(1),
        memory: SpaceUsage::from_mebibytes(1),
        pids: 1,
    };
    let wall = classify(WaitStatus::Signaled(9), usage, TimerEvent::Wall, &limits);
    assert_eq!(wall, RunInfoResult::WallTimeExceeded);
    // Without the wall timer, the user-time cap comes before the memory cap.
    let user = classify(WaitStatus::Signaled(9), usage, TimerEvent::NotFired, &limits);
    assert_eq!(user, RunInfoResult::UserTimeExceeded);
}

#[test]
fn classification_is_total_over_synthetic_triples() {
    // Inject a grid of synthetic triples; every one classifies, and to
    // exactly one variant.
    let statuses = [
        WaitStatus::Exited(0),
        WaitStatus::Exited(17),
        WaitStatus::Signaled(9),
        WaitStatus::Signaled(11),
    ];
    let timers = [TimerEvent::NotFired, TimerEvent::Wall, TimerEvent::User];
    let cpus: [u64; 2] = [0, 2_000_000_000];
    let memories: [u64; 2] = [0, 1 << 30];
    let limits = Limits::new(
        Some(TimeSpan::from_milliseconds(500)),
        Some(TimeSpan::from_seconds(1)),
        Some(SpaceUsage::from_mebibytes(64)),
        None,
        None,
    );
    for status in statuses {
        for timer in timers {
            for cpu in cpus {
                for memory in memories {
                    let usage = UsageSnapshot {
                        cpu: TimeSpan::from_nanoseconds(cpu),
                        memory: SpaceUsage::from_bytes(memory),
                        pids: 1,
                    };
                    let r = classify(status, usage, timer, &limits);
                    let expected = if matches!(timer, TimerEvent::Wall) {
                        RunInfoResult::WallTimeExceeded
                    } else if matches!(timer, TimerEvent::User) || cpu >= 1_000_000_000 {
                        RunInfoResult::UserTimeExceeded
                    } else if memory >= 64 * 1024 * 1024 {
                        RunInfoResult::MemoryLimitExceeded
                    } else {
                        match status {
                            WaitStatus::Exited(0) => RunInfoResult::Success,
                            WaitStatus::Exited(code) => RunInfoResult::NonZeroExitStatus(code),
                            WaitStatus::Signaled(signal) => RunInfoResult::KilledBySignal(signal),
                        }
                    };
                    assert_eq!(r, expected);
                }
            }
        }
    }
}

#[test]
fn synthesized_run_info_carries_the_measurements() {
    let usage = UsageSnapshot {
        cpu: TimeSpan::from_milliseconds(250),
        memory: SpaceUsage::from_kibibytes(512),
        pids: 3,
    };
    let info = synthesize_run_info(
        WaitStatus::Exited(0),
        usage,
        TimerEvent::NotFired,
        &Limits::default(),
        TimeSpan::from_milliseconds(300),
    );
    assert_eq!(info.result, RunInfoResult::Success);
    assert_eq!(info.wall_time, TimeSpan::from_milliseconds(300));
    assert_eq!(info.user_time, TimeSpan::from_milliseconds(250));
    assert_eq!(info.memory, SpaceUsage::from_kibibytes(512));
    assert!(info.is_success());
}

#[test]
fn a_failed_run_is_not_a_success() {
    let info = synthesize_run_info(
        WaitStatus::Exited(1),
        quiet_usage(),
        TimerEvent::NotFired,
        &Limits::default(),
        TimeSpan::from_nanoseconds(0),
    );
    assert!(!info.is_success());
}
