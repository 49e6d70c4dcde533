//! The controller registry's pure core: which controller files one run
//! writes, with which rendered values, and how the usage snapshot is
//! assembled. Creating the instance directories, performing the writes
//! and reading the counters is filesystem work done by the caller against
//! the plans computed here.

use vstd::prelude::*;
use vstd::string::StringExecFns;

use crate::config::ControllerPath;
use crate::config::Limits;
use crate::config::SpaceUsage;
use crate::config::TimeSpan;
use crate::decimal::dec_str;
use crate::decimal::u64_to_decimal;
use crate::outcome::UsageSnapshot;

verus! {

/// One of the three cgroup controllers a run may use.
#[derive(Debug, Eq, PartialEq, Copy, Clone)]
pub enum Controller {
    Cpuacct,
    Memory,
    Pids,
}

/// One write into a controller file of the run's instance directory. An
/// empty value truncates the file.
#[derive(Debug, Eq, PartialEq, Clone)]
pub struct CgroupWrite {
    pub controller: Controller,
    pub file: String,
    pub value: String,
}

/// The write reduced to its mathematical content.
pub open spec fn write_view(w: CgroupWrite) -> (Controller, Seq<char>, Seq<char>) {
    (w.controller, w.file@, w.value@)
}

/// The writes that apply the configured caps: the memory cap goes to
/// `memory.limit_in_bytes` and, to keep a single cap with swap accounting,
/// to `memory.memsw.limit_in_bytes`; the task cap goes to `pids.max`. The
/// wall and user-time caps are enforced by the supervisor, not the kernel,
/// and the stack cap by an rlimit in the child, so none of them is
/// written here.
pub open spec fn spec_limit_writes(limits: Limits) -> Seq<(Controller, Seq<char>, Seq<char>)> {
    (if limits.memory is Some {
        let m = limits.memory->0;
        seq![
            (Controller::Memory, ("memory.limit_in_bytes")@, dec_str(m.0 as nat)),
            (Controller::Memory, ("memory.memsw.limit_in_bytes")@, dec_str(m.0 as nat)),
        ]
    } else {
        Seq::empty()
    }) + (if limits.pids is Some {
        let p = limits.pids->0;
        seq![(Controller::Pids, ("pids.max")@, dec_str(p as nat))]
    } else {
        Seq::empty()
    })
}

/// Plans the limit writes for one run.
pub fn limit_writes(limits: &Limits) -> (writes: Vec<CgroupWrite>)
    ensures
        writes@.map_values(|w: CgroupWrite| write_view(w)) == spec_limit_writes(*limits),
{
    let mut writes: Vec<CgroupWrite> = Vec::new();
    match limits.memory {
        Some(m) => {
            writes.push(
                CgroupWrite {
                    controller: Controller::Memory,
                    file: String::from_str("memory.limit_in_bytes"),
                    value: u64_to_decimal(m.0),
                },
            );
            writes.push(
                CgroupWrite {
                    controller: Controller::Memory,
                    file: String::from_str("memory.memsw.limit_in_bytes"),
                    value: u64_to_decimal(m.0),
                },
            );
        },
        None => {},
    }
    match limits.pids {
        Some(p) => {
            writes.push(
                CgroupWrite {
                    controller: Controller::Pids,
                    file: String::from_str("pids.max"),
                    value: u64_to_decimal(p as u64),
                },
            );
        },
        None => {},
    }
    proof {
        assert(writes@.map_values(|w: CgroupWrite| write_view(w)) =~= spec_limit_writes(*limits));
    }
    writes
}

/// The writes that zero the usage counters before the child is attached:
/// the accumulated CPU time and the memory peak are written back to zero,
/// the failure count is truncated. Only configured controllers are
/// touched.
pub open spec fn spec_clear_usage_writes(paths: ControllerPath) -> Seq<
    (Controller, Seq<char>, Seq<char>),
> {
    (if paths.cpuacct is Some {
        seq![(Controller::Cpuacct, ("cpuacct.usage")@, ("0")@)]
    } else {
        Seq::empty()
    }) + (if paths.memory is Some {
        seq![
            (Controller::Memory, ("memory.max_usage_in_bytes")@, ("0")@),
            (Controller::Memory, ("memory.failcnt")@, Seq::<char>::empty()),
        ]
    } else {
        Seq::empty()
    })
}

/// Plans the counter-clearing writes for one run.
pub fn clear_usage_writes(paths: &ControllerPath) -> (writes: Vec<CgroupWrite>)
    ensures
        writes@.map_values(|w: CgroupWrite| write_view(w)) == spec_clear_usage_writes(*paths),
{
    let mut writes: Vec<CgroupWrite> = Vec::new();
    if paths.cpuacct.is_some() {
        writes.push(
            CgroupWrite {
                controller: Controller::Cpuacct,
                file: String::from_str("cpuacct.usage"),
                value: String::from_str("0"),
            },
        );
    }
    if paths.memory.is_some() {
        writes.push(
            CgroupWrite {
                controller: Controller::Memory,
                file: String::from_str("memory.max_usage_in_bytes"),
                value: String::from_str("0"),
            },
        );
        writes.push(
            CgroupWrite {
                controller: Controller::Memory,
                file: String::from_str("memory.failcnt"),
                value: String::new(),
            },
        );
    }
    proof {
        assert(writes@.map_values(|w: CgroupWrite| write_view(w)) =~= spec_clear_usage_writes(
            *paths,
        ));
    }
    writes
}

/// The writes that attach the child to the run's cgroups: its pid goes to
/// the `tasks` file of every configured controller. The supervisor does
/// this before it releases the child, so every task the target forks is
/// counted.
pub open spec fn spec_attach_writes(paths: ControllerPath, pid: u64) -> Seq<
    (Controller, Seq<char>, Seq<char>),
> {
    (if paths.cpuacct is Some {
        seq![(Controller::Cpuacct, ("tasks")@, dec_str(pid as nat))]
    } else {
        Seq::empty()
    }) + (if paths.memory is Some {
        seq![(Controller::Memory, ("tasks")@, dec_str(pid as nat))]
    } else {
        Seq::empty()
    }) + (if paths.pids is Some {
        seq![(Controller::Pids, ("tasks")@, dec_str(pid as nat))]
    } else {
        Seq::empty()
    })
}

/// Plans the attach writes for one run.
pub fn attach_writes(paths: &ControllerPath, pid: u64) -> (writes: Vec<CgroupWrite>)
    ensures
        writes@.map_values(|w: CgroupWrite| write_view(w)) == spec_attach_writes(*paths, pid),
{
    let mut writes: Vec<CgroupWrite> = Vec::new();
    if paths.cpuacct.is_some() {
        writes.push(
            CgroupWrite {
                controller: Controller::Cpuacct,
                file: String::from_str("tasks"),
                value: u64_to_decimal(pid),
            },
        );
    }
    if paths.memory.is_some() {
        writes.push(
            CgroupWrite {
                controller: Controller::Memory,
                file: String::from_str("tasks"),
                value: u64_to_decimal(pid),
            },
        );
    }
    if paths.pids.is_some() {
        writes.push(
            CgroupWrite {
                controller: Controller::Pids,
                file: String::from_str("tasks"),
                value: u64_to_decimal(pid),
            },
        );
    }
    proof {
        assert(writes@.map_values(|w: CgroupWrite| write_view(w)) =~= spec_attach_writes(
            *paths,
            pid,
        ));
    }
    writes
}

/// Assembles the usage snapshot from the raw counter readings, taken in
/// the order `cpuacct.usage` (nanoseconds), `memory.max_usage_in_bytes`
/// (bytes), `pids.current`. A reading whose controller is not configured
/// is absent and reported as zero, which keeps the supervisor total.
pub fn snapshot_from_readings(
    cpu_nanoseconds: Option<u64>,
    memory_bytes: Option<u64>,
    pids_current: Option<usize>,
) -> (r: UsageSnapshot)
    ensures
        r.cpu.0 == cpu_nanoseconds.unwrap_or(0),
        r.memory.0 == memory_bytes.unwrap_or(0),
        r.pids == pids_current.unwrap_or(0),
{
    UsageSnapshot {
        cpu: TimeSpan(cpu_nanoseconds.unwrap_or(0)),
        memory: SpaceUsage(memory_bytes.unwrap_or(0)),
        pids: pids_current.unwrap_or(0),
    }
}

} // verus!
