//! Core model of a Linux process sandbox that runs an untrusted target
//! under namespaces, a pivoted root and cgroup caps, then reports how the
//! run ended.
//!
//! The crate holds the engine's decisions and data, each with a proved
//! contract: the configuration value types; the plans for the cgroup
//! writes, the bind mounts and the child's pre-exec sequence; the
//! status-pipe record a failing child sends its supervisor; the
//! supervisor's wait-loop transitions; and the classification of a
//! finished run into a single authoritative outcome. Performing the
//! syscalls these plans and decisions call for is the caller's part.

pub mod cgroup;
pub mod child;
pub mod config;
pub mod decimal;
pub mod errors;
pub mod outcome;
pub mod plan;
pub mod supervisor;
