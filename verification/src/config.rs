//! Immutable value types describing one sandbox invocation.

use vstd::prelude::*;
use vstd::string::StringExecFns;

use crate::decimal::dec_str;
use crate::decimal::u64_to_decimal;

verus! {

/// The divisor of the unit a byte count is displayed in: the largest
/// binary unit (gibi, mebi, kibi) that divides it evenly, else the largest
/// decimal unit (giga, mega, kilo) that does, else bytes.
pub open spec fn display_unit(bytes: u64) -> u64 {
    if bytes % 1073741824 == 0 {
        1073741824
    } else if bytes % 1048576 == 0 {
        1048576
    } else if bytes % 1024 == 0 {
        1024
    } else if bytes % 1000000000 == 0 {
        1000000000
    } else if bytes % 1000000 == 0 {
        1000000
    } else if bytes % 1000 == 0 {
        1000
    } else {
        1
    }
}

/// The unit name that follows the scaled count in a displayed byte count.
pub open spec fn unit_suffix(unit: u64) -> Seq<char> {
    if unit == 1073741824 {
        (" gibibytes")@
    } else if unit == 1048576 {
        (" mebibytes")@
    } else if unit == 1024 {
        (" kibibytes")@
    } else if unit == 1000000000 {
        (" gigabytes")@
    } else if unit == 1000000 {
        (" megabytes")@
    } else if unit == 1000 {
        (" kilobytes")@
    } else {
        (" bytes")@
    }
}

/// How a byte count is displayed: the count scaled to the chosen unit,
/// then the unit's name.
pub open spec fn spec_display(bytes: u64) -> Seq<char> {
    dec_str((bytes / display_unit(bytes)) as nat) + unit_suffix(display_unit(bytes))
}

pub open spec fn is_binary_unit(unit: u64) -> bool {
    unit == 1024 || unit == 1048576 || unit == 1073741824
}

pub open spec fn is_decimal_unit(unit: u64) -> bool {
    unit == 1000 || unit == 1000000 || unit == 1000000000
}

/// The displayed unit always divides the byte count evenly; among the
/// binary units the largest dividing one is chosen, and a decimal unit is
/// chosen only when no binary unit divides; among the decimal units the
/// largest dividing one is chosen, and plain bytes only when no unit at
/// all divides.
pub proof fn lemma_display_unit_choice(bytes: u64)
    ensures
        bytes % display_unit(bytes) == 0,
        display_unit(bytes) == 1 || is_binary_unit(display_unit(bytes)) || is_decimal_unit(
            display_unit(bytes),
        ),
        bytes % 1024 == 0 ==> is_binary_unit(display_unit(bytes)),
        is_binary_unit(display_unit(bytes)) ==> forall|v: u64|
            is_binary_unit(v) && v > display_unit(bytes) ==> #[trigger] (bytes % v) != 0,
        is_decimal_unit(display_unit(bytes)) ==> bytes % 1024 != 0 && forall|v: u64|
            is_decimal_unit(v) && v > display_unit(bytes) ==> #[trigger] (bytes % v) != 0,
        display_unit(bytes) == 1 ==> bytes % 1024 != 0 && bytes % 1000 != 0,
{
}

/// Whether the child shares the parent's network namespace or gets a fresh one.
#[derive(Debug, Eq, PartialEq, Copy, Clone)]
pub enum ShareNet {
    Share,
    Unshare,
}

impl Default for ShareNet {
    fn default() -> (r: Self)
        ensures
            r == ShareNet::Unshare,
    {
        ShareNet::Unshare
    }
}

/// Whether stdio redirection paths are resolved inside the jail after the
/// pivot (`Yes`) or in the outer filesystem before it (`No`).
#[derive(Debug, Eq, PartialEq, Copy, Clone)]
pub enum SwapRedirects {
    Yes,
    No,
}

impl Default for SwapRedirects {
    fn default() -> (r: Self)
        ensures
            r == SwapRedirects::No,
    {
        SwapRedirects::No
    }
}

/// Whether cgroup usage counters are zeroed before the child is attached.
#[derive(Debug, Eq, PartialEq, Copy, Clone)]
pub enum ClearUsage {
    Yes,
    No,
}

impl Default for ClearUsage {
    fn default() -> (r: Self)
        ensures
            r == ClearUsage::Yes,
    {
        ClearUsage::Yes
    }
}

/// Whether the controlling terminal stays attached to the child.
#[derive(Debug, Eq, PartialEq, Copy, Clone)]
pub enum Interactive {
    Yes,
    No,
}

impl Default for Interactive {
    fn default() -> (r: Self)
        ensures
            r == Interactive::No,
    {
        Interactive::No
    }
}

/// A span of time, stored as whole nanoseconds. Limits and measured usage
/// both carry nanosecond resolution.
#[derive(Debug, Eq, PartialEq, Copy, Clone, PartialOrd, Ord)]
pub struct TimeSpan(pub u64);

impl TimeSpan {
    pub fn from_nanoseconds(nanoseconds: u64) -> (r: Self)
        ensures
            r.0 == nanoseconds,
    {
        Self(nanoseconds)
    }

    pub fn from_milliseconds(milliseconds: u64) -> (r: Self)
        requires
            milliseconds * 1000000 <= u64::MAX,
        ensures
            r.0 == milliseconds * 1000000,
    {
        Self(milliseconds * 1000000)
    }

    pub fn from_seconds(seconds: u64) -> (r: Self)
        requires
            seconds * 1000000000 <= u64::MAX,
        ensures
            r.0 == seconds * 1000000000,
    {
        Self(seconds * 1000000000)
    }

    pub fn as_nanoseconds(self) -> (r: u64)
        ensures
            r == self.0,
    {
        self.0
    }
}

/// A byte count, stored as raw bytes. Ordering and equality are on raw bytes.
#[derive(Debug, Eq, PartialEq, Copy, Clone, PartialOrd, Ord)]
pub struct SpaceUsage(pub u64);

impl SpaceUsage {
    pub fn from_bytes(bytes: u64) -> (r: Self)
        ensures
            r.0 == bytes,
    {
        Self(bytes)
    }

    pub fn from_kilobytes(kilobytes: u64) -> (r: Self)
        requires
            kilobytes * 1000 <= u64::MAX,
        ensures
            r.0 == kilobytes * 1000,
    {
        Self::from_bytes(kilobytes * 1000)
    }

    pub fn from_megabytes(megabytes: u64) -> (r: Self)
        requires
            megabytes * 1000000 <= u64::MAX,
        ensures
            r.0 == megabytes * 1000000,
    {
        Self::from_kilobytes(megabytes * 1000)
    }

    pub fn from_gigabytes(gigabytes: u64) -> (r: Self)
        requires
            gigabytes * 1000000000 <= u64::MAX,
        ensures
            r.0 == gigabytes * 1000000000,
    {
        Self::from_megabytes(gigabytes * 1000)
    }

    pub fn from_kibibytes(kibibytes: u64) -> (r: Self)
        requires
            kibibytes * 1024 <= u64::MAX,
        ensures
            r.0 == kibibytes * 1024,
    {
        Self::from_bytes(kibibytes * 1024)
    }

    pub fn from_mebibytes(mebibytes: u64) -> (r: Self)
        requires
            mebibytes * 1048576 <= u64::MAX,
        ensures
            r.0 == mebibytes * 1048576,
    {
        Self::from_kibibytes(mebibytes * 1024)
    }

    pub fn from_gibibytes(gibibytes: u64) -> (r: Self)
        requires
            gibibytes * 1073741824 <= u64::MAX,
        ensures
            r.0 == gibibytes * 1073741824,
    {
        Self::from_mebibytes(gibibytes * 1024)
    }

    pub fn as_bytes(self) -> (r: u64)
        ensures
            r == self.0,
    {
        self.0
    }

    pub fn as_kilobytes(self) -> (r: u64)
        ensures
            r == self.0 / 1000,
    {
        self.0 / 1000
    }

    /// Renders the byte count in the largest evenly-dividing unit, binary
    /// units preferred over decimal ones.
    pub fn display_string(&self) -> (s: String)
        ensures
            s@ == spec_display(self.0),
    {
        if self.0 % 1073741824 == 0 {
            u64_to_decimal(self.0 / 1073741824).concat(" gibibytes")
        } else if self.0 % 1048576 == 0 {
            u64_to_decimal(self.0 / 1048576).concat(" mebibytes")
        } else if self.0 % 1024 == 0 {
            u64_to_decimal(self.0 / 1024).concat(" kibibytes")
        } else if self.0 % 1000000000 == 0 {
            u64_to_decimal(self.0 / 1000000000).concat(" gigabytes")
        } else if self.0 % 1000000 == 0 {
            u64_to_decimal(self.0 / 1000000).concat(" megabytes")
        } else if self.0 % 1000 == 0 {
            u64_to_decimal(self.0 / 1000).concat(" kilobytes")
        } else {
            u64_to_decimal(self.0).concat(" bytes")
        }
    }
}

/// Optional resource caps for one run. An absent cap is not enforced.
#[derive(Debug, Eq, PartialEq, Copy, Clone)]
pub struct Limits {
    pub wall_time: Option<TimeSpan>,
    pub user_time: Option<TimeSpan>,
    pub memory: Option<SpaceUsage>,
    pub stack: Option<SpaceUsage>,
    pub pids: Option<usize>,
}

impl Limits {
    pub fn new(
        wall_time: Option<TimeSpan>,
        user_time: Option<TimeSpan>,
        memory: Option<SpaceUsage>,
        stack: Option<SpaceUsage>,
        pids: Option<usize>,
    ) -> (r: Self)
        ensures
            r.wall_time == wall_time,
            r.user_time == user_time,
            r.memory == memory,
            r.stack == stack,
            r.pids == pids,
    {
        Self { wall_time, user_time, memory, stack, pids }
    }

    pub fn wall_time(&self) -> (r: Option<TimeSpan>)
        ensures
            r == self.wall_time,
    {
        self.wall_time
    }

    pub fn user_time(&self) -> (r: Option<TimeSpan>)
        ensures
            r == self.user_time,
    {
        self.user_time
    }

    pub fn memory(&self) -> (r: Option<SpaceUsage>)
        ensures
            r == self.memory,
    {
        self.memory
    }

    pub fn stack(&self) -> (r: Option<SpaceUsage>)
        ensures
            r == self.stack,
    {
        self.stack
    }

    pub fn pids(&self) -> (r: Option<usize>)
        ensures
            r == self.pids,
    {
        self.pids
    }
}

impl Default for Limits {
    fn default() -> (r: Self)
        ensures
            r.wall_time is None,
            r.user_time is None,
            r.memory is None,
            r.stack is None,
            r.pids is None,
    {
        Self::new(None, None, None, None, None)
    }
}

/// Optional paths to the three cgroup controller directories a run may use.
/// Under each present path the run creates one instance directory.
#[derive(Debug, Eq, PartialEq, Clone)]
pub struct ControllerPath {
    pub cpuacct: Option<String>,
    pub memory: Option<String>,
    pub pids: Option<String>,
}

impl ControllerPath {
    pub fn new(cpuacct: Option<String>, memory: Option<String>, pids: Option<String>) -> (r: Self)
        ensures
            r.cpuacct == cpuacct,
            r.memory == memory,
            r.pids == pids,
    {
        Self { cpuacct, memory, pids }
    }

    pub fn cpuacct(&self) -> (r: Option<&String>)
        ensures
            (r is Some) <==> (self.cpuacct is Some),
            r is Some ==> r->0 == self.cpuacct->0,
    {
        self.cpuacct.as_ref()
    }

    pub fn memory(&self) -> (r: Option<&String>)
        ensures
            (r is Some) <==> (self.memory is Some),
            r is Some ==> r->0 == self.memory->0,
    {
        self.memory.as_ref()
    }

    pub fn pids(&self) -> (r: Option<&String>)
        ensures
            (r is Some) <==> (self.pids is Some),
            r is Some ==> r->0 == self.pids->0,
    {
        self.pids.as_ref()
    }
}

impl Default for ControllerPath {
    fn default() -> (r: Self)
        ensures
            r.cpuacct is None,
            r.memory is None,
            r.pids is None,
    {
        Self::new(None, None, None)
    }
}

/// Options for one bind mount. The default is read-only, no device nodes,
/// no exec.
#[derive(Debug, Eq, PartialEq, Clone, Copy)]
pub struct MountOptions {
    pub read_only: bool,
    pub dev: bool,
    pub exec_allowed: bool,
}

impl MountOptions {
    pub fn read_only(self) -> (r: bool)
        ensures
            r == self.read_only,
    {
        self.read_only
    }

    pub fn dev(self) -> (r: bool)
        ensures
            r == self.dev,
    {
        self.dev
    }

    pub fn exec_allowed(self) -> (r: bool)
        ensures
            r == self.exec_allowed,
    {
        self.exec_allowed
    }

    pub fn set_read_only(&mut self, value: bool)
        ensures
            final(self).read_only == value,
            final(self).dev == old(self).dev,
            final(self).exec_allowed == old(self).exec_allowed,
    {
        self.read_only = value;
    }

    pub fn set_dev(&mut self, value: bool)
        ensures
            final(self).dev == value,
            final(self).read_only == old(self).read_only,
            final(self).exec_allowed == old(self).exec_allowed,
    {
        self.dev = value;
    }

    pub fn set_exec(&mut self, value: bool)
        ensures
            final(self).exec_allowed == value,
            final(self).read_only == old(self).read_only,
            final(self).dev == old(self).dev,
    {
        self.exec_allowed = value;
    }
}

impl Default for MountOptions {
    fn default() -> (r: Self)
        ensures
            r.read_only,
            !r.dev,
            !r.exec_allowed,
    {
        Self { read_only: true, dev: false, exec_allowed: false }
    }
}

/// One bind mount: a source path in the outer filesystem and a destination
/// interpreted relative to the new root after the pivot.
#[derive(Debug, Eq, PartialEq, Clone)]
pub struct Mount {
    pub source: String,
    pub destination: String,
    pub mount_options: MountOptions,
}

impl Mount {
    pub fn new(source: String, destination: String, mount_options: MountOptions) -> (r: Self)
        ensures
            r.source == source,
            r.destination == destination,
            r.mount_options == mount_options,
    {
        Self { source, destination, mount_options }
    }

    pub fn source(&self) -> (r: &String)
        ensures
            r == self.source,
    {
        &self.source
    }

    pub fn destination(&self) -> (r: &String)
        ensures
            r == self.destination,
    {
        &self.destination
    }

    pub fn mount_options(&self) -> (r: MountOptions)
        ensures
            r == self.mount_options,
    {
        self.mount_options
    }
}

/// The environment handed to the target: either the parent's environment
/// verbatim, or an explicit list of name/value pairs that replaces it.
#[derive(Debug, Eq, PartialEq, Clone)]
pub enum Environment {
    Forward,
    EnvList(Vec<(String, String)>),
}

impl Default for Environment {
    fn default() -> (r: Self)
        ensures
            r matches Environment::EnvList(pairs) && pairs@.len() == 0,
    {
        Environment::EnvList(Vec::new())
    }
}

/// The immutable bundle describing one sandbox invocation.
#[derive(Debug, Eq, PartialEq)]
pub struct Config {
    pub command: String,
    pub args: Vec<String>,
    pub new_root: Option<String>,
    pub share_net: ShareNet,
    pub redirect_stdin: Option<String>,
    pub redirect_stdout: Option<String>,
    pub redirect_stderr: Option<String>,
    pub limits: Limits,
    pub instance_name: Option<String>,
    pub controller_path: ControllerPath,
    pub mounts: Vec<Mount>,
    pub swap_redirects: SwapRedirects,
    pub clear_usage: ClearUsage,
    pub interactive: Interactive,
    pub environment: Environment,
}

impl Config {
    pub fn new(
        command: String,
        args: Vec<String>,
        new_root: Option<String>,
        share_net: ShareNet,
        redirect_stdin: Option<String>,
        redirect_stdout: Option<String>,
        redirect_stderr: Option<String>,
        limits: Limits,
        instance_name: Option<String>,
        controller_path: ControllerPath,
        mounts: Vec<Mount>,
        swap_redirects: SwapRedirects,
        clear_usage: ClearUsage,
        interactive: Interactive,
        environment: Environment,
    ) -> (r: Self)
        ensures
            r.command == command,
            r.args == args,
            r.new_root == new_root,
            r.share_net == share_net,
            r.redirect_stdin == redirect_stdin,
            r.redirect_stdout == redirect_stdout,
            r.redirect_stderr == redirect_stderr,
            r.limits == limits,
            r.instance_name == instance_name,
            r.controller_path == controller_path,
            r.mounts == mounts,
            r.swap_redirects == swap_redirects,
            r.clear_usage == clear_usage,
            r.interactive == interactive,
            r.environment == environment,
    {
        Self {
            command,
            args,
            new_root,
            share_net,
            redirect_stdin,
            redirect_stdout,
            redirect_stderr,
            limits,
            instance_name,
            controller_path,
            mounts,
            swap_redirects,
            clear_usage,
            interactive,
            environment,
        }
    }

    pub fn command(&self) -> (r: &String)
        ensures
            r == self.command,
    {
        &self.command
    }

    pub fn args(&self) -> (r: &Vec<String>)
        ensures
            r == self.args,
    {
        &self.args
    }

    pub fn new_root(&self) -> (r: Option<&String>)
        ensures
            (r is Some) <==> (self.new_root is Some),
            r is Some ==> r->0 == self.new_root->0,
    {
        self.new_root.as_ref()
    }

    pub fn share_net(&self) -> (r: ShareNet)
        ensures
            r == self.share_net,
    {
        self.share_net
    }

    pub fn redirect_stdin(&self) -> (r: Option<&String>)
        ensures
            (r is Some) <==> (self.redirect_stdin is Some),
            r is Some ==> r->0 == self.redirect_stdin->0,
    {
        self.redirect_stdin.as_ref()
    }

    pub fn redirect_stdout(&self) -> (r: Option<&String>)
        ensures
            (r is Some) <==> (self.redirect_stdout is Some),
            r is Some ==> r->0 == self.redirect_stdout->0,
    {
        self.redirect_stdout.as_ref()
    }

    pub fn redirect_stderr(&self) -> (r: Option<&String>)
        ensures
            (r is Some) <==> (self.redirect_stderr is Some),
            r is Some ==> r->0 == self.redirect_stderr->0,
    {
        self.redirect_stderr.as_ref()
    }

    pub fn limits(&self) -> (r: Limits)
        ensures
            r == self.limits,
    {
        self.limits
    }

    pub fn instance_name(&self) -> (r: Option<&String>)
        ensures
            (r is Some) <==> (self.instance_name is Some),
            r is Some ==> r->0 == self.instance_name->0,
    {
        self.instance_name.as_ref()
    }

    pub fn controller_path(&self) -> (r: &ControllerPath)
        ensures
            r == self.controller_path,
    {
        &self.controller_path
    }

    pub fn mounts(&self) -> (r: &Vec<Mount>)
        ensures
            r == self.mounts,
    {
        &self.mounts
    }

    pub fn swap_redirects(&self) -> (r: SwapRedirects)
        ensures
            r == self.swap_redirects,
    {
        self.swap_redirects
    }

    pub fn clear_usage(&self) -> (r: ClearUsage)
        ensures
            r == self.clear_usage,
    {
        self.clear_usage
    }

    pub fn interactive(&self) -> (r: Interactive)
        ensures
            r == self.interactive,
    {
        self.interactive
    }

    pub fn environment(&self) -> (r: &Environment)
        ensures
            r == self.environment,
    {
        &self.environment
    }
}

} // verus!
