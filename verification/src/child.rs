//! What the child builds before it replaces itself with the target: the
//! argument vector, the environment entries, and the ordered sequence of
//! steps between the go token and the `execve`.

use vstd::prelude::*;
use vstd::string::StrSliceExecFns;
use vstd::string::StringExecFns;

use crate::config::Config;
use crate::config::SwapRedirects;
use crate::plan::plan_mounts;
use crate::plan::spec_plan;
use crate::plan::MountStep;

verus! {

/// One step of the child's pre-exec sequence, in the order performed.
/// Each open step remembers its descriptor and later lands on the
/// standard descriptor it redirects, with the original closed; a missing
/// redirection inherits the supervisor's descriptor. Every failing step
/// writes its typed record to the status pipe and exits with code 255.
#[derive(Debug, Eq, PartialEq)]
pub enum ChildStep {
    /// Block on the sync pipe until the supervisor has attached the
    /// child to every configured cgroup.
    AwaitGoToken,
    /// Open the stdin redirection read-only; the run fails when the file
    /// is missing.
    OpenStdin { path: String },
    /// Open the stdout redirection write-only with create and truncate.
    OpenStdout { path: String },
    /// Open the stderr redirection write-only with create and truncate.
    OpenStderr { path: String },
    /// Bind the new root onto itself, as the pivot requires.
    BindRootOntoItself { root: String },
    /// Change directory into the new root.
    EnterRoot { root: String },
    /// Perform one operation of the mount plan.
    ApplyMount(MountStep),
    /// Create the staging directory the old root is pivoted onto.
    CreateOldRootDir,
    /// Make the current directory the root of the mount namespace.
    PivotIntoRoot,
    /// Change directory to the new `/`.
    EnterRootDirectory,
    /// Lazily unmount the old root, so the outer filesystem vanishes.
    DetachOldRoot,
    /// Remove the now-empty staging directory.
    RemoveOldRootDir,
    /// Set the stack soft rlimit; memory stays a cgroup matter.
    ApplyStackLimit { bytes: u64 },
    /// Replace the process with the target. The argument vector comes
    /// from `build_argv`, the environment entries from `env_entries`.
    ExecTarget { command: String },
}

/// The open steps of the configured redirections, stdin first.
pub open spec fn spec_redirect_steps(config: Config) -> Seq<ChildStep> {
    (if config.redirect_stdin is Some {
        seq![ChildStep::OpenStdin { path: config.redirect_stdin->0 }]
    } else {
        Seq::empty()
    }) + (if config.redirect_stdout is Some {
        seq![ChildStep::OpenStdout { path: config.redirect_stdout->0 }]
    } else {
        Seq::empty()
    }) + (if config.redirect_stderr is Some {
        seq![ChildStep::OpenStderr { path: config.redirect_stderr->0 }]
    } else {
        Seq::empty()
    })
}

/// The steps that move the child into its jail: bind the root onto
/// itself, enter it, apply the whole mount plan, then pivot and drop the
/// old root. Absent a new root, the child stays where it is.
pub open spec fn spec_root_steps(config: Config) -> Seq<ChildStep> {
    if config.new_root is Some {
        seq![
            ChildStep::BindRootOntoItself { root: config.new_root->0 },
            ChildStep::EnterRoot { root: config.new_root->0 },
        ] + spec_plan(config.mounts@).map_values(|s: MountStep| ChildStep::ApplyMount(s)) + seq![
            ChildStep::CreateOldRootDir,
            ChildStep::PivotIntoRoot,
            ChildStep::EnterRootDirectory,
            ChildStep::DetachOldRoot,
            ChildStep::RemoveOldRootDir,
        ]
    } else {
        Seq::empty()
    }
}

/// The child's whole sequence between fork and exec: wait for the go
/// token; open the redirections in the outer filesystem when they are
/// not swapped; enter the jail; open them inside it when they are;
/// apply the stack rlimit; exec the target.
pub open spec fn spec_child_plan(config: Config) -> Seq<ChildStep> {
    seq![ChildStep::AwaitGoToken] + (if config.swap_redirects is No {
        spec_redirect_steps(config)
    } else {
        Seq::empty()
    }) + spec_root_steps(config) + (if config.swap_redirects is Yes {
        spec_redirect_steps(config)
    } else {
        Seq::empty()
    }) + (if config.limits.stack is Some {
        seq![ChildStep::ApplyStackLimit { bytes: (config.limits.stack->0).0 }]
    } else {
        Seq::empty()
    }) + seq![ChildStep::ExecTarget { command: config.command }]
}

/// The choreography's brackets: the child's very first step is the
/// blocking read of the go token, so no user-visible work happens before
/// the supervisor has attached and released it, and its very last step
/// is the `exec` that replaces it with the target.
pub proof fn lemma_child_plan_order(config: Config)
    ensures
        spec_child_plan(config).len() >= 2,
        spec_child_plan(config).first() == ChildStep::AwaitGoToken,
        spec_child_plan(config).last() == (ChildStep::ExecTarget { command: config.command }),
{
}

fn push_redirect_steps(steps: &mut Vec<ChildStep>, config: &Config)
    ensures
        final(steps)@ == old(steps)@ + spec_redirect_steps(*config),
{
    match &config.redirect_stdin {
        Some(path) => steps.push(ChildStep::OpenStdin { path: path.clone() }),
        None => {},
    }
    match &config.redirect_stdout {
        Some(path) => steps.push(ChildStep::OpenStdout { path: path.clone() }),
        None => {},
    }
    match &config.redirect_stderr {
        Some(path) => steps.push(ChildStep::OpenStderr { path: path.clone() }),
        None => {},
    }
    proof {
        assert(steps@ =~= old(steps)@ + spec_redirect_steps(*config));
    }
}

/// Plans the child's pre-exec sequence for one configuration.
#[verifier::rlimit(60)]
pub fn child_plan(config: &Config) -> (steps: Vec<ChildStep>)
    ensures
        steps@ == spec_child_plan(*config),
{
    let mut steps: Vec<ChildStep> = Vec::new();
    steps.push(ChildStep::AwaitGoToken);
    if matches!(config.swap_redirects, SwapRedirects::No) {
        push_redirect_steps(&mut steps, config);
    }
    match &config.new_root {
        Some(root) => {
            steps.push(ChildStep::BindRootOntoItself { root: root.clone() });
            steps.push(ChildStep::EnterRoot { root: root.clone() });
            let mount_steps = plan_mounts(&config.mounts);
            let ghost prefix = steps@;
            let mut i: usize = 0;
            while i < mount_steps.len()
                invariant
                    i <= mount_steps@.len(),
                    mount_steps@ == spec_plan(config.mounts@),
                    steps@ == prefix + spec_plan(config.mounts@).take(i as int).map_values(
                        |s: MountStep| ChildStep::ApplyMount(s),
                    ),
                decreases mount_steps@.len() - i,
            {
                steps.push(ChildStep::ApplyMount(mount_steps[i].clone()));
                proof {
                    assert(spec_plan(config.mounts@).take(i as int + 1).map_values(
                        |s: MountStep| ChildStep::ApplyMount(s),
                    ) =~= spec_plan(config.mounts@).take(i as int).map_values(
                        |s: MountStep| ChildStep::ApplyMount(s),
                    ) + seq![ChildStep::ApplyMount(spec_plan(config.mounts@)[i as int])]);
                }
                i = i + 1;
            }
            proof {
                assert(spec_plan(config.mounts@).take(spec_plan(config.mounts@).len() as int)
                    =~= spec_plan(config.mounts@));
            }
            steps.push(ChildStep::CreateOldRootDir);
            steps.push(ChildStep::PivotIntoRoot);
            steps.push(ChildStep::EnterRootDirectory);
            steps.push(ChildStep::DetachOldRoot);
            steps.push(ChildStep::RemoveOldRootDir);
        },
        None => {},
    }
    if matches!(config.swap_redirects, SwapRedirects::Yes) {
        push_redirect_steps(&mut steps, config);
    }
    match config.limits.stack {
        Some(stack) => steps.push(ChildStep::ApplyStackLimit { bytes: stack.0 }),
        None => {},
    }
    steps.push(ChildStep::ExecTarget { command: config.command.clone() });
    proof {
        assert(steps@ =~= spec_child_plan(*config));
    }
    steps
}

/// The final path component: everything after the last `/`, or the whole
/// path when it has none.
pub open spec fn spec_basename(path: Seq<char>) -> Seq<char>
    decreases path.len(),
{
    if path.len() == 0 {
        path
    } else if path.last() == '/' {
        Seq::empty()
    } else {
        spec_basename(path.drop_last()) + seq![path.last()]
    }
}

/// A suffix that starts right after a `/` (or at the front when the path
/// has no `/` at all) and contains none itself is the basename.
proof fn lemma_basename_is_suffix(path: Seq<char>, start: int)
    requires
        0 <= start <= path.len(),
        forall|j: int| start <= j < path.len() ==> path[j] != '/',
        start > 0 ==> path[start - 1] == '/',
    ensures
        spec_basename(path) == path.subrange(start, path.len() as int),
    decreases path.len() - start,
{
    if start == path.len() {
        if path.len() == 0 {
            assert(path.subrange(0, 0) =~= path);
        } else {
            assert(path.last() == '/');
            assert(path.subrange(start, path.len() as int) =~= Seq::<char>::empty());
        }
    } else {
        assert(path.last() != '/');
        let shorter = path.drop_last();
        lemma_basename_is_suffix(shorter, start);
        assert(shorter.subrange(start, shorter.len() as int) =~= path.subrange(
            start,
            path.len() as int - 1,
        ));
        assert(path.subrange(start, path.len() as int - 1) + seq![path.last()] =~= path.subrange(
            start,
            path.len() as int,
        ));
    }
}

/// Returns the final component of a path, the part `argv[0]` is made of.
pub fn basename(path: &str) -> (r: String)
    ensures
        r@ == spec_basename(path@),
{
    let len: usize = path.unicode_len();
    let mut start: usize = len;
    let mut found: bool = false;
    while start > 0 && !found
        invariant
            start <= len,
            len == path@.len(),
            forall|j: int| start <= j < len ==> path@[j] != '/',
            found ==> start > 0 && path@[start - 1] == '/',
        decreases start, (if found { 0int } else { 1int }),
    {
        if path.get_char(start - 1) == '/' {
            found = true;
        } else {
            start = start - 1;
        }
    }
    proof {
        lemma_basename_is_suffix(path@, start as int);
    }
    String::from_str(path.substring_char(start, len))
}

/// The argument vector the target is exec'd with: `argv[0]` is the
/// basename of the command, the configured arguments follow.
pub fn build_argv(command: &str, args: &Vec<String>) -> (argv: Vec<String>)
    ensures
        argv@.len() == args@.len() + 1,
        argv@[0]@ == spec_basename(command@),
        forall|i: int| 0 <= i < args@.len() ==> argv@[i + 1] == args@[i],
{
    let mut argv: Vec<String> = Vec::new();
    argv.push(basename(command));
    let mut i: usize = 0;
    while i < args.len()
        invariant
            i <= args@.len(),
            argv@.len() == i + 1,
            argv@[0]@ == spec_basename(command@),
            forall|j: int| 0 <= j < i ==> argv@[j + 1] == args@[j],
        decreases args@.len() - i,
    {
        argv.push(args[i].clone());
        i = i + 1;
    }
    argv
}

/// The environment entries an explicit list expands to: one
/// `name=value` string per pair, in the order given.
pub fn env_entries(pairs: &Vec<(String, String)>) -> (entries: Vec<String>)
    ensures
        entries@.len() == pairs@.len(),
        forall|i: int|
            0 <= i < pairs@.len() ==> entries@[i]@ == pairs@[i].0@ + seq!['='] + pairs@[i].1@,
{
    let mut entries: Vec<String> = Vec::new();
    let mut i: usize = 0;
    while i < pairs.len()
        invariant
            i <= pairs@.len(),
            entries@.len() == i,
            forall|j: int|
                0 <= j < i ==> entries@[j]@ == pairs@[j].0@ + seq!['='] + pairs@[j].1@,
        decreases pairs@.len() - i,
    {
        let mut entry = pairs[i].0.clone();
        entry.append("=");
        entry.append(pairs[i].1.as_str());
        proof {
            reveal_strlit("=");
            assert(("=")@ =~= seq!['=']);
            assert(entry@ =~= pairs@[i as int].0@ + seq!['='] + pairs@[i as int].1@);
        }
        entries.push(entry);
        i = i + 1;
    }
    entries
}

} // verus!
