//! The mount plan: the ordered sequence of mount operations the child
//! performs inside its new mount namespace, derived from the configured
//! bind mounts. Later mounts may shadow earlier ones deliberately, so the
//! order given is the order planned.

use vstd::prelude::*;

use crate::config::Mount;

verus! {

/// One operation of the mount plan, in the order the child performs them:
/// stage the destination inside the new root, bind the source onto it,
/// remount read-only when asked, then fix the flags (`nosuid` always,
/// `nodev` and `noexec` unless the options allow them). After all bind
/// mounts a fresh `/proc` is mounted inside the jail.
#[derive(Debug, Eq, PartialEq)]
pub enum MountStep {
    PrepareDestination { destination: String },
    Bind { source: String, destination: String },
    RemountReadOnly { destination: String },
    SetFlags { destination: String, no_dev: bool, no_exec: bool, no_suid: bool },
    MountProc,
}

impl Clone for MountStep {
    /// A cloned step is equal to the original.
    fn clone(&self) -> (r: Self)
        ensures
            r == *self,
    {
        match self {
            MountStep::PrepareDestination { destination } => MountStep::PrepareDestination {
                destination: destination.clone(),
            },
            MountStep::Bind { source, destination } => MountStep::Bind {
                source: source.clone(),
                destination: destination.clone(),
            },
            MountStep::RemountReadOnly { destination } => MountStep::RemountReadOnly {
                destination: destination.clone(),
            },
            MountStep::SetFlags { destination, no_dev, no_exec, no_suid } => MountStep::SetFlags {
                destination: destination.clone(),
                no_dev: *no_dev,
                no_exec: *no_exec,
                no_suid: *no_suid,
            },
            MountStep::MountProc => MountStep::MountProc,
        }
    }
}

/// The steps one bind mount expands to.
pub open spec fn spec_steps_for(m: Mount) -> Seq<MountStep> {
    seq![
        MountStep::PrepareDestination { destination: m.destination },
        MountStep::Bind { source: m.source, destination: m.destination },
    ] + (if m.mount_options.read_only {
        seq![MountStep::RemountReadOnly { destination: m.destination }]
    } else {
        Seq::empty()
    }) + seq![
        MountStep::SetFlags {
            destination: m.destination,
            no_dev: !m.mount_options.dev,
            no_exec: !m.mount_options.exec_allowed,
            no_suid: true,
        },
    ]
}

/// The steps of all the mounts, in the order given.
pub open spec fn spec_steps_concat(mounts: Seq<Mount>) -> Seq<MountStep>
    decreases mounts.len(),
{
    if mounts.len() == 0 {
        Seq::empty()
    } else {
        spec_steps_concat(mounts.drop_last()) + spec_steps_for(mounts.last())
    }
}

/// The whole plan: every mount's steps in order, then the `/proc` mount.
pub open spec fn spec_plan(mounts: Seq<Mount>) -> Seq<MountStep> {
    spec_steps_concat(mounts) + seq![MountStep::MountProc]
}

/// The `/proc` mount is the plan's one fixed point: it comes after every
/// bind mount, and nothing follows it.
pub proof fn lemma_plan_ends_with_proc(mounts: Seq<Mount>)
    ensures
        spec_plan(mounts).len() >= 1,
        spec_plan(mounts).last() == MountStep::MountProc,
{
}

/// Turns the configured bind mounts into the ordered mount plan.
pub fn plan_mounts(mounts: &Vec<Mount>) -> (steps: Vec<MountStep>)
    ensures
        steps@ == spec_plan(mounts@),
{
    let mut steps: Vec<MountStep> = Vec::new();
    proof {
        assert(mounts@.take(0) =~= Seq::<Mount>::empty());
    }
    let mut i: usize = 0;
    while i < mounts.len()
        invariant
            i <= mounts.len(),
            steps@ == spec_steps_concat(mounts@.take(i as int)),
        decreases mounts@.len() - i,
    {
        let m = &mounts[i];
        steps.push(MountStep::PrepareDestination { destination: m.destination.clone() });
        steps.push(
            MountStep::Bind { source: m.source.clone(), destination: m.destination.clone() },
        );
        if m.mount_options.read_only {
            steps.push(MountStep::RemountReadOnly { destination: m.destination.clone() });
        }
        steps.push(
            MountStep::SetFlags {
                destination: m.destination.clone(),
                no_dev: !m.mount_options.dev,
                no_exec: !m.mount_options.exec_allowed,
                no_suid: true,
            },
        );
        proof {
            assert(mounts@.take(i as int + 1).drop_last() =~= mounts@.take(i as int));
            assert(mounts@.take(i as int + 1).last() == mounts@[i as int]);
            assert(steps@ =~= spec_steps_concat(mounts@.take(i as int)) + spec_steps_for(
                mounts@[i as int],
            ));
        }
        i = i + 1;
    }
    proof {
        assert(mounts@.take(mounts@.len() as int) =~= mounts@);
    }
    steps.push(MountStep::MountProc);
    proof {
        assert(steps@ =~= spec_steps_concat(mounts@) + seq![MountStep::MountProc]);
    }
    steps
}

} // verus!
