use vstd::prelude::*;

verus! {

/// Where the build of an overlay tree stands.
#[derive(Clone, Copy, Debug, PartialEq, Eq, Structural)]
pub enum BuildPhase {
    /// Nothing mounted yet: the root overlay comes first.
    Start,
    /// The root overlay is mounted; children before `next` are done.
    Children { next: usize },
    /// A child failed: the root overlay is being unmounted.
    Reverting,
    /// Every child was handled; the tree stands.
    Finished,
    /// The build failed; the root is not left mounted by this build.
    Failed,
    /// The build failed and unmounting the root failed too: the root overlay
    /// is still in place.
    RevertFailed,
}

/// What the caller performs next.
#[derive(Clone, Copy, Debug, PartialEq, Eq, Structural)]
pub enum BuildAction {
    /// Mount the overlay at the root.
    MountRoot,
    /// Re-establish the child mount point at this index.
    Child(usize),
    /// Unmount the root overlay, undoing this build.
    UnmountRoot,
    /// Report success.
    Succeed,
    /// Report the error met.
    Fail,
}

/// The next action in a phase, for a build with `n` child mount points.
pub open spec fn action_of(phase: BuildPhase, n: nat) -> BuildAction {
    match phase {
        BuildPhase::Start => BuildAction::MountRoot,
        BuildPhase::Children { next } => if next < n {
            BuildAction::Child(next)
        } else {
            BuildAction::Succeed
        },
        BuildPhase::Reverting => BuildAction::UnmountRoot,
        BuildPhase::Finished => BuildAction::Succeed,
        BuildPhase::Failed | BuildPhase::RevertFailed => BuildAction::Fail,
    }
}

/// The phase after the action of `phase` ended, well (`ok`) or with a hard
/// error.
pub open spec fn phase_after(phase: BuildPhase, n: nat, ok: bool) -> BuildPhase {
    match phase {
        BuildPhase::Start => if ok {
            BuildPhase::Children { next: 0 }
        } else {
            BuildPhase::Failed
        },
        BuildPhase::Children { next } => if next >= n {
            BuildPhase::Finished
        } else if ok {
            BuildPhase::Children { next: (next + 1) as usize }
        } else {
            BuildPhase::Reverting
        },
        BuildPhase::Reverting => if ok {
            BuildPhase::Failed
        } else {
            BuildPhase::RevertFailed
        },
        BuildPhase::Finished => BuildPhase::Finished,
        BuildPhase::Failed => BuildPhase::Failed,
        BuildPhase::RevertFailed => BuildPhase::RevertFailed,
    }
}

/// The root overlay mounted by this build is in place in the phase.
pub open spec fn root_mounted(phase: BuildPhase) -> bool {
    match phase {
        BuildPhase::Children { .. }
        | BuildPhase::Reverting
        | BuildPhase::Finished
        | BuildPhase::RevertFailed => true,
        _ => false,
    }
}

/// The decisions of an overlay tree build: the root overlay first, then each
/// snapshotted child mount point in order, with the root unmounted again when
/// a child meets a hard error. The caller performs each action and reports
/// how it ended.
pub struct TreeBuild {
    pub children: Vec<String>,
    pub phase: BuildPhase,
}

impl TreeBuild {
    pub open spec fn wf(&self) -> bool {
        match self.phase {
            BuildPhase::Children { next } => next <= self.children@.len(),
            _ => true,
        }
    }

    /// A build over the child mount points of a snapshot, taken before any
    /// mount.
    pub fn new(children: Vec<String>) -> (r: TreeBuild)
        ensures
            r.wf(),
            r.children == children,
            r.phase == BuildPhase::Start,
    {
        TreeBuild { children, phase: BuildPhase::Start }
    }

    /// What to perform next.
    pub fn next_action(&self) -> (r: BuildAction)
        ensures
            r == action_of(self.phase, self.children@.len()),
    {
        match self.phase {
            BuildPhase::Start => BuildAction::MountRoot,
            BuildPhase::Children { next } => if next < self.children.len() {
                BuildAction::Child(next)
            } else {
                BuildAction::Succeed
            },
            BuildPhase::Reverting => BuildAction::UnmountRoot,
            BuildPhase::Finished => BuildAction::Succeed,
            BuildPhase::Failed | BuildPhase::RevertFailed => BuildAction::Fail,
        }
    }

    /// Records how the last action ended: `ok` is false on a hard error.
    pub fn record(&mut self, ok: bool)
        requires
            old(self).wf(),
        ensures
            final(self).wf(),
            final(self).children == old(self).children,
            final(self).phase == phase_after(old(self).phase, old(self).children@.len(), ok),
    {
        let n = self.children.len();
        self.phase = match self.phase {
            BuildPhase::Start => if ok {
                BuildPhase::Children { next: 0 }
            } else {
                BuildPhase::Failed
            },
            BuildPhase::Children { next } => if next >= n {
                BuildPhase::Finished
            } else if ok {
                BuildPhase::Children { next: next + 1 }
            } else {
                BuildPhase::Reverting
            },
            BuildPhase::Reverting => if ok {
                BuildPhase::Failed
            } else {
                BuildPhase::RevertFailed
            },
            BuildPhase::Finished => BuildPhase::Finished,
            BuildPhase::Failed => BuildPhase::Failed,
            BuildPhase::RevertFailed => BuildPhase::RevertFailed,
        };
    }

    /// Whether the build has ended, and so `next_action` reports its result.
    pub fn is_done(&self) -> (r: bool)
        ensures
            r <==> (self.phase == BuildPhase::Finished || self.phase == BuildPhase::Failed
                || self.phase == BuildPhase::RevertFailed),
    {
        match self.phase {
            BuildPhase::Finished | BuildPhase::Failed | BuildPhase::RevertFailed => true,
            _ => false,
        }
    }
}

/// A hard error on any child unmounts the root next, and the build then
/// fails: once that unmount succeeds the root is no longer mounted, so the
/// root is never left mounted but partly processed. Should the unmount itself
/// fail, the build still fails, in a phase that records the root as mounted.
pub proof fn lemma_child_failure_reverts(n: nat, next: usize)
    requires
        next < n,
    ensures
        action_of(BuildPhase::Children { next }, n) == BuildAction::Child(next),
        phase_after(BuildPhase::Children { next }, n, false) == BuildPhase::Reverting,
        action_of(BuildPhase::Reverting, n) == BuildAction::UnmountRoot,
        phase_after(BuildPhase::Reverting, n, true) == BuildPhase::Failed,
        !root_mounted(phase_after(BuildPhase::Reverting, n, true)),
        action_of(BuildPhase::Failed, n) == BuildAction::Fail,
        phase_after(BuildPhase::Reverting, n, false) == BuildPhase::RevertFailed,
        root_mounted(phase_after(BuildPhase::Reverting, n, false)),
        action_of(BuildPhase::RevertFailed, n) == BuildAction::Fail,
{
}

/// A failure to mount the root overlay ends the build at once, with nothing
/// to undo.
pub proof fn lemma_root_failure_aborts(n: nat)
    ensures
        phase_after(BuildPhase::Start, n, false) == BuildPhase::Failed,
        !root_mounted(BuildPhase::Failed),
{
}

/// The build reports success only once the root overlay is mounted and every
/// child was handled without a hard error.
pub proof fn lemma_success_after_all_children(phase: BuildPhase, n: nat, ok: bool)
    requires
        phase != BuildPhase::Finished,
        phase_after(phase, n, ok) == BuildPhase::Finished,
    ensures
        phase == (BuildPhase::Children { next: phase->next }),
        phase->next >= n,
        root_mounted(phase),
{
}

/// With every step going well, the children are visited one by one in the
/// snapshot's order, each exactly once, and success comes only after the last.
pub proof fn lemma_children_visited_in_order(n: nat, i: usize)
    requires
        i < n <= usize::MAX,
    ensures
        action_of(BuildPhase::Children { next: i }, n) == BuildAction::Child(i),
        phase_after(BuildPhase::Children { next: i }, n, true) == (BuildPhase::Children {
            next: (i + 1) as usize,
        }),
        i + 1 < n ==> action_of(phase_after(BuildPhase::Children { next: i }, n, true), n)
            == BuildAction::Child((i + 1) as usize),
        i + 1 == n ==> action_of(phase_after(BuildPhase::Children { next: i }, n, true), n)
            == BuildAction::Succeed,
{
}

} // verus!
