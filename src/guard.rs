use vstd::prelude::*;
use vstd::string::*;

verus! {

/// The state of an ext4-over-loopback mount held for a scope: the mount
/// point, whether leaving the scope unmounts it, and whether that release was
/// already made.
pub struct AutoMountExt4 {
    target: String,
    auto_umount: bool,
    finished: bool,
}

impl AutoMountExt4 {
    pub closed spec fn spec_target(&self) -> Seq<char> {
        self.target@
    }

    pub closed spec fn spec_auto_umount(&self) -> bool {
        self.auto_umount
    }

    pub closed spec fn spec_finished(&self) -> bool {
        self.finished
    }

    /// The guard of a mount just made at `target`.
    pub fn mounted(target: &str, auto_umount: bool) -> (r: AutoMountExt4)
        ensures
            r.spec_target() == target@,
            r.spec_auto_umount() == auto_umount,
            !r.spec_finished(),
    {
        AutoMountExt4 { target: String::from_str(target), auto_umount, finished: false }
    }

    /// The mount point.
    pub fn target(&self) -> (r: &str)
        ensures
            r@ == self.spec_target(),
    {
        self.target.as_str()
    }

    /// Whether leaving the scope unmounts the target.
    pub fn auto_umount(&self) -> (r: bool)
        ensures
            r == self.spec_auto_umount(),
    {
        self.auto_umount
    }

    /// The guard once its mount has been released, explicitly or at the end
    /// of its scope.
    pub closed spec fn spec_released(&self) -> AutoMountExt4 {
        AutoMountExt4 { target: self.target, auto_umount: self.auto_umount, finished: true }
    }

    /// An explicit release is still to be made.
    pub open spec fn release_due(&self) -> bool {
        !self.spec_finished()
    }

    /// Leaving the scope is to unmount the target.
    pub open spec fn drop_due(&self) -> bool {
        self.spec_auto_umount() && !self.spec_finished()
    }

    /// Releases the mount explicitly: true when the target is to be unmounted
    /// now, that is when no release was made before. Leaving the scope
    /// afterwards unmounts nothing.
    pub fn release(&mut self) -> (r: bool)
        ensures
            r == old(self).release_due(),
            *final(self) == old(self).spec_released(),
    {
        let r = !self.finished;
        self.finished = true;
        r
    }

    /// Ends the scope: true when the target is to be unmounted now, that is
    /// when the guard was made to unmount itself and no release was made
    /// before.
    pub fn end_scope(&mut self) -> (r: bool)
        ensures
            r == old(self).drop_due(),
            *final(self) == old(self).spec_released(),
    {
        let r = self.auto_umount && !self.finished;
        self.finished = true;
        r
    }
}

/// The mount is detached at most once: after a release, explicit or at the end
/// of the scope, neither way asks for an unmount again, and releasing keeps
/// the target and the auto-unmount choice.
pub proof fn lemma_release_at_most_once(g: AutoMountExt4)
    ensures
        !g.spec_released().release_due(),
        !g.spec_released().drop_due(),
        g.spec_released().spec_released() == g.spec_released(),
        g.spec_released().spec_target() == g.spec_target(),
        g.spec_released().spec_auto_umount() == g.spec_auto_umount(),
{
}

} // verus!
