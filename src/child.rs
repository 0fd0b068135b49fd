use vstd::prelude::*;
use vstd::string::*;

use crate::options::path_views;

verus! {

/// What a module root holds at a child mount point's relative path.
#[derive(Clone, Copy, Debug, PartialEq, Eq, Structural)]
pub enum EntryKind {
    /// Nothing is there.
    Absent,
    /// A directory: its content is layered over the stock child.
    Directory,
    /// A plain file or any other non-directory: it masks the stock child.
    Other,
}

/// How a pre-existing child mount point is re-established under the new root.
#[derive(Debug)]
pub enum ChildPlan {
    /// No module touches it: bind the stock content back, unchanged.
    Bind,
    /// Leave the mount point as the root overlay shows it (masked, or nothing
    /// to layer).
    Leave,
    /// Mount a nested overlay with these module directories above the stock
    /// content, highest priority first.
    Overlay(Vec<String>),
}

/// The plan in the model, with the overlay's layers as paths.
pub enum PlanModel {
    Bind,
    Leave,
    Overlay(Seq<Seq<char>>),
}

impl ChildPlan {
    pub open spec fn model(&self) -> PlanModel {
        match self {
            ChildPlan::Bind => PlanModel::Bind,
            ChildPlan::Leave => PlanModel::Leave,
            ChildPlan::Overlay(v) => PlanModel::Overlay(path_views(v@)),
        }
    }
}

/// Some module root has an entry at the relative path.
pub open spec fn any_present(kinds: Seq<EntryKind>) -> bool {
    exists|i: int| 0 <= i < kinds.len() && kinds[i] != EntryKind::Absent
}

/// Some module root masks the relative path with a non-directory.
pub open spec fn any_mask(kinds: Seq<EntryKind>) -> bool {
    exists|i: int| 0 <= i < kinds.len() && kinds[i] == EntryKind::Other
}

/// The module directories at the relative path, in the module roots' order.
pub open spec fn override_dirs(
    roots: Seq<Seq<char>>,
    relative: Seq<char>,
    kinds: Seq<EntryKind>,
) -> Seq<Seq<char>>
    decreases roots.len(),
{
    if roots.len() == 0 || kinds.len() == 0 {
        seq![]
    } else {
        let rest = override_dirs(roots.drop_last(), relative, kinds.drop_last());
        if kinds.last() == EntryKind::Directory {
            rest.push(roots.last() + relative)
        } else {
            rest
        }
    }
}

/// The plan for a child mount point at `relative` (its path below the root),
/// where `kinds[i]` is what module root `roots[i]` holds there.
pub open spec fn child_plan(
    roots: Seq<Seq<char>>,
    relative: Seq<char>,
    kinds: Seq<EntryKind>,
    stock_is_dir: bool,
) -> PlanModel {
    if !any_present(kinds) {
        PlanModel::Bind
    } else if !stock_is_dir || any_mask(kinds) {
        PlanModel::Leave
    } else if override_dirs(roots, relative, kinds).len() == 0 {
        PlanModel::Leave
    } else {
        PlanModel::Overlay(override_dirs(roots, relative, kinds))
    }
}

/// A path made of `base` followed by `tail` (a module root or the stock root,
/// then a relative path that starts with `/`).
pub fn concat_path(base: &str, tail: &str) -> (r: String)
    ensures
        r@ == base@ + tail@,
{
    let mut r = String::from_str(base);
    r.append(tail);
    r
}

/// The path of a mount point below `root`, when it starts with `root`.
pub fn relative_path(mount_point: &str, root: &str) -> (r: Option<String>)
    ensures
        r.is_some() <==> root@.is_prefix_of(mount_point@),
        r.is_some() ==> r.unwrap()@ == mount_point@.subrange(root@.len() as int, mount_point@.len() as int),
{
    let n = root.unicode_len();
    let m = mount_point.unicode_len();
    if n > m {
        return None;
    }
    let mut i: usize = 0;
    while i < n
        invariant
            n == root@.len(),
            m == mount_point@.len(),
            n <= m,
            i <= n,
            forall|j: int| 0 <= j < i ==> root@[j] == mount_point@[j],
        decreases n - i,
    {
        if root.get_char(i) != mount_point.get_char(i) {
            proof {
                assert(!root@.is_prefix_of(mount_point@)) by {
                    if root@.is_prefix_of(mount_point@) {
                        assert(mount_point@[i as int] == root@[i as int]);
                    }
                }
            }
            return None;
        }
        i = i + 1;
    }
    proof {
        assert(root@ =~= mount_point@.subrange(0, n as int));
    }
    Some(String::from_str(mount_point.substring_char(n, m)))
}

/// Decides how to re-establish a child mount point. `kinds[i]` is what module
/// root `module_roots[i]` holds at `relative`, and `stock_is_dir` tells whether
/// the stock content at the child is a directory.
///
/// No entry in any module root: bind the stock content back. Otherwise, a
/// non-directory stock child or a non-directory entry in any module root
/// leaves the mount point alone; so does an empty list of module directories.
/// Else a nested overlay of those directories, in priority order.
pub fn plan_child(
    module_roots: &Vec<String>,
    relative: &str,
    kinds: &Vec<EntryKind>,
    stock_is_dir: bool,
) -> (r: ChildPlan)
    requires
        kinds@.len() == module_roots@.len(),
    ensures
        r.model() == child_plan(path_views(module_roots@), relative@, kinds@, stock_is_dir),
{
    let ghost roots = path_views(module_roots@);
    let mut present = false;
    let mut k: usize = 0;
    while k < kinds.len()
        invariant
            k <= kinds@.len(),
            present <==> any_present(kinds@.subrange(0, k as int)),
        decreases kinds@.len() - k,
    {
        if kinds[k] != EntryKind::Absent {
            present = true;
        }
        proof {
            let pre = kinds@.subrange(0, k as int);
            let post = kinds@.subrange(0, k + 1);
            if kinds@[k as int] != EntryKind::Absent {
                assert(post[k as int] != EntryKind::Absent);
            }
            if any_present(pre) {
                let j = choose|j: int| 0 <= j < pre.len() && pre[j] != EntryKind::Absent;
                assert(post[j] == pre[j]);
            }
            if any_present(post) {
                let j = choose|j: int| 0 <= j < post.len() && post[j] != EntryKind::Absent;
                if j < k {
                    assert(pre[j] == post[j]);
                }
            }
        }
        k = k + 1;
    }
    proof {
        assert(kinds@.subrange(0, k as int) =~= kinds@);
    }
    if !present {
        return ChildPlan::Bind;
    }
    if !stock_is_dir {
        return ChildPlan::Leave;
    }
    let mut lower_dirs: Vec<String> = Vec::new();
    let mut i: usize = 0;
    while i < module_roots.len()
        invariant
            roots == path_views(module_roots@),
            kinds@.len() == module_roots@.len(),
            i <= module_roots@.len(),
            !any_mask(kinds@.subrange(0, i as int)),
            path_views(lower_dirs@) == override_dirs(
                roots.subrange(0, i as int),
                relative@,
                kinds@.subrange(0, i as int),
            ),
        decreases module_roots@.len() - i,
    {
        let ghost before = lower_dirs@;
        proof {
            let r1 = roots.subrange(0, i + 1);
            let k1 = kinds@.subrange(0, i + 1);
            assert(r1.drop_last() =~= roots.subrange(0, i as int));
            assert(k1.drop_last() =~= kinds@.subrange(0, i as int));
        }
        if kinds[i] == EntryKind::Directory {
            let dir = concat_path(module_roots[i].as_str(), relative);
            lower_dirs.push(dir);
            proof {
                assert(path_views(lower_dirs@) =~= path_views(before).push(dir@));
            }
        } else if kinds[i] == EntryKind::Other {
            proof {
                assert(any_mask(kinds@)) by {
                    assert(kinds@[i as int] == EntryKind::Other);
                }
            }
            return ChildPlan::Leave;
        }
        proof {
            let k1 = kinds@.subrange(0, i + 1);
            assert forall|j: int| 0 <= j < k1.len() implies k1[j] != EntryKind::Other by {
                if j < i {
                    assert(k1[j] == kinds@.subrange(0, i as int)[j]);
                }
            }
        }
        i = i + 1;
    }
    proof {
        assert(roots.subrange(0, i as int) =~= roots);
        assert(kinds@.subrange(0, i as int) =~= kinds@);
    }
    if lower_dirs.len() == 0 {
        return ChildPlan::Leave;
    }
    ChildPlan::Overlay(lower_dirs)
}

/// A non-directory entry in any module root at a child's relative path masks
/// that child: whatever the other roots hold, its mount point is left alone.
pub proof fn lemma_mask_leaves_child(
    roots: Seq<Seq<char>>,
    relative: Seq<char>,
    kinds: Seq<EntryKind>,
    stock_is_dir: bool,
    i: int,
)
    requires
        0 <= i < kinds.len(),
        kinds[i] == EntryKind::Other,
    ensures
        child_plan(roots, relative, kinds, stock_is_dir) == PlanModel::Leave,
{
    assert(any_present(kinds));
    assert(any_mask(kinds));
}

} // verus!
