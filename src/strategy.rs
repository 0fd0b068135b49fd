use vstd::prelude::*;

use crate::child::{ChildPlan, PlanModel};

verus! {

/// The ways a filesystem can be mounted, in the order they are tried.
#[derive(Clone, Copy, Debug, PartialEq, Eq, Structural)]
pub enum MountStrategy {
    /// A filesystem context: open, configure, create, then attach the mount.
    Context,
    /// A single legacy mount call with an option string.
    Legacy,
}

/// The strategy tried first.
pub fn first_strategy() -> (r: MountStrategy)
    ensures
        r == MountStrategy::Context,
{
    MountStrategy::Context
}

/// The strategy to try after `failed` could not mount: the legacy call after
/// the context, and nothing after the legacy call, whose error is reported.
pub fn next_strategy(failed: MountStrategy) -> (r: Option<MountStrategy>)
    ensures
        failed == MountStrategy::Context ==> r == Some(MountStrategy::Legacy),
        failed == MountStrategy::Legacy ==> r.is_none(),
{
    match failed {
        MountStrategy::Context => Some(MountStrategy::Legacy),
        MountStrategy::Legacy => None,
    }
}

/// What to do for a child after its plan's mount failed: a nested overlay
/// falls back to binding the stock content; a failed bind is a hard error
/// (`None`).
pub fn fallback_plan(failed: &ChildPlan) -> (r: Option<ChildPlan>)
    ensures
        (failed.model() is Overlay) ==> r.is_some() && r.unwrap().model() == PlanModel::Bind,
        !(failed.model() is Overlay) ==> r.is_none(),
{
    match failed {
        ChildPlan::Overlay(_) => Some(ChildPlan::Bind),
        _ => None,
    }
}

} // verus!
