//! Layered overlay views of a filesystem root: the option strings of overlay
//! mounts, the snapshot of child mount points below a root, how each child is
//! re-established over module directories, and the steps of a tree build that
//! reverts the root when a child fails. The system calls themselves are made
//! by the caller, which hands back how each step ended.

use vstd::prelude::*;

pub mod child;
pub mod guard;
pub mod options;
pub mod snapshot;
pub mod strategy;
pub mod tree;

verus! {

} // verus!
