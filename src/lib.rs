//! A resumable, ordered task pipeline for multi-stage system provisioning.
//!
//! Tasks run strictly in order. After each completed task a progress marker
//! (the task's name) is persisted, so that a later invocation skips all work
//! that was already done, even when the marker had to move to another
//! execution context (a chroot, another user's home directory).
use vstd::prelude::*;

pub mod base_methods;
pub mod paths;
pub mod parameters;
pub mod tasks;
pub mod runner;
pub mod task_lists;
pub mod provisioning;

verus! {

} // verus!
