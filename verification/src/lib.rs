//! A minimal container launcher: the decision core.
//!
//! The launcher runs one user command inside fresh hostname, process-id and
//! mount namespaces, under a substitute root filesystem and a pid-count
//! quota. Every decision this takes — command-line dispatch, the ordered
//! bootstrap sequence inside the isolated child, which failures are fatal,
//! and how exit codes propagate — lives here as verified code. The syscalls
//! themselves (clone, chroot, mount, cgroup writes, exec) are performed by a
//! thin unverified shell that feeds their outcomes back into these state
//! machines.

use vstd::prelude::*;

pub mod bootstrap;
pub mod cli;
pub mod launcher;
pub mod limiter;
pub mod rootfs;

verus! {

/// The size in bytes of the memory region backing the isolated child's
/// stack: one mebibyte.
pub const STACK_SIZE: usize = 1048576;

} // verus!
