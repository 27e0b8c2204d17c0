//! Runtime function interception: address resolution, a pluggable backend
//! that installs redirections, the enable/disable lifecycle of a detour,
//! a calling-convention adapter table and a registry of function identities.
use vstd::prelude::*;

pub mod backend;
pub mod callconv;
pub mod offset;
pub mod resolve;
pub mod wrapper;

verus! {

/// An unsigned, pointer-width location in the process's address space.
/// Zero is the sentinel for a failed resolution.
pub type Address = usize;

/// The identity of a wrapper function: the address of its visible call site.
#[derive(Debug, Clone, Copy, PartialEq, Eq, Hash, Structural)]
pub struct Ptr(pub Address);

} // verus!
