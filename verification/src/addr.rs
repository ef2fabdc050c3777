//! Address types.

use vstd::prelude::*;

verus! {

/// A physical address as the guest sees it.
pub type GuestPhysAddr = usize;

/// A physical address of the host.
pub type HostPhysAddr = usize;

} // verus!
