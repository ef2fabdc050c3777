//! Error values shared by the virtual CPU and the exit handlers.

use vstd::prelude::*;

verus! {

/// Why an operation of the hypervisor core did not complete.
#[derive(Clone, Copy, Debug, PartialEq, Eq, Structural)]
pub enum RvmError {
    /// The virtual CPU is in a state in which the operation cannot be carried
    /// out: its program counter is too close to the end of the address space
    /// to be moved past an instruction.
    BadState,
    /// No resource backs the request: a guest access hit an address that no
    /// emulated device claims.
    OutOfMemory,
    /// The request cannot be served now: the handler for it does not exist yet.
    ResourceBusy,
}

/// Result of an operation of the hypervisor core.
pub type RvmResult<T = ()> = Result<T, RvmError>;

} // verus!
