//! Execution core of a type-1 hypervisor for AArch64: the virtual CPU with its
//! register context, the EL2 configuration it programs, the dispatch of guest
//! exits, and the table through which secondary cores learn where to start.
//!
//! Everything here computes on plain values. Reading and writing the system
//! registers of a core, the privilege transition itself and the spin loops are
//! left to the platform layer, which hands the values it read to these
//! functions and carries out what they return.
//!
//! - [`vcpu`]: the virtual CPU, its register context and its layout in memory;
//! - [`config`]: the register values and sequences of the EL2 and EL1 set-up;
//! - [`sysreg`], [`percpu`]: system registers as values, and the queue of
//!   operations that the platform layer carries out on the core;
//! - [`vmexit`], [`mmio`]: the exit dispatcher, its handlers and the registry
//!   of emulated devices;
//! - [`boot`]: the bring-up of the cores.

pub mod addr;
mod bitfields;
pub mod boot;
pub mod config;
pub mod error;
pub mod mmio;
pub mod percpu;
pub mod regs;
pub mod sysreg;
pub mod vcpu;
pub mod vmexit;
