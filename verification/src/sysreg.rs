//! System registers as values: which registers the virtual CPU programs, the
//! operations it asks the core to perform on them, and what those operations
//! leave in the registers.

use vstd::prelude::*;

verus! {

/// The system registers that the virtual CPU programs.
#[derive(Clone, Copy, Debug, PartialEq, Eq, Structural)]
pub enum SysReg {
    /// Counter-timer hypervisor control register.
    CnthctlEl2,
    /// Counter-timer virtual offset register.
    CntvoffEl2,
    /// Hypervisor configuration register.
    HcrEl2,
    /// Stage-2 translation control register.
    VtcrEl2,
    /// Stage-2 translation table base register.
    VttbrEl2,
    /// Memory attribute indirection register of EL1.
    MairEl1,
    /// Translation control register of EL1.
    TcrEl1,
    /// Base register of the lower translation table of EL1.
    Ttbr0El1,
    /// System control register of EL1.
    SctlrEl1,
}

/// One step of a configuration sequence, to be carried out on the core in the
/// order in which it was issued.
#[derive(Clone, Copy, Debug, PartialEq, Eq, Structural)]
pub enum SysRegOp {
    /// Store `value` in `reg`.
    Write { reg: SysReg, value: u64 },
    /// Read `reg`, clear the bits of `mask`, set the bits of `value`, and
    /// store the result.
    Modify { reg: SysReg, mask: u64, value: u64 },
    /// Instruction synchronization barrier.
    Isb,
    /// Invalidate every translation cached on this core.
    FlushTlbAll,
}

impl SysRegOp {
    /// Whether this operation stores a value in `reg`.
    pub open spec fn stores_to(self, reg: SysReg) -> bool {
        match self {
            SysRegOp::Write { reg: target, .. } => target == reg,
            SysRegOp::Modify { reg: target, .. } => target == reg,
            SysRegOp::Isb => false,
            SysRegOp::FlushTlbAll => false,
        }
    }
}

/// The values held by the system registers that the virtual CPU programs.
#[derive(Clone, Copy, Debug, PartialEq, Eq, Structural)]
pub struct SysRegFile {
    pub cnthctl_el2: u64,
    pub cntvoff_el2: u64,
    pub hcr_el2: u64,
    pub vtcr_el2: u64,
    pub vttbr_el2: u64,
    pub mair_el1: u64,
    pub tcr_el1: u64,
    pub ttbr0_el1: u64,
    pub sctlr_el1: u64,
}

impl SysRegFile {
    /// The value of `reg`.
    pub open spec fn get(self, reg: SysReg) -> u64 {
        match reg {
            SysReg::CnthctlEl2 => self.cnthctl_el2,
            SysReg::CntvoffEl2 => self.cntvoff_el2,
            SysReg::HcrEl2 => self.hcr_el2,
            SysReg::VtcrEl2 => self.vtcr_el2,
            SysReg::VttbrEl2 => self.vttbr_el2,
            SysReg::MairEl1 => self.mair_el1,
            SysReg::TcrEl1 => self.tcr_el1,
            SysReg::Ttbr0El1 => self.ttbr0_el1,
            SysReg::SctlrEl1 => self.sctlr_el1,
        }
    }

    /// The registers with `value` in `reg` and every other register unchanged.
    pub open spec fn with(self, reg: SysReg, value: u64) -> SysRegFile {
        match reg {
            SysReg::CnthctlEl2 => SysRegFile { cnthctl_el2: value, ..self },
            SysReg::CntvoffEl2 => SysRegFile { cntvoff_el2: value, ..self },
            SysReg::HcrEl2 => SysRegFile { hcr_el2: value, ..self },
            SysReg::VtcrEl2 => SysRegFile { vtcr_el2: value, ..self },
            SysReg::VttbrEl2 => SysRegFile { vttbr_el2: value, ..self },
            SysReg::MairEl1 => SysRegFile { mair_el1: value, ..self },
            SysReg::TcrEl1 => SysRegFile { tcr_el1: value, ..self },
            SysReg::Ttbr0El1 => SysRegFile { ttbr0_el1: value, ..self },
            SysReg::SctlrEl1 => SysRegFile { sctlr_el1: value, ..self },
        }
    }

    /// The registers after `op`. Barriers and flushes change no register.
    pub open spec fn apply(self, op: SysRegOp) -> SysRegFile {
        match op {
            SysRegOp::Write { reg, value } => self.with(reg, value),
            SysRegOp::Modify { reg, mask, value } => self.with(
                reg,
                (self.get(reg) & !mask) | value,
            ),
            SysRegOp::Isb => self,
            SysRegOp::FlushTlbAll => self,
        }
    }

    /// The registers after the operations of `ops`, first to last.
    pub open spec fn apply_all(self, ops: Seq<SysRegOp>) -> SysRegFile
        decreases ops.len(),
    {
        if ops.len() == 0 {
            self
        } else {
            self.apply_all(ops.drop_last()).apply(ops.last())
        }
    }

    /// The registers of a core that has programmed none of them: all zero.
    pub open spec fn reset() -> SysRegFile {
        SysRegFile {
            cnthctl_el2: 0,
            cntvoff_el2: 0,
            hcr_el2: 0,
            vtcr_el2: 0,
            vttbr_el2: 0,
            mair_el1: 0,
            tcr_el1: 0,
            ttbr0_el1: 0,
            sctlr_el1: 0,
        }
    }

    /// Registers that all hold zero.
    pub fn new() -> (regs: SysRegFile)
        ensures
            regs == SysRegFile::reset(),
    {
        SysRegFile {
            cnthctl_el2: 0,
            cntvoff_el2: 0,
            hcr_el2: 0,
            vtcr_el2: 0,
            vttbr_el2: 0,
            mair_el1: 0,
            tcr_el1: 0,
            ttbr0_el1: 0,
            sctlr_el1: 0,
        }
    }

    /// Reads `reg`.
    pub fn read(&self, reg: SysReg) -> (value: u64)
        ensures
            value == self.get(reg),
    {
        match reg {
            SysReg::CnthctlEl2 => self.cnthctl_el2,
            SysReg::CntvoffEl2 => self.cntvoff_el2,
            SysReg::HcrEl2 => self.hcr_el2,
            SysReg::VtcrEl2 => self.vtcr_el2,
            SysReg::VttbrEl2 => self.vttbr_el2,
            SysReg::MairEl1 => self.mair_el1,
            SysReg::TcrEl1 => self.tcr_el1,
            SysReg::Ttbr0El1 => self.ttbr0_el1,
            SysReg::SctlrEl1 => self.sctlr_el1,
        }
    }

    /// Stores `value` in `reg`.
    pub fn write(&mut self, reg: SysReg, value: u64)
        ensures
            *final(self) == old(self).with(reg, value),
    {
        match reg {
            SysReg::CnthctlEl2 => self.cnthctl_el2 = value,
            SysReg::CntvoffEl2 => self.cntvoff_el2 = value,
            SysReg::HcrEl2 => self.hcr_el2 = value,
            SysReg::VtcrEl2 => self.vtcr_el2 = value,
            SysReg::VttbrEl2 => self.vttbr_el2 = value,
            SysReg::MairEl1 => self.mair_el1 = value,
            SysReg::TcrEl1 => self.tcr_el1 = value,
            SysReg::Ttbr0El1 => self.ttbr0_el1 = value,
            SysReg::SctlrEl1 => self.sctlr_el1 = value,
        }
    }

    /// Carries out `op` on these registers.
    pub fn perform(&mut self, op: SysRegOp)
        ensures
            *final(self) == old(self).apply(op),
    {
        match op {
            SysRegOp::Write { reg, value } => self.write(reg, value),
            SysRegOp::Modify { reg, mask, value } => {
                let current = self.read(reg);
                self.write(reg, (current & !mask) | value);
            },
            SysRegOp::Isb => {},
            SysRegOp::FlushTlbAll => {},
        }
    }

    /// Carries out the operations of `ops` on these registers, first to
    /// last.
    pub fn perform_all(&mut self, ops: &Vec<SysRegOp>)
        ensures
            *final(self) == old(self).apply_all(ops@),
    {
        let mut i: usize = 0;
        while i < ops.len()
            invariant
                i <= ops.len(),
                *self == old(self).apply_all(ops@.take(i as int)),
            decreases ops.len() - i,
        {
            proof {
                lemma_apply_all_push(*old(self), ops@.take(i as int), ops@[i as int]);
                assert(ops@.take(i as int).push(ops@[i as int]) =~= ops@.take(i + 1));
            }
            self.perform(ops[i]);
            i += 1;
        }
        assert(ops@.take(ops@.len() as int) =~= ops@);
    }
}

/// Carrying out a sequence and then one more operation is carrying out the
/// sequence with that operation appended.
pub proof fn lemma_apply_all_push(regs: SysRegFile, ops: Seq<SysRegOp>, op: SysRegOp)
    ensures
        regs.apply_all(ops.push(op)) == regs.apply_all(ops).apply(op),
{
    assert(ops.push(op).drop_last() =~= ops);
}

} // verus!
