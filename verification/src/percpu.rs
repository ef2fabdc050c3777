//! Per-core state: the system registers as this core has programmed them, and
//! the operations that still have to reach the hardware.

use vstd::prelude::*;

use crate::config::{stage2_root, table_base_of};
use crate::sysreg::{lemma_apply_all_push, SysRegFile, SysRegOp};

verus! {

/// State of one physical core.
///
/// Configuration code does not touch the hardware. It issues operations
/// here; each is applied to a shadow of the registers and queued. The
/// platform layer takes the queue and carries the operations out on the core,
/// in order. The shadow then holds what the core holds: it is always the
/// result of carrying out the queue on the registers as they were when the
/// queue was last empty.
pub struct ArchPerCpuState {
    base: Ghost<SysRegFile>,
    regs: SysRegFile,
    pending: Vec<SysRegOp>,
}

/// What an [`ArchPerCpuState`] stands for.
pub struct PerCpuView {
    /// The registers as they were when the queue was last empty.
    pub base: SysRegFile,
    /// The registers as they are once every issued operation was carried out.
    pub regs: SysRegFile,
    /// The operations issued and not yet taken, oldest first.
    pub pending: Seq<SysRegOp>,
}

impl View for ArchPerCpuState {
    type V = PerCpuView;

    closed spec fn view(&self) -> PerCpuView {
        PerCpuView { base: self.base@, regs: self.regs, pending: self.pending@ }
    }
}

impl ArchPerCpuState {
    #[verifier::type_invariant]
    spec fn shadow_agrees_with_queue(self) -> bool {
        self.regs == self.base@.apply_all(self.pending@)
    }

    /// State of a core that has programmed nothing yet.
    pub fn new() -> (percpu: Self)
        ensures
            percpu@.base == SysRegFile::reset(),
            percpu@.regs == SysRegFile::reset(),
            percpu@.pending == Seq::<SysRegOp>::empty(),
    {
        let regs = SysRegFile::new();
        ArchPerCpuState { base: Ghost(regs), regs, pending: Vec::new() }
    }

    /// State of a core whose registers currently hold `regs`.
    pub fn with_registers(regs: SysRegFile) -> (percpu: Self)
        ensures
            percpu@.base == regs,
            percpu@.regs == regs,
            percpu@.pending == Seq::<SysRegOp>::empty(),
    {
        ArchPerCpuState { base: Ghost(regs), regs, pending: Vec::new() }
    }

    /// The registers as they are once every issued operation was carried out.
    pub fn registers(&self) -> (regs: SysRegFile)
        ensures
            regs == self@.regs,
    {
        self.regs
    }

    /// Number of operations issued and not yet taken.
    pub fn pending_len(&self) -> (n: usize)
        ensures
            n == self@.pending.len(),
    {
        self.pending.len()
    }

    /// Issues `op`: applies it to the registers and queues it behind the
    /// operations issued before.
    pub fn issue(&mut self, op: SysRegOp)
        ensures
            final(self)@.base == old(self)@.base,
            final(self)@.regs == old(self)@.regs.apply(op),
            final(self)@.pending == old(self)@.pending.push(op),
    {
        proof {
            use_type_invariant(&*self);
            lemma_apply_all_push(self.base@, self.pending@, op);
        }
        let mut taken = ArchPerCpuState::new();
        std::mem::swap(&mut taken, self);
        let ArchPerCpuState { base, mut regs, mut pending } = taken;
        regs.perform(op);
        pending.push(op);
        *self = ArchPerCpuState { base, regs, pending };
    }

    /// Hands out the queued operations, oldest first, and leaves the queue
    /// empty. Carried out on registers that hold `base`, the operations leave
    /// them as the shadow has them; the shadow itself is not changed.
    pub fn take_pending(&mut self) -> (ops: Vec<SysRegOp>)
        ensures
            ops@ == old(self)@.pending,
            old(self)@.base.apply_all(ops@) == old(self)@.regs,
            final(self)@.pending == Seq::<SysRegOp>::empty(),
            final(self)@.regs == old(self)@.regs,
            final(self)@.base == old(self)@.regs,
    {
        proof {
            use_type_invariant(&*self);
        }
        let mut taken = ArchPerCpuState::with_registers(self.regs);
        std::mem::swap(&mut taken, self);
        taken.pending
    }

    /// The nested page table root installed on this core.
    pub fn stage2_root(&self) -> (root: u64)
        ensures
            root == table_base_of(self@.regs.vttbr_el2),
    {
        stage2_root(&self.regs)
    }
}

} // verus!
