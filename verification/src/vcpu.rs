//! The virtual CPU: a guest's register context, the software form of the
//! transition into and out of the guest, and the trap that ends a run.

use vstd::prelude::*;

use crate::addr::{GuestPhysAddr, HostPhysAddr};
use crate::bitfields::{esr_exception_class, esr_named_class};
use crate::config::{
    cnthctl_el1_access, guest_spsr, hcr_guest, lemma_apply_seven, lemma_apply_six,
    lemma_stage2_root_round_trip, mair_guest, sctlr_mmu_on, stage1_setup_ops, stage2_setup_ops,
    table_base_of, table_root_fits, tcr_guest, ttbr0_for, vtcr_stage2, vttbr_for,
    SPSR_EL1H_MASKED,
};
use crate::error::RvmResult;
use crate::mmio::MmioRegistry;
use crate::percpu::ArchPerCpuState;
use crate::regs::{zero_registers, GeneralRegisters, NUM_GENERAL_REGS};
use crate::sysreg::{SysReg, SysRegOp};
use crate::vmexit::{
    after_exit, exit_outcome, vmexit_handler, ExitAction, FatalExit, TrapRegisters,
};

verus! {

/// Width of one instruction in bytes.
pub const INSTRUCTION_BYTES: u64 = 4;

/// Number of 64-bit words of a register context in memory.
pub const CONTEXT_WORDS: usize = 35;

/// Byte offset, within a register context in memory, of the word that holds
/// the host stack pointer.
pub const HOST_STACK_TOP_OFFSET: usize = 272;

/// Exception class of an `hvc` executed in AArch64 state.
pub const EC_HVC64: u64 = 0x16;

/// Exception class of an instruction abort from a lower exception level.
pub const EC_INSTR_ABORT_LOWER_EL: u64 = 0x20;

/// Exception class of an instruction abort without a change of level.
pub const EC_INSTR_ABORT_CURRENT_EL: u64 = 0x21;

/// Exception class of a data abort from a lower exception level.
pub const EC_DATA_ABORT_LOWER_EL: u64 = 0x24;

/// Exception class of a data abort without a change of level.
pub const EC_DATA_ABORT_CURRENT_EL: u64 = 0x25;

/// The class of a trap taken to EL2.
///
/// The classes that the exit dispatcher has a handler for have a variant
/// each. Every other class that the architecture names is `Other`, with its
/// number.
#[derive(Clone, Copy, Debug, PartialEq, Eq, Structural)]
pub enum TrapClass {
    /// The guest executed `hvc` in AArch64 state.
    Hypercall,
    /// Instruction abort taken from a lower exception level.
    InstrAbortLowerEL,
    /// Instruction abort taken without a change of exception level.
    InstrAbortCurrentEL,
    /// Data abort taken from a lower exception level.
    DataAbortLowerEL,
    /// Data abort taken without a change of exception level.
    DataAbortCurrentEL,
    /// A named class without a handler, by its number.
    Other(u64),
}

impl TrapClass {
    /// The trap class with the number `class`.
    pub open spec fn of_class(class: u64) -> TrapClass {
        if class == EC_HVC64 {
            TrapClass::Hypercall
        } else if class == EC_INSTR_ABORT_LOWER_EL {
            TrapClass::InstrAbortLowerEL
        } else if class == EC_INSTR_ABORT_CURRENT_EL {
            TrapClass::InstrAbortCurrentEL
        } else if class == EC_DATA_ABORT_LOWER_EL {
            TrapClass::DataAbortLowerEL
        } else if class == EC_DATA_ABORT_CURRENT_EL {
            TrapClass::DataAbortCurrentEL
        } else {
            TrapClass::Other(class)
        }
    }

    /// The number of this class.
    pub open spec fn class_code(self) -> u64 {
        match self {
            TrapClass::Hypercall => EC_HVC64,
            TrapClass::InstrAbortLowerEL => EC_INSTR_ABORT_LOWER_EL,
            TrapClass::InstrAbortCurrentEL => EC_INSTR_ABORT_CURRENT_EL,
            TrapClass::DataAbortLowerEL => EC_DATA_ABORT_LOWER_EL,
            TrapClass::DataAbortCurrentEL => EC_DATA_ABORT_CURRENT_EL,
            TrapClass::Other(class) => class,
        }
    }

    /// Whether the exit dispatcher has a handler for this class.
    pub open spec fn has_handler(self) -> bool {
        !(self is Other)
    }

    /// The trap class with the number `class`.
    pub fn from_class(class: u64) -> (trap: TrapClass)
        ensures
            trap == TrapClass::of_class(class),
            trap.class_code() == class,
    {
        if class == EC_HVC64 {
            TrapClass::Hypercall
        } else if class == EC_INSTR_ABORT_LOWER_EL {
            TrapClass::InstrAbortLowerEL
        } else if class == EC_INSTR_ABORT_CURRENT_EL {
            TrapClass::InstrAbortCurrentEL
        } else if class == EC_DATA_ABORT_LOWER_EL {
            TrapClass::DataAbortLowerEL
        } else if class == EC_DATA_ABORT_CURRENT_EL {
            TrapClass::DataAbortCurrentEL
        } else {
            TrapClass::Other(class)
        }
    }

    /// The number of this class.
    pub fn code(&self) -> (class: u64)
        ensures
            class == self.class_code(),
    {
        match self {
            TrapClass::Hypercall => EC_HVC64,
            TrapClass::InstrAbortLowerEL => EC_INSTR_ABORT_LOWER_EL,
            TrapClass::InstrAbortCurrentEL => EC_INSTR_ABORT_CURRENT_EL,
            TrapClass::DataAbortLowerEL => EC_DATA_ABORT_LOWER_EL,
            TrapClass::DataAbortCurrentEL => EC_DATA_ABORT_CURRENT_EL,
            TrapClass::Other(class) => *class,
        }
    }
}

/// Why the guest stopped: the class of the trap, where the architecture
/// names the class that the syndrome holds.
pub type ArmExitReason = Option<TrapClass>;

/// What is known of a trap at the moment it is taken.
#[derive(Clone, Copy, Debug)]
pub struct ArmExitInfo {
    /// The class of the trap, `None` where the syndrome holds a number that
    /// names no class.
    pub exit_reason: ArmExitReason,
    /// The guest's program counter when the trap was taken.
    pub guest_pc: u64,
    /// The exception class as the syndrome register holds it, named or not.
    pub syndrome_class: u64,
}

/// The exception class of a syndrome value: its bits 31:26.
pub open spec fn exception_class(esr: u64) -> u64 {
    (esr & 0xfc00_0000) >> 26
}

/// Whether `class` is the number of an exception class that has a name: one
/// of the 47 numbers below 64 that `ESR_EL2::EC` of `aarch64_cpu` lists, here
/// in the order of that list.
pub open spec fn is_named_class(class: u64) -> bool {
    match class {
        0x00 | 0x01 => true,
        0x03 | 0x04 | 0x05 | 0x06 | 0x07 | 0x08 | 0x09 | 0x0a => true,
        0x0c | 0x0d | 0x0e => true,
        0x11 | 0x12 | 0x13 | 0x14 | 0x15 | 0x16 | 0x17 => true,
        0x18 | 0x19 | 0x1a | 0x1b | 0x1c | 0x1d => true,
        0x20 | 0x21 | 0x22 => true,
        0x24 | 0x25 | 0x26 | 0x27 | 0x28 => true,
        0x2c | 0x2d | 0x2f => true,
        0x30 | 0x31 | 0x32 | 0x33 | 0x34 | 0x35 => true,
        0x38 | 0x3a | 0x3c | 0x3d => true,
        _ => false,
    }
}

/// The class that a syndrome value names, if it names one.
pub open spec fn trap_class_of(esr: u64) -> ArmExitReason {
    if is_named_class(exception_class(esr)) {
        Some(TrapClass::of_class(exception_class(esr)))
    } else {
        None
    }
}

impl ArmExitInfo {
    /// What the syndrome value `esr` and the exception return address `elr`
    /// say of a trap: the class that bits 31:26 of `esr` name, if they name
    /// one, and `elr` as the guest's program counter.
    pub fn from_syndrome(esr: u64, elr: u64) -> (info: ArmExitInfo)
        ensures
            info.exit_reason == trap_class_of(esr),
            info.exit_reason matches Some(trap) ==> trap.class_code() == exception_class(esr),
            info.guest_pc == elr,
            info.syndrome_class == exception_class(esr),
    {
        let exit_reason = match esr_named_class(esr) {
            Some(class) => Some(TrapClass::from_class(class)),
            None => None,
        };
        ArmExitInfo { exit_reason, guest_pc: elr, syndrome_class: esr_exception_class(esr) }
    }
}

/// The registers of the core as the guest sees them: what the entry path
/// loads before it drops to the guest, and what the exit path finds when a
/// trap brings the core back.
#[derive(Clone, Copy, Debug)]
pub struct GuestFrame {
    /// `x0` to `x30`.
    pub regs: GeneralRegisters,
    /// The guest's stack pointer.
    pub sp: u64,
    /// The address at which the guest runs next.
    pub pc: u64,
    /// The processor state of the guest.
    pub pstate: u64,
}

/// What a [`GuestFrame`] stands for.
pub struct GuestFrameView {
    /// `x0` to `x30`.
    pub regs: Seq<u64>,
    /// The guest's stack pointer.
    pub sp: u64,
    /// The address at which the guest runs next.
    pub pc: u64,
    /// The processor state of the guest.
    pub pstate: u64,
}

impl View for GuestFrame {
    type V = GuestFrameView;

    open spec fn view(&self) -> GuestFrameView {
        GuestFrameView { regs: self.regs@, sp: self.sp, pc: self.pc, pstate: self.pstate }
    }
}

/// One virtual CPU: the register context of its guest and the host stack
/// pointer saved when the guest was entered.
#[derive(Debug)]
pub struct ArmVcpu {
    guest_regs: GeneralRegisters,
    guest_sp: u64,
    elr: u64,
    spsr: u64,
    host_stack_top: u64,
}

/// What an [`ArmVcpu`] stands for.
pub struct ArmVcpuView {
    /// `x0` to `x30` of the guest.
    pub regs: Seq<u64>,
    /// The guest's stack pointer.
    pub guest_sp: u64,
    /// The address at which the guest runs next.
    pub elr: u64,
    /// The processor state with which the guest runs next.
    pub spsr: u64,
    /// The host stack pointer at the moment the guest was entered.
    pub host_stack_top: u64,
}

impl ArmVcpuView {
    /// Whether this is the view of some virtual CPU: it has 31 registers.
    pub open spec fn wf(self) -> bool {
        self.regs.len() == NUM_GENERAL_REGS
    }

    /// The context of a virtual CPU that was just made for a guest that
    /// starts at `entry`.
    pub open spec fn fresh(entry: u64) -> ArmVcpuView {
        ArmVcpuView {
            regs: zero_registers(),
            guest_sp: 0,
            elr: entry,
            spsr: SPSR_EL1H_MASKED,
            host_stack_top: 0,
        }
    }

    /// The registers that the entry path loads from this context.
    pub open spec fn frame(self) -> GuestFrameView {
        GuestFrameView { regs: self.regs, sp: self.guest_sp, pc: self.elr, pstate: self.spsr }
    }

    /// This context after the entry path ran with the host stack pointer at
    /// `host_sp`: the guest's registers are as before, the host stack pointer
    /// is recorded.
    pub open spec fn entered(self, host_sp: u64) -> ArmVcpuView {
        ArmVcpuView { host_stack_top: host_sp, ..self }
    }

    /// This context after the exit path stored the registers `frame` of the
    /// trapped guest: the recorded host stack pointer is as before.
    pub open spec fn saved(self, frame: GuestFrameView) -> ArmVcpuView {
        ArmVcpuView {
            regs: frame.regs,
            guest_sp: frame.sp,
            elr: frame.pc,
            spsr: frame.pstate,
            host_stack_top: self.host_stack_top,
        }
    }

    /// This context as it lies in memory, lowest address first: `x0` to
    /// `x30`, the guest stack pointer, the program counter, the processor
    /// state, the host stack pointer.
    pub open spec fn words(self) -> Seq<u64> {
        self.regs + seq![self.guest_sp, self.elr, self.spsr, self.host_stack_top]
    }

    /// The context that lies in memory as `words`.
    pub open spec fn of_words(words: Seq<u64>) -> ArmVcpuView {
        ArmVcpuView {
            regs: words.subrange(0, NUM_GENERAL_REGS as int),
            guest_sp: words[31],
            elr: words[32],
            spsr: words[33],
            host_stack_top: words[34],
        }
    }
}

impl View for ArmVcpu {
    type V = ArmVcpuView;

    closed spec fn view(&self) -> ArmVcpuView {
        ArmVcpuView {
            regs: self.guest_regs@,
            guest_sp: self.guest_sp,
            elr: self.elr,
            spsr: self.spsr,
            host_stack_top: self.host_stack_top,
        }
    }
}

impl ArmVcpu {
    /// Every virtual CPU has 31 general registers.
    pub proof fn lemma_view_wf(&self)
        ensures
            self@.wf(),
    {
    }

    /// Makes the virtual CPU of a guest that starts at `entry` and configures
    /// the core for it, with the nested page table at `npt_root`.
    ///
    /// The context starts with all general registers and the stack pointer
    /// zero. The EL2 configuration is issued on `percpu`.
    pub fn new(
        percpu: &mut ArchPerCpuState,
        entry: GuestPhysAddr,
        npt_root: HostPhysAddr,
    ) -> (res: RvmResult<Self>)
        ensures
            res matches Ok(vcpu) && vcpu@ == ArmVcpuView::fresh(entry as u64),
            final(percpu)@.pending == old(percpu)@.pending + stage2_setup_ops(npt_root as u64),
            final(percpu)@.regs == old(percpu)@.regs.apply_all(stage2_setup_ops(npt_root as u64)),
            final(percpu)@.base == old(percpu)@.base,
            table_root_fits(npt_root as u64) ==> table_base_of(final(percpu)@.regs.vttbr_el2)
                == npt_root,
    {
        let vcpu = ArmVcpu {
            host_stack_top: 0,
            guest_regs: GeneralRegisters::default(),
            guest_sp: 0,
            elr: entry as u64,
            spsr: guest_spsr(),
        };
        match vcpu.setup(percpu, npt_root) {
            Ok(()) => Ok(vcpu),
            Err(e) => Err(e),
        }
    }

    /// Enters the guest: records the host stack pointer `host_sp` and hands
    /// out the registers with which the guest runs.
    pub fn run(&mut self, host_sp: u64) -> (frame: GuestFrame)
        ensures
            final(self)@ == old(self)@.entered(host_sp),
            frame@ == old(self)@.frame(),
    {
        self.vmx_launch(host_sp)
    }

    /// What is known of the trap that the core just took, from the syndrome
    /// value `esr` and the exception return address `elr` that it read.
    pub fn exit_info(&self, esr: u64, elr: u64) -> (res: RvmResult<ArmExitInfo>)
        ensures
            res matches Ok(info) && info.exit_reason == trap_class_of(esr) && info.guest_pc == elr
                && info.syndrome_class == exception_class(esr),
            trap_class_of(esr) matches Some(trap) ==> trap.class_code() == exception_class(esr),
    {
        Ok(ArmExitInfo::from_syndrome(esr, elr))
    }

    /// The general registers of the guest.
    pub fn regs(&self) -> (regs: &GeneralRegisters)
        ensures
            regs@ == self@.regs,
    {
        &self.guest_regs
    }

    /// The general registers of the guest, to be changed in place. Nothing
    /// else of the context changes.
    pub fn regs_mut(&mut self) -> (regs: &mut GeneralRegisters)
        ensures
            regs@ == old(self)@.regs,
            final(self)@ == (ArmVcpuView { regs: final(regs)@, ..old(self)@ }),
    {
        &mut self.guest_regs
    }

    /// Moves the guest's program counter past one instruction, four bytes.
    pub fn advance_rip(&mut self) -> (res: RvmResult)
        requires
            old(self)@.elr + INSTRUCTION_BYTES <= u64::MAX,
        ensures
            res is Ok,
            final(self)@ == (ArmVcpuView {
                elr: (old(self)@.elr + INSTRUCTION_BYTES) as u64,
                ..old(self)@
            }),
    {
        self.elr = self.elr + INSTRUCTION_BYTES;
        Ok(())
    }

    /// Configures the guest's own first-stage translation with its table at
    /// `root`: issues on `percpu` the memory attributes, the translation
    /// control, a barrier, the table base, a flush of the translation cache,
    /// and the system control that turns the translation on.
    pub fn set_page_table_root(&self, percpu: &mut ArchPerCpuState, root: usize)
        ensures
            final(percpu)@.pending == old(percpu)@.pending + stage1_setup_ops(root as u64),
            final(percpu)@.regs == old(percpu)@.regs.apply_all(stage1_setup_ops(root as u64)),
            final(percpu)@.base == old(percpu)@.base,
    {
        let ghost before = percpu@;
        percpu.issue(SysRegOp::Write { reg: SysReg::MairEl1, value: mair_guest() });
        percpu.issue(SysRegOp::Write { reg: SysReg::TcrEl1, value: tcr_guest() });
        percpu.issue(SysRegOp::Isb);
        percpu.issue(SysRegOp::Write { reg: SysReg::Ttbr0El1, value: ttbr0_for(root as u64) });
        percpu.issue(SysRegOp::FlushTlbAll);
        percpu.issue(SysRegOp::Write { reg: SysReg::SctlrEl1, value: sctlr_mmu_on() });
        proof {
            let ops = stage1_setup_ops(root as u64);
            assert(percpu@.pending =~= before.pending + ops);
            lemma_apply_six(before.regs, ops);
        }
    }

    /// Sets the stack pointer with which the guest runs.
    pub fn set_stack_pointer(&mut self, sp: usize)
        ensures
            final(self)@ == (ArmVcpuView { guest_sp: sp as u64, ..old(self)@ }),
    {
        self.guest_sp = sp as u64;
    }

    /// The EL2 configuration: issues on `percpu`, in this order, the timer
    /// access bits, a zero virtual timer offset, the hypervisor configuration,
    /// the stage-2 translation control, a barrier, the nested page table
    /// root, and a flush of the translation cache. It is always the whole
    /// sequence. A root that is even and below 2^48 reads back as it was
    /// given.
    pub fn setup(&self, percpu: &mut ArchPerCpuState, npt_root: HostPhysAddr) -> (res: RvmResult)
        ensures
            res is Ok,
            final(percpu)@.pending == old(percpu)@.pending + stage2_setup_ops(npt_root as u64),
            final(percpu)@.regs == old(percpu)@.regs.apply_all(stage2_setup_ops(npt_root as u64)),
            final(percpu)@.base == old(percpu)@.base,
            table_root_fits(npt_root as u64) ==> table_base_of(final(percpu)@.regs.vttbr_el2)
                == npt_root,
    {
        proof {
            if table_root_fits(npt_root as u64) {
                lemma_stage2_root_round_trip(old(percpu)@.regs, npt_root as u64);
            }
        }
        let ghost before = percpu@;
        percpu.issue(cnthctl_el1_access());
        percpu.issue(SysRegOp::Write { reg: SysReg::CntvoffEl2, value: 0 });
        percpu.issue(SysRegOp::Write { reg: SysReg::HcrEl2, value: hcr_guest() });
        percpu.issue(SysRegOp::Write { reg: SysReg::VtcrEl2, value: vtcr_stage2() });
        percpu.issue(SysRegOp::Isb);
        percpu.issue(SysRegOp::Write { reg: SysReg::VttbrEl2, value: vttbr_for(npt_root as u64) });
        percpu.issue(SysRegOp::FlushTlbAll);
        proof {
            let ops = stage2_setup_ops(npt_root as u64);
            assert(percpu@.pending =~= before.pending + ops);
            lemma_apply_seven(before.regs, ops);
        }
        Ok(())
    }

    /// The entry path: records the host stack pointer in the context and
    /// loads the guest's registers from it.
    fn vmx_launch(&mut self, host_sp: u64) -> (frame: GuestFrame)
        ensures
            final(self)@ == old(self)@.entered(host_sp),
            frame@ == old(self)@.frame(),
    {
        self.host_stack_top = host_sp;
        self.restore_regs()
    }

    /// The exit path: stores in the context the registers `frame` that the
    /// core held when the guest trapped, and has the trap dispatched. Where
    /// the result is to resume, the core goes back into the guest with the
    /// registers of the context as the handler left them.
    pub fn vmx_exit(
        &mut self,
        frame: &GuestFrame,
        trap: &TrapRegisters,
        devices: &MmioRegistry,
    ) -> (res: Result<ExitAction, FatalExit>)
        ensures
            final(self)@ == after_exit(trap_class_of(trap.esr), old(self)@.saved(frame@)),
            res == exit_outcome(
                trap_class_of(trap.esr),
                exception_class(trap.esr),
                old(self)@.saved(frame@),
                devices@,
                trap.fault_addr,
            ),
    {
        let _ = self.save_regs(frame);
        self.vmexit_handler(trap, devices)
    }

    /// Hands the trap to the dispatcher.
    fn vmexit_handler(&mut self, trap: &TrapRegisters, devices: &MmioRegistry) -> (res: Result<
        ExitAction,
        FatalExit,
    >)
        ensures
            final(self)@ == after_exit(trap_class_of(trap.esr), old(self)@),
            res == exit_outcome(
                trap_class_of(trap.esr),
                exception_class(trap.esr),
                old(self)@,
                devices@,
                trap.fault_addr,
            ),
    {
        vmexit_handler(self, trap, devices)
    }

    /// The registers that the core holds when it drops to the guest.
    pub fn restore_regs(&self) -> (frame: GuestFrame)
        ensures
            frame@ == self@.frame(),
    {
        GuestFrame { regs: self.guest_regs, sp: self.guest_sp, pc: self.elr, pstate: self.spsr }
    }

    /// Stores in the context the registers `frame` that the core held when
    /// the guest trapped, and gives back the host stack pointer recorded at
    /// entry.
    pub fn save_regs(&mut self, frame: &GuestFrame) -> (host_sp: u64)
        ensures
            final(self)@ == old(self)@.saved(frame@),
            host_sp == old(self)@.host_stack_top,
    {
        self.guest_regs = frame.regs;
        self.guest_sp = frame.sp;
        self.elr = frame.pc;
        self.spsr = frame.pstate;
        self.host_stack_top
    }

    /// The address at which the guest runs next.
    pub fn elr(&self) -> (pc: u64)
        ensures
            pc == self@.elr,
    {
        self.elr
    }

    /// The host stack pointer recorded when the guest was entered.
    pub fn host_stack_top(&self) -> (sp: u64)
        ensures
            sp == self@.host_stack_top,
    {
        self.host_stack_top
    }

    /// The context as it lies in memory.
    pub fn to_words(&self) -> (words: [u64; 35])
        ensures
            words@ == self@.words(),
    {
        let mut words = [0u64; 35];
        let mut i: usize = 0;
        while i < NUM_GENERAL_REGS
            invariant
                i <= NUM_GENERAL_REGS,
                forall|j: int| 0 <= j < i ==> words@[j] == self.guest_regs@[j],
            decreases NUM_GENERAL_REGS - i,
        {
            words[i] = self.guest_regs.x[i];
            i += 1;
        }
        words[31] = self.guest_sp;
        words[32] = self.elr;
        words[33] = self.spsr;
        words[34] = self.host_stack_top;
        assert(words@ =~= self@.words());
        words
    }

    /// The virtual CPU whose context lies in memory as `words`.
    pub fn from_words(words: &[u64; 35]) -> (vcpu: Self)
        ensures
            vcpu@ == ArmVcpuView::of_words(words@),
    {
        let mut regs = GeneralRegisters::default();
        let mut i: usize = 0;
        while i < NUM_GENERAL_REGS
            invariant
                i <= NUM_GENERAL_REGS,
                forall|j: int| 0 <= j < i ==> regs@[j] == words@[j],
            decreases NUM_GENERAL_REGS - i,
        {
            regs.set(i, words[i]);
            i += 1;
        }
        assert(regs@ =~= words@.subrange(0, NUM_GENERAL_REGS as int));
        ArmVcpu {
            guest_regs: regs,
            guest_sp: words[31],
            elr: words[32],
            spsr: words[33],
            host_stack_top: words[34],
        }
    }
}

/// Register round trip. Enter the guest from a context, then let a trap that
/// changed no register bring the core back: the context holds the general
/// registers, stack pointer, program counter and processor state that it held
/// before, and the host stack pointer that was recorded at entry.
pub proof fn lemma_register_round_trip(vcpu: ArmVcpuView, host_sp: u64)
    ensures
        vcpu.entered(host_sp).saved(vcpu.frame()) == vcpu.entered(host_sp),
        vcpu.entered(host_sp).saved(vcpu.frame()).regs == vcpu.regs,
        vcpu.entered(host_sp).saved(vcpu.frame()).guest_sp == vcpu.guest_sp,
        vcpu.entered(host_sp).saved(vcpu.frame()).elr == vcpu.elr,
        vcpu.entered(host_sp).saved(vcpu.frame()).spsr == vcpu.spsr,
        vcpu.entered(host_sp).saved(vcpu.frame()).host_stack_top == host_sp,
        vcpu.entered(host_sp).saved(vcpu.frame()).frame() == vcpu.frame(),
{
}

/// A value written into a general register before the guest is entered is
/// read back after a trap that changed no register.
pub proof fn lemma_written_register_survives(vcpu: ArmVcpuView, i: int, value: u64, host_sp: u64)
    requires
        vcpu.wf(),
        0 <= i < NUM_GENERAL_REGS,
    ensures
        ({
            let written = ArmVcpuView { regs: vcpu.regs.update(i, value), ..vcpu };
            written.entered(host_sp).saved(written.frame()).regs[i] == value
        }),
{
}

/// The layout in memory loses nothing: a context has 35 words, the host stack
/// pointer is the word at byte offset 272, and the context read back from
/// the words of a context is that context.
pub proof fn lemma_words_round_trip(vcpu: ArmVcpuView)
    requires
        vcpu.wf(),
    ensures
        vcpu.words().len() == CONTEXT_WORDS,
        vcpu.words()[HOST_STACK_TOP_OFFSET as int / 8] == vcpu.host_stack_top,
        ArmVcpuView::of_words(vcpu.words()) == vcpu,
{
    assert(vcpu.words().subrange(0, NUM_GENERAL_REGS as int) =~= vcpu.regs);
}

/// The words of the context read from 35 words are those words.
pub proof fn lemma_of_words_round_trip(words: Seq<u64>)
    requires
        words.len() == CONTEXT_WORDS,
    ensures
        ArmVcpuView::of_words(words).wf(),
        ArmVcpuView::of_words(words).words() == words,
{
    assert(ArmVcpuView::of_words(words).words() =~= words);
}

} // verus!
