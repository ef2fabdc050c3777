//! The exit dispatcher: what the hypervisor does when a guest traps.

use vstd::prelude::*;

use crate::bitfields::hpfar_fipa;
use crate::error::{RvmError, RvmResult};
use crate::mmio::{claimed, first_claim, MmioRange, MmioRegistry};
use crate::vcpu::{
    exception_class, is_named_class, trap_class_of, ArmExitInfo, ArmExitReason, ArmVcpu,
    ArmVcpuView, TrapClass, EC_DATA_ABORT_CURRENT_EL, EC_DATA_ABORT_LOWER_EL, EC_HVC64,
    EC_INSTR_ABORT_CURRENT_EL, EC_INSTR_ABORT_LOWER_EL, INSTRUCTION_BYTES,
};

verus! {

/// The virtual CPU that the dispatcher works on.
pub type Vcpu = ArmVcpu;

/// Function id, in `x0` of a hypercall, by which a guest asks for the calling
/// core to be powered off.
pub const PSCI_CPU_OFF: u64 = 0x8400_0002;

/// What the core knows of a trap that brought it to EL2.
#[derive(Clone, Copy, Debug)]
pub struct TrapRegisters {
    /// The exception syndrome.
    pub esr: u64,
    /// The exception return address: the guest's program counter.
    pub elr: u64,
    /// The address that the guest accessed when an abort was taken, as a
    /// guest physical address; see [`fault_address`].
    pub fault_addr: u64,
}

/// What the core does after an exit that was handled.
#[derive(Clone, Copy, Debug, PartialEq, Eq, Structural)]
pub enum ExitAction {
    /// Go back into the guest.
    Resume,
    /// Stop: the guest asked for this core to be powered off.
    Halt,
}

/// An exit after which the guest cannot go on. The core dumps its state and
/// halts.
#[derive(Clone, Copy, Debug, PartialEq, Eq, Structural)]
pub enum FatalExit {
    /// No handler exists for the exception class `class`.
    Unhandled { class: u64 },
    /// The handler for the exception class `class` failed with `error`.
    HandlerFailed { class: u64, error: RvmError },
}

/// The guest physical address of an access that faulted in stage 2, from the
/// values of the IPA fault register and of the fault address register: the
/// page is bits 51:4 of `hpfar`, the offset within the page is bits 11:0 of
/// `far`.
pub open spec fn fault_address_of(hpfar: u64, far: u64) -> u64 {
    (((hpfar & 0x000f_ffff_ffff_fff0) >> 4) << 12) | (far & 0xfff)
}

/// How a hypercall ends for a guest with `function_id` in `x0` and its
/// program counter at `elr`: the core halts on the power-off id; on every
/// other id the guest resumes, unless the address after the hypercall does
/// not fit in 64 bits, which is an error.
pub open spec fn hypercall_result(function_id: u64, elr: u64) -> RvmResult<ExitAction> {
    if function_id == PSCI_CPU_OFF {
        Ok(ExitAction::Halt)
    } else if elr + INSTRUCTION_BYTES <= u64::MAX {
        Ok(ExitAction::Resume)
    } else {
        Err(RvmError::BadState)
    }
}

/// The virtual CPU after the handling of a hypercall: where the guest
/// resumes, its program counter has moved past the hypercall, by one
/// instruction, and nothing else has changed; where the core halts or the
/// handling fails, nothing has changed.
pub open spec fn after_hypercall(vcpu: ArmVcpuView) -> ArmVcpuView {
    if vcpu.regs[0] != PSCI_CPU_OFF && vcpu.elr + INSTRUCTION_BYTES <= u64::MAX {
        ArmVcpuView { elr: (vcpu.elr + INSTRUCTION_BYTES) as u64, ..vcpu }
    } else {
        vcpu
    }
}

/// How a data abort at `addr` ends with the devices `ranges`: acknowledged
/// where a device claims the address, the out-of-memory error where none
/// does.
pub open spec fn data_abort_result(ranges: Seq<MmioRange>, addr: u64) -> RvmResult<ExitAction> {
    if claimed(ranges, addr) {
        Ok(ExitAction::Resume)
    } else {
        Err(RvmError::OutOfMemory)
    }
}

/// What the dispatcher makes of the result of a handler for a trap of the
/// raw class `class`: every error of a handler is fatal.
pub open spec fn escalated(class: u64, handled: RvmResult<ExitAction>) -> Result<
    ExitAction,
    FatalExit,
> {
    match handled {
        Ok(action) => Ok(action),
        Err(error) => Err(FatalExit::HandlerFailed { class, error }),
    }
}

/// What the dispatcher decides for a trap with the class `reason` and the raw
/// class `class`, taken by the virtual CPU `vcpu`, with the faulting address
/// `fault_addr` and the devices `ranges`.
///
/// A hypercall ends as its function id says. An instruction abort fails with
/// the busy error. A data abort is acknowledged where a device claims the
/// address and fails with the out-of-memory error where none does. A trap of
/// any other class, named or not, is fatal as unhandled.
pub open spec fn exit_outcome(
    reason: ArmExitReason,
    class: u64,
    vcpu: ArmVcpuView,
    ranges: Seq<MmioRange>,
    fault_addr: u64,
) -> Result<ExitAction, FatalExit> {
    match reason {
        Some(TrapClass::Hypercall) => escalated(
            class,
            hypercall_result(vcpu.regs[0], vcpu.elr),
        ),
        Some(TrapClass::InstrAbortLowerEL) | Some(TrapClass::InstrAbortCurrentEL) => escalated(
            class,
            Err(RvmError::ResourceBusy),
        ),
        Some(TrapClass::DataAbortLowerEL) | Some(TrapClass::DataAbortCurrentEL) => escalated(
            class,
            data_abort_result(ranges, fault_addr),
        ),
        Some(TrapClass::Other(_)) | None => Err(FatalExit::Unhandled { class }),
    }
}

/// The virtual CPU after the dispatch of a trap with the class `reason`: a
/// hypercall leaves it as [`after_hypercall`] says, every other trap leaves
/// it as it was.
pub open spec fn after_exit(reason: ArmExitReason, vcpu: ArmVcpuView) -> ArmVcpuView {
    if reason == Some(TrapClass::Hypercall) {
        after_hypercall(vcpu)
    } else {
        vcpu
    }
}

/// The guest physical address of an access that faulted in stage 2, from the
/// values `hpfar` of the IPA fault register and `far` of the fault address
/// register. The IPA fault register holds the page of the access for an
/// abort on a stage-2 translation of a guest access; for another abort its
/// value, and with it the result, has no meaning.
pub fn fault_address(hpfar: u64, far: u64) -> (addr: u64)
    ensures
        addr == fault_address_of(hpfar, far),
{
    (hpfar_fipa(hpfar) << 12) | (far & 0xfff)
}

/// Handles a hypercall. The function id is in `x0`.
///
/// On the id for powering off the core the core halts, and the virtual CPU
/// is left as it is. On every other id the guest resumes behind the
/// hypercall: the program counter is moved by one instruction and nothing
/// else changes. Where the address behind the hypercall does not fit in 64
/// bits, the result is the bad-state error and nothing changes.
pub fn handle_hypercall(vcpu: &mut Vcpu) -> (res: RvmResult<ExitAction>)
    ensures
        final(vcpu)@ == after_hypercall(old(vcpu)@),
        res == hypercall_result(old(vcpu)@.regs[0], old(vcpu)@.elr),
{
    let function_id = vcpu.regs().get(0);
    if function_id == PSCI_CPU_OFF {
        Ok(ExitAction::Halt)
    } else if vcpu.elr() <= u64::MAX - INSTRUCTION_BYTES {
        match vcpu.advance_rip() {
            Ok(()) => Ok(ExitAction::Resume),
            Err(error) => Err(error),
        }
    } else {
        Err(RvmError::BadState)
    }
}

/// Handles an instruction abort. No such handling exists: the result is
/// always the busy error, and the virtual CPU is left as it is.
pub fn handle_iabt(vcpu: &mut Vcpu) -> (res: RvmResult)
    ensures
        *final(vcpu) == *old(vcpu),
        res == Err::<(), RvmError>(RvmError::ResourceBusy),
{
    Err(RvmError::ResourceBusy)
}

/// Handles a data abort at `fault_vaddr`: resolves the address to the device
/// of `devices` that claims it, the first registered one where several do,
/// and acknowledges the access with the handle of that device. Fails with the
/// out-of-memory error where no device claims the address. The access is not
/// decoded, and the virtual CPU is left as it is.
pub fn handle_dabt(vcpu: &mut Vcpu, fault_vaddr: u64, devices: &MmioRegistry) -> (res: RvmResult<
    usize,
>)
    ensures
        *final(vcpu) == *old(vcpu),
        res is Ok <==> claimed(devices@, fault_vaddr),
        match res {
            Ok(handle) => first_claim(devices@, fault_vaddr, handle as int),
            Err(error) => error == RvmError::OutOfMemory,
        },
{
    match devices.find_mmio_device(fault_vaddr) {
        Some(handle) => Ok(handle),
        None => Err(RvmError::OutOfMemory),
    }
}

/// Dispatches the trap that `trap` describes to its handler.
///
/// A hypercall, an instruction abort and a data abort have a handler. A trap
/// of any other class is fatal, and so is a trap whose handler fails; the
/// fatal result carries the raw exception class. Otherwise the result is what
/// the core does next. Only a hypercall after which the guest resumes changes
/// the virtual CPU: its program counter is moved past the hypercall.
pub fn vmexit_handler(
    vcpu: &mut Vcpu,
    trap: &TrapRegisters,
    devices: &MmioRegistry,
) -> (res: Result<ExitAction, FatalExit>)
    ensures
        final(vcpu)@ == after_exit(trap_class_of(trap.esr), old(vcpu)@),
        res == exit_outcome(
            trap_class_of(trap.esr),
            exception_class(trap.esr),
            old(vcpu)@,
            devices@,
            trap.fault_addr,
        ),
{
    let exit_info = ArmExitInfo::from_syndrome(trap.esr, trap.elr);
    let class = exit_info.syndrome_class;
    let handled = match exit_info.exit_reason {
        Some(TrapClass::Hypercall) => handle_hypercall(vcpu),
        Some(TrapClass::InstrAbortLowerEL) | Some(TrapClass::InstrAbortCurrentEL) => {
            match handle_iabt(vcpu) {
                Ok(()) => Ok(ExitAction::Resume),
                Err(e) => Err(e),
            }
        },
        Some(TrapClass::DataAbortLowerEL) | Some(TrapClass::DataAbortCurrentEL) => {
            match handle_dabt(vcpu, trap.fault_addr, devices) {
                Ok(_) => Ok(ExitAction::Resume),
                Err(e) => Err(e),
            }
        },
        Some(TrapClass::Other(_)) | None => {
            return Err(FatalExit::Unhandled { class });
        },
    };
    match handled {
        Ok(action) => Ok(action),
        Err(error) => Err(FatalExit::HandlerFailed { class, error }),
    }
}

/// Handles a physical interrupt taken at EL2, given the id `pending` that the
/// interrupt controller reports, if it reports one. The result names the
/// interrupt that was routed to EL2; nothing is injected into a guest.
pub fn irq_handler(pending: Option<usize>) -> (res: RvmResult<Option<usize>>)
    ensures
        res == Ok::<Option<usize>, RvmError>(pending),
{
    Ok(pending)
}

/// Every exception class is accounted for. Whatever the syndrome `esr`, its
/// class is below 64; the exit reason is `Some` exactly where the class has a
/// name, and then carries that class; and the dispatcher's result either
/// comes from the handler of one of the five handled classes, or is the fatal
/// result for an unhandled class, which carries the class.
pub proof fn lemma_exit_classification_total(
    esr: u64,
    vcpu: ArmVcpuView,
    ranges: Seq<MmioRange>,
    fault_addr: u64,
)
    ensures
        ({
            let class = exception_class(esr);
            let reason = trap_class_of(esr);
            let outcome = exit_outcome(reason, class, vcpu, ranges, fault_addr);
            let hypercall = class == EC_HVC64;
            let instr_abort = class == EC_INSTR_ABORT_LOWER_EL || class
                == EC_INSTR_ABORT_CURRENT_EL;
            let data_abort = class == EC_DATA_ABORT_LOWER_EL || class == EC_DATA_ABORT_CURRENT_EL;
            let handled = hypercall || instr_abort || data_abort;
            &&& class < 64
            &&& reason is Some <==> is_named_class(class)
            &&& reason matches Some(trap) ==> trap.class_code() == class
            &&& handled <==> (reason matches Some(trap) && trap.has_handler())
            &&& !handled <==> outcome == Err::<ExitAction, FatalExit>(
                FatalExit::Unhandled { class },
            )
            &&& hypercall ==> outcome == escalated(class, hypercall_result(vcpu.regs[0], vcpu.elr))
            &&& instr_abort ==> outcome == Err::<ExitAction, FatalExit>(
                FatalExit::HandlerFailed { class, error: RvmError::ResourceBusy },
            )
            &&& data_abort && claimed(ranges, fault_addr) ==> outcome == Ok::<
                ExitAction,
                FatalExit,
            >(ExitAction::Resume)
            &&& data_abort && !claimed(ranges, fault_addr) ==> outcome == Err::<
                ExitAction,
                FatalExit,
            >(FatalExit::HandlerFailed { class, error: RvmError::OutOfMemory })
        }),
{
    assert((esr & 0xfc00_0000) >> 26 < 64) by (bit_vector);
}

/// A hypercall halts the core on the power-off id and on no other. With the
/// class of a hypercall, the dispatcher's result is to halt exactly when `x0`
/// holds the power-off id, and the virtual CPU is then left as it is. On
/// every other id, where the address behind the hypercall fits in 64 bits,
/// the result is to resume, with the program counter moved past the
/// hypercall by four bytes and nothing else changed.
pub proof fn lemma_hypercall_dispatch(
    esr: u64,
    vcpu: ArmVcpuView,
    ranges: Seq<MmioRange>,
    fault_addr: u64,
)
    requires
        exception_class(esr) == EC_HVC64,
    ensures
        ({
            let reason = trap_class_of(esr);
            let outcome = exit_outcome(reason, exception_class(esr), vcpu, ranges, fault_addr);
            let after = after_exit(reason, vcpu);
            &&& outcome == Ok::<ExitAction, FatalExit>(ExitAction::Halt) <==> vcpu.regs[0]
                == PSCI_CPU_OFF
            &&& vcpu.regs[0] == PSCI_CPU_OFF ==> after == vcpu
            &&& vcpu.regs[0] != PSCI_CPU_OFF && vcpu.elr + 4 <= u64::MAX ==> {
                &&& outcome == Ok::<ExitAction, FatalExit>(ExitAction::Resume)
                &&& after.elr == vcpu.elr + 4
                &&& after == ArmVcpuView { elr: after.elr, ..vcpu }
            }
            &&& vcpu.regs[0] != PSCI_CPU_OFF && vcpu.elr + 4 > u64::MAX ==> {
                &&& outcome == Err::<ExitAction, FatalExit>(
                    FatalExit::HandlerFailed { class: EC_HVC64, error: RvmError::BadState },
                )
                &&& after == vcpu
            }
        }),
{
}

} // verus!
