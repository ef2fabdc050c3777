use rvm_core::error::RvmError;
use rvm_core::mmio::{MmioRange, MmioRegistry};
use rvm_core::percpu::ArchPerCpuState;
use rvm_core::vcpu::{
    ArmVcpu, EC_DATA_ABORT_CURRENT_EL, EC_DATA_ABORT_LOWER_EL, EC_HVC64,
    EC_INSTR_ABORT_CURRENT_EL, EC_INSTR_ABORT_LOWER_EL,
};
use rvm_core::vmexit::{
    fault_address, handle_dabt, handle_hypercall, handle_iabt, irq_handler, vmexit_handler,
    ExitAction, FatalExit, TrapRegisters, PSCI_CPU_OFF,
};

fn vcpu_with_x0(x0: u64) -> ArmVcpu {
    let mut percpu = ArchPerCpuState::new();
    let mut vcpu = ArmVcpu::new(&mut percpu, 0x4008_0000, 0x4000_1000).unwrap();
    vcpu.regs_mut().x[0] = x0;
    vcpu.regs_mut().x[1] = 0x11;
    vcpu.set_stack_pointer(0x4100_0000);
    vcpu
}

fn two_devices() -> MmioRegistry {
    let mut devices = MmioRegistry::new();
    assert_eq!(devices.register(0x1000, 0x2000), 0);
    assert_eq!(devices.register(0x9000, 0x9100), 1);
    devices
}

fn trap(class: u64, fault_addr: u64) -> TrapRegisters {
    TrapRegisters { esr: (class << 26) | 0x0200_0000, elr: 0x4008_0100, fault_addr }
}

fn vcpu_at(x0: u64, pc: u64) -> ArmVcpu {
    let mut words = vcpu_with_x0(x0).to_words();
    words[32] = pc;
    ArmVcpu::from_words(&words)
}

#[test]
fn exception_class_codes() {
    assert_eq!(EC_HVC64, 0x16);
    assert_eq!(EC_INSTR_ABORT_LOWER_EL, 0x20);
    assert_eq!(EC_INSTR_ABORT_CURRENT_EL, 0x21);
    assert_eq!(EC_DATA_ABORT_LOWER_EL, 0x24);
    assert_eq!(EC_DATA_ABORT_CURRENT_EL, 0x25);
    assert_eq!(PSCI_CPU_OFF, 0x8400_0002);
}

#[test]
fn registry_routes_to_the_claiming_device() {
    let devices = two_devices();
    assert_eq!(devices.len(), 2);
    assert_eq!(devices.find_mmio_device(0x1050), Some(0));
    assert_eq!(devices.find_mmio_device(0x9050), Some(1));
    assert_eq!(devices.find_mmio_device(0x5000), None);
    assert_eq!(devices.range(0), MmioRange { start: 0x1000, end: 0x2000 });
    assert_eq!(devices.range(1), MmioRange { start: 0x9000, end: 0x9100 });
}

#[test]
fn registry_ranges_are_half_open() {
    let devices = two_devices();
    assert_eq!(devices.find_mmio_device(0x0fff), None);
    assert_eq!(devices.find_mmio_device(0x1000), Some(0));
    assert_eq!(devices.find_mmio_device(0x1fff), Some(0));
    assert_eq!(devices.find_mmio_device(0x2000), None);
    assert_eq!(devices.find_mmio_device(0x90ff), Some(1));
    assert_eq!(devices.find_mmio_device(0x9100), None);
    assert!(MmioRange { start: 4, end: 8 }.holds(4));
    assert!(!MmioRange { start: 4, end: 8 }.holds(8));
    assert!(!MmioRange { start: 8, end: 8 }.holds(8));
}

#[test]
fn registry_prefers_the_device_registered_first() {
    let mut devices = MmioRegistry::new();
    devices.register(0x1000, 0x3000);
    devices.register(0x2000, 0x4000);
    assert_eq!(devices.find_mmio_device(0x2800), Some(0));
    assert_eq!(devices.find_mmio_device(0x3800), Some(1));
}

#[test]
fn empty_registry_claims_nothing() {
    let devices = MmioRegistry::new();
    assert_eq!(devices.len(), 0);
    assert_eq!(devices.find_mmio_device(0), None);
    assert_eq!(devices.find_mmio_device(u64::MAX), None);
}

#[test]
fn data_abort_resolves_or_reports_unmapped_access() {
    let devices = two_devices();
    let mut vcpu = vcpu_with_x0(0);
    let before = vcpu.to_words();
    assert_eq!(handle_dabt(&mut vcpu, 0x1050, &devices), Ok(0));
    assert_eq!(handle_dabt(&mut vcpu, 0x9050, &devices), Ok(1));
    assert_eq!(handle_dabt(&mut vcpu, 0x5000, &devices), Err(RvmError::OutOfMemory));
    assert_eq!(vcpu.to_words(), before);
}

#[test]
fn instruction_abort_is_not_supported() {
    let mut vcpu = vcpu_with_x0(0);
    assert_eq!(handle_iabt(&mut vcpu), Err(RvmError::ResourceBusy));
}

#[test]
fn cpu_off_hypercall_halts_the_core() {
    let mut vcpu = vcpu_with_x0(PSCI_CPU_OFF);
    let before = vcpu.to_words();
    assert_eq!(handle_hypercall(&mut vcpu), Ok(ExitAction::Halt));
    assert_eq!(vcpu.to_words(), before);
    let devices = two_devices();
    assert_eq!(vmexit_handler(&mut vcpu, &trap(0x16, 0), &devices), Ok(ExitAction::Halt));
    assert_eq!(vcpu.to_words(), before);
}

#[test]
fn other_hypercalls_resume_behind_the_hypercall() {
    for id in [0u64, 1, 0x8400_0000, 0x8400_0001, 0x8400_0003, 0xc400_0002, u64::MAX] {
        let mut vcpu = vcpu_with_x0(id);
        let mut expected = vcpu.to_words();
        assert_eq!(expected[32], 0x4008_0000);
        assert_eq!(handle_hypercall(&mut vcpu), Ok(ExitAction::Resume));
        // the program counter has moved by four bytes, nothing else has changed
        expected[32] = 0x4008_0004;
        assert_eq!(vcpu.to_words(), expected);
        assert_eq!(vcpu.elr(), 0x4008_0004);
    }
}

#[test]
fn dispatcher_moves_the_program_counter_past_a_hypercall() {
    let devices = two_devices();
    let mut vcpu = vcpu_with_x0(5);
    let mut expected = vcpu.to_words();
    assert_eq!(vmexit_handler(&mut vcpu, &trap(0x16, 0), &devices), Ok(ExitAction::Resume));
    expected[32] = 0x4008_0004;
    assert_eq!(vcpu.to_words(), expected);
    assert_eq!(vmexit_handler(&mut vcpu, &trap(0x16, 0), &devices), Ok(ExitAction::Resume));
    expected[32] = 0x4008_0008;
    assert_eq!(vcpu.to_words(), expected);
}

#[test]
fn hypercall_at_the_end_of_the_address_space() {
    let devices = two_devices();
    // the last program counter behind which an instruction fits
    let mut vcpu = vcpu_at(5, u64::MAX - 4);
    assert_eq!(handle_hypercall(&mut vcpu), Ok(ExitAction::Resume));
    assert_eq!(vcpu.elr(), u64::MAX);
    for pc in [u64::MAX - 3, u64::MAX - 1, u64::MAX] {
        let mut vcpu = vcpu_at(5, pc);
        let before = vcpu.to_words();
        assert_eq!(handle_hypercall(&mut vcpu), Err(RvmError::BadState));
        assert_eq!(vcpu.to_words(), before);
        assert_eq!(
            vmexit_handler(&mut vcpu, &trap(0x16, 0), &devices),
            Err(FatalExit::HandlerFailed { class: 0x16, error: RvmError::BadState })
        );
        assert_eq!(vcpu.to_words(), before);
        // powering off does not move the program counter, so it still works
        let mut vcpu = vcpu_at(PSCI_CPU_OFF, pc);
        assert_eq!(handle_hypercall(&mut vcpu), Ok(ExitAction::Halt));
        assert_eq!(vcpu.elr(), pc);
    }
}

#[test]
fn dispatcher_escalates_an_instruction_abort() {
    let devices = two_devices();
    let mut vcpu = vcpu_with_x0(PSCI_CPU_OFF);
    assert_eq!(
        vmexit_handler(&mut vcpu, &trap(0x20, 0x1050), &devices),
        Err(FatalExit::HandlerFailed { class: 0x20, error: RvmError::ResourceBusy })
    );
    assert_eq!(
        vmexit_handler(&mut vcpu, &trap(0x21, 0x1050), &devices),
        Err(FatalExit::HandlerFailed { class: 0x21, error: RvmError::ResourceBusy })
    );
}

#[test]
fn dispatcher_routes_a_data_abort() {
    let devices = two_devices();
    let mut vcpu = vcpu_with_x0(PSCI_CPU_OFF);
    for class in [0x24u64, 0x25] {
        let first = vmexit_handler(&mut vcpu, &trap(class, 0x1050), &devices);
        assert_eq!(first, Ok(ExitAction::Resume));
        let second = vmexit_handler(&mut vcpu, &trap(class, 0x9050), &devices);
        assert_eq!(second, Ok(ExitAction::Resume));
        assert_eq!(
            vmexit_handler(&mut vcpu, &trap(class, 0x5000), &devices),
            Err(FatalExit::HandlerFailed { class, error: RvmError::OutOfMemory })
        );
    }
}

#[test]
fn dispatcher_treats_an_unknown_class_as_fatal() {
    let devices = two_devices();
    let mut vcpu = vcpu_with_x0(PSCI_CPU_OFF);
    // 0x3e names no exception class at all
    assert_eq!(
        vmexit_handler(&mut vcpu, &trap(0x3e, 0x1050), &devices),
        Err(FatalExit::Unhandled { class: 0x3e })
    );
    // 0x01 is a trapped wait: a named class, without a handler
    assert_eq!(
        vmexit_handler(&mut vcpu, &trap(0x01, 0x1050), &devices),
        Err(FatalExit::Unhandled { class: 0x01 })
    );
}

#[test]
fn every_exception_class_is_handled_or_fatal() {
    let devices = two_devices();
    for class in 0u64..64 {
        let mut vcpu = vcpu_with_x0(7);
        let mut after = vcpu.to_words();
        let outcome = vmexit_handler(&mut vcpu, &trap(class, 0x1050), &devices);
        let expected = match class {
            0x16 => Ok(ExitAction::Resume),
            0x20 | 0x21 => Err(FatalExit::HandlerFailed { class, error: RvmError::ResourceBusy }),
            0x24 | 0x25 => Ok(ExitAction::Resume),
            _ => Err(FatalExit::Unhandled { class }),
        };
        assert_eq!(outcome, expected, "class {:#x}", class);
        // only the hypercall touches the guest: it moves the program counter
        if class == 0x16 {
            after[32] += 4;
        }
        assert_eq!(vcpu.to_words(), after, "class {:#x}", class);
    }
}

#[test]
fn exit_path_saves_the_guest_and_dispatches() {
    let devices = two_devices();
    let mut vcpu = vcpu_with_x0(0);
    let mut frame = vcpu.run(0xffff_0000_4000);
    frame.regs.x[0] = PSCI_CPU_OFF;
    frame.pc = 0x4008_0104;
    assert_eq!(vcpu.vmx_exit(&frame, &trap(0x16, 0), &devices), Ok(ExitAction::Halt));
    assert_eq!(vcpu.regs().x[0], PSCI_CPU_OFF);
    assert_eq!(vcpu.restore_regs().pc, 0x4008_0104);
    assert_eq!(vcpu.host_stack_top(), 0xffff_0000_4000);

    frame.regs.x[0] = 5;
    assert_eq!(vcpu.vmx_exit(&frame, &trap(0x16, 0), &devices), Ok(ExitAction::Resume));
    assert_eq!(vcpu.restore_regs().regs.x, frame.regs.x);
    assert_eq!(vcpu.restore_regs().pc, 0x4008_0108);
    assert_eq!(vcpu.restore_regs().sp, frame.sp);
    assert_eq!(vcpu.restore_regs().pstate, frame.pstate);
    assert_eq!(
        vcpu.vmx_exit(&frame, &trap(0x24, 0x5000), &devices),
        Err(FatalExit::HandlerFailed { class: 0x24, error: RvmError::OutOfMemory })
    );
}

#[test]
fn irq_handler_reports_the_pending_interrupt() {
    assert_eq!(irq_handler(Some(27)), Ok(Some(27)));
    assert_eq!(irq_handler(Some(0)), Ok(Some(0)));
    assert_eq!(irq_handler(None), Ok(None));
}

#[test]
fn fault_address_joins_the_page_and_the_offset() {
    // page 0x9 in bits 51:4 of the IPA fault register, offset 0x050
    assert_eq!(fault_address(0x90, 0xffff_0000_1234_5050), 0x9050);
    assert_eq!(fault_address(0x10, 0x0050), 0x1050);
    assert_eq!(fault_address(0, 0), 0);
    // bits 3:0 and bits 63:52 of the IPA fault register are not part of the page
    assert_eq!(fault_address(0x8000_0000_0000_000f, 0xfff), 0xfff);
    assert_eq!(fault_address(0xffff_ffff_ffff_ffff, 0), 0x0fff_ffff_ffff_f000);
    assert_eq!(fault_address(0x0000_0004_0000_1230, 0xabc), 0x0400_0012_3abc);
}

#[test]
fn data_abort_is_routed_by_the_guest_physical_address() {
    let devices = two_devices();
    let mut vcpu = vcpu_with_x0(0);
    let fault_addr = fault_address(0x90, 0xffff_8000_0000_0050);
    let trap = TrapRegisters { esr: 0x24 << 26, elr: 0x4008_0100, fault_addr };
    assert_eq!(vmexit_handler(&mut vcpu, &trap, &devices), Ok(ExitAction::Resume));
    assert_eq!(handle_dabt(&mut vcpu, fault_addr, &devices), Ok(1));
}
