use rvm_core::percpu::ArchPerCpuState;
use rvm_core::sysreg::{SysReg, SysRegFile, SysRegOp};

const ALL: [SysReg; 9] = [
    SysReg::CnthctlEl2,
    SysReg::CntvoffEl2,
    SysReg::HcrEl2,
    SysReg::VtcrEl2,
    SysReg::VttbrEl2,
    SysReg::MairEl1,
    SysReg::TcrEl1,
    SysReg::Ttbr0El1,
    SysReg::SctlrEl1,
];

#[test]
fn fresh_registers_hold_zero() {
    let regs = SysRegFile::new();
    for reg in ALL {
        assert_eq!(regs.read(reg), 0);
    }
}

#[test]
fn write_changes_one_register() {
    for (n, target) in ALL.into_iter().enumerate() {
        let mut regs = SysRegFile::new();
        regs.write(target, 0x100 + n as u64);
        for reg in ALL {
            let expected = if reg == target { 0x100 + n as u64 } else { 0 };
            assert_eq!(regs.read(reg), expected);
        }
    }
}

#[test]
fn modify_clears_the_mask_and_sets_the_value() {
    let mut regs = SysRegFile::new();
    regs.write(SysReg::HcrEl2, 0b1111_0000);
    regs.perform(SysRegOp::Modify { reg: SysReg::HcrEl2, mask: 0b0011_1100, value: 0b0000_1000 });
    assert_eq!(regs.read(SysReg::HcrEl2), 0b1100_1000);
}

#[test]
fn barrier_and_flush_change_no_register() {
    let mut regs = SysRegFile::new();
    regs.write(SysReg::VtcrEl2, 7);
    let before = regs;
    regs.perform(SysRegOp::Isb);
    regs.perform(SysRegOp::FlushTlbAll);
    assert_eq!(regs, before);
}

#[test]
fn issue_applies_and_queues_in_order() {
    let mut percpu = ArchPerCpuState::new();
    assert_eq!(percpu.pending_len(), 0);
    percpu.issue(SysRegOp::Write { reg: SysReg::MairEl1, value: 1 });
    percpu.issue(SysRegOp::Isb);
    percpu.issue(SysRegOp::Write { reg: SysReg::MairEl1, value: 2 });
    assert_eq!(percpu.pending_len(), 3);
    assert_eq!(percpu.registers().mair_el1, 2);
    let ops = percpu.take_pending();
    assert_eq!(
        ops,
        vec![
            SysRegOp::Write { reg: SysReg::MairEl1, value: 1 },
            SysRegOp::Isb,
            SysRegOp::Write { reg: SysReg::MairEl1, value: 2 },
        ]
    );
    assert_eq!(percpu.pending_len(), 0);
    assert_eq!(percpu.registers().mair_el1, 2);
    assert!(percpu.take_pending().is_empty());
}

#[test]
fn with_registers_starts_from_the_given_values() {
    let mut regs = SysRegFile::new();
    regs.cnthctl_el2 = 0x4;
    let mut percpu = ArchPerCpuState::with_registers(regs);
    assert_eq!(percpu.registers(), regs);
    percpu.issue(SysRegOp::Modify { reg: SysReg::CnthctlEl2, mask: 0x3, value: 0x3 });
    assert_eq!(percpu.registers().cnthctl_el2, 0x7);
}

#[test]
fn replaying_the_queue_on_the_base_registers_gives_the_shadow() {
    let mut base = SysRegFile::new();
    base.cnthctl_el2 = 0x100;
    base.hcr_el2 = 0xff;
    base.sctlr_el1 = 0x30d0_0800;
    let mut percpu = ArchPerCpuState::with_registers(base);
    let vcpu = rvm_core::vcpu::ArmVcpu::new(&mut percpu, 0x4008_0000, 0x4000_1000).unwrap();
    vcpu.set_page_table_root(&mut percpu, 0x8123_4000);
    let shadow = percpu.registers();
    let mut core = base;
    core.perform_all(&percpu.take_pending());
    assert_eq!(core, shadow);
    assert_eq!(core.cnthctl_el2, 0x103);
    assert_eq!(core.sctlr_el1, 0x1005);

    // the next queue starts from what the core holds now
    percpu.issue(SysRegOp::Modify { reg: SysReg::HcrEl2, mask: 0x1, value: 0 });
    let shadow = percpu.registers();
    for op in percpu.take_pending() {
        core.perform(op);
    }
    assert_eq!(core, shadow);
    assert_eq!(core.hcr_el2, 0x8000_0028);
}

#[test]
fn perform_all_runs_first_to_last() {
    let mut regs = SysRegFile::new();
    regs.perform_all(&vec![
        SysRegOp::Write { reg: SysReg::TcrEl1, value: 0xf0 },
        SysRegOp::Isb,
        SysRegOp::Modify { reg: SysReg::TcrEl1, mask: 0x30, value: 0x1 },
        SysRegOp::Write { reg: SysReg::Ttbr0El1, value: 9 },
    ]);
    assert_eq!(regs.tcr_el1, 0xc1);
    assert_eq!(regs.ttbr0_el1, 9);
    let before = regs;
    regs.perform_all(&Vec::new());
    assert_eq!(regs, before);
}
