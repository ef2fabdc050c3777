//! The register values and the operation sequences with which a virtual CPU
//! configures its core.

use vstd::prelude::*;

use crate::bitfields::{
    cnthctl_el1pcen_set, cnthctl_el1pcten_set, hcr_amo_set, hcr_fmo_set,
    hcr_rw_el1_is_aarch64, hcr_vm_enable, mair_attr0_device_ngnre, mair_attr1_normal_inner_wb,
    mair_attr1_normal_outer_wb, sctlr_c_cacheable, sctlr_i_cacheable, sctlr_m_enable,
    spsr_a_masked, spsr_d_masked, spsr_f_masked, spsr_i_masked, spsr_m_el1h,
    tcr_epd0_enable_walks, tcr_ips_44_bits, tcr_irgn0_wb_ra_wa, tcr_orgn0_wb_ra_wa,
    tcr_sh0_inner, tcr_t0sz, tcr_tg0_4kib, ttbr0_baddr, vtcr_irgn0_wb_ra_wa,
    vtcr_orgn0_wb_ra_wa, vtcr_ps_44_bits, vtcr_sh0_inner, vtcr_sl0, vtcr_t0sz,
    vtcr_tg0_granule_4kb, vttbr_baddr, vttbr_read_baddr,
};
use crate::sysreg::{SysReg, SysRegFile, SysRegOp};

verus! {

/// Processor state with which every guest starts: EL1 using its own stack
/// pointer, with debug exceptions, SError, IRQ and FIQ masked.
pub const SPSR_EL1H_MASKED: u64 = 0x3c5;

/// The bits of the counter-timer control register that let EL1 use the
/// physical timer and counter without a trap.
pub const CNTHCTL_EL1_ACCESS: u64 = 0x3;

/// Hypervisor configuration of a core that runs a guest: stage-2 translation
/// on, EL1 in AArch64 state, physical SError and FIQ taken to EL2.
pub const HCR_GUEST: u64 = 0x8000_0029;

/// Size offset of the stage-2 input region: guest physical addresses have
/// 64 - 20 = 44 bits.
pub const STAGE2_T0SZ: u64 = 20;

/// Encoding of the level at which the stage-2 walk starts.
pub const STAGE2_START_LEVEL: u64 = 2;

/// Stage-2 translation control: 4 KiB granule, 44-bit physical addresses,
/// 44-bit input addresses, walks inner shareable and write-back cacheable.
pub const VTCR_STAGE2: u64 = 0x4_3594;

/// Memory attributes of a guest's own translation: attribute 0 is device
/// memory, attribute 1 is normal write-back memory.
pub const MAIR_GUEST: u64 = 0xff04;

/// Size offset of the lower region of a guest's own translation: its virtual
/// addresses have 64 - 16 = 48 bits.
pub const STAGE1_T0SZ: u64 = 16;

/// Translation control of a guest's own translation: walks of the lower table
/// enabled, 4 KiB granule, 44-bit intermediate physical addresses.
pub const TCR_GUEST: u64 = 0x4_0000_3510;

/// System control of a guest whose own translation is on, with data and
/// instruction caches.
pub const SCTLR_MMU_ON: u64 = 0x1005;

/// The largest table address, exclusive, that a table base register holds.
pub const TABLE_BASE_LIMIT: u64 = 0x1_0000_0000_0000;

/// Whether the processor state `spsr` selects EL1 with its own stack pointer
/// and masks debug exceptions, SError, IRQ and FIQ: its mode field, bits 3:0,
/// is 0b0101 and its bits 9 to 6 are set.
pub open spec fn is_el1h_masked(spsr: u64) -> bool {
    spsr & 0xf == 0b0101 && spsr & 0x3c0 == 0x3c0
}

/// Whether the hypervisor configuration `hcr` turns stage-2 translation on
/// (bit 0), runs EL1 in AArch64 state (bit 31), and takes physical SError
/// (bit 5) and FIQ (bit 3) to EL2.
pub open spec fn runs_guest_under_stage2(hcr: u64) -> bool {
    hcr & 0x1 == 0x1 && hcr & 0x8000_0000 == 0x8000_0000 && hcr & 0x20 == 0x20 && hcr & 0x8
        == 0x8
}

/// Whether the stage-2 control `vtcr` has a 4 KiB granule (bits 15:14 are
/// 0b00), 44-bit physical addresses (bits 18:16 are 0b100) and the input size
/// offset `STAGE2_T0SZ` (bits 5:0).
pub open spec fn has_stage2_geometry(vtcr: u64) -> bool {
    (vtcr >> 14) & 0x3 == 0 && (vtcr >> 16) & 0x7 == 0b100 && vtcr & 0x3f == STAGE2_T0SZ
}

/// What a table base register holds once `root` was installed in it: bits
/// 47:1 of `root`, with bit 0 and the bits above 47 clear.
pub open spec fn table_base_value(root: u64) -> u64 {
    ((root >> 1) & 0x7fff_ffff_ffff) << 1
}

/// The table address that a table base register with value `reg` names: its
/// bits 47:1, in place.
pub open spec fn table_base_of(reg: u64) -> u64 {
    ((reg & 0xffff_ffff_fffe) >> 1) << 1
}

/// Whether a table base register can hold `root` without loss: `root` is even
/// and below 2^48.
pub open spec fn table_root_fits(root: u64) -> bool {
    root % 2 == 0 && root < TABLE_BASE_LIMIT
}

/// The one-time EL2 configuration of a virtual CPU whose nested page table
/// lies at `npt_root`, in the order in which the core must carry it out: the
/// barrier stands before the table base is installed, the flush after it.
pub open spec fn stage2_setup_ops(npt_root: u64) -> Seq<SysRegOp> {
    seq![
        SysRegOp::Modify {
            reg: SysReg::CnthctlEl2,
            mask: CNTHCTL_EL1_ACCESS,
            value: CNTHCTL_EL1_ACCESS,
        },
        SysRegOp::Write { reg: SysReg::CntvoffEl2, value: 0 },
        SysRegOp::Write { reg: SysReg::HcrEl2, value: HCR_GUEST },
        SysRegOp::Write { reg: SysReg::VtcrEl2, value: VTCR_STAGE2 },
        SysRegOp::Isb,
        SysRegOp::Write { reg: SysReg::VttbrEl2, value: table_base_value(npt_root) },
        SysRegOp::FlushTlbAll,
    ]
}

/// The configuration of a guest's own first-stage translation with its table
/// at `root`, in the order in which the core must carry it out.
pub open spec fn stage1_setup_ops(root: u64) -> Seq<SysRegOp> {
    seq![
        SysRegOp::Write { reg: SysReg::MairEl1, value: MAIR_GUEST },
        SysRegOp::Write { reg: SysReg::TcrEl1, value: TCR_GUEST },
        SysRegOp::Isb,
        SysRegOp::Write { reg: SysReg::Ttbr0El1, value: table_base_value(root) },
        SysRegOp::FlushTlbAll,
        SysRegOp::Write { reg: SysReg::SctlrEl1, value: SCTLR_MMU_ON },
    ]
}

/// The processor state with which a guest starts.
pub fn guest_spsr() -> (v: u64)
    ensures
        v == SPSR_EL1H_MASKED,
        is_el1h_masked(v),
{
    let v = spsr_m_el1h() | spsr_d_masked() | spsr_a_masked() | spsr_i_masked()
        | spsr_f_masked();
    assert(0x5u64 | 0x200 | 0x100 | 0x80 | 0x40 == 0x3c5) by (bit_vector);
    assert(0x3c5u64 & 0xf == 0b0101 && 0x3c5u64 & 0x3c0 == 0x3c0) by (bit_vector);
    v
}

/// The update of the counter-timer control register that stops EL1 timer
/// accesses from trapping: it sets the two access bits and keeps the rest.
pub fn cnthctl_el1_access() -> (op: SysRegOp)
    ensures
        op == (SysRegOp::Modify {
            reg: SysReg::CnthctlEl2,
            mask: CNTHCTL_EL1_ACCESS,
            value: CNTHCTL_EL1_ACCESS,
        }),
{
    let (timer_mask, timer) = cnthctl_el1pcen_set();
    let (counter_mask, counter) = cnthctl_el1pcten_set();
    assert(0x2u64 | 0x1 == 0x3) by (bit_vector);
    SysRegOp::Modify {
        reg: SysReg::CnthctlEl2,
        mask: timer_mask | counter_mask,
        value: timer | counter,
    }
}

/// The hypervisor configuration of a core that runs a guest.
pub fn hcr_guest() -> (v: u64)
    ensures
        v == HCR_GUEST,
        runs_guest_under_stage2(v),
{
    let v = hcr_vm_enable() | hcr_rw_el1_is_aarch64() | hcr_amo_set() | hcr_fmo_set();
    assert(0x1u64 | 0x8000_0000 | 0x20 | 0x8 == 0x8000_0029) by (bit_vector);
    assert(0x8000_0029u64 & 0x1 == 0x1 && 0x8000_0029u64 & 0x8000_0000 == 0x8000_0000
        && 0x8000_0029u64 & 0x20 == 0x20 && 0x8000_0029u64 & 0x8 == 0x8) by (bit_vector);
    v
}

/// The stage-2 translation control of a core that runs a guest.
pub fn vtcr_stage2() -> (v: u64)
    ensures
        v == VTCR_STAGE2,
        has_stage2_geometry(v),
{
    let flags = vtcr_tg0_granule_4kb() | vtcr_sh0_inner() | vtcr_sl0(STAGE2_START_LEVEL)
        | vtcr_orgn0_wb_ra_wa() | vtcr_irgn0_wb_ra_wa() | vtcr_t0sz(STAGE2_T0SZ);
    let v = vtcr_ps_44_bits() | flags;
    assert(0x4_0000u64 | (0x0u64 | 0x3000 | ((2u64 & 0x3) << 6) | 0x400 | 0x100 | (20u64 & 0x3f))
        == 0x4_3594) by (bit_vector);
    assert((0x4_3594u64 >> 14) & 0x3 == 0 && (0x4_3594u64 >> 16) & 0x7 == 0b100 && 0x4_3594u64
        & 0x3f == 20) by (bit_vector);
    v
}

/// The memory attributes of a guest's own translation.
pub fn mair_guest() -> (v: u64)
    ensures
        v == MAIR_GUEST,
{
    let device = mair_attr0_device_ngnre();
    let normal = mair_attr1_normal_inner_wb() | mair_attr1_normal_outer_wb();
    assert(0x4u64 | (0xf00u64 | 0xf000) == 0xff04) by (bit_vector);
    device | normal
}

/// The translation control of a guest's own translation.
pub fn tcr_guest() -> (v: u64)
    ensures
        v == TCR_GUEST,
{
    let flags = tcr_epd0_enable_walks() | tcr_tg0_4kib() | tcr_sh0_inner()
        | tcr_orgn0_wb_ra_wa() | tcr_irgn0_wb_ra_wa() | tcr_t0sz(STAGE1_T0SZ);
    let v = tcr_ips_44_bits() | flags;
    assert(0x4_0000_0000u64 | (0x0u64 | 0x0 | 0x3000 | 0x400 | 0x100 | (16u64 & 0x3f))
        == 0x4_0000_3510) by (bit_vector);
    v
}

/// The system control of a guest whose own translation is on.
pub fn sctlr_mmu_on() -> (v: u64)
    ensures
        v == SCTLR_MMU_ON,
{
    let v = sctlr_m_enable() | sctlr_c_cacheable() | sctlr_i_cacheable();
    assert(0x1u64 | 0x4 | 0x1000 == 0x1005) by (bit_vector);
    v
}

/// The value to store in the stage-2 table base register for a nested page
/// table at `npt_root`.
pub fn vttbr_for(npt_root: u64) -> (v: u64)
    ensures
        v == table_base_value(npt_root),
{
    vttbr_baddr(npt_root >> 1)
}

/// The value to store in the stage-1 table base register for a table at
/// `root`.
pub fn ttbr0_for(root: u64) -> (v: u64)
    ensures
        v == table_base_value(root),
{
    ttbr0_baddr(root >> 1)
}

/// The nested page table root that the registers `regs` name.
pub fn stage2_root(regs: &SysRegFile) -> (root: u64)
    ensures
        root == table_base_of(regs.vttbr_el2),
{
    vttbr_read_baddr(regs.vttbr_el2) << 1
}

/// A table base register gives back the root that was installed in it: for
/// every `root` that is even and below 2^48, the address named by the
/// register value made for `root` is `root`.
pub proof fn lemma_table_base_round_trip(root: u64)
    requires
        table_root_fits(root),
    ensures
        table_base_of(table_base_value(root)) == root,
{
    assert(((((root >> 1) & 0x7fff_ffff_ffff) << 1) & 0xffff_ffff_fffe) >> 1 << 1 == root)
        by (bit_vector)
        requires
            root % 2 == 0 && root < 0x1_0000_0000_0000u64,
    ;
}

/// Six operations in a row act one after another.
pub(crate) proof fn lemma_apply_six(regs: SysRegFile, ops: Seq<SysRegOp>)
    requires
        ops.len() == 6,
    ensures
        regs.apply_all(ops) == regs.apply(ops[0]).apply(ops[1]).apply(ops[2]).apply(ops[3]).apply(
            ops[4],
        ).apply(ops[5]),
{
    reveal_with_fuel(SysRegFile::apply_all, 8);
    let a = ops.drop_last();
    let b = a.drop_last();
    let c = b.drop_last();
    let d = c.drop_last();
    let e = d.drop_last();
    assert(e.drop_last().len() == 0);
}

/// Seven operations in a row act one after another.
pub(crate) proof fn lemma_apply_seven(regs: SysRegFile, ops: Seq<SysRegOp>)
    requires
        ops.len() == 7,
    ensures
        regs.apply_all(ops) == regs.apply(ops[0]).apply(ops[1]).apply(ops[2]).apply(ops[3]).apply(
            ops[4],
        ).apply(ops[5]).apply(ops[6]),
{
    lemma_apply_six(regs, ops.drop_last());
}

/// The nested page table root that was configured is the root that is read
/// back: after the EL2 configuration for a root that is even and below 2^48,
/// whatever the registers held before, the stage-2 table base register names
/// that root.
pub proof fn lemma_stage2_root_round_trip(regs: SysRegFile, npt_root: u64)
    requires
        table_root_fits(npt_root),
    ensures
        table_base_of(regs.apply_all(stage2_setup_ops(npt_root)).vttbr_el2) == npt_root,
{
    lemma_apply_seven(regs, stage2_setup_ops(npt_root));
    lemma_table_base_round_trip(npt_root);
}

/// The EL2 configuration is never partial: it is seven operations, the nested
/// page table root is written once, directly after the barrier and directly
/// before the flush, and the translation is turned on and parameterized
/// before the barrier.
pub proof fn lemma_stage2_barrier_write_flush(npt_root: u64)
    ensures
        ({
            let ops = stage2_setup_ops(npt_root);
            &&& ops.len() == 7
            &&& ops[2] == SysRegOp::Write { reg: SysReg::HcrEl2, value: HCR_GUEST }
            &&& ops[3] == SysRegOp::Write { reg: SysReg::VtcrEl2, value: VTCR_STAGE2 }
            &&& ops[4] == SysRegOp::Isb
            &&& ops[5] == SysRegOp::Write {
                reg: SysReg::VttbrEl2,
                value: table_base_value(npt_root),
            }
            &&& ops[6] == SysRegOp::FlushTlbAll
            &&& forall|i: int|
                0 <= i < 7 && i != 5 ==> !(#[trigger] ops[i]).stores_to(SysReg::VttbrEl2)
        }),
{
}

} // verus!
