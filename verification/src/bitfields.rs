//! Register layouts taken from `aarch64_cpu`.
//!
//! Each function here hands out one field value of a system register as the
//! `aarch64_cpu` crate defines it, as a plain `u64` already shifted into its
//! place, or reads one field out of a register value. The fields are
//! `tock_registers` fields: `val` masks a value and shifts it into place,
//! `read` masks a register value and shifts the field down, `read_as_enum`
//! names what `read` gives. The contracts here are not proved: they restate
//! the register definitions. Everything that combines these values is proved
//! against them.

use aarch64_cpu::registers::{
    CNTHCTL_EL2, ESR_EL2, HCR_EL2, HPFAR_EL2, MAIR_EL1, SCTLR_EL1, SPSR_EL2, TCR_EL1, TTBR0_EL1,
    VTCR_EL2, VTTBR_EL2,
};
use vstd::prelude::*;

use crate::vcpu::{exception_class, is_named_class};

verus! {

/// `SPSR_EL2::M::EL1h` of `aarch64_cpu`: the mode field, bits 3:0, holding
/// 0b0101: EL1 with its own stack pointer.
#[verifier::external_body]
pub(crate) fn spsr_m_el1h() -> (v: u64)
    ensures
        v == 0x5,
{
    SPSR_EL2::M::EL1h.value
}

/// `SPSR_EL2::D::Masked` of `aarch64_cpu`: the debug exception mask, bit 9,
/// set.
#[verifier::external_body]
pub(crate) fn spsr_d_masked() -> (v: u64)
    ensures
        v == 0x200,
{
    SPSR_EL2::D::Masked.value
}

/// `SPSR_EL2::A::Masked` of `aarch64_cpu`: the SError mask, bit 8, set.
#[verifier::external_body]
pub(crate) fn spsr_a_masked() -> (v: u64)
    ensures
        v == 0x100,
{
    SPSR_EL2::A::Masked.value
}

/// `SPSR_EL2::I::Masked` of `aarch64_cpu`: the IRQ mask, bit 7, set.
#[verifier::external_body]
pub(crate) fn spsr_i_masked() -> (v: u64)
    ensures
        v == 0x80,
{
    SPSR_EL2::I::Masked.value
}

/// `SPSR_EL2::F::Masked` of `aarch64_cpu`: the FIQ mask, bit 6, set.
#[verifier::external_body]
pub(crate) fn spsr_f_masked() -> (v: u64)
    ensures
        v == 0x40,
{
    SPSR_EL2::F::Masked.value
}

/// `HCR_EL2::VM::Enable` of `aarch64_cpu`: the stage-2 translation enable,
/// bit 0, set.
#[verifier::external_body]
pub(crate) fn hcr_vm_enable() -> (v: u64)
    ensures
        v == 0x1,
{
    HCR_EL2::VM::Enable.value
}

/// `HCR_EL2::RW::EL1IsAarch64` of `aarch64_cpu`: the execution state of EL1,
/// bit 31, set: AArch64.
#[verifier::external_body]
pub(crate) fn hcr_rw_el1_is_aarch64() -> (v: u64)
    ensures
        v == 0x8000_0000,
{
    HCR_EL2::RW::EL1IsAarch64.value
}

/// `HCR_EL2::AMO::SET` of `aarch64_cpu`: the routing of physical SError
/// aborts to EL2, bit 5, set.
#[verifier::external_body]
pub(crate) fn hcr_amo_set() -> (v: u64)
    ensures
        v == 0x20,
{
    HCR_EL2::AMO::SET.value
}

/// `HCR_EL2::FMO::SET` of `aarch64_cpu`: the routing of physical FIQs to EL2,
/// bit 3, set.
#[verifier::external_body]
pub(crate) fn hcr_fmo_set() -> (v: u64)
    ensures
        v == 0x8,
{
    HCR_EL2::FMO::SET.value
}

/// `VTCR_EL2::TG0::Granule4KB` of `aarch64_cpu`: the granule size, bits
/// 15:14, holding 0b00: 4 KiB.
#[verifier::external_body]
pub(crate) fn vtcr_tg0_granule_4kb() -> (v: u64)
    ensures
        v == 0x0,
{
    VTCR_EL2::TG0::Granule4KB.value
}

/// `VTCR_EL2::SH0::Inner` of `aarch64_cpu`: the shareability of table walks,
/// bits 13:12, holding 0b11: inner shareable.
#[verifier::external_body]
pub(crate) fn vtcr_sh0_inner() -> (v: u64)
    ensures
        v == 0x3000,
{
    VTCR_EL2::SH0::Inner.value
}

/// `VTCR_EL2::ORGN0::NormalWBRAWA` of `aarch64_cpu`: the outer cacheability
/// of table walks, bits 11:10, holding 0b01: write-back, read- and write-
/// allocate.
#[verifier::external_body]
pub(crate) fn vtcr_orgn0_wb_ra_wa() -> (v: u64)
    ensures
        v == 0x400,
{
    VTCR_EL2::ORGN0::NormalWBRAWA.value
}

/// `VTCR_EL2::IRGN0::NormalWBRAWA` of `aarch64_cpu`: the inner cacheability
/// of table walks, bits 9:8, holding 0b01: write-back, read- and write-
/// allocate.
#[verifier::external_body]
pub(crate) fn vtcr_irgn0_wb_ra_wa() -> (v: u64)
    ensures
        v == 0x100,
{
    VTCR_EL2::IRGN0::NormalWBRAWA.value
}

/// `VTCR_EL2::PS::PA_44B_16TB` of `aarch64_cpu`: the physical address size,
/// bits 18:16, holding 0b100: 44 bits.
#[verifier::external_body]
pub(crate) fn vtcr_ps_44_bits() -> (v: u64)
    ensures
        v == 0x4_0000,
{
    VTCR_EL2::PS::PA_44B_16TB.value
}

/// `MAIR_EL1::Attr0_Device::nonGathering_nonReordering_EarlyWriteAck` of
/// `aarch64_cpu`: attribute 0, bits 7:0, holding 0b0000_0100: device memory,
/// non-gathering, non-reordering, early write acknowledge.
#[verifier::external_body]
pub(crate) fn mair_attr0_device_ngnre() -> (v: u64)
    ensures
        v == 0x4,
{
    MAIR_EL1::Attr0_Device::nonGathering_nonReordering_EarlyWriteAck.value
}

/// `MAIR_EL1::Attr1_Normal_Inner::WriteBack_NonTransient_ReadWriteAlloc` of
/// `aarch64_cpu`: the inner half of attribute 1, bits 11:8, holding 0b1111:
/// write-back, non-transient, read- and write-allocate.
#[verifier::external_body]
pub(crate) fn mair_attr1_normal_inner_wb() -> (v: u64)
    ensures
        v == 0xf00,
{
    MAIR_EL1::Attr1_Normal_Inner::WriteBack_NonTransient_ReadWriteAlloc.value
}

/// `MAIR_EL1::Attr1_Normal_Outer::WriteBack_NonTransient_ReadWriteAlloc` of
/// `aarch64_cpu`: the outer half of attribute 1, bits 15:12, holding 0b1111:
/// write-back, non-transient, read- and write-allocate.
#[verifier::external_body]
pub(crate) fn mair_attr1_normal_outer_wb() -> (v: u64)
    ensures
        v == 0xf000,
{
    MAIR_EL1::Attr1_Normal_Outer::WriteBack_NonTransient_ReadWriteAlloc.value
}

/// `TCR_EL1::EPD0::EnableTTBR0Walks` of `aarch64_cpu`: the walk disable for
/// the lower table, bit 7, clear: walks enabled.
#[verifier::external_body]
pub(crate) fn tcr_epd0_enable_walks() -> (v: u64)
    ensures
        v == 0x0,
{
    TCR_EL1::EPD0::EnableTTBR0Walks.value
}

/// `TCR_EL1::TG0::KiB_4` of `aarch64_cpu`: the granule size of the lower
/// table, bits 15:14, holding 0b00: 4 KiB.
#[verifier::external_body]
pub(crate) fn tcr_tg0_4kib() -> (v: u64)
    ensures
        v == 0x0,
{
    TCR_EL1::TG0::KiB_4.value
}

/// `TCR_EL1::SH0::Inner` of `aarch64_cpu`: the shareability of walks of the
/// lower table, bits 13:12, holding 0b11: inner shareable.
#[verifier::external_body]
pub(crate) fn tcr_sh0_inner() -> (v: u64)
    ensures
        v == 0x3000,
{
    TCR_EL1::SH0::Inner.value
}

/// `TCR_EL1::ORGN0::WriteBack_ReadAlloc_WriteAlloc_Cacheable` of
/// `aarch64_cpu`: the outer cacheability of walks of the lower table, bits
/// 11:10, holding 0b01.
#[verifier::external_body]
pub(crate) fn tcr_orgn0_wb_ra_wa() -> (v: u64)
    ensures
        v == 0x400,
{
    TCR_EL1::ORGN0::WriteBack_ReadAlloc_WriteAlloc_Cacheable.value
}

/// `TCR_EL1::IRGN0::WriteBack_ReadAlloc_WriteAlloc_Cacheable` of
/// `aarch64_cpu`: the inner cacheability of walks of the lower table, bits
/// 9:8, holding 0b01.
#[verifier::external_body]
pub(crate) fn tcr_irgn0_wb_ra_wa() -> (v: u64)
    ensures
        v == 0x100,
{
    TCR_EL1::IRGN0::WriteBack_ReadAlloc_WriteAlloc_Cacheable.value
}

/// `TCR_EL1::IPS::Bits_44` of `aarch64_cpu`: the intermediate physical
/// address size, bits 34:32, holding 0b100: 44 bits.
#[verifier::external_body]
pub(crate) fn tcr_ips_44_bits() -> (v: u64)
    ensures
        v == 0x4_0000_0000,
{
    TCR_EL1::IPS::Bits_44.value
}

/// `SCTLR_EL1::M::Enable` of `aarch64_cpu`: the stage-1 translation enable,
/// bit 0, set.
#[verifier::external_body]
pub(crate) fn sctlr_m_enable() -> (v: u64)
    ensures
        v == 0x1,
{
    SCTLR_EL1::M::Enable.value
}

/// `SCTLR_EL1::C::Cacheable` of `aarch64_cpu`: the data cacheability control,
/// bit 2, set.
#[verifier::external_body]
pub(crate) fn sctlr_c_cacheable() -> (v: u64)
    ensures
        v == 0x4,
{
    SCTLR_EL1::C::Cacheable.value
}

/// `SCTLR_EL1::I::Cacheable` of `aarch64_cpu`: the instruction cacheability
/// control, bit 12, set.
#[verifier::external_body]
pub(crate) fn sctlr_i_cacheable() -> (v: u64)
    ensures
        v == 0x1000,
{
    SCTLR_EL1::I::Cacheable.value
}

/// `CNTHCTL_EL2::EL1PCEN::SET` of `aarch64_cpu`: mask and value of the enable
/// for EL1 accesses to the physical timer, bit 1, set.
#[verifier::external_body]
pub(crate) fn cnthctl_el1pcen_set() -> (f: (u64, u64))
    ensures
        f == (0x2u64, 0x2u64),
{
    (CNTHCTL_EL2::EL1PCEN::SET.mask(), CNTHCTL_EL2::EL1PCEN::SET.value)
}

/// `CNTHCTL_EL2::EL1PCTEN::SET` of `aarch64_cpu`: mask and value of the enable
/// for EL1 accesses to the physical counter, bit 0, set.
#[verifier::external_body]
pub(crate) fn cnthctl_el1pcten_set() -> (f: (u64, u64))
    ensures
        f == (0x1u64, 0x1u64),
{
    (CNTHCTL_EL2::EL1PCTEN::SET.mask(), CNTHCTL_EL2::EL1PCTEN::SET.value)
}

/// `VTCR_EL2::SL0.val` of `aarch64_cpu`: the starting level of the stage-2
/// walk, the low two bits of `level` placed at bits 7:6.
#[verifier::external_body]
pub(crate) fn vtcr_sl0(level: u64) -> (v: u64)
    ensures
        v == (level & 0x3) << 6,
{
    VTCR_EL2::SL0.val(level).value
}

/// `VTCR_EL2::T0SZ.val` of `aarch64_cpu`: the size offset of the stage-2 input
/// region, the low six bits of `size` placed at bits 5:0.
#[verifier::external_body]
pub(crate) fn vtcr_t0sz(size: u64) -> (v: u64)
    ensures
        v == size & 0x3f,
{
    VTCR_EL2::T0SZ.val(size).value
}

/// `TCR_EL1::T0SZ.val` of `aarch64_cpu`: the size offset of the region of the
/// lower table, the low six bits of `size` placed at bits 5:0.
#[verifier::external_body]
pub(crate) fn tcr_t0sz(size: u64) -> (v: u64)
    ensures
        v == size & 0x3f,
{
    TCR_EL1::T0SZ.val(size).value
}

/// `VTTBR_EL2::BADDR.val` of `aarch64_cpu`: the table base field of the
/// stage-2 base register, the low 47 bits of `half` placed at bits 47:1.
#[verifier::external_body]
pub(crate) fn vttbr_baddr(half: u64) -> (v: u64)
    ensures
        v == (half & 0x7fff_ffff_ffff) << 1,
{
    VTTBR_EL2::BADDR.val(half).value
}

/// `VTTBR_EL2::BADDR.read` of `aarch64_cpu`: bits 47:1 of a value of the
/// stage-2 base register, shifted down to bit 0.
#[verifier::external_body]
pub(crate) fn vttbr_read_baddr(reg: u64) -> (v: u64)
    ensures
        v == (reg & 0xffff_ffff_fffe) >> 1,
{
    VTTBR_EL2::BADDR.read(reg)
}

/// `TTBR0_EL1::BADDR.val` of `aarch64_cpu`: the table base field of the
/// stage-1 base register, the low 47 bits of `half` placed at bits 47:1.
#[verifier::external_body]
pub(crate) fn ttbr0_baddr(half: u64) -> (v: u64)
    ensures
        v == (half & 0x7fff_ffff_ffff) << 1,
{
    TTBR0_EL1::BADDR.val(half).value
}

/// `ESR_EL2::EC.read` of `aarch64_cpu`: the exception class, bits 31:26 of a
/// syndrome value, shifted down to bit 0. The mask of those bits is
/// 0xfc00_0000.
#[verifier::external_body]
pub(crate) fn esr_exception_class(esr: u64) -> (v: u64)
    ensures
        v == exception_class(esr),
{
    ESR_EL2::EC.read(esr)
}

/// `ESR_EL2::EC.read_as_enum` of `aarch64_cpu`, with the class handed out as
/// its number: `Some` of the exception class, bits 31:26 of the syndrome,
/// where `ESR_EL2::EC::Value` has a variant with that number, `None` where it
/// has none. The variants are those of version 11.2 of the crate.
#[verifier::external_body]
pub(crate) fn esr_named_class(esr: u64) -> (named: Option<u64>)
    ensures
        named == if is_named_class(exception_class(esr)) {
            Some(exception_class(esr))
        } else {
            None
        },
{
    match ESR_EL2::EC.read_as_enum::<ESR_EL2::EC::Value>(esr) {
        Some(class) => Some(class as u64),
        None => None,
    }
}

/// `HPFAR_EL2::FIPA.read` of `aarch64_cpu`: the faulting page, bits 51:4 of a
/// value of the IPA fault register, shifted down to bit 0.
#[verifier::external_body]
pub(crate) fn hpfar_fipa(hpfar: u64) -> (v: u64)
    ensures
        v == (hpfar & 0x000f_ffff_ffff_fff0) >> 4,
{
    HPFAR_EL2::FIPA.read(hpfar)
}

} // verus!
