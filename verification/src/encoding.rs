//! RISC-V control and status register encodings used by the monitor.
use vstd::prelude::*;

verus! {

pub const MSTATUS_SIE: usize = 0x00000002;
pub const MSTATUS_MIE: usize = 0x00000008;
pub const MSTATUS_SPIE_SHIFT: usize = 5;
pub const MSTATUS_SPIE: usize = 0x20;
pub const MSTATUS_UBE: usize = 0x00000040;
pub const MSTATUS_MPIE: usize = 0x00000080;
pub const MSTATUS_SPP_SHIFT: usize = 8;
pub const MSTATUS_SPP: usize = 0x100;
pub const MSTATUS_MPP_SHIFT: usize = 11;
pub const MSTATUS_MPP: usize = 0x1800;
pub const MSTATUS_FS: usize = 0x00006000;
pub const MSTATUS_XS: usize = 0x00018000;
pub const MSTATUS_VS: usize = 0x00000600;
pub const MSTATUS_MPRV: usize = 0x00020000;
pub const MSTATUS_SUM: usize = 0x00040000;
pub const MSTATUS_MXR: usize = 0x00080000;
pub const MSTATUS_TVM: usize = 0x00100000;
pub const MSTATUS_TW: usize = 0x00200000;
pub const MSTATUS_TSR: usize = 0x00400000;

pub const IRQ_S_SOFT: usize = 1;
pub const IRQ_VS_SOFT: usize = 2;
pub const IRQ_M_SOFT: usize = 3;
pub const IRQ_S_TIMER: usize = 5;
pub const IRQ_VS_TIMER: usize = 6;
pub const IRQ_M_TIMER: usize = 7;
pub const IRQ_S_EXT: usize = 9;
pub const IRQ_VS_EXT: usize = 10;
pub const IRQ_M_EXT: usize = 11;
pub const IRQ_S_GEXT: usize = 12;
pub const IRQ_PMU_OVF: usize = 13;

/// `1 << IRQ_S_SOFT`
pub const MIP_SSIP: usize = 0x2;
/// `1 << IRQ_VS_SOFT`
pub const MIP_VSSIP: usize = 0x4;
/// `1 << IRQ_M_SOFT`
pub const MIP_MSIP: usize = 0x8;
/// `1 << IRQ_S_TIMER`
pub const MIP_STIP: usize = 0x20;
/// `1 << IRQ_VS_TIMER`
pub const MIP_VSTIP: usize = 0x40;
/// `1 << IRQ_M_TIMER`
pub const MIP_MTIP: usize = 0x80;
/// `1 << IRQ_S_EXT`
pub const MIP_SEIP: usize = 0x200;
/// `1 << IRQ_VS_EXT`
pub const MIP_VSEIP: usize = 0x400;
/// `1 << IRQ_M_EXT`
pub const MIP_MEIP: usize = 0x800;
/// `1 << IRQ_S_GEXT`
pub const MIP_SGEIP: usize = 0x1000;
/// `1 << IRQ_PMU_OVF`
pub const MIP_LCOFIP: usize = 0x2000;

pub const SIP_SSIP: usize = MIP_SSIP;
pub const SIP_STIP: usize = MIP_STIP;

pub const PRV_U: usize = 0;
pub const PRV_S: usize = 1;
pub const PRV_M: usize = 3;

pub const SATP_MODE_OFF: usize = 0;

/// The interrupt pending bits agree with their interrupt numbers.
pub proof fn lemma_mip_bits()
    ensures
        MIP_SSIP == 1usize << IRQ_S_SOFT,
        MIP_MSIP == 1usize << IRQ_M_SOFT,
        MIP_STIP == 1usize << IRQ_S_TIMER,
        MIP_MTIP == 1usize << IRQ_M_TIMER,
        MIP_SEIP == 1usize << IRQ_S_EXT,
        MIP_MEIP == 1usize << IRQ_M_EXT,
        MSTATUS_MPP == 3usize << MSTATUS_MPP_SHIFT,
        MSTATUS_SPIE == 1usize << MSTATUS_SPIE_SHIFT,
        MSTATUS_SPP == 1usize << MSTATUS_SPP_SHIFT,
{
    assert(0x2usize == 1usize << 1usize) by (bit_vector);
    assert(0x8usize == 1usize << 3usize) by (bit_vector);
    assert(0x20usize == 1usize << 5usize) by (bit_vector);
    assert(0x80usize == 1usize << 7usize) by (bit_vector);
    assert(0x200usize == 1usize << 9usize) by (bit_vector);
    assert(0x800usize == 1usize << 11usize) by (bit_vector);
    assert(0x1800usize == 3usize << 11usize) by (bit_vector);
    assert(0x100usize == 1usize << 8usize) by (bit_vector);
}

} // verus!
