//! WorldGuard checkers: the memory-mapped devices that grant each world
//! access to address ranges.
use vstd::prelude::*;
use crate::platform::{Access, Machine, Platform};

verus! {

/// Machine-level world identifier CSR.
pub const MLWID: usize = 0x390;
/// Supervisor-level world identifier CSR.
pub const SLWID: usize = 0x190;
/// World delegation CSR.
pub const MWIDDELEG: usize = 0x748;

/// Offset of the first slot in a checker's register block.
pub const WGC_SLOT_OFFSET: usize = 0x20;
/// Distance between two slots.
pub const WGC_SLOT_SIZE: usize = 0x20;

pub const WGC_CFG_A_OFF: u32 = 0x0;
pub const WGC_CFG_A_TOR: u32 = 0x1;
pub const WGC_CFG_A_NA4: u32 = 0x2;
pub const WGC_CFG_A_NAPOT: u32 = 0x3;
/// `1 << 8`: report errors on read.
pub const WGC_CFG_ER: u32 = 0x100;
/// `1 << 9`: report errors on write.
pub const WGC_CFG_EW: u32 = 0x200;
/// `1 << 10`: interrupt on read errors.
pub const WGC_CFG_IR: u32 = 0x400;
/// `1 << 11`: interrupt on write errors.
pub const WGC_CFG_IW: u32 = 0x800;
/// `1 << 31`: the slot is locked.
pub const WGC_CFG_L: u32 = 0x8000_0000;

pub const WGC_ERRCAUSE_R_SHIFT: u8 = 8;
pub const WGC_ERRCAUSE_W_SHIFT: u8 = 9;
pub const WGC_ERRCAUSE_BE_SHIFT: u8 = 62;
pub const WGC_ERRCAUSE_IP_SHIFT: u8 = 63;

/// Base of the checker in front of main memory.
pub const WGC_DRAM_BASE: usize = 0x600_0000;
/// Base of the checker in front of the flash.
pub const WGC_FLASH_BASE: usize = 0x600_1000;
/// Base of the checker in front of the UART.
pub const WGC_UART_BASE: usize = 0x600_2000;

/// Offsets of the registers of a checker's register block.
pub const WGC_VENDOR_OFF: usize = 0x0;
pub const WGC_IMPID_OFF: usize = 0x4;
pub const WGC_NSLOTS_OFF: usize = 0x8;
pub const WGC_ERRCAUSE_OFF: usize = 0x10;
pub const WGC_ERRADDR_OFF: usize = 0x18;

/// Offsets of the registers of one slot.
pub const WGC_SLOT_ADDR_OFF: usize = 0x0;
pub const WGC_SLOT_PERM_OFF: usize = 0x8;
pub const WGC_SLOT_CFG_OFF: usize = 0x10;

/// Address of slot `idx` of the checker at `base`.
pub open spec fn slot_address(base: usize, idx: usize) -> int {
    base + WGC_SLOT_OFFSET + idx * WGC_SLOT_SIZE
}

/// The error cause register after recording an error of world `wid`:
/// the old bits stay, the world id and the flags are added.
pub open spec fn errcause_with(old: u64, wid: u8, r: bool, w: bool, be: bool, ip: bool) -> u64 {
    old | ((wid as u64)
        | (if r { 1u64 << 8u64 } else { 0u64 })
        | (if w { 1u64 << 9u64 } else { 0u64 })
        | (if be { 1u64 << 62u64 } else { 0u64 })
        | (if ip { 1u64 << 63u64 } else { 0u64 }))
}

/// The error cause register after recording an error.
pub fn errcause_merge(old: u64, wid: u8, r: bool, w: bool, be: bool, ip: bool) -> (v: u64)
    ensures
        v == errcause_with(old, wid, r, w, be, ip),
{
    let rb: u64 = if r { 1u64 << 8u64 } else { 0 };
    let wb: u64 = if w { 1u64 << 9u64 } else { 0 };
    let beb: u64 = if be { 1u64 << 62u64 } else { 0 };
    let ipb: u64 = if ip { 1u64 << 63u64 } else { 0 };
    old | ((wid as u64) | rb | wb | beb | ipb)
}

/// Recording an error keeps every bit already set, and records each flag
/// at its own bit.
pub proof fn lemma_errcause_flags(old: u64, wid: u8, r: bool, w: bool, be: bool, ip: bool)
    ensures
        errcause_with(old, wid, r, w, be, ip) & old == old,
        r ==> errcause_with(old, wid, r, w, be, ip) & 0x100u64 != 0,
        w ==> errcause_with(old, wid, r, w, be, ip) & 0x200u64 != 0,
        be ==> errcause_with(old, wid, r, w, be, ip) & 0x4000_0000_0000_0000u64 != 0,
        ip ==> errcause_with(old, wid, r, w, be, ip) & 0x8000_0000_0000_0000u64 != 0,
        errcause_with(old, wid, r, w, be, ip) & 0xffu64 == (old & 0xffu64) | (wid as u64),
{
    assert(1u64 << 8u64 == 0x100u64) by (bit_vector);
    assert(1u64 << 9u64 == 0x200u64) by (bit_vector);
    assert(1u64 << 62u64 == 0x4000_0000_0000_0000u64) by (bit_vector);
    assert(1u64 << 63u64 == 0x8000_0000_0000_0000u64) by (bit_vector);
    let rb: u64 = if r { 0x100u64 } else { 0 };
    let wb: u64 = if w { 0x200u64 } else { 0 };
    let beb: u64 = if be { 0x4000_0000_0000_0000u64 } else { 0 };
    let ipb: u64 = if ip { 0x8000_0000_0000_0000u64 } else { 0 };
    let x = wid as u64;
    assert(x < 256);
    let v = old | (x | rb | wb | beb | ipb);
    assert(v == errcause_with(old, wid, r, w, be, ip));
    assert(v & old == old) by (bit_vector) requires v == old | (x | rb | wb | beb | ipb);
    assert(rb == 0x100u64 ==> v & 0x100u64 != 0) by (bit_vector) requires v == old | (x | rb | wb | beb | ipb);
    assert(wb == 0x200u64 ==> v & 0x200u64 != 0) by (bit_vector) requires v == old | (x | rb | wb | beb | ipb);
    assert(beb == 0x4000_0000_0000_0000u64 ==> v & 0x4000_0000_0000_0000u64 != 0) by (bit_vector)
        requires v == old | (x | rb | wb | beb | ipb);
    assert(ipb == 0x8000_0000_0000_0000u64 ==> v & 0x8000_0000_0000_0000u64 != 0) by (bit_vector)
        requires v == old | (x | rb | wb | beb | ipb);
    assert(v & 0xffu64 == (old & 0xffu64) | x) by (bit_vector)
        requires
            v == old | (x | rb | wb | beb | ipb),
            x < 256,
            rb == 0 || rb == 0x100u64,
            wb == 0 || wb == 0x200u64,
            beb == 0 || beb == 0x4000_0000_0000_0000u64,
            ipb == 0 || ipb == 0x8000_0000_0000_0000u64,
    ;
}

/// Recording an error sets each flag at its own bit and nowhere else: bit
/// `k` of the new error cause is set exactly when it was set before, or it
/// is a bit of the world id (bits 0 to 7), or it is the bit of a flag that
/// is given: read at 8, write at 9, bus error at 62, interrupt pending at 63.
pub proof fn lemma_errcause_bits(old: u64, wid: u8, r: bool, w: bool, be: bool, ip: bool, k: u64)
    requires
        k < 64,
    ensures
        (errcause_with(old, wid, r, w, be, ip) >> k) & 1u64 == 1u64 <==> (
            (old >> k) & 1u64 == 1u64
            || (k < 8 && ((wid as u64) >> k) & 1u64 == 1u64)
            || (k == 8 && r)
            || (k == 9 && w)
            || (k == 62 && be)
            || (k == 63 && ip)),
{
    assert(1u64 << 8u64 == 0x100u64) by (bit_vector);
    assert(1u64 << 9u64 == 0x200u64) by (bit_vector);
    assert(1u64 << 62u64 == 0x4000_0000_0000_0000u64) by (bit_vector);
    assert(1u64 << 63u64 == 0x8000_0000_0000_0000u64) by (bit_vector);
    let rb: u64 = if r { 0x100u64 } else { 0 };
    let wb: u64 = if w { 0x200u64 } else { 0 };
    let beb: u64 = if be { 0x4000_0000_0000_0000u64 } else { 0 };
    let ipb: u64 = if ip { 0x8000_0000_0000_0000u64 } else { 0 };
    let x = wid as u64;
    assert(x < 256);
    let v = old | (x | rb | wb | beb | ipb);
    assert(v == errcause_with(old, wid, r, w, be, ip));
    assert((v >> k) & 1u64 == 1u64 <==> (
            (old >> k) & 1u64 == 1u64
            || (k < 8 && (x >> k) & 1u64 == 1u64)
            || (k == 8 && rb == 0x100u64)
            || (k == 9 && wb == 0x200u64)
            || (k == 62 && beb == 0x4000_0000_0000_0000u64)
            || (k == 63 && ipb == 0x8000_0000_0000_0000u64))) by (bit_vector)
        requires
            v == old | (x | rb | wb | beb | ipb),
            x < 256,
            k < 64,
            rb == 0 || rb == 0x100u64,
            wb == 0 || wb == 0x200u64,
            beb == 0 || beb == 0x4000_0000_0000_0000u64,
            ipb == 0 || ipb == 0x8000_0000_0000_0000u64,
    ;
}

/// Address of the register at `offset` in the block of the checker at
/// `base`.
pub open spec fn block_register(base: usize, offset: usize) -> u64 {
    (base + offset) as u64
}

/// Address of the register at `offset` in slot `idx` of the checker at
/// `base`.
pub open spec fn slot_register(base: usize, idx: usize, offset: usize) -> u64 {
    (slot_address(base, idx) + offset) as u64
}

/// A WorldGuard checker, known by the base address of its registers.
#[derive(Debug, Clone, Copy, PartialEq, Eq, Structural)]
pub struct WGChecker {
    pub base: usize,
}

impl WGChecker {
    /// The checker whose registers start at `base`.
    pub fn new(base: usize) -> (c: WGChecker)
        ensures
            c.base == base,
    {
        WGChecker { base }
    }

    /// Whether every register of the block and of slot `idx` has an
    /// address that fits in a machine word.
    pub open spec fn addressable(&self, idx: usize) -> bool {
        slot_address(self.base, idx) + WGC_SLOT_CFG_OFF <= u64::MAX
    }

    /// Address of slot `idx`.
    pub fn slot_base(&self, idx: usize) -> (a: u64)
        requires
            self.addressable(idx),
        ensures
            a == slot_address(self.base, idx),
    {
        self.base as u64 + WGC_SLOT_OFFSET as u64 + idx as u64 * WGC_SLOT_SIZE as u64
    }

    /// Address of the register at `offset` in the register block.
    fn register(&self, offset: usize) -> (a: u64)
        requires
            self.addressable(0),
            offset <= WGC_ERRADDR_OFF,
        ensures
            a == self.base + offset,
    {
        self.base as u64 + offset as u64
    }

    /// The vendor register.
    pub fn get_vendor<P: Platform>(&self, p: &mut Machine<P>) -> (v: u32)
        requires
            self.addressable(0),
        ensures
            final(p).trace() == old(p).trace().push(Access::Read32 { addr: block_register(self.base, WGC_VENDOR_OFF), value: v }),
    {
        p.read_u32(self.register(WGC_VENDOR_OFF))
    }

    /// The implementation id register.
    pub fn get_impid<P: Platform>(&self, p: &mut Machine<P>) -> (v: u32)
        requires
            self.addressable(0),
        ensures
            final(p).trace() == old(p).trace().push(Access::Read32 { addr: block_register(self.base, WGC_IMPID_OFF), value: v }),
    {
        p.read_u32(self.register(WGC_IMPID_OFF))
    }

    /// The number of slots of the checker.
    pub fn get_nslots<P: Platform>(&self, p: &mut Machine<P>) -> (v: u32)
        requires
            self.addressable(0),
        ensures
            final(p).trace() == old(p).trace().push(Access::Read32 { addr: block_register(self.base, WGC_NSLOTS_OFF), value: v }),
    {
        p.read_u32(self.register(WGC_NSLOTS_OFF))
    }

    /// The error cause register.
    pub fn get_errcause<P: Platform>(&self, p: &mut Machine<P>) -> (v: u64)
        requires
            self.addressable(0),
        ensures
            final(p).trace() == old(p).trace().push(Access::Read64 { addr: block_register(self.base, WGC_ERRCAUSE_OFF), value: v }),
    {
        p.read_u64(self.register(WGC_ERRCAUSE_OFF))
    }

    /// Records an error of world `wid` in the error cause register, keeping
    /// the bits that were set.
    pub fn set_errcause<P: Platform>(&mut self, p: &mut Machine<P>, wid: u8, r: bool, w: bool, be: bool, ip: bool)
        requires
            old(self).addressable(0),
        ensures
            *final(self) == *old(self),
            ({
                let a = block_register(old(self).base, WGC_ERRCAUSE_OFF);
                let n = old(p).trace().len() as int;
                &&& final(p).trace().len() == n + 2
                &&& final(p).trace().take(n) == old(p).trace()
                &&& final(p).trace()[n] matches Access::Read64 { addr: a0, value: v }
                    && a0 == a
                    && final(p).trace()[n + 1] == (Access::Write64 { addr: a, value: errcause_with(v, wid, r, w, be, ip) })
            }),
    {
        let addr = self.register(WGC_ERRCAUSE_OFF);
        let v = p.read_u64(addr);
        p.write_u64(addr, errcause_merge(v, wid, r, w, be, ip));
        assert(p.trace().take(old(p).trace().len() as int) =~= old(p).trace());
    }

    /// The error address register.
    pub fn get_erraddr<P: Platform>(&self, p: &mut Machine<P>) -> (v: u64)
        requires
            self.addressable(0),
        ensures
            final(p).trace() == old(p).trace().push(Access::Read64 { addr: block_register(self.base, WGC_ERRADDR_OFF), value: v }),
    {
        p.read_u64(self.register(WGC_ERRADDR_OFF))
    }

    /// Writes the error address register.
    pub fn set_erraddr<P: Platform>(&mut self, p: &mut Machine<P>, addr: u64)
        requires
            old(self).addressable(0),
        ensures
            *final(self) == *old(self),
            final(p).trace() == old(p).trace().push(Access::Write64 { addr: block_register(old(self).base, WGC_ERRADDR_OFF), value: addr }),
    {
        p.write_u64(self.register(WGC_ERRADDR_OFF), addr);
    }

    /// The address register of slot `idx`.
    pub fn get_slot_addr<P: Platform>(&self, p: &mut Machine<P>, idx: usize) -> (v: u64)
        requires
            self.addressable(idx),
        ensures
            final(p).trace() == old(p).trace().push(Access::Read64 { addr: slot_register(self.base, idx, WGC_SLOT_ADDR_OFF), value: v }),
    {
        p.read_u64(self.slot_base(idx) + WGC_SLOT_ADDR_OFF as u64)
    }

    /// Writes the address register of slot `idx`.
    pub fn set_slot_addr<P: Platform>(&mut self, p: &mut Machine<P>, idx: usize, addr: u64)
        requires
            old(self).addressable(idx),
        ensures
            *final(self) == *old(self),
            final(p).trace() == old(p).trace().push(Access::Write64 { addr: slot_register(old(self).base, idx, WGC_SLOT_ADDR_OFF), value: addr }),
    {
        p.write_u64(self.slot_base(idx) + WGC_SLOT_ADDR_OFF as u64, addr);
    }

    /// The permission register of slot `idx`.
    pub fn get_slot_perm<P: Platform>(&self, p: &mut Machine<P>, idx: usize) -> (v: u64)
        requires
            self.addressable(idx),
        ensures
            final(p).trace() == old(p).trace().push(Access::Read64 { addr: slot_register(self.base, idx, WGC_SLOT_PERM_OFF), value: v }),
    {
        p.read_u64(self.slot_base(idx) + WGC_SLOT_PERM_OFF as u64)
    }

    /// Writes the permission register of slot `idx`.
    pub fn set_slot_perm<P: Platform>(&mut self, p: &mut Machine<P>, idx: usize, perm: u64)
        requires
            old(self).addressable(idx),
        ensures
            *final(self) == *old(self),
            final(p).trace() == old(p).trace().push(Access::Write64 { addr: slot_register(old(self).base, idx, WGC_SLOT_PERM_OFF), value: perm }),
    {
        p.write_u64(self.slot_base(idx) + WGC_SLOT_PERM_OFF as u64, perm);
    }

    /// The configuration register of slot `idx`.
    pub fn get_slot_cfg<P: Platform>(&self, p: &mut Machine<P>, idx: usize) -> (v: u32)
        requires
            self.addressable(idx),
        ensures
            final(p).trace() == old(p).trace().push(Access::Read32 { addr: slot_register(self.base, idx, WGC_SLOT_CFG_OFF), value: v }),
    {
        p.read_u32(self.slot_base(idx) + WGC_SLOT_CFG_OFF as u64)
    }

    /// Writes the configuration register of slot `idx`.
    pub fn set_slot_cfg<P: Platform>(&mut self, p: &mut Machine<P>, idx: usize, cfg: u32)
        requires
            old(self).addressable(idx),
        ensures
            *final(self) == *old(self),
            final(p).trace() == old(p).trace().push(Access::Write32 { addr: slot_register(old(self).base, idx, WGC_SLOT_CFG_OFF), value: cfg }),
    {
        p.write_u32(self.slot_base(idx) + WGC_SLOT_CFG_OFF as u64, cfg);
    }
}

/// The three checkers of the platform, at the addresses the monitor gives
/// them.
pub struct WGCheckers {
    pub dram: WGChecker,
    pub flash: WGChecker,
    pub uart: WGChecker,
}

} // verus!
