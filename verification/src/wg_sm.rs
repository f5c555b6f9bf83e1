//! WorldGuard checkers as the stand-alone boot firmware lays them out, and
//! the boot configuration it gives them.
//!
//! A checker's register block is followed by its slots, each of which
//! takes `WGC_SM_SLOT_SIZE` bytes: two 64-bit registers, a 32-bit
//! register, a reserved 64-bit register and a reserved 32-bit register,
//! each aligned to its size.
use vstd::prelude::*;
use crate::platform::{Access, Machine, Platform};
use crate::wg::{
    block_register, errcause_merge, errcause_with, WGC_CFG_A_NAPOT, WGC_CFG_A_TOR, WGC_CFG_ER, WGC_CFG_EW,
    WGC_CFG_IR, WGC_CFG_IW, WGC_DRAM_BASE, WGC_ERRADDR_OFF, WGC_ERRCAUSE_OFF, WGC_FLASH_BASE, WGC_IMPID_OFF,
    WGC_NSLOTS_OFF, WGC_SLOT_ADDR_OFF, WGC_SLOT_CFG_OFF, WGC_SLOT_OFFSET, WGC_SLOT_PERM_OFF, WGC_UART_BASE,
    WGC_VENDOR_OFF,
};

verus! {

/// Distance between two slots.
pub const WGC_SM_SLOT_SIZE: usize = 0x28;

/// Address of slot `idx` of the checker at `base`.
pub open spec fn slot_address(base: usize, idx: usize) -> int {
    base + WGC_SLOT_OFFSET + idx * WGC_SM_SLOT_SIZE
}

/// Address of the register at `offset` in slot `idx` of the checker at
/// `base`.
pub open spec fn slot_register(base: usize, idx: usize, offset: usize) -> u64 {
    (slot_address(base, idx) + offset) as u64
}

/// A WorldGuard checker, known by the base address of its registers.
#[derive(Debug, Clone, Copy, PartialEq, Eq, Structural)]
pub struct WGChecker {
    pub base: usize,
}

impl WGChecker {
    /// Whether every register of the block and of slot `idx` has an
    /// address that fits in a machine word.
    pub open spec fn addressable(&self, idx: usize) -> bool {
        slot_address(self.base, idx) + WGC_SLOT_CFG_OFF <= u64::MAX
    }

    /// Address of slot `idx`.
    pub fn slot_base(&self, idx: usize) -> (a: u64)
        requires
            self.addressable(idx),
        ensures
            a == slot_address(self.base, idx),
    {
        self.base as u64 + WGC_SLOT_OFFSET as u64 + idx as u64 * WGC_SM_SLOT_SIZE as u64
    }

    /// Address of the register at `offset` in the register block.
    fn register(&self, offset: usize) -> (a: u64)
        requires
            self.addressable(0),
            offset <= WGC_ERRADDR_OFF,
        ensures
            a == self.base + offset,
    {
        self.base as u64 + offset as u64
    }

    /// The vendor register.
    pub fn get_vendor<P: Platform>(&self, p: &mut Machine<P>) -> (v: u32)
        requires
            self.addressable(0),
        ensures
            final(p).trace() == old(p).trace().push(Access::Read32 { addr: block_register(self.base, WGC_VENDOR_OFF), value: v }),
    {
        p.read_u32(self.register(WGC_VENDOR_OFF))
    }

    /// The implementation id register.
    pub fn get_impid<P: Platform>(&self, p: &mut Machine<P>) -> (v: u32)
        requires
            self.addressable(0),
        ensures
            final(p).trace() == old(p).trace().push(Access::Read32 { addr: block_register(self.base, WGC_IMPID_OFF), value: v }),
    {
        p.read_u32(self.register(WGC_IMPID_OFF))
    }

    /// The number of slots of the checker.
    pub fn get_nslots<P: Platform>(&self, p: &mut Machine<P>) -> (v: u32)
        requires
            self.addressable(0),
        ensures
            final(p).trace() == old(p).trace().push(Access::Read32 { addr: block_register(self.base, WGC_NSLOTS_OFF), value: v }),
    {
        p.read_u32(self.register(WGC_NSLOTS_OFF))
    }

    /// The error cause register.
    pub fn get_errcause<P: Platform>(&self, p: &mut Machine<P>) -> (v: u64)
        requires
            self.addressable(0),
        ensures
            final(p).trace() == old(p).trace().push(Access::Read64 { addr: block_register(self.base, WGC_ERRCAUSE_OFF), value: v }),
    {
        p.read_u64(self.register(WGC_ERRCAUSE_OFF))
    }

    /// Records an error of world `wid` in the error cause register, keeping
    /// the bits that were set.
    pub fn set_errcause<P: Platform>(&mut self, p: &mut Machine<P>, wid: u8, r: bool, w: bool, be: bool, ip: bool)
        requires
            old(self).addressable(0),
        ensures
            *final(self) == *old(self),
            ({
                let a = block_register(old(self).base, WGC_ERRCAUSE_OFF);
                let n = old(p).trace().len() as int;
                &&& final(p).trace().len() == n + 2
                &&& final(p).trace().take(n) == old(p).trace()
                &&& final(p).trace()[n] matches Access::Read64 { addr: a0, value: v }
                    && a0 == a
                    && final(p).trace()[n + 1] == (Access::Write64 { addr: a, value: errcause_with(v, wid, r, w, be, ip) })
            }),
    {
        let addr = self.register(WGC_ERRCAUSE_OFF);
        let v = p.read_u64(addr);
        p.write_u64(addr, errcause_merge(v, wid, r, w, be, ip));
        assert(p.trace().take(old(p).trace().len() as int) =~= old(p).trace());
    }

    /// The register that this firmware reads as the error address: the
    /// error cause register.
    pub fn get_erraddr<P: Platform>(&self, p: &mut Machine<P>) -> (v: u64)
        requires
            self.addressable(0),
        ensures
            final(p).trace() == old(p).trace().push(Access::Read64 { addr: block_register(self.base, WGC_ERRCAUSE_OFF), value: v }),
    {
        p.read_u64(self.register(WGC_ERRCAUSE_OFF))
    }

    /// Writes the error address register.
    pub fn set_erraddr<P: Platform>(&mut self, p: &mut Machine<P>, addr: u64)
        requires
            old(self).addressable(0),
        ensures
            *final(self) == *old(self),
            final(p).trace() == old(p).trace().push(Access::Write64 { addr: block_register(old(self).base, WGC_ERRADDR_OFF), value: addr }),
    {
        p.write_u64(self.register(WGC_ERRADDR_OFF), addr);
    }

    /// The address register of slot `idx`.
    pub fn get_slot_addr<P: Platform>(&self, p: &mut Machine<P>, idx: usize) -> (v: u64)
        requires
            self.addressable(idx),
        ensures
            final(p).trace() == old(p).trace().push(Access::Read64 { addr: slot_register(self.base, idx, WGC_SLOT_ADDR_OFF), value: v }),
    {
        p.read_u64(self.slot_base(idx) + WGC_SLOT_ADDR_OFF as u64)
    }

    /// Writes the address register of slot `idx`.
    pub fn set_slot_addr<P: Platform>(&mut self, p: &mut Machine<P>, idx: usize, addr: u64)
        requires
            old(self).addressable(idx),
        ensures
            *final(self) == *old(self),
            final(p).trace() == old(p).trace().push(Access::Write64 { addr: slot_register(old(self).base, idx, WGC_SLOT_ADDR_OFF), value: addr }),
    {
        p.write_u64(self.slot_base(idx) + WGC_SLOT_ADDR_OFF as u64, addr);
    }

    /// The permission register of slot `idx`.
    pub fn get_slot_perm<P: Platform>(&self, p: &mut Machine<P>, idx: usize) -> (v: u64)
        requires
            self.addressable(idx),
        ensures
            final(p).trace() == old(p).trace().push(Access::Read64 { addr: slot_register(self.base, idx, WGC_SLOT_PERM_OFF), value: v }),
    {
        p.read_u64(self.slot_base(idx) + WGC_SLOT_PERM_OFF as u64)
    }

    /// Writes the permission register of slot `idx`.
    pub fn set_slot_perm<P: Platform>(&mut self, p: &mut Machine<P>, idx: usize, perm: u64)
        requires
            old(self).addressable(idx),
        ensures
            *final(self) == *old(self),
            final(p).trace() == old(p).trace().push(Access::Write64 { addr: slot_register(old(self).base, idx, WGC_SLOT_PERM_OFF), value: perm }),
    {
        p.write_u64(self.slot_base(idx) + WGC_SLOT_PERM_OFF as u64, perm);
    }

    /// The configuration register of slot `idx`.
    pub fn get_slot_cfg<P: Platform>(&self, p: &mut Machine<P>, idx: usize) -> (v: u32)
        requires
            self.addressable(idx),
        ensures
            final(p).trace() == old(p).trace().push(Access::Read32 { addr: slot_register(self.base, idx, WGC_SLOT_CFG_OFF), value: v }),
    {
        p.read_u32(self.slot_base(idx) + WGC_SLOT_CFG_OFF as u64)
    }

    /// Writes the configuration register of slot `idx`.
    pub fn set_slot_cfg<P: Platform>(&mut self, p: &mut Machine<P>, idx: usize, cfg: u32)
        requires
            old(self).addressable(idx),
        ensures
            *final(self) == *old(self),
            final(p).trace() == old(p).trace().push(Access::Write32 { addr: slot_register(old(self).base, idx, WGC_SLOT_CFG_OFF), value: cfg }),
    {
        p.write_u32(self.slot_base(idx) + WGC_SLOT_CFG_OFF as u64, cfg);
    }
}

/// The three checkers of the platform, handed out once.
pub struct WGCheckers {
    pub dmem: WGChecker,
    pub flash: WGChecker,
    pub uart: WGChecker,
}

impl WGCheckers {
    /// The checkers at their fixed addresses.
    pub open spec fn spec_platform() -> WGCheckers {
        WGCheckers {
            dmem: WGChecker { base: WGC_DRAM_BASE },
            flash: WGChecker { base: WGC_FLASH_BASE },
            uart: WGChecker { base: WGC_UART_BASE },
        }
    }

    /// Hands out the checkers once: the first call, with `taken` clear,
    /// returns them and sets `taken`; later calls return `None`.
    pub fn take(taken: &mut bool) -> (r: Option<WGCheckers>)
        ensures
            *old(taken) ==> r is None,
            !*old(taken) ==> r == Some(WGCheckers::spec_platform()),
            *final(taken),
    {
        if *taken {
            None
        } else {
            Some(WGCheckers::steal(taken))
        }
    }

    /// Hands out the checkers whether or not they were handed out before,
    /// and marks them taken.
    pub fn steal(taken: &mut bool) -> (r: WGCheckers)
        ensures
            r == WGCheckers::spec_platform(),
            *final(taken),
    {
        *taken = true;
        WGCheckers {
            dmem: WGChecker { base: WGC_DRAM_BASE },
            flash: WGChecker { base: WGC_FLASH_BASE },
            uart: WGChecker { base: WGC_UART_BASE },
        }
    }
}


/// Settings of one checker slot.
#[derive(Debug, Clone, Copy, PartialEq, Eq, Structural)]
pub struct SlotConfig {
    pub idx: usize,
    pub cfg: u32,
    pub addr: u64,
    pub perm: u64,
}

/// Slot address that encodes the naturally aligned power-of-two region
/// `[base, base + size)`.
pub open spec fn napot(base: usize, size: usize) -> u64 {
    ((base | ((size / 2 - 1) as usize)) >> 2usize) as u64
}

/// Slot address that encodes the naturally aligned power-of-two region
/// `[base, base + size)`.
pub fn napot_addr(base: usize, size: usize) -> (a: u64)
    requires
        size >= 2,
    ensures
        a == napot(base, size),
{
    ((base | (size / 2 - 1)) >> 2) as u64
}

/// Slot address that ends a top-of-range region at `top`.
pub open spec fn tor(top: usize) -> u64 {
    (top >> 2usize) as u64
}

/// Slot address that ends a top-of-range region at `top`.
pub fn tor_addr(top: usize) -> (a: u64)
    ensures
        a == tor(top),
{
    (top >> 2) as u64
}

/// Configuration with error reports and interrupts on both reads and
/// writes, and address matching `mode`.
pub open spec fn reporting_cfg(mode: u32) -> u32 {
    WGC_CFG_ER | WGC_CFG_EW | WGC_CFG_IR | WGC_CFG_IW | mode
}

/// World 3 alone may read and write.
pub const WORLD3_RW: u64 = 0xc0;
/// Worlds 2 and 3 may read and write.
pub const WORLD2_3_RW: u64 = 0xf0;

/// The slots of the memory checker at boot: the monitor's memory
/// `[SMM_BASE, SMM_BASE + SMM_SIZE)` for world 3 alone, as a NAPOT region in
/// slot 1, followed by all the memory above it for worlds 2 and 3, as two
/// top-of-range slots.
pub open spec fn boot_dram_slots() -> Seq<SlotConfig> {
    seq![
        SlotConfig { idx: 1, cfg: reporting_cfg(WGC_CFG_A_NAPOT), addr: napot(crate::SMM_BASE, crate::SMM_SIZE), perm: WORLD3_RW },
        SlotConfig { idx: 2, cfg: reporting_cfg(WGC_CFG_A_TOR), addr: tor((crate::SMM_BASE + crate::SMM_SIZE) as usize), perm: WORLD2_3_RW },
        SlotConfig { idx: 3, cfg: reporting_cfg(WGC_CFG_A_TOR), addr: (u64::MAX >> 3u64), perm: WORLD2_3_RW },
    ]
}

/// The slots of the memory checker at boot.
pub fn dram_boot_slots() -> (slots: Vec<SlotConfig>)
    ensures
        slots@ == boot_dram_slots(),
{
    let cfg_napot = WGC_CFG_ER | WGC_CFG_EW | WGC_CFG_IR | WGC_CFG_IW | WGC_CFG_A_NAPOT;
    let cfg_tor = WGC_CFG_ER | WGC_CFG_EW | WGC_CFG_IR | WGC_CFG_IW | WGC_CFG_A_TOR;
    let mut slots: Vec<SlotConfig> = Vec::new();
    slots.push(SlotConfig { idx: 1, cfg: cfg_napot, addr: napot_addr(crate::SMM_BASE, crate::SMM_SIZE), perm: WORLD3_RW });
    slots.push(SlotConfig { idx: 2, cfg: cfg_tor, addr: tor_addr(crate::SMM_BASE + crate::SMM_SIZE), perm: WORLD2_3_RW });
    slots.push(SlotConfig { idx: 3, cfg: cfg_tor, addr: u64::MAX >> 3, perm: WORLD2_3_RW });
    assert(slots@ =~= boot_dram_slots());
    slots
}

/// The boot slots in numbers.
pub proof fn lemma_boot_dram_slot_values()
    ensures
        boot_dram_slots()[0].cfg == 0xf03,
        boot_dram_slots()[0].addr == 0x2003_ffff,
        boot_dram_slots()[1].cfg == 0xf01,
        boot_dram_slots()[1].addr == 0x2008_0000,
        boot_dram_slots()[2].addr == 0x1fff_ffff_ffff_ffff,
{
    assert(0x100u32 | 0x200u32 | 0x400u32 | 0x800u32 | 0x3u32 == 0xf03u32) by (bit_vector);
    assert(0x100u32 | 0x200u32 | 0x400u32 | 0x800u32 | 0x1u32 == 0xf01u32) by (bit_vector);
    assert(((0x8000_0000usize | 0xf_ffffusize) >> 2usize) == 0x2003_ffffusize) by (bit_vector);
    assert((0x8020_0000usize >> 2usize) == 0x2008_0000usize) by (bit_vector);
    assert((0xffff_ffff_ffff_ffffu64 >> 3u64) == 0x1fff_ffff_ffff_ffffu64) by (bit_vector);
}

/// The writes that give slot `s.idx` of the checker at `base` the
/// settings `s`: its configuration, then its address, then its
/// permissions.
pub open spec fn slot_writes(base: usize, s: SlotConfig) -> Seq<Access> {
    seq![
        Access::Write32 { addr: slot_register(base, s.idx, WGC_SLOT_CFG_OFF), value: s.cfg },
        Access::Write64 { addr: slot_register(base, s.idx, WGC_SLOT_ADDR_OFF), value: s.addr },
        Access::Write64 { addr: slot_register(base, s.idx, WGC_SLOT_PERM_OFF), value: s.perm },
    ]
}

/// The writes that give each slot of `slots`, in order, its settings.
pub open spec fn slots_writes(base: usize, slots: Seq<SlotConfig>) -> Seq<Access>
    decreases slots.len(),
{
    if slots.len() == 0 {
        Seq::empty()
    } else {
        slots_writes(base, slots.drop_last()) + slot_writes(base, slots.last())
    }
}

/// Writes the boot slots to the memory checker, each slot's configuration,
/// then its address, then its permissions.
pub fn configure_boot_dram<P: Platform>(dram: &mut WGChecker, p: &mut Machine<P>)
    requires
        old(dram).addressable(3),
    ensures
        *final(dram) == *old(dram),
        final(p).trace() == old(p).trace() + slots_writes(old(dram).base, boot_dram_slots()),
{
    let slots = dram_boot_slots();
    for i in 0..slots.len()
        invariant
            slots@ == boot_dram_slots(),
            dram.addressable(3),
            *dram == *old(dram),
            p.trace() == old(p).trace() + slots_writes(dram.base, slots@.take(i as int)),
    {
        let slot = slots[i];
        assert(slots@.take(i + 1).drop_last() =~= slots@.take(i as int));
        assert(slot.idx <= 3);
        assert(slot_address(dram.base, slot.idx) <= slot_address(dram.base, 3)) by (nonlinear_arith)
            requires slot.idx <= 3;
        dram.set_slot_cfg(p, slot.idx, slot.cfg);
        dram.set_slot_addr(p, slot.idx, slot.addr);
        dram.set_slot_perm(p, slot.idx, slot.perm);
        assert(p.trace() =~= old(p).trace() + slots_writes(dram.base, slots@.take(i + 1)));
    }
    assert(slots@.take(slots@.len() as int) =~= slots@);
}

/// Gives the checker's last slot, the one past its `nslots` regular slots,
/// to the worlds in `perm`, and returns the number of regular slots.
pub fn grant_last_slot<P: Platform>(checker: &mut WGChecker, p: &mut Machine<P>, perm: u64) -> (nslots: u32)
    requires
        old(checker).addressable(0xffff_ffff),
    ensures
        *final(checker) == *old(checker),
        final(p).trace() == old(p).trace() + seq![
            Access::Read32 { addr: block_register(old(checker).base, WGC_NSLOTS_OFF), value: nslots },
            Access::Write64 { addr: slot_register(old(checker).base, nslots as usize, WGC_SLOT_PERM_OFF), value: perm },
        ],
{
    let nslots = checker.get_nslots(p);
    assert(slot_address(checker.base, nslots as usize) <= slot_address(checker.base, 0xffff_ffff)) by (nonlinear_arith)
        requires nslots <= 0xffff_ffff;
    checker.set_slot_perm(p, nslots as usize, perm);
    assert(p.trace() =~= old(p).trace() + seq![
        Access::Read32 { addr: block_register(checker.base, WGC_NSLOTS_OFF), value: nslots },
        Access::Write64 { addr: slot_register(checker.base, nslots as usize, WGC_SLOT_PERM_OFF), value: perm },
    ]);
    nslots
}

/// Value written to `mlwid` when the checkers are set up at boot.
pub const BOOT_MLWID: usize = 2;

/// The requests that set the checkers up at boot, the flash and the UART
/// having `flash_nslots` and `uart_nslots` regular slots: the write of
/// `mlwid`, the boot slots of the memory checker, then the grant of the last
/// flash slot and of the last UART slot to worlds 2 and 3.
pub open spec fn boot_requests(flash_nslots: u32, uart_nslots: u32) -> Seq<Access> {
    seq![Access::Mlwid { wid: BOOT_MLWID }]
        + slots_writes(WGC_DRAM_BASE, boot_dram_slots())
        + seq![
            Access::Read32 { addr: block_register(WGC_FLASH_BASE, WGC_NSLOTS_OFF), value: flash_nslots },
            Access::Write64 { addr: slot_register(WGC_FLASH_BASE, flash_nslots as usize, WGC_SLOT_PERM_OFF), value: WORLD2_3_RW },
            Access::Read32 { addr: block_register(WGC_UART_BASE, WGC_NSLOTS_OFF), value: uart_nslots },
            Access::Write64 { addr: slot_register(WGC_UART_BASE, uart_nslots as usize, WGC_SLOT_PERM_OFF), value: WORLD2_3_RW },
        ]
}

/// What the boot set-up of the checkers hands back: the checkers, and the
/// numbers of regular slots of the flash and UART checkers.
pub struct BootCheckers {
    pub checkers: WGCheckers,
    pub flash_nslots: u32,
    pub uart_nslots: u32,
}

/// Sets the checkers up at boot: writes `mlwid`, takes the checkers, writes
/// the boot slots of the memory checker and gives the last flash and UART
/// slots to worlds 2 and 3.  When the checkers were already taken, only
/// `mlwid` is written and `None` comes back.
pub fn boot_checkers<P: Platform>(p: &mut Machine<P>, taken: &mut bool) -> (r: Option<BootCheckers>)
    ensures
        *final(taken),
        *old(taken) ==> r is None && final(p).trace() == old(p).trace().push(Access::Mlwid { wid: BOOT_MLWID }),
        !*old(taken) ==> (r matches Some(b) && b.checkers == WGCheckers::spec_platform()
            && final(p).trace() == old(p).trace() + boot_requests(b.flash_nslots, b.uart_nslots)),
{
    p.write_mlwid(BOOT_MLWID);
    match WGCheckers::take(taken) {
        None => None,
        Some(mut checkers) => {
            configure_boot_dram(&mut checkers.dmem, p);
            let flash_nslots = grant_last_slot(&mut checkers.flash, p, WORLD2_3_RW);
            let uart_nslots = grant_last_slot(&mut checkers.uart, p, WORLD2_3_RW);
            assert(p.trace() =~= old(p).trace() + boot_requests(flash_nslots, uart_nslots));
            Some(BootCheckers { checkers, flash_nslots, uart_nslots })
        },
    }
}

} // verus!
