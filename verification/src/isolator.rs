//! The isolator: the memory regions that protect the monitor, the host and
//! each enclave, configured on WorldGuard.
//!
//! Each world `w` owns two permission bits, read and write, at bit `2 * w`
//! of a region's permission mask.
use vstd::prelude::*;
use crate::error::Error;
use crate::once_cell::{after_set, OnceCell};
use crate::platform::{added, Access, Machine, Platform};
use crate::wg::{block_register, slot_register, WGChecker, WGC_FLASH_BASE, WGC_NSLOTS_OFF, WGC_SLOT_PERM_OFF, WGC_UART_BASE};
use crate::{SMM_BASE, SMM_SIZE};

verus! {

/// Base of the host's memory: everything above the monitor.
pub const OSM_BASE: usize = 0x8020_0000;

/// Value written to `mlwid` when the monitor's memory is set up.
pub const MONITOR_MLWID: usize = 2;

/// Permission mask that gives all worlds access to a device slot.
pub const ALL_WORLDS_PERM: u64 = 0xff;

/// Number of worlds whose permission bits fit in a 64-bit mask.
pub const MAX_WORLDS: usize = 32;

/// The permission mask that lets world `wid` read and write a region.
pub open spec fn world_perm(wid: usize) -> u64 {
    3u64 << (2 * wid) as u64
}

/// The permission mask that lets world `wid` read and write a region.
pub fn world_rw_perm(wid: usize) -> (perm: u64)
    requires
        wid < MAX_WORLDS,
    ensures
        perm == world_perm(wid),
{
    let shift: u64 = 2 * (wid as u64);
    3u64 << shift
}

/// Two different worlds never share a permission bit: a region given to
/// one world grants nothing to another.
pub proof fn lemma_world_perms_disjoint(a: usize, b: usize)
    requires
        a < MAX_WORLDS,
        b < MAX_WORLDS,
        a != b,
    ensures
        world_perm(a) & world_perm(b) == 0,
        world_perm(a) != 0,
{
    let sa: u64 = (2 * a) as u64;
    let sb: u64 = (2 * b) as u64;
    assert(sa < 64 && sb < 64 && sa != sb && sa % 2 == 0 && sb % 2 == 0);
    assert((3u64 << sa) & (3u64 << sb) == 0 && (3u64 << sa) != 0) by (bit_vector)
        requires
            sa < 64,
            sb < 64,
            sa != sb,
            sa % 2 == 0,
            sb % 2 == 0,
    ;
}

/// World `wid` owns exactly bits `2 * wid` (read) and `2 * wid + 1`
/// (write) of a permission mask: its mask sets those two bits and no
/// other.
pub proof fn lemma_world_perm_bits(wid: usize, k: u64)
    requires
        wid < MAX_WORLDS,
        k < 64,
    ensures
        (world_perm(wid) >> k) & 1u64 == 1u64 <==> (k == 2 * wid || k == 2 * wid + 1),
{
    let s: u64 = (2 * wid) as u64;
    assert(s == 2 * wid && s < 63);
    assert(((3u64 << s) >> k) & 1u64 == 1u64 <==> (k == s || k == s + 1)) by (bit_vector)
        requires
            s < 63,
            k < 64,
    ;
}

/// The permission mask of the host's memory: the host's world and world 0,
/// which unprotected user processes run in.
pub open spec fn os_perm(os_wid: usize) -> u64 {
    world_perm(os_wid) | world_perm(0)
}

/// Whether `t` are the requests that protect `[start, start + size)` for
/// the worlds in `perm`: the reservation of a region and, when one was
/// granted, the programming of that region.
pub open spec fn reservation(t: Seq<Access>, start: usize, size: usize, perm: u64, allow_overlap: bool) -> bool {
    &&& t.len() >= 1
    &&& t[0] matches Access::RegionInit { start: s, size: z, perm: q, allow_overlap: o, result }
        && s == start && z == size && q == perm && o == allow_overlap
        && match result {
            Ok(i) => t.len() == 2 && (t[1] matches Access::RegionSet { region, result: _ } && region == i),
            Err(_) => t.len() == 1,
        }
}

/// Number of requests of the reservation that starts `t`: two when the
/// region was granted (reserving and programming), one when it was not.
pub open spec fn reservation_len(t: Seq<Access>) -> int {
    if t[0] matches Access::RegionInit { result: Ok(_), .. } {
        2
    } else {
        1
    }
}

/// The outcome of the requests `t` of a reservation: the region granted,
/// once it was also programmed, or the first refusal.
pub open spec fn reservation_outcome(t: Seq<Access>) -> Result<usize, Error> {
    match t[0] {
        Access::RegionInit { result: Err(e), .. } => Err(e),
        Access::RegionInit { result: Ok(i), .. } => match t[1] {
            Access::RegionSet { result: Err(e), .. } => Err(e),
            _ => Ok(i),
        },
        _ => Err(Error::Unknown),
    }
}

/// Whether `t` are the requests that give the last slot of the checker
/// at `base` to the worlds in `perm`: a read of its slot count `k`, then
/// the write of `perm` to the permissions of slot `k`.
pub open spec fn last_slot_granted(t: Seq<Access>, base: usize, perm: u64) -> bool {
    &&& t.len() == 2
    &&& t[0] matches Access::Read32 { addr, value: k }
        && addr == block_register(base, WGC_NSLOTS_OFF)
        && t[1] == (Access::Write64 { addr: slot_register(base, k as usize, WGC_SLOT_PERM_OFF), value: perm })
}

/// Reserves a region over `[start, start + size)` for the worlds in `perm`
/// and programs it.
fn reserve_region<P: Platform>(p: &mut Machine<P>, start: usize, size: usize, perm: u64, allow_overlap: bool) -> (r: Result<usize, Error>)
    ensures
        old(p).trace().is_prefix_of(final(p).trace()),
        reservation(added(old(p).trace(), final(p).trace()), start, size, perm, allow_overlap),
        r == reservation_outcome(added(old(p).trace(), final(p).trace())),
{
    let ghost before = p.trace();
    let granted = p.wg_region_init(start, size, perm, allow_overlap);
    match granted {
        Ok(region) => {
            let programmed = p.wg_set(region);
            assert(added(before, p.trace()) =~= seq![
                Access::RegionInit { start, size, perm, allow_overlap, result: granted },
                Access::RegionSet { region, result: programmed },
            ]);
            assert(before.is_prefix_of(p.trace())) by {
                assert(p.trace().take(before.len() as int) =~= before);
            }
            match programmed {
                Ok(_) => Ok(region),
                Err(e) => Err(e),
            }
        },
        Err(e) => {
            assert(added(before, p.trace()) =~= seq![
                Access::RegionInit { start, size, perm, allow_overlap, result: granted },
            ]);
            assert(before.is_prefix_of(p.trace())) by {
                assert(p.trace().take(before.len() as int) =~= before);
            }
            Err(e)
        },
    }
}

/// Whether `t` are the requests that protect the monitor's memory for
/// world `trusted_wid`: the write of `mlwid`, the grant of the last flash
/// slot and of the last UART slot to every world, and the reservation of
/// `[SMM_BASE, SMM_BASE + SMM_SIZE)` for the trusted world alone.
pub open spec fn smm_requests(t: Seq<Access>, trusted_wid: usize) -> bool {
    &&& t.len() >= 5
    &&& t[0] == (Access::Mlwid { wid: MONITOR_MLWID })
    &&& last_slot_granted(t.subrange(1, 3), WGC_FLASH_BASE, ALL_WORLDS_PERM)
    &&& last_slot_granted(t.subrange(3, 5), WGC_UART_BASE, ALL_WORLDS_PERM)
    &&& reservation(t.skip(5), SMM_BASE, SMM_SIZE, world_perm(trusted_wid), false)
}

/// Number of requests of the protection of the monitor's memory that
/// starts `t`.
pub open spec fn smm_len(t: Seq<Access>) -> int {
    5 + reservation_len(t.skip(5))
}

/// The outcome of the protection of the monitor's memory made by `t`.
pub open spec fn smm_outcome(t: Seq<Access>) -> Result<usize, Error> {
    reservation_outcome(t.skip(5))
}

/// The region ids and the boot progress that the isolator records.
pub struct IsolatorState {
    init_done: OnceCell<bool>,
    sm_region: OnceCell<usize>,
    os_region: OnceCell<usize>,
}

impl IsolatorState {
    /// Whether the cold-boot hart has finished setting up, if it recorded it.
    pub closed spec fn init_done(&self) -> Option<bool> {
        self.init_done@
    }

    /// The region protecting the monitor, once set up.
    pub closed spec fn sm_region(&self) -> Option<usize> {
        self.sm_region@
    }

    /// The region of the host's memory, once set up.
    pub closed spec fn os_region(&self) -> Option<usize> {
        self.os_region@
    }

    /// Nothing set up yet.
    pub fn new() -> (s: IsolatorState)
        ensures
            s.init_done() == None::<bool>,
            s.sm_region() == None::<usize>,
            s.os_region() == None::<usize>,
    {
        IsolatorState { init_done: OnceCell::new(), sm_region: OnceCell::new(), os_region: OnceCell::new() }
    }

    /// Whether the host's memory region is set up.
    pub fn os_region_ready(&self) -> (b: bool)
        ensures
            b == self.os_region() is Some,
    {
        self.os_region.get().is_some()
    }

    /// Whether the cold-boot hart has recorded the end of boot.
    pub fn boot_done(&self) -> (b: bool)
        ensures
            b == (self.init_done() == Some(true)),
    {
        match self.init_done.get() {
            Some(done) => *done,
            None => false,
        }
    }

    /// The region of the host's memory.
    pub fn os_region_id(&self) -> (id: usize)
        requires
            self.os_region() is Some,
        ensures
            id == self.os_region()->0,
    {
        *self.os_region.get().unwrap()
    }

    /// The region protecting the monitor.
    pub fn sm_region_id(&self) -> (id: usize)
        requires
            self.sm_region() is Some,
        ensures
            id == self.sm_region()->0,
    {
        *self.sm_region.get().unwrap()
    }

    /// Records that the cold-boot hart has finished setting up.
    pub fn sm_init_done(&mut self)
        ensures
            final(self).init_done() == after_set(old(self).init_done(), true),
            final(self).sm_region() == old(self).sm_region(),
            final(self).os_region() == old(self).os_region(),
    {
        self.init_done.set(true);
    }

    /// Waits until the cold-boot hart has finished setting up.  Only `true`
    /// is ever recorded (by [`IsolatorState::sm_init_done`]), so once the
    /// flag is there nothing is left to wait for.
    pub fn sm_wait_for_completion(&self)
        requires
            self.init_done() == Some(true),
    {
        while !*self.init_done.get().unwrap()
            invariant
                self.init_done@ == Some(true),
            decreases 1int,
        {
            assert(false);
        }
    }

    /// Protects the monitor's memory: sets the machine-level world, opens
    /// the flash and UART to every world, and gives `[SMM_BASE, SMM_BASE +
    /// SMM_SIZE)` to the trusted world alone.  The region is recorded when
    /// the hardware accepted it.
    pub fn smm_init<P: Platform>(&mut self, p: &mut Machine<P>, trusted_wid: usize) -> (r: Result<(), Error>)
        requires
            trusted_wid < MAX_WORLDS,
        ensures
            r is Ok ==> final(self).sm_region() is Some,
            r is Ok && old(self).sm_region() is Some ==> final(self).sm_region() == old(self).sm_region(),
            r is Err ==> final(self).sm_region() == old(self).sm_region(),
            final(self).os_region() == old(self).os_region(),
            final(self).init_done() == old(self).init_done(),
            old(p).trace().is_prefix_of(final(p).trace()),
            smm_requests(added(old(p).trace(), final(p).trace()), trusted_wid),
            match smm_outcome(added(old(p).trace(), final(p).trace())) {
                Ok(id) => r == Ok::<(), Error>(()) && final(self).sm_region() == after_set(old(self).sm_region(), id),
                Err(e) => r == Err::<(), Error>(e),
            },
    {
        let ghost before = p.trace();
        p.write_mlwid(MONITOR_MLWID);

        let mut flash = WGChecker::new(WGC_FLASH_BASE);
        let n = flash.get_nslots(p);
        flash.set_slot_perm(p, n as usize, ALL_WORLDS_PERM);
        let mut uart = WGChecker::new(WGC_UART_BASE);
        let n = uart.get_nslots(p);
        uart.set_slot_perm(p, n as usize, ALL_WORLDS_PERM);
        let ghost opened = p.trace();
        assert(added(before, opened).subrange(1, 3) =~= opened.subrange(before.len() as int + 1, before.len() as int + 3));
        assert(added(before, opened).subrange(3, 5) =~= opened.subrange(before.len() as int + 3, before.len() as int + 5));
        assert(before.is_prefix_of(opened)) by {
            assert(opened.take(before.len() as int) =~= before);
        }

        let reserved = reserve_region(p, SMM_BASE, SMM_SIZE, world_rw_perm(trusted_wid), false);
        proof {
            let t = added(before, p.trace());
            assert(t.take(5) =~= added(before, opened));
            assert(t.skip(5) =~= added(opened, p.trace()));
            assert(t.subrange(1, 3) =~= added(before, opened).subrange(1, 3));
            assert(t.subrange(3, 5) =~= added(before, opened).subrange(3, 5));
            assert(t[0] == added(before, opened)[0]);
            assert(before.is_prefix_of(p.trace())) by {
                assert(p.trace().take(before.len() as int) =~= before);
            }
        }
        match reserved {
            Ok(region) => {
                self.sm_region.set(region);
                Ok(())
            },
            Err(e) => Err(e),
        }
    }

    /// Gives the host's memory, everything above the monitor, to the host's
    /// world and to world 0.  The region is recorded when the hardware
    /// accepted it.
    pub fn osm_init<P: Platform>(&mut self, p: &mut Machine<P>, os_wid: usize) -> (r: Result<(), Error>)
        requires
            os_wid < MAX_WORLDS,
        ensures
            r is Ok ==> final(self).os_region() is Some,
            r is Ok && old(self).os_region() is Some ==> final(self).os_region() == old(self).os_region(),
            r is Err ==> final(self).os_region() == old(self).os_region(),
            final(self).sm_region() == old(self).sm_region(),
            final(self).init_done() == old(self).init_done(),
            old(p).trace().is_prefix_of(final(p).trace()),
            reservation(added(old(p).trace(), final(p).trace()), OSM_BASE, usize::MAX, os_perm(os_wid), false),
            match reservation_outcome(added(old(p).trace(), final(p).trace())) {
                Ok(id) => r == Ok::<(), Error>(()) && final(self).os_region() == after_set(old(self).os_region(), id),
                Err(e) => r == Err::<(), Error>(e),
            },
    {
        let perm = world_rw_perm(os_wid) | world_rw_perm(0);
        match reserve_region(p, OSM_BASE, usize::MAX, perm, false) {
            Ok(region) => {
                self.os_region.set(region);
                Ok(())
            },
            Err(e) => Err(e),
        }
    }
}

/// Protects `[start, start + size)` for enclave `eid`: reserves a region
/// that only the enclave's world may read and write, and programs it.
/// The hardware decides whether that succeeds.
pub fn region_init<P: Platform>(p: &mut Machine<P>, start: usize, size: usize, eid: usize, shared: bool) -> (r: Result<usize, Error>)
    requires
        eid < MAX_WORLDS,
    ensures
        old(p).trace().is_prefix_of(final(p).trace()),
        reservation(added(old(p).trace(), final(p).trace()), start, size, world_perm(eid), true),
        r == reservation_outcome(added(old(p).trace(), final(p).trace())),
{
    reserve_region(p, start, size, world_rw_perm(eid), true)
}

/// Opens a region to the current hart.  WorldGuard regions are bound to
/// worlds, not to harts, so there is nothing to change.
pub fn set_isolator(region_idx: usize) -> (r: Result<(), Error>)
    ensures
        r == Ok::<(), Error>(()),
{
    Ok(())
}

/// Closes a region to the current hart.  WorldGuard regions are bound to
/// worlds, not to harts, so there is nothing to change.
pub fn reset_isolator(region_idx: usize) -> (r: Result<(), Error>)
    ensures
        r == Ok::<(), Error>(()),
{
    Ok(())
}

/// Releases a region.
pub fn region_free<P: Platform>(p: &mut Machine<P>, region_idx: usize) -> (r: Result<(), Error>)
    ensures
        final(p).trace() == old(p).trace().push(Access::RegionFree { region: region_idx, result: r }),
{
    p.wg_region_free(region_idx)
}

/// Re-applies the hart's isolation settings.  WorldGuard keeps them in the
/// checkers, so there is nothing to re-apply.
pub fn update() -> (r: Result<(), Error>)
    ensures
        r == Ok::<(), Error>(()),
{
    Ok(())
}

} // verus!
