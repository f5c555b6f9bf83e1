//! The hardware that the monitor drives.
//!
//! Control and status registers, memory-mapped WorldGuard checkers and the
//! WorldGuard region back end are reached only through this trait.  Its
//! methods carry no contract: what the hardware does and returns is not
//! known here, and everything this crate proves holds whatever they do.
//!
//! The monitor reaches a platform through a [`Machine`], which keeps, as
//! ghost state, the trace of every request made and of every answer
//! received.  Where a contract speaks of the hardware, it does so as the
//! requests that the function appends to that trace.
use vstd::prelude::*;
use crate::error::Error;

verus! {

/// Access to the hart and to the memory-isolation hardware.
pub trait Platform {
    /// Writes the machine interrupt delegation register `mideleg`.
    fn write_mideleg(&mut self, value: usize);

    /// Writes the supervisor address translation register `satp`.
    fn write_satp(&mut self, value: usize);

    /// Points `mtvec` at the trap vector used while an enclave runs.
    fn trap_vector_enclave(&mut self);

    /// Points `mtvec` at the host's trap handler.
    fn trap_vector_host(&mut self);

    /// Reads the machine interrupt pending register `mip`.
    fn read_mip(&mut self) -> usize;

    /// Clears the given bits of `mip`.
    fn clear_mip(&mut self, bits: usize);

    /// Sets the given bits of `mip`.
    fn set_mip(&mut self, bits: usize);

    /// Writes the machine-level world identifier register `mlwid`.
    fn write_mlwid(&mut self, wid: usize);

    /// Switches the isolation hardware to the context of `id`.
    fn enter_context(&mut self, id: usize);

    /// Volatile read of a 32-bit device register.
    fn read_u32(&mut self, addr: u64) -> u32;

    /// Volatile read of a 64-bit device register.
    fn read_u64(&mut self, addr: u64) -> u64;

    /// Volatile write of a 32-bit device register.
    fn write_u32(&mut self, addr: u64, value: u32);

    /// Volatile write of a 64-bit device register.
    fn write_u64(&mut self, addr: u64, value: u64);

    /// Reserves a WorldGuard region over `[start, start + size)` readable
    /// and writable by the worlds whose bits are set in `perm`, and returns
    /// its index.
    fn wg_region_init(&mut self, start: usize, size: usize, perm: u64, allow_overlap: bool) -> Result<usize, Error>;

    /// Programs the checker slots for a reserved WorldGuard region.
    fn wg_set(&mut self, region: usize) -> Result<(), Error>;

    /// Releases a WorldGuard region.
    fn wg_region_free(&mut self, region: usize) -> Result<(), Error>;
}

/// One request made to the hardware, with the answer it gave.
#[derive(Debug, Clone, Copy, PartialEq, Eq)]
pub enum Access {
    Mideleg { value: usize },
    Satp { value: usize },
    VectorEnclave,
    VectorHost,
    ReadMip { value: usize },
    ClearMip { bits: usize },
    SetMip { bits: usize },
    Mlwid { wid: usize },
    EnterContext { id: usize },
    Read32 { addr: u64, value: u32 },
    Read64 { addr: u64, value: u64 },
    Write32 { addr: u64, value: u32 },
    Write64 { addr: u64, value: u64 },
    RegionInit { start: usize, size: usize, perm: u64, allow_overlap: bool, result: Result<usize, Error> },
    RegionSet { region: usize, result: Result<(), Error> },
    RegionFree { region: usize, result: Result<(), Error> },
}

/// A platform together with the trace of what was asked of it.  Only the
/// methods below reach the platform, and each appends its request to the
/// trace.
pub struct Machine<P: Platform> {
    platform: P,
    trace: Ghost<Seq<Access>>,
}

/// The requests made since the trace `old` was taken.
pub open spec fn added(old: Seq<Access>, new: Seq<Access>) -> Seq<Access> {
    new.skip(old.len() as int)
}

impl<P: Platform> Machine<P> {
    /// Every request made to the platform so far, with its answer.
    pub closed spec fn trace(&self) -> Seq<Access> {
        self.trace@
    }

    /// The platform, to be looked at.
    pub closed spec fn spec_platform(&self) -> P {
        self.platform
    }

    /// The platform, to be looked at.
    pub fn platform(&self) -> (p: &P)
        ensures
            *p == self.spec_platform(),
    {
        &self.platform
    }

    /// A machine that has not been asked anything yet.
    pub fn new(platform: P) -> (m: Machine<P>)
        ensures
            m.spec_platform() == platform,
            m.trace() == Seq::<Access>::empty(),
    {
        Machine { platform, trace: Ghost(Seq::empty()) }
    }

    /// Writes `mideleg`.
    pub fn write_mideleg(&mut self, value: usize)
        ensures
            final(self).trace() == old(self).trace().push(Access::Mideleg { value }),
    {
        self.platform.write_mideleg(value);
        self.trace = Ghost(self.trace@.push(Access::Mideleg { value }));
    }

    /// Writes `satp`.
    pub fn write_satp(&mut self, value: usize)
        ensures
            final(self).trace() == old(self).trace().push(Access::Satp { value }),
    {
        self.platform.write_satp(value);
        self.trace = Ghost(self.trace@.push(Access::Satp { value }));
    }

    /// Installs the enclave trap vector.
    pub fn trap_vector_enclave(&mut self)
        ensures
            final(self).trace() == old(self).trace().push(Access::VectorEnclave),
    {
        self.platform.trap_vector_enclave();
        self.trace = Ghost(self.trace@.push(Access::VectorEnclave));
    }

    /// Installs the host trap vector.
    pub fn trap_vector_host(&mut self)
        ensures
            final(self).trace() == old(self).trace().push(Access::VectorHost),
    {
        self.platform.trap_vector_host();
        self.trace = Ghost(self.trace@.push(Access::VectorHost));
    }

    /// Reads `mip`.
    pub fn read_mip(&mut self) -> (value: usize)
        ensures
            final(self).trace() == old(self).trace().push(Access::ReadMip { value }),
    {
        let value = self.platform.read_mip();
        self.trace = Ghost(self.trace@.push(Access::ReadMip { value }));
        value
    }

    /// Clears bits of `mip`.
    pub fn clear_mip(&mut self, bits: usize)
        ensures
            final(self).trace() == old(self).trace().push(Access::ClearMip { bits }),
    {
        self.platform.clear_mip(bits);
        self.trace = Ghost(self.trace@.push(Access::ClearMip { bits }));
    }

    /// Sets bits of `mip`.
    pub fn set_mip(&mut self, bits: usize)
        ensures
            final(self).trace() == old(self).trace().push(Access::SetMip { bits }),
    {
        self.platform.set_mip(bits);
        self.trace = Ghost(self.trace@.push(Access::SetMip { bits }));
    }

    /// Writes `mlwid`.
    pub fn write_mlwid(&mut self, wid: usize)
        ensures
            final(self).trace() == old(self).trace().push(Access::Mlwid { wid }),
    {
        self.platform.write_mlwid(wid);
        self.trace = Ghost(self.trace@.push(Access::Mlwid { wid }));
    }

    /// Switches the isolation hardware to the context of `id`.
    pub fn enter_context(&mut self, id: usize)
        ensures
            final(self).trace() == old(self).trace().push(Access::EnterContext { id }),
    {
        self.platform.enter_context(id);
        self.trace = Ghost(self.trace@.push(Access::EnterContext { id }));
    }

    /// Reads a 32-bit device register.
    pub fn read_u32(&mut self, addr: u64) -> (value: u32)
        ensures
            final(self).trace() == old(self).trace().push(Access::Read32 { addr, value }),
    {
        let value = self.platform.read_u32(addr);
        self.trace = Ghost(self.trace@.push(Access::Read32 { addr, value }));
        value
    }

    /// Reads a 64-bit device register.
    pub fn read_u64(&mut self, addr: u64) -> (value: u64)
        ensures
            final(self).trace() == old(self).trace().push(Access::Read64 { addr, value }),
    {
        let value = self.platform.read_u64(addr);
        self.trace = Ghost(self.trace@.push(Access::Read64 { addr, value }));
        value
    }

    /// Writes a 32-bit device register.
    pub fn write_u32(&mut self, addr: u64, value: u32)
        ensures
            final(self).trace() == old(self).trace().push(Access::Write32 { addr, value }),
    {
        self.platform.write_u32(addr, value);
        self.trace = Ghost(self.trace@.push(Access::Write32 { addr, value }));
    }

    /// Writes a 64-bit device register.
    pub fn write_u64(&mut self, addr: u64, value: u64)
        ensures
            final(self).trace() == old(self).trace().push(Access::Write64 { addr, value }),
    {
        self.platform.write_u64(addr, value);
        self.trace = Ghost(self.trace@.push(Access::Write64 { addr, value }));
    }

    /// Asks for a WorldGuard region.
    pub fn wg_region_init(&mut self, start: usize, size: usize, perm: u64, allow_overlap: bool) -> (result: Result<usize, Error>)
        ensures
            final(self).trace() == old(self).trace().push(Access::RegionInit { start, size, perm, allow_overlap, result }),
    {
        let result = self.platform.wg_region_init(start, size, perm, allow_overlap);
        self.trace = Ghost(self.trace@.push(Access::RegionInit { start, size, perm, allow_overlap, result }));
        result
    }

    /// Programs a WorldGuard region.
    pub fn wg_set(&mut self, region: usize) -> (result: Result<(), Error>)
        ensures
            final(self).trace() == old(self).trace().push(Access::RegionSet { region, result }),
    {
        let result = self.platform.wg_set(region);
        self.trace = Ghost(self.trace@.push(Access::RegionSet { region, result }));
        result
    }

    /// Releases a WorldGuard region.
    pub fn wg_region_free(&mut self, region: usize) -> (result: Result<(), Error>)
        ensures
            final(self).trace() == old(self).trace().push(Access::RegionFree { region, result }),
    {
        let result = self.platform.wg_region_free(region);
        self.trace = Ghost(self.trace@.push(Access::RegionFree { region, result }));
        result
    }
}

} // verus!
