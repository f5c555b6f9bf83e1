//! Enclaves: their table, their run states and the switches between an
//! enclave and the host.
//!
//! An enclave's run state counts the harts running it.  It is created
//! stopped; entering or resuming it makes it run, stopping or exiting it
//! on its last hart makes it stopped again, and only a stopped enclave can
//! be destroyed.
use vstd::prelude::*;
use crate::cpu::{CpuState, CpuStates, MAX_HARTS};
use crate::encoding::{MIP_MEIP, MIP_MSIP, MIP_MTIP, MIP_SEIP, MIP_SSIP, MIP_STIP, MSTATUS_FS, MSTATUS_MPP_SHIFT};
use crate::error::Error;
use crate::isolator;
use crate::isolator::IsolatorState;
use crate::platform::{added, Access, Machine, Platform};
use crate::spinlock::SpinLock;
use crate::thread;
use crate::trap::{GeneralRegs, TrapFrame};
use crate::Monitor;

verus! {

/// Harts that may run one enclave at once.
pub const MAX_ENCLAVE_THREADS: usize = 1;
/// Memory regions one enclave may own.
pub const MAX_ENCLAVE_REGIONS: usize = 8;
/// Enclaves the monitor keeps at once.
pub const MAX_ENCLAVES: usize = 8;

/// Whether an enclave runs.
#[derive(Debug, Clone, Copy, PartialEq, Eq, Structural)]
pub enum State {
    Stopped,
    Running,
    Destroying,
}

/// What a memory region of an enclave is for.
#[derive(Debug, Clone, Copy, PartialEq, Eq, Structural)]
pub enum RegionType {
    RegionInvalid,
    /// The enclave's private memory.
    RegionEPM,
    /// Untrusted memory shared with the host.
    RegionUTM,
    RegionOther,
}

/// A memory region of an enclave: its isolator region and its use.
#[derive(Debug, Clone, Copy, PartialEq, Eq, Structural)]
pub struct Region {
    pub id: usize,
    pub r_type: RegionType,
}

/// The run state of an enclave: how many harts run it, and its state.
#[derive(Debug, Clone, Copy, PartialEq, Eq, Structural)]
pub struct RunState {
    pub count: usize,
    pub state: State,
}

/// Virtual-address layout of an enclave's runtime.
#[derive(Debug, Clone, Copy, PartialEq, Eq, Structural)]
pub struct RuntimeVAParams {
    pub runtime_entry: usize,
    pub user_entry: usize,
    pub untrusted_ptr: usize,
    pub untrusted_size: usize,
    pub num_eapp_pages: usize,
}

/// Physical-address layout of an enclave, handed to its runtime at entry.
#[derive(Debug, Clone, Copy, PartialEq, Eq, Structural)]
pub struct RuntimePAParams {
    pub dram_base: usize,
    pub dram_size: usize,
    pub runtime_base: usize,
    pub user_base: usize,
    pub free_base: usize,
    pub untrusted_base: usize,
    pub untrusted_size: usize,
    pub free_requested: usize,
}

/// A physical region named by the host.
#[derive(Debug, Clone, Copy, PartialEq, Eq, Structural)]
pub struct KeystoneSBIPReigion {
    pub paddr: usize,
    pub size: usize,
}

/// The host's request to create an enclave.
#[derive(Debug, Clone, Copy, PartialEq, Eq, Structural)]
pub struct KeystoneSBICreate {
    pub epm_region: KeystoneSBIPReigion,
    pub utm_region: KeystoneSBIPReigion,
    pub runtime_paddr: usize,
    pub user_paddr: usize,
    pub free_paddr: usize,
    pub free_requested: usize,
}

/// An enclave's metadata.
pub struct Enclave {
    /// Enclave id: its slot in the table.
    pub eid: usize,
    /// Run state, shared between harts.
    pub state: SpinLock<RunState>,
    /// Physical memory regions of the enclave.
    pub regions: [Option<Region>; MAX_ENCLAVE_REGIONS],
    /// Saved execution context of each enclave thread.
    pub threads: [Option<thread::State>; MAX_ENCLAVE_THREADS],
    pub pa_params: RuntimePAParams,
}

// ----- run states -----

/// A run state is consistent when the enclave runs exactly when some hart
/// runs it.
pub open spec fn run_state_wf(rs: RunState) -> bool {
    (rs.state == State::Running) <==> rs.count > 0
}

/// The run state of a new enclave.
pub open spec fn initial_run_state() -> RunState {
    RunState { count: 0, state: State::Stopped }
}

/// Entering: a running or stopped enclave gains a hart and runs.
pub open spec fn enter_step(rs: RunState) -> Option<RunState> {
    if rs.state == State::Running || rs.state == State::Stopped {
        Some(RunState { count: (rs.count + 1) as usize, state: State::Running })
    } else {
        None
    }
}

/// Resuming: like entering, but only while fewer than
/// `MAX_ENCLAVE_THREADS` harts run the enclave.
pub open spec fn resume_step(rs: RunState) -> Option<RunState> {
    if (rs.state == State::Running || rs.state == State::Stopped) && rs.count < MAX_ENCLAVE_THREADS {
        Some(RunState { count: (rs.count + 1) as usize, state: State::Running })
    } else {
        None
    }
}

/// Stopping: a running enclave loses a hart, and stops with the last one.
pub open spec fn stop_step(rs: RunState) -> Option<RunState> {
    if rs.state == State::Running {
        let c = (rs.count - 1) as usize;
        Some(RunState { count: c, state: if c == 0 { State::Stopped } else { State::Running } })
    } else {
        None
    }
}

/// Exiting: a running enclave loses a hart; whenever no hart is left the
/// enclave is stopped.
pub open spec fn exit_step(rs: RunState) -> RunState {
    let c = if rs.state == State::Running && rs.count > 0 { (rs.count - 1) as usize } else { rs.count };
    RunState { count: c, state: if c == 0 { State::Stopped } else { rs.state } }
}

/// Destroying: only an enclave that no hart runs can be destroyed.
pub open spec fn destroy_step(rs: RunState) -> Option<RunState> {
    if rs.state != State::Running && rs.count == 0 {
        Some(RunState { count: rs.count, state: State::Destroying })
    } else {
        None
    }
}

// ----- execution contexts -----

/// The context an enclave thread keeps of the side that is switched away
/// from.
pub open spec fn saved_context(regs: TrapFrame) -> thread::State {
    thread::State { prev_state: regs.gprs, prev_mepc: regs.mepc, prev_mstatus: regs.mstatus }
}

/// The trap frame after the context `t` is switched in.
pub open spec fn restored_frame(t: thread::State, regs: TrapFrame) -> TrapFrame {
    TrapFrame { gprs: t.prev_state, mepc: t.prev_mepc, mstatus: t.prev_mstatus, mstatus_h: regs.mstatus_h }
}

/// Status with which an enclave's runtime is entered: supervisor mode.
pub open spec fn entry_mstatus() -> usize {
    1usize << MSTATUS_MPP_SHIFT
}

/// The trap frame with which an enclave's runtime starts: it returns to
/// the instruction at `dram_base` in supervisor mode, with the enclave's
/// layout in `a1` to `a7`.
pub open spec fn entry_frame(regs: TrapFrame, pa: RuntimePAParams) -> TrapFrame {
    TrapFrame {
        gprs: GeneralRegs {
            a1: pa.dram_base,
            a2: pa.dram_size,
            a3: pa.runtime_base,
            a4: pa.user_base,
            a5: pa.free_base,
            a6: pa.untrusted_base,
            a7: pa.untrusted_size,
            ..regs.gprs
        },
        mepc: (pa.dram_base - 4) as usize,
        mstatus: entry_mstatus(),
        mstatus_h: regs.mstatus_h,
    }
}

/// Status of a new enclave thread: supervisor mode, floating point on.
pub open spec fn initial_thread_mstatus() -> usize {
    (1usize << MSTATUS_MPP_SHIFT) | MSTATUS_FS
}

/// The context of a new enclave thread whose private memory starts at
/// `epm_paddr`.
pub open spec fn initial_thread(epm_paddr: usize) -> thread::State {
    thread::State {
        prev_state: GeneralRegs::spec_zeroed(),
        prev_mepc: (epm_paddr - 4) as usize,
        prev_mstatus: initial_thread_mstatus(),
    }
}

// ----- hardware requests -----

/// The requests that hand a hart to an enclave: machine interrupts stay
/// with the monitor, address translation is turned off when the enclave
/// starts afresh, the enclave's trap vector is installed and the isolation
/// hardware switches to the enclave.
pub open spec fn enter_requests(eid: usize, load: bool) -> Seq<Access> {
    seq![Access::Mideleg { value: 0 }]
        + (if load { seq![Access::Satp { value: 0 }] } else { Seq::empty() })
        + seq![Access::VectorEnclave, Access::EnterContext { id: eid }]
}

/// The requests that hand the machine interrupts pending in `pending` to
/// the host: each pending machine timer, software and external interrupt
/// is cleared and raised again as the supervisor one.
pub open spec fn forward_requests(pending: usize) -> Seq<Access> {
    (if pending & MIP_MTIP != 0 {
        seq![Access::ClearMip { bits: MIP_MTIP }, Access::SetMip { bits: MIP_STIP }]
    } else {
        Seq::empty()
    }) + (if pending & MIP_MSIP != 0 {
        seq![Access::ClearMip { bits: MIP_MSIP }, Access::SetMip { bits: MIP_SSIP }]
    } else {
        Seq::empty()
    }) + (if pending & MIP_MEIP != 0 {
        seq![Access::ClearMip { bits: MIP_MEIP }, Access::SetMip { bits: MIP_SEIP }]
    } else {
        Seq::empty()
    })
}

/// Whether `t` are the requests that hand a hart back to the host whose
/// isolation context is `os_region`: supervisor interrupts are delegated to
/// the host, its trap vector is installed, the pending interrupts are read
/// and the machine ones handed over, and the isolation hardware switches to
/// the host.
pub open spec fn host_requests(t: Seq<Access>, os_region: usize) -> bool {
    &&& t.len() >= 3
    &&& t[0] == (Access::Mideleg { value: MIP_SSIP | MIP_STIP | MIP_SEIP })
    &&& t[1] == Access::VectorHost
    &&& t[2] matches Access::ReadMip { value }
        && t.skip(3) == forward_requests(value) + seq![Access::EnterContext { id: os_region }]
}

// ----- enclaves -----

/// The isolator regions an enclave owns and releases when destroyed: those
/// of its regions that are neither invalid nor shared with the host, in
/// slot order.
pub open spec fn released_regions(regions: Seq<Option<Region>>) -> Seq<usize>
    decreases regions.len(),
{
    if regions.len() == 0 {
        Seq::empty()
    } else {
        let rest = released_regions(regions.drop_last());
        match regions.last() {
            Some(r) => if r.r_type == RegionType::RegionInvalid || r.r_type == RegionType::RegionUTM {
                rest
            } else {
                rest.push(r.id)
            },
            None => rest,
        }
    }
}

impl Enclave {
    /// A fresh enclave: id `eid`, stopped, without regions or threads.
    pub open spec fn is_fresh(&self, eid: usize, pa_params: RuntimePAParams) -> bool {
        &&& self.eid == eid
        &&& self.state@ == initial_run_state()
        &&& forall|i: int| 0 <= i < MAX_ENCLAVE_REGIONS ==> self.regions@[i] is None
        &&& forall|i: int| 0 <= i < MAX_ENCLAVE_THREADS ==> self.threads@[i] is None
        &&& self.pa_params == pa_params
    }

    /// Two enclave records that differ at most in their run state.
    pub open spec fn same_but_run_state(&self, other: &Enclave) -> bool {
        &&& self.eid == other.eid
        &&& self.regions == other.regions
        &&& self.threads == other.threads
        &&& self.pa_params == other.pa_params
    }

    /// Whether the enclave's first thread has a context to switch to.
    pub open spec fn has_thread(&self) -> bool {
        self.threads@[0] is Some
    }

    /// A new, stopped enclave without regions or threads.
    pub fn new(eid: usize, pa_params: RuntimePAParams) -> (e: Enclave)
        ensures
            e.is_fresh(eid, pa_params),
    {
        Enclave {
            eid,
            regions: [None; MAX_ENCLAVE_REGIONS],
            state: SpinLock::new(RunState { count: 0, state: State::Stopped }),
            threads: [None; MAX_ENCLAVE_THREADS],
            pa_params,
        }
    }

    /// The enclave's id.
    pub fn id(&self) -> (id: usize)
        ensures
            id == self.eid,
    {
        self.eid
    }

    /// The enclave's run state.
    pub fn run_state(&self) -> (rs: RunState)
        ensures
            rs == self.state@,
    {
        *self.state.get()
    }

    /// Whether the enclave's first thread has a context to switch to.
    pub fn thread_ready(&self) -> (b: bool)
        ensures
            b == self.has_thread(),
    {
        self.threads[0].is_some()
    }

    /// Replaces the run state.
    fn set_run_state(&mut self, rs: RunState)
        ensures
            final(self).state@ == rs,
            final(self).same_but_run_state(old(self)),
    {
        *self.state.get_mut() = rs;
    }

    /// Records the enclave's private memory, isolator region `region`, and
    /// prepares its first thread to start there.
    pub fn attach_epm(&mut self, region: usize, epm_paddr: usize)
        requires
            epm_paddr >= 4,
        ensures
            final(self).regions@ == old(self).regions@.update(0, Some(Region { id: region, r_type: RegionType::RegionEPM })),
            final(self).threads@ == old(self).threads@.update(0, Some(initial_thread(epm_paddr))),
            final(self).eid == old(self).eid,
            final(self).state == old(self).state,
            final(self).pa_params == old(self).pa_params,
    {
        self.regions[0] = Some(Region { id: region, r_type: RegionType::RegionEPM });
        self.threads[0] = Some(thread::State::new(epm_paddr - 4, (1 << MSTATUS_MPP_SHIFT) | MSTATUS_FS));
    }

    /// Records the memory the enclave shares with the host, isolator region
    /// `region`.
    pub fn attach_utm(&mut self, region: usize)
        ensures
            final(self).regions@ == old(self).regions@.update(1, Some(Region { id: region, r_type: RegionType::RegionUTM })),
            final(self).threads == old(self).threads,
            final(self).eid == old(self).eid,
            final(self).state == old(self).state,
            final(self).pa_params == old(self).pa_params,
    {
        self.regions[1] = Some(Region { id: region, r_type: RegionType::RegionUTM });
    }

    /// The isolator regions the enclave releases when it is destroyed.
    pub fn regions_to_release(&self) -> (ids: Vec<usize>)
        ensures
            ids@ == released_regions(self.regions@),
    {
        let mut ids: Vec<usize> = Vec::new();
        for i in 0..MAX_ENCLAVE_REGIONS
            invariant
                ids@ == released_regions(self.regions@.subrange(0, i as int)),
        {
            assert(self.regions@.subrange(0, i + 1).drop_last() == self.regions@.subrange(0, i as int));
            if let Some(region) = self.regions[i] {
                if !(region.r_type == RegionType::RegionInvalid || region.r_type == RegionType::RegionUTM) {
                    ids.push(region.id);
                }
            }
        }
        assert(self.regions@.subrange(0, MAX_ENCLAVE_REGIONS as int) == self.regions@);
        ids
    }

    /// Saves the host's context in the enclave's first thread and switches
    /// the trap frame to the enclave's.  With `load_parameters`, the enclave
    /// starts afresh: the frame is set to enter its runtime with its memory
    /// layout in `a1` to `a7`, and address translation is turned off.
    /// Interrupts stay with the monitor, the enclave's trap vector is
    /// installed and the hart is recorded as running the enclave.
    pub fn switch_to_enclave<P: Platform>(
        &mut self,
        p: &mut Machine<P>,
        cpus: &mut CpuStates,
        hartid: usize,
        regs: &mut TrapFrame,
        load_parameters: bool,
    )
        requires
            old(self).has_thread(),
            hartid < MAX_HARTS,
            load_parameters ==> old(self).pa_params.dram_base >= 4,
        ensures
            final(self).threads@ == old(self).threads@.update(0, Some(saved_context(*old(regs)))),
            *final(regs) == if load_parameters {
                entry_frame(restored_frame(old(self).threads@[0]->0, *old(regs)), old(self).pa_params)
            } else {
                restored_frame(old(self).threads@[0]->0, *old(regs))
            },
            final(self).eid == old(self).eid,
            final(self).state == old(self).state,
            final(self).regions == old(self).regions,
            final(self).pa_params == old(self).pa_params,
            final(cpus).harts@ == old(cpus).harts@.update(hartid as int, CpuState { is_enclave: true, eid: old(self).eid }),
            final(p).trace() == old(p).trace() + enter_requests(old(self).eid, load_parameters),
    {
        let ghost before = p.trace();
        // save the host's context
        let mut thread = self.threads[0].unwrap();
        thread.swap_prev_state(regs);
        let mepc = regs.mepc;
        thread.swap_prev_mepc(regs, mepc);
        let mstatus = regs.mstatus;
        thread.swap_prev_mstatus(regs, mstatus);
        self.threads[0] = Some(thread);

        p.write_mideleg(0);

        if load_parameters {
            // the trap return adds 4 to mepc
            regs.mepc = self.pa_params.dram_base - 4;
            regs.mstatus = 1 << MSTATUS_MPP_SHIFT;
            regs.gprs.a1 = self.pa_params.dram_base;
            regs.gprs.a2 = self.pa_params.dram_size;
            regs.gprs.a3 = self.pa_params.runtime_base;
            regs.gprs.a4 = self.pa_params.user_base;
            regs.gprs.a5 = self.pa_params.free_base;
            regs.gprs.a6 = self.pa_params.untrusted_base;
            regs.gprs.a7 = self.pa_params.untrusted_size;
            p.write_satp(0);
        }

        p.trap_vector_enclave();

        for memid in 0..MAX_ENCLAVE_REGIONS {
            if let Some(region) = self.regions[memid] {
                let _ = isolator::set_isolator(region.id);
            }
        }

        cpus.enter_enclave_context(p, hartid, self.eid);
        assert(p.trace() =~= before + enter_requests(self.eid, load_parameters));
    }

    /// Closes the enclave's regions, saves the enclave's context in its
    /// first thread and switches the trap frame back to the host's.
    /// Supervisor interrupts go back to the host, which also receives, as
    /// supervisor interrupts, the machine interrupts that arrived meanwhile.
    /// The hart is recorded as running the host.
    pub fn switch_to_host<P: Platform>(
        &mut self,
        p: &mut Machine<P>,
        cpus: &mut CpuStates,
        iso: &IsolatorState,
        hartid: usize,
        regs: &mut TrapFrame,
    )
        requires
            old(self).has_thread(),
            hartid < MAX_HARTS,
            iso.os_region() is Some,
        ensures
            final(self).threads@ == old(self).threads@.update(0, Some(saved_context(*old(regs)))),
            *final(regs) == restored_frame(old(self).threads@[0]->0, *old(regs)),
            final(self).eid == old(self).eid,
            final(self).state == old(self).state,
            final(self).regions == old(self).regions,
            final(self).pa_params == old(self).pa_params,
            final(cpus).harts@ == old(cpus).harts@.update(
                hartid as int,
                CpuState { is_enclave: false, eid: old(cpus).harts@[hartid as int].eid },
            ),
            old(p).trace().is_prefix_of(final(p).trace()),
            host_requests(added(old(p).trace(), final(p).trace()), iso.os_region()->0),
    {
        let ghost before = p.trace();
        for memid in 0..MAX_ENCLAVE_REGIONS {
            if let Some(region) = self.regions[memid] {
                let _ = isolator::reset_isolator(region.id);
            }
        }
        let _ = isolator::set_isolator(iso.os_region_id());

        p.write_mideleg(host_delegated_interrupts());

        // restore the host's context
        let mut thread = self.threads[0].unwrap();
        thread.swap_prev_state(regs);
        let mepc = regs.mepc;
        thread.swap_prev_mepc(regs, mepc);
        let mstatus = regs.mstatus;
        thread.swap_prev_mstatus(regs, mstatus);
        self.threads[0] = Some(thread);

        p.trap_vector_host();

        let pending = p.read_mip();
        let ghost read = p.trace();
        let fwd = forwarded_interrupts(pending);
        if fwd.timer {
            p.clear_mip(MIP_MTIP);
            p.set_mip(MIP_STIP);
        }
        let ghost t1 = p.trace();
        if fwd.software {
            p.clear_mip(MIP_MSIP);
            p.set_mip(MIP_SSIP);
        }
        let ghost t2 = p.trace();
        if fwd.external {
            p.clear_mip(MIP_MEIP);
            p.set_mip(MIP_SEIP);
        }
        let ghost t3 = p.trace();
        assert(t3 =~= read + forward_requests(pending));

        cpus.exit_enclave_context(p, hartid, iso.os_region_id());
        proof {
            let head = seq![
                Access::Mideleg { value: MIP_SSIP | MIP_STIP | MIP_SEIP },
                Access::VectorHost,
                Access::ReadMip { value: pending },
            ];
            assert(read =~= before + head);
            let t = added(before, p.trace());
            assert(t =~= head + forward_requests(pending) + seq![Access::EnterContext { id: iso.os_region()->0 }]);
            assert(t.skip(3) =~= forward_requests(pending) + seq![Access::EnterContext { id: iso.os_region()->0 }]);
            assert(p.trace().take(before.len() as int) =~= before);
        }
    }
}

/// The interrupts delegated to the host's supervisor: software, timer and
/// external.
pub fn host_delegated_interrupts() -> (bits: usize)
    ensures
        bits == MIP_SSIP | MIP_STIP | MIP_SEIP,
{
    MIP_SSIP | MIP_STIP | MIP_SEIP
}

/// Machine interrupts pending when the host takes over again, each handed
/// to the host as the matching supervisor interrupt.
#[derive(Debug, Clone, Copy, PartialEq, Eq, Structural)]
pub struct ForwardedInterrupts {
    /// Machine timer, handed over as supervisor timer.
    pub timer: bool,
    /// Machine software, handed over as supervisor software.
    pub software: bool,
    /// Machine external, handed over as supervisor external.
    pub external: bool,
}

/// Which pending machine interrupts are handed to the host.
pub fn forwarded_interrupts(pending: usize) -> (f: ForwardedInterrupts)
    ensures
        f.timer == (pending & MIP_MTIP != 0),
        f.software == (pending & MIP_MSIP != 0),
        f.external == (pending & MIP_MEIP != 0),
{
    ForwardedInterrupts {
        timer: pending & MIP_MTIP != 0,
        software: pending & MIP_MSIP != 0,
        external: pending & MIP_MEIP != 0,
    }
}

// ----- the enclave table -----

/// Whether `eid` is the first free slot of `slots`.
pub open spec fn is_first_free(slots: Seq<Option<Enclave>>, eid: int) -> bool {
    &&& 0 <= eid < slots.len()
    &&& slots[eid] is None
    &&& forall|j: int| 0 <= j < eid ==> slots[j] is Some
}

/// Whether every slot of `slots` holds an enclave.
pub open spec fn all_taken(slots: Seq<Option<Enclave>>) -> bool {
    forall|j: int| 0 <= j < slots.len() ==> slots[j] is Some
}

/// Whether `new` and `old` agree on every slot but `eid`.
pub open spec fn others_unchanged(old: Seq<Option<Enclave>>, new: Seq<Option<Enclave>>, eid: int) -> bool {
    &&& new.len() == old.len()
    &&& forall|j: int| 0 <= j < old.len() && j != eid ==> new[j] == old[j]
}

/// The enclaves of the monitor, each in the slot of its id.
pub struct EnclaveTable {
    pub slots: [Option<Enclave>; MAX_ENCLAVES],
}

impl EnclaveTable {
    /// A table without enclaves.
    pub fn new() -> (t: EnclaveTable)
        ensures
            forall|j: int| 0 <= j < MAX_ENCLAVES ==> t.slots@[j] is None,
    {
        EnclaveTable { slots: [None, None, None, None, None, None, None, None] }
    }

    /// The run state of the enclave in slot `eid`, if there is one.
    pub fn run_state_of(&self, eid: usize) -> (r: Option<RunState>)
        requires
            eid < MAX_ENCLAVES,
        ensures
            r == match self.slots@[eid as int] {
                Some(e) => Some(e.state@),
                None => None::<RunState>,
            },
    {
        match &self.slots[eid] {
            Some(enclave) => Some(enclave.run_state()),
            None => None,
        }
    }
}

impl Enclave {
    /// Puts a fresh enclave with layout `pa_params` in the first free slot of
    /// `table` and returns its id; fails with `NoFreeResource` when every slot is
    /// taken.
    pub fn allocate(table: &mut EnclaveTable, pa_params: RuntimePAParams) -> (r: Result<usize, Error>)
        ensures
            r matches Ok(eid) ==> {
                &&& is_first_free(old(table).slots@, eid as int)
                &&& others_unchanged(old(table).slots@, final(table).slots@, eid as int)
                &&& final(table).slots@[eid as int] matches Some(e) && e.is_fresh(eid, pa_params)
            },
            r matches Err(e) ==> {
                &&& e == Error::NoFreeResource
                &&& all_taken(old(table).slots@)
                &&& final(table).slots@ == old(table).slots@
            },
    {
        for eid in 0..MAX_ENCLAVES
            invariant
                forall|j: int| 0 <= j < eid ==> table.slots@[j] is Some,
                table.slots@ == old(table).slots@,
        {
            if table.slots[eid].is_none() {
                table.slots[eid] = Some(Enclave::new(eid, pa_params));
                return Ok(eid);
            }
        }
        Err(Error::NoFreeResource)
    }

    /// Empties slot `eid` of `table`, releasing the enclave id.
    pub fn free(table: &mut EnclaveTable, eid: usize) -> (r: Result<(), Error>)
        requires
            eid < MAX_ENCLAVES,
        ensures
            r == Ok::<(), Error>(()),
            final(table).slots@ == old(table).slots@.update(eid as int, None),
    {
        table.slots[eid] = None;
        Ok(())
    }
}

/// Whether `eid` names an enclave of `enclaves`.
pub fn enclave_exists(enclaves: &[Option<Enclave>], eid: usize) -> (b: bool)
    ensures
        b == (eid < enclaves@.len() && enclaves@[eid as int] is Some),
{
    (eid < enclaves.len()) && enclaves[eid].is_some()
}

// ----- the monitor's calls -----

/// The layout of an enclave created for `args`.
pub open spec fn pa_params_of(args: KeystoneSBICreate) -> RuntimePAParams {
    RuntimePAParams {
        dram_base: args.epm_region.paddr,
        dram_size: args.epm_region.size,
        runtime_base: args.runtime_paddr,
        user_base: args.user_paddr,
        free_base: args.free_paddr,
        untrusted_base: args.utm_region.paddr,
        untrusted_size: args.utm_region.size,
        free_requested: args.free_requested,
    }
}

/// Whether `e` is the enclave that creation for `args` leaves in slot
/// `eid`, with outcome `r`: a fresh enclave whose private memory and
/// shared memory are attached when creation succeeds, and which keeps
/// whatever was attached before a step that the hardware refused.
pub open spec fn created(e: Enclave, eid: usize, args: KeystoneSBICreate, r: Result<usize, Error>) -> bool {
    &&& e.eid == eid
    &&& e.state@ == initial_run_state()
    &&& e.pa_params == pa_params_of(args)
    &&& forall|i: int| 2 <= i < MAX_ENCLAVE_REGIONS ==> e.regions@[i] is None
    &&& e.regions@[1] is Some ==> e.regions@[0] is Some
    &&& e.regions@[0] matches Some(rg) ==> rg.r_type == RegionType::RegionEPM
        && e.threads@ == seq![Some(initial_thread(args.epm_region.paddr))]
    &&& e.regions@[0] is None ==> e.threads@[0] is None
    &&& e.regions@[1] matches Some(rg) ==> rg.r_type == RegionType::RegionUTM
    &&& r is Ok <==> e.regions@[1] is Some
}

/// Whether `t` are the requests that creating enclave `eid` for `args`
/// made, leaving it as `e` with outcome `r`: the reservation of its private
/// memory for its world and, once that was granted, the reservation of the
/// memory it shares with the host, both allowed to overlap other regions.
/// The regions granted are recorded, and a refusal is the outcome.
pub open spec fn create_requests(t: Seq<Access>, eid: usize, args: KeystoneSBICreate, e: Enclave, r: Result<usize, Error>) -> bool {
    let k = isolator::reservation_len(t);
    let epm = t.take(k);
    let utm = t.skip(k);
    &&& t.len() >= 1
    &&& isolator::reservation(epm, args.epm_region.paddr, args.epm_region.size, isolator::world_perm(eid), true)
    &&& match isolator::reservation_outcome(epm) {
        Err(x) => utm.len() == 0 && r == Err::<usize, Error>(x) && e.regions@[0] is None,
        Ok(r0) => {
            &&& e.regions@[0] == Some(Region { id: r0, r_type: RegionType::RegionEPM })
            &&& isolator::reservation(utm, args.utm_region.paddr, args.utm_region.size, isolator::world_perm(eid), true)
            &&& match isolator::reservation_outcome(utm) {
                Err(x) => r == Err::<usize, Error>(x) && e.regions@[1] is None,
                Ok(r1) => r == Ok::<usize, Error>(eid) && e.regions@[1] == Some(Region { id: r1, r_type: RegionType::RegionUTM }),
            }
        },
    }
}

/// Creates an enclave for the host's request `create_args`: puts a fresh
/// enclave in the first free slot, then protects its private memory (and
/// prepares its first thread to start there) and its shared memory.  Fails
/// with `NoFreeResource` when every slot is taken; fails with the
/// hardware's error when it refuses a region, leaving the enclave in its
/// slot with what was attached so far.
pub fn create_enclave<P: Platform>(m: &mut Monitor, p: &mut Machine<P>, create_args: &KeystoneSBICreate) -> (r: Result<usize, Error>)
    requires
        old(m).wf(),
        !all_taken(old(m).enclaves.slots@) ==> create_args.epm_region.paddr >= 4,
    ensures
        final(m).wf(),
        final(m).cpus == old(m).cpus,
        final(m).isolator == old(m).isolator,
        all_taken(old(m).enclaves.slots@) ==> r == Err::<usize, Error>(Error::NoFreeResource)
            && final(m).enclaves.slots@ == old(m).enclaves.slots@
            && final(p).trace() == old(p).trace(),
        !all_taken(old(m).enclaves.slots@) ==> old(p).trace().is_prefix_of(final(p).trace()),
        !all_taken(old(m).enclaves.slots@) ==> exists|eid: usize| {
            &&& is_first_free(old(m).enclaves.slots@, eid as int)
            &&& others_unchanged(old(m).enclaves.slots@, final(m).enclaves.slots@, eid as int)
            &&& final(m).enclaves.slots@[eid as int] matches Some(e)
                && created(e, eid, *create_args, r)
                && create_requests(added(old(p).trace(), final(p).trace()), eid, *create_args, e, r)
            &&& r is Ok ==> r == Ok::<usize, Error>(eid)
        },
{
    let ghost before = p.trace();
    let pa_params = RuntimePAParams {
        dram_base: create_args.epm_region.paddr,
        dram_size: create_args.epm_region.size,
        runtime_base: create_args.runtime_paddr,
        user_base: create_args.user_paddr,
        free_base: create_args.free_paddr,
        untrusted_base: create_args.utm_region.paddr,
        untrusted_size: create_args.utm_region.size,
        free_requested: create_args.free_requested,
    };
    let eid = Enclave::allocate(&mut m.enclaves, pa_params)?;
    assert(eid < MAX_ENCLAVES);
    assert(before.is_prefix_of(before)) by {
        assert(before.take(before.len() as int) =~= before);
    }

    // the enclave's private memory
    match isolator::region_init(p, create_args.epm_region.paddr, create_args.epm_region.size, eid, false) {
        Ok(region) => {
            match &mut m.enclaves.slots[eid] {
                Some(enclave) => {
                    enclave.attach_epm(region, create_args.epm_region.paddr);
                    assert(enclave.threads@ =~= seq![Some(initial_thread(create_args.epm_region.paddr))]);
                },
                None => {},
            }
        },
        Err(e) => {
            proof {
                let t = added(before, p.trace());
                assert(t.take(isolator::reservation_len(t)) =~= t);
                assert(t.skip(isolator::reservation_len(t)).len() == 0);
            }
            return Err(e);
        },
    }
    let ghost mid = p.trace();

    // the memory shared with the host
    match isolator::region_init(p, create_args.utm_region.paddr, create_args.utm_region.size, eid, true) {
        Ok(shared_region) => {
            match &mut m.enclaves.slots[eid] {
                Some(enclave) => enclave.attach_utm(shared_region),
                None => {},
            }
        },
        Err(e) => {
            proof { lemma_create_trace(before, mid, p.trace()); }
            assert(m.enclaves.slots@[eid as int] matches Some(en) && created(en, eid, *create_args, Err(e)));
            return Err(e);
        },
    }

    proof { lemma_create_trace(before, mid, p.trace()); }
    assert(m.enclaves.slots@[eid as int] matches Some(e) && created(e, eid, *create_args, Ok(eid)));
    Ok(eid)
}

/// Splits the requests of a creation into the reservation of the private
/// memory, made between `before` and `mid`, and that of the shared memory,
/// made since.
proof fn lemma_create_trace(before: Seq<Access>, mid: Seq<Access>, after: Seq<Access>)
    requires
        before.is_prefix_of(mid),
        mid.is_prefix_of(after),
        added(before, mid).len() == isolator::reservation_len(added(before, mid)),
        added(before, mid).len() >= 1,
    ensures
        before.is_prefix_of(after),
        added(before, after).take(isolator::reservation_len(added(before, after))) == added(before, mid),
        added(before, after).skip(isolator::reservation_len(added(before, after))) == added(mid, after),
{
    let t = added(before, after);
    assert(t[0] == added(before, mid)[0]);
    assert(t.take(isolator::reservation_len(t)) =~= added(before, mid));
    assert(t.skip(isolator::reservation_len(t)) =~= added(mid, after));
    assert(after.take(before.len() as int) =~= before);
}

/// Whether `a` is the release of isolator region `id`.
pub open spec fn frees_region(a: Access, id: usize) -> bool {
    a matches Access::RegionFree { region, result: _ } && region == id
}

/// Whether `t` are the releases of the isolator regions `ids`, in order.
pub open spec fn frees(t: Seq<Access>, ids: Seq<usize>) -> bool {
    &&& t.len() == ids.len()
    &&& forall|i: int| 0 <= i < ids.len() ==> frees_region(#[trigger] t[i], ids[i])
}

/// Fully destroys enclave `eid`: releases the isolator regions it owns
/// (not those it shares with the host) and frees its slot.  Fails with
/// `InvalidId` when the slot is empty and with `NotDestroyable`, changing
/// nothing, while a hart runs the enclave.
pub fn destroy_enclave<P: Platform>(m: &mut Monitor, p: &mut Machine<P>, eid: usize) -> (r: Result<(), Error>)
    requires
        old(m).wf(),
        eid < MAX_ENCLAVES,
    ensures
        final(m).wf(),
        final(m).cpus == old(m).cpus,
        final(m).isolator == old(m).isolator,
        old(m).enclaves.slots@[eid as int] is None ==> r == Err::<(), Error>(Error::InvalidId)
            && final(m).enclaves.slots@ == old(m).enclaves.slots@
            && final(p).trace() == old(p).trace(),
        old(m).enclaves.slots@[eid as int] matches Some(e) ==> {
            if destroy_step(e.state@) is Some {
                &&& r == Ok::<(), Error>(())
                &&& final(m).enclaves.slots@ == old(m).enclaves.slots@.update(eid as int, None)
                &&& old(p).trace().is_prefix_of(final(p).trace())
                &&& frees(added(old(p).trace(), final(p).trace()), released_regions(e.regions@))
            } else {
                &&& r == Err::<(), Error>(Error::NotDestroyable)
                &&& final(m).enclaves.slots@ == old(m).enclaves.slots@
                &&& final(p).trace() == old(p).trace()
            }
        },
{
    let runstate = match m.enclaves.run_state_of(eid) {
        Some(rs) => rs,
        None => return Err(Error::InvalidId),
    };
    let destroyable = runstate.state != State::Running && runstate.count == 0;
    if !destroyable {
        return Err(Error::NotDestroyable);
    }
    match &mut m.enclaves.slots[eid] {
        Some(enclave) => {
            // update the state first so that no hart can run the enclave
            enclave.set_run_state(RunState { count: runstate.count, state: State::Destroying });

            // release the regions the enclave owns
            let owned = enclave.regions_to_release();
            let ghost before = p.trace();
            for i in 0..owned.len()
                invariant
                    before.is_prefix_of(p.trace()),
                    frees(added(before, p.trace()), owned@.take(i as int)),
            {
                let ghost prev = p.trace();
                let _ = isolator::region_free(p, owned[i]);
                proof {
                    assert(added(before, p.trace()) =~= added(before, prev).push(p.trace().last()));
                    assert(owned@.take(i + 1) =~= owned@.take(i as int).push(owned@[i as int]));
                    assert(p.trace().take(before.len() as int) =~= before);
                }
            }
            assert(owned@.take(owned@.len() as int) =~= owned@);

            for idx in 0..MAX_ENCLAVE_REGIONS {
                enclave.regions[idx] = None;
            }
        },
        None => {},
    }

    // release the enclave id
    let _ = Enclave::free(&mut m.enclaves, eid);
    Ok(())
}

/// Whether a call left the monitor's state as it was.
pub open spec fn unchanged(old_m: &Monitor, new_m: &Monitor) -> bool {
    &&& new_m.enclaves.slots@ == old_m.enclaves.slots@
    &&& new_m.cpus.harts@ == old_m.cpus.harts@
    &&& new_m.isolator == old_m.isolator
}

/// Whether enclave `eid` can be switched when `step` lets the call go
/// ahead: it then has a thread, and, when it starts afresh, its runtime
/// entry point fits.
pub open spec fn switchable(m: &Monitor, eid: int, step: spec_fn(RunState) -> Option<RunState>, load: bool) -> bool {
    m.enclaves.slots@[eid] matches Some(e) ==> (step(e.state@) is Some ==> {
        &&& e.has_thread()
        &&& load ==> e.pa_params.dram_base >= 4
    })
}

/// The state after switching the hart `hartid` from the host to enclave
/// `e`, whose new run state is `rs`: the slot holds the enclave with the
/// host's context saved, and the hart runs the enclave.
pub open spec fn entered(
    old_m: &Monitor,
    new_m: &Monitor,
    e: Enclave,
    rs: RunState,
    hartid: usize,
    old_tf: TrapFrame,
    new_tf: TrapFrame,
    load: bool,
    old_trace: Seq<Access>,
    new_trace: Seq<Access>,
) -> bool {
    let t = e.threads@[0]->0;
    &&& new_trace == old_trace + enter_requests(e.eid, load)
    &&& others_unchanged(old_m.enclaves.slots@, new_m.enclaves.slots@, e.eid as int)
    &&& new_m.enclaves.slots@[e.eid as int] matches Some(e2) && {
        &&& e2.eid == e.eid
        &&& e2.state@ == rs
        &&& e2.regions == e.regions
        &&& e2.pa_params == e.pa_params
        &&& e2.threads@ == e.threads@.update(0, Some(saved_context(old_tf)))
    }
    &&& new_tf == if load { entry_frame(restored_frame(t, old_tf), e.pa_params) } else { restored_frame(t, old_tf) }
    &&& new_m.cpus.harts@ == old_m.cpus.harts@.update(hartid as int, CpuState { is_enclave: true, eid: e.eid })
    &&& new_m.isolator == old_m.isolator
}

/// The state after switching the hart `hartid` from enclave `e` back to
/// the host, the enclave's new run state being `rs`.
pub open spec fn left(
    old_m: &Monitor,
    new_m: &Monitor,
    e: Enclave,
    rs: RunState,
    hartid: usize,
    old_tf: TrapFrame,
    new_tf: TrapFrame,
    old_trace: Seq<Access>,
    new_trace: Seq<Access>,
) -> bool {
    let t = e.threads@[0]->0;
    &&& old_trace.is_prefix_of(new_trace)
    &&& host_requests(added(old_trace, new_trace), old_m.isolator.os_region()->0)
    &&& others_unchanged(old_m.enclaves.slots@, new_m.enclaves.slots@, e.eid as int)
    &&& new_m.enclaves.slots@[e.eid as int] matches Some(e2) && {
        &&& e2.eid == e.eid
        &&& e2.state@ == rs
        &&& e2.regions == e.regions
        &&& e2.pa_params == e.pa_params
        &&& e2.threads@ == e.threads@.update(0, Some(saved_context(old_tf)))
    }
    &&& new_tf == restored_frame(t, old_tf)
    &&& new_m.cpus.harts@ == old_m.cpus.harts@.update(
        hartid as int,
        CpuState { is_enclave: false, eid: old_m.cpus.harts@[hartid as int].eid },
    )
    &&& new_m.isolator == old_m.isolator
}

/// Enters enclave `eid` on hart `hartid` from its start: the enclave gains
/// a hart and runs, the host's context is saved and the trap frame is set
/// to enter the enclave's runtime.  Fails with `Invalid` when the slot is
/// empty and with `NotRunnable` while the enclave is being destroyed,
/// changing nothing.
pub fn enter_enclave<P: Platform>(m: &mut Monitor, p: &mut Machine<P>, tf: &mut TrapFrame, hartid: usize, eid: usize) -> (r: Result<(), Error>)
    requires
        old(m).wf(),
        eid < MAX_ENCLAVES,
        hartid < MAX_HARTS,
        switchable(old(m), eid as int, |rs: RunState| enter_step(rs), true),
        old(m).enclaves.slots@[eid as int] matches Some(e) ==> e.state@.count < usize::MAX,
    ensures
        final(m).wf(),
        old(m).enclaves.slots@[eid as int] is None ==> r == Err::<(), Error>(Error::Invalid)
            && unchanged(old(m), final(m)) && *final(tf) == *old(tf) && final(p).trace() == old(p).trace(),
        old(m).enclaves.slots@[eid as int] matches Some(e) ==> match enter_step(e.state@) {
            Some(rs) => r == Ok::<(), Error>(()) && entered(old(m), final(m), e, rs, hartid, *old(tf), *final(tf), true, old(p).trace(), final(p).trace()),
            None => r == Err::<(), Error>(Error::NotRunnable) && unchanged(old(m), final(m)) && *final(tf) == *old(tf) && final(p).trace() == old(p).trace(),
        },
{
    let runstate = match m.enclaves.run_state_of(eid) {
        Some(rs) => rs,
        None => return Err(Error::Invalid),
    };
    let runnable = runstate.state == State::Running || runstate.state == State::Stopped;
    if !runnable {
        return Err(Error::NotRunnable);
    }
    match &mut m.enclaves.slots[eid] {
        Some(enclave) => {
            enclave.set_run_state(RunState { count: runstate.count + 1, state: State::Running });
            enclave.switch_to_enclave(p, &mut m.cpus, hartid, tf, true);
        },
        None => {},
    }
    Ok(())
}

/// Resumes, on hart `hartid`, the enclave that the hart last entered:
/// the enclave gains a hart and runs, the host's context is saved and the
/// enclave's restored.  Fails with `InvalidId` when the slot is empty and
/// with `NotResumable`, changing nothing, while the enclave is being
/// destroyed or already runs on `MAX_ENCLAVE_THREADS` harts.
pub fn resume_enclave<P: Platform>(m: &mut Monitor, p: &mut Machine<P>, tf: &mut TrapFrame, hartid: usize) -> (r: Result<(), Error>)
    requires
        old(m).wf(),
        hartid < MAX_HARTS,
        switchable(old(m), old(m).cpus.harts@[hartid as int].eid as int, |rs: RunState| resume_step(rs), false),
    ensures
        final(m).wf(),
        ({
            let eid = old(m).cpus.harts@[hartid as int].eid as int;
            &&& old(m).enclaves.slots@[eid] is None ==> r == Err::<(), Error>(Error::InvalidId)
                && unchanged(old(m), final(m)) && *final(tf) == *old(tf) && final(p).trace() == old(p).trace()
            &&& old(m).enclaves.slots@[eid] matches Some(e) ==> match resume_step(e.state@) {
                Some(rs) => r == Ok::<(), Error>(()) && entered(old(m), final(m), e, rs, hartid, *old(tf), *final(tf), false, old(p).trace(), final(p).trace()),
                None => r == Err::<(), Error>(Error::NotResumable) && unchanged(old(m), final(m)) && *final(tf) == *old(tf) && final(p).trace() == old(p).trace(),
            }
        }),
{
    let eid = m.cpus.get_enclave_id(hartid);
    let runstate = match m.enclaves.run_state_of(eid) {
        Some(rs) => rs,
        None => return Err(Error::InvalidId),
    };
    let resumable = (runstate.state == State::Running || runstate.state == State::Stopped)
        && runstate.count < MAX_ENCLAVE_THREADS;
    if !resumable {
        return Err(Error::NotResumable);
    }
    match &mut m.enclaves.slots[eid] {
        Some(enclave) => {
            enclave.set_run_state(RunState { count: runstate.count + 1, state: State::Running });
            enclave.switch_to_enclave(p, &mut m.cpus, hartid, tf, false);
        },
        None => {},
    }
    Ok(())
}

/// The error with which a stop for `request` hands control back to the
/// host: 0 is a timer interrupt, 1 a call to the host.
pub open spec fn stop_reason(request: usize) -> Error {
    if request == 0 {
        Error::Interrupted
    } else if request == 1 {
        Error::EdgeCallHost
    } else {
        Error::Unknown
    }
}

/// The error with which a stop for `request` hands control back to the
/// host.
pub fn stop_error(request: usize) -> (e: Error)
    ensures
        e == stop_reason(request),
{
    match request {
        0 => Error::Interrupted,
        1 => Error::EdgeCallHost,
        _ => Error::Unknown,
    }
}

/// Stops, on hart `hartid`, the enclave that the hart runs, for `request`:
/// the enclave loses the hart (and stops with its last one), its context is
/// saved and the host's restored, and the reason of the stop comes back as
/// the error `Interrupted`, `EdgeCallHost` or `Unknown`.  Fails with
/// `Invalid` when the slot is empty and with `NotRunning`, changing
/// nothing, when the enclave does not run.
pub fn stop_enclave<P: Platform>(m: &mut Monitor, p: &mut Machine<P>, tf: &mut TrapFrame, hartid: usize, request: usize) -> (r: Result<(), Error>)
    requires
        old(m).wf(),
        hartid < MAX_HARTS,
        old(m).isolator.os_region() is Some,
        switchable(old(m), old(m).cpus.harts@[hartid as int].eid as int, |rs: RunState| stop_step(rs), false),
    ensures
        final(m).wf(),
        ({
            let eid = old(m).cpus.harts@[hartid as int].eid as int;
            &&& old(m).enclaves.slots@[eid] is None ==> r == Err::<(), Error>(Error::Invalid)
                && unchanged(old(m), final(m)) && *final(tf) == *old(tf) && final(p).trace() == old(p).trace()
            &&& old(m).enclaves.slots@[eid] matches Some(e) ==> match stop_step(e.state@) {
                Some(rs) => r == Err::<(), Error>(stop_reason(request)) && left(old(m), final(m), e, rs, hartid, *old(tf), *final(tf), old(p).trace(), final(p).trace()),
                None => r == Err::<(), Error>(Error::NotRunning) && unchanged(old(m), final(m)) && *final(tf) == *old(tf) && final(p).trace() == old(p).trace(),
            }
        }),
{
    let eid = m.cpus.get_enclave_id(hartid);
    let runstate = match m.enclaves.run_state_of(eid) {
        Some(rs) => rs,
        None => return Err(Error::Invalid),
    };
    let runnable = runstate.state == State::Running;
    if !runnable {
        return Err(Error::NotRunning);
    }
    let count = runstate.count - 1;
    let state = if count == 0 { State::Stopped } else { runstate.state };
    match &mut m.enclaves.slots[eid] {
        Some(enclave) => {
            enclave.set_run_state(RunState { count, state });
            enclave.switch_to_host(p, &mut m.cpus, &m.isolator, hartid, tf);
        },
        None => {},
    }
    Err(stop_error(request))
}

/// Exits, on hart `hartid`, the enclave that the hart runs: a running
/// enclave loses the hart, an enclave that no hart runs is stopped, its
/// context is saved and the host's restored.  Fails with `Invalid`,
/// changing nothing, when the slot is empty.
pub fn exit_enclave<P: Platform>(m: &mut Monitor, p: &mut Machine<P>, tf: &mut TrapFrame, hartid: usize) -> (r: Result<(), Error>)
    requires
        old(m).wf(),
        hartid < MAX_HARTS,
        old(m).isolator.os_region() is Some,
        switchable(old(m), old(m).cpus.harts@[hartid as int].eid as int, |rs: RunState| Some(exit_step(rs)), false),
    ensures
        final(m).wf(),
        ({
            let eid = old(m).cpus.harts@[hartid as int].eid as int;
            &&& old(m).enclaves.slots@[eid] is None ==> r == Err::<(), Error>(Error::Invalid)
                && unchanged(old(m), final(m)) && *final(tf) == *old(tf) && final(p).trace() == old(p).trace()
            &&& old(m).enclaves.slots@[eid] matches Some(e) ==> r == Ok::<(), Error>(())
                && left(old(m), final(m), e, exit_step(e.state@), hartid, *old(tf), *final(tf), old(p).trace(), final(p).trace())
        }),
{
    let eid = m.cpus.get_enclave_id(hartid);
    let runstate = match m.enclaves.run_state_of(eid) {
        Some(rs) => rs,
        None => return Err(Error::Invalid),
    };
    let runnable = runstate.state == State::Running && runstate.count > 0;
    let count = if runnable { runstate.count - 1 } else { runstate.count };
    let state = if count == 0 { State::Stopped } else { runstate.state };
    match &mut m.enclaves.slots[eid] {
        Some(enclave) => {
            enclave.set_run_state(RunState { count, state });
            enclave.switch_to_host(p, &mut m.cpus, &m.isolator, hartid, tf);
        },
        None => {},
    }
    Ok(())
}

// ----- laws -----

/// Every transition keeps a run state consistent: an enclave runs exactly
/// while some hart runs it.
pub proof fn lemma_steps_keep_run_state_wf(rs: RunState)
    requires
        run_state_wf(rs),
    ensures
        run_state_wf(initial_run_state()),
        rs.count < usize::MAX ==> (enter_step(rs) matches Some(n) ==> run_state_wf(n)),
        resume_step(rs) matches Some(n) ==> run_state_wf(n),
        stop_step(rs) matches Some(n) ==> run_state_wf(n),
        run_state_wf(exit_step(rs)),
        destroy_step(rs) matches Some(n) ==> run_state_wf(n),
{
}

/// A new enclave can be entered, resumed and destroyed.
pub proof fn lemma_new_enclave_usable()
    ensures
        run_state_wf(initial_run_state()),
        enter_step(initial_run_state()) is Some,
        resume_step(initial_run_state()) is Some,
        destroy_step(initial_run_state()) is Some,
{
}

/// Stopping undoes entering: entering a consistent enclave that is not
/// being destroyed and then stopping it on the same hart gives back the
/// run state it had.
pub proof fn lemma_stop_undoes_enter(rs: RunState)
    requires
        run_state_wf(rs),
        rs.state != State::Destroying,
        rs.count < usize::MAX,
    ensures
        enter_step(rs) matches Some(n) && stop_step(n) == Some(rs),
{
}

/// Exiting, like stopping, undoes resuming.
pub proof fn lemma_exit_undoes_resume(rs: RunState)
    requires
        run_state_wf(rs),
        resume_step(rs) is Some,
    ensures
        exit_step(resume_step(rs)->0) == rs,
        stop_step(resume_step(rs)->0) == Some(rs),
{
}

/// Exiting a running enclave takes exactly one hart from it: with `n`
/// harts running it before, `n - 1` run it after, and it stops only when
/// that leaves none.
pub proof fn lemma_exit_removes_one_hart(rs: RunState)
    requires
        rs.state == State::Running,
        rs.count > 0,
    ensures
        exit_step(rs).count == rs.count - 1,
        exit_step(rs).count > 0 ==> exit_step(rs).state == State::Running,
        exit_step(rs).count == 0 ==> exit_step(rs).state == State::Stopped,
{
}

/// Exiting undoes entering: entering a consistent enclave that is not being
/// destroyed and then exiting it on the same hart gives back the run state
/// it had.
pub proof fn lemma_exit_undoes_enter(rs: RunState)
    requires
        run_state_wf(rs),
        rs.state != State::Destroying,
        rs.count < usize::MAX,
    ensures
        enter_step(rs) matches Some(n) && exit_step(n) == rs,
{
}

/// The machine interrupts that arrived while an enclave ran reach the host
/// as the supervisor interrupts of the same kind: each supervisor bit that
/// is raised comes right after the machine bit of its kind is cleared, and
/// only for a machine interrupt that was pending; and every pending machine
/// timer, software and external interrupt is handed over so.
pub proof fn lemma_forward_same_kind(pending: usize)
    ensures
        forall|i: int| #![trigger forward_requests(pending)[i]]
            0 <= i < forward_requests(pending).len() ==> {
                let f = forward_requests(pending);
                match f[i] {
                    Access::SetMip { bits } => i >= 1 && (
                        (bits == MIP_SEIP && f[i - 1] == (Access::ClearMip { bits: MIP_MEIP }) && pending & MIP_MEIP != 0)
                        || (bits == MIP_STIP && f[i - 1] == (Access::ClearMip { bits: MIP_MTIP }) && pending & MIP_MTIP != 0)
                        || (bits == MIP_SSIP && f[i - 1] == (Access::ClearMip { bits: MIP_MSIP }) && pending & MIP_MSIP != 0)),
                    Access::ClearMip { bits } =>
                        (bits == MIP_MEIP || bits == MIP_MTIP || bits == MIP_MSIP) && pending & bits != 0,
                    _ => false,
                }
            },
        pending & MIP_MEIP != 0 ==> exists|i: int| 0 <= i && i + 1 < forward_requests(pending).len()
            && #[trigger] forward_requests(pending)[i] == (Access::ClearMip { bits: MIP_MEIP })
            && forward_requests(pending)[i + 1] == (Access::SetMip { bits: MIP_SEIP }),
        pending & MIP_MTIP != 0 ==> exists|i: int| 0 <= i && i + 1 < forward_requests(pending).len()
            && #[trigger] forward_requests(pending)[i] == (Access::ClearMip { bits: MIP_MTIP })
            && forward_requests(pending)[i + 1] == (Access::SetMip { bits: MIP_STIP }),
        pending & MIP_MSIP != 0 ==> exists|i: int| 0 <= i && i + 1 < forward_requests(pending).len()
            && #[trigger] forward_requests(pending)[i] == (Access::ClearMip { bits: MIP_MSIP })
            && forward_requests(pending)[i + 1] == (Access::SetMip { bits: MIP_SSIP }),
{
    let f = forward_requests(pending);
    let timer = if pending & MIP_MTIP != 0 {
        seq![Access::ClearMip { bits: MIP_MTIP }, Access::SetMip { bits: MIP_STIP }]
    } else {
        Seq::empty()
    };
    let soft = if pending & MIP_MSIP != 0 {
        seq![Access::ClearMip { bits: MIP_MSIP }, Access::SetMip { bits: MIP_SSIP }]
    } else {
        Seq::empty()
    };
    let ext = if pending & MIP_MEIP != 0 {
        seq![Access::ClearMip { bits: MIP_MEIP }, Access::SetMip { bits: MIP_SEIP }]
    } else {
        Seq::empty()
    };
    assert(f =~= timer + soft + ext);
    if pending & MIP_MTIP != 0 {
        assert(f[0] == (Access::ClearMip { bits: MIP_MTIP }) && f[1] == (Access::SetMip { bits: MIP_STIP }));
    }
    if pending & MIP_MSIP != 0 {
        let j = timer.len() as int;
        assert(f[j] == (Access::ClearMip { bits: MIP_MSIP }) && f[j + 1] == (Access::SetMip { bits: MIP_SSIP }));
    }
    if pending & MIP_MEIP != 0 {
        let j = (timer.len() + soft.len()) as int;
        assert(f[j] == (Access::ClearMip { bits: MIP_MEIP }) && f[j + 1] == (Access::SetMip { bits: MIP_SEIP }));
    }
}

/// An enclave is resumed on at most `MAX_ENCLAVE_THREADS` harts at once.
pub proof fn lemma_resume_bounded(rs: RunState)
    ensures
        resume_step(rs) matches Some(n) ==> n.count <= MAX_ENCLAVE_THREADS,
{
}

/// A running enclave cannot be destroyed, nor entered once it is being
/// destroyed.
pub proof fn lemma_running_not_destroyable(rs: RunState)
    requires
        run_state_wf(rs),
    ensures
        rs.count > 0 ==> destroy_step(rs) is None,
        rs.state == State::Running ==> destroy_step(rs) is None,
        rs.state == State::Destroying ==> enter_step(rs) is None && resume_step(rs) is None,
{
}

/// The host gets its context back: after the host enters an enclave on a
/// hart, whatever the enclave does to the trap frame, the stop or exit
/// that leaves it on that hart restores the host's registers, program
/// counter and status.
pub proof fn lemma_host_context_restored(
    m0: &Monitor,
    m1: &Monitor,
    m2: &Monitor,
    e0: Enclave,
    e1: Enclave,
    rs1: RunState,
    rs2: RunState,
    hartid: usize,
    host_tf: TrapFrame,
    entry_tf: TrapFrame,
    enclave_tf: TrapFrame,
    back_tf: TrapFrame,
    load: bool,
    t0: Seq<Access>,
    t1: Seq<Access>,
    t2: Seq<Access>,
    t3: Seq<Access>,
)
    requires
        entered(m0, m1, e0, rs1, hartid, host_tf, entry_tf, load, t0, t1),
        m1.enclaves.slots@[e0.eid as int] == Some(e1),
        left(m1, m2, e1, rs2, hartid, enclave_tf, back_tf, t2, t3),
    ensures
        back_tf.gprs == host_tf.gprs,
        back_tf.mepc == host_tf.mepc,
        back_tf.mstatus == host_tf.mstatus,
{
}

/// The enclave gets its context back: after it is stopped on a hart,
/// whatever the host does to the trap frame, resuming it restores the
/// enclave's registers, program counter and status.
pub proof fn lemma_enclave_context_restored(
    m0: &Monitor,
    m1: &Monitor,
    m2: &Monitor,
    e0: Enclave,
    e1: Enclave,
    rs1: RunState,
    rs2: RunState,
    hartid: usize,
    enclave_tf: TrapFrame,
    host_tf: TrapFrame,
    later_host_tf: TrapFrame,
    resumed_tf: TrapFrame,
    t0: Seq<Access>,
    t1: Seq<Access>,
    t2: Seq<Access>,
    t3: Seq<Access>,
)
    requires
        left(m0, m1, e0, rs1, hartid, enclave_tf, host_tf, t0, t1),
        m1.enclaves.slots@[e0.eid as int] == Some(e1),
        entered(m1, m2, e1, rs2, hartid, later_host_tf, resumed_tf, false, t2, t3),
    ensures
        resumed_tf.gprs == enclave_tf.gprs,
        resumed_tf.mepc == enclave_tf.mepc,
        resumed_tf.mstatus == enclave_tf.mstatus,
{
}

} // verus!
