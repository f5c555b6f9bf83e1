//! Vyond security monitor: the bookkeeping and decision logic of a
//! WorldGuard-based trusted execution environment for RISC-V.
use vstd::prelude::*;

pub mod api;
pub mod cpu;
pub mod enclave;
pub mod encoding;
pub mod error;
pub mod isolator;
pub mod once_cell;
pub mod platform;
pub mod spinlock;
pub mod thread;
pub mod trap;
pub mod wg;
pub mod wg_sm;

pub use error::Error;
use platform::{added, Machine, Platform};

verus! {

/// Base of the security monitor's own memory.
pub const SMM_BASE: usize = 0x8000_0000;

/// Size of the security monitor's own memory.
pub const SMM_SIZE: usize = 0x20_0000;

/// Size of a page.
pub const PAGE_SIZE: usize = 4096;

} // verus!

verus! {

/// The monitor's state: the enclaves, the harts and the isolator.
pub struct Monitor {
    pub enclaves: enclave::EnclaveTable,
    pub cpus: cpu::CpuStates,
    pub isolator: isolator::IsolatorState,
}

impl Monitor {
    /// The monitor's state is consistent: each enclave sits in the slot of
    /// its id with a consistent run state, each hart records an enclave id
    /// that names a slot, and only `true` is recorded as the end of boot.
    pub open spec fn wf(&self) -> bool {
        &&& forall|i: int| 0 <= i < enclave::MAX_ENCLAVES ==>
            (#[trigger] self.enclaves.slots@[i] matches Some(e) ==> e.eid == i && enclave::run_state_wf(e.state@))
        &&& forall|h: int| 0 <= h < cpu::MAX_HARTS ==> #[trigger] self.cpus.harts@[h].eid < enclave::MAX_ENCLAVES
        &&& self.isolator.init_done() != Some(false)
    }

    /// A monitor before boot: no enclaves, every hart runs the host,
    /// nothing set up.
    pub fn new() -> (m: Monitor)
        ensures
            m.wf(),
            forall|j: int| 0 <= j < enclave::MAX_ENCLAVES ==> m.enclaves.slots@[j] is None,
            forall|h: int| 0 <= h < cpu::MAX_HARTS ==> m.cpus.harts@[h] == (cpu::CpuState { is_enclave: false, eid: 0 }),
            m.isolator.init_done() == None::<bool>,
            m.isolator.sm_region() == None::<usize>,
            m.isolator.os_region() == None::<usize>,
    {
        Monitor {
            enclaves: enclave::EnclaveTable::new(),
            cpus: cpu::CpuStates::new(),
            isolator: isolator::IsolatorState::new(),
        }
    }

    /// The region of the host's memory.
    pub fn os_region_id(&self) -> (id: usize)
        requires
            self.isolator.os_region() is Some,
        ensures
            id == self.isolator.os_region()->0,
    {
        self.isolator.os_region_id()
    }

    /// The region protecting the monitor.
    pub fn sm_region_id(&self) -> (id: usize)
        requires
            self.isolator.sm_region() is Some,
        ensures
            id == self.isolator.sm_region()->0,
    {
        self.isolator.sm_region_id()
    }

    /// Boots the monitor on a hart.  The cold-boot hart protects the
    /// monitor's memory for world `trusted_wid` and the host's memory for
    /// world `os_wid`, and fails with -1 if the hardware refuses either;
    /// then it records the end of boot.  Every hart then waits for that
    /// record and returns 0.
    pub fn sm_init<P: Platform>(&mut self, p: &mut Machine<P>, cold_boot: bool, trusted_wid: usize, os_wid: usize) -> (r: isize)
        requires
            old(self).wf(),
            trusted_wid < isolator::MAX_WORLDS,
            os_wid < isolator::MAX_WORLDS,
            !cold_boot ==> old(self).isolator.init_done() == Some(true),
        ensures
            final(self).wf(),
            r == 0 || r == -1,
            r == -1 ==> cold_boot,
            cold_boot && r == 0 ==> {
                &&& final(self).isolator.sm_region() is Some
                &&& final(self).isolator.os_region() is Some
                &&& final(self).isolator.init_done() == Some(true)
            },
            !cold_boot ==> r == 0 && final(self).isolator == old(self).isolator,
            !cold_boot ==> final(p).trace() == old(p).trace(),
            cold_boot ==> old(p).trace().is_prefix_of(final(p).trace()),
            cold_boot ==> ({
                let t = added(old(p).trace(), final(p).trace());
                let k = isolator::smm_len(t);
                &&& isolator::smm_requests(t.take(k), trusted_wid)
                &&& match isolator::smm_outcome(t.take(k)) {
                    Err(_) => t.len() == k && r == -1,
                    Ok(_) => {
                        &&& isolator::reservation(t.skip(k), isolator::OSM_BASE, usize::MAX, isolator::os_perm(os_wid), false)
                        &&& (r == 0 <==> isolator::reservation_outcome(t.skip(k)) is Ok)
                    },
                }
            }),
            r == -1 ==> final(self).isolator.init_done() == old(self).isolator.init_done(),
            final(self).enclaves == old(self).enclaves,
            final(self).cpus == old(self).cpus,
    {
        let ghost before = p.trace();
        if cold_boot {
            if self.isolator.smm_init(p, trusted_wid).is_err() {
                proof {
                    let t = added(before, p.trace());
                    assert(t.take(isolator::smm_len(t)) =~= t);
                }
                return -1;
            }
            let ghost mid = p.trace();
            let r = self.isolator.osm_init(p, os_wid);
            proof {
                let t = added(before, p.trace());
                let first = added(before, mid);
                assert(first.skip(5)[0] == t.skip(5)[0]);
                assert(t.take(isolator::smm_len(t)) =~= first);
                assert(t.skip(isolator::smm_len(t)) =~= added(mid, p.trace()));
                assert(p.trace().take(before.len() as int) =~= before);
            }
            if r.is_err() {
                return -1;
            }
            self.isolator.sm_init_done();
        }
        self.isolator.sm_wait_for_completion();

        let _ = isolator::update();
        let _ = isolator::update();
        0
    }
}

} // verus!
