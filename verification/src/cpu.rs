//! Per-hart state: whether the hart is running an enclave, and which.
use vstd::prelude::*;
use crate::platform::{Access, Machine, Platform};

verus! {

/// Number of harts the monitor keeps state for.
pub const MAX_HARTS: usize = 16;

/// What a hart is running.
#[derive(Debug, Clone, Copy, PartialEq, Eq, Structural)]
pub struct CpuState {
    pub is_enclave: bool,
    pub eid: usize,
}

/// The state of every hart.
pub struct CpuStates {
    pub harts: [CpuState; MAX_HARTS],
}

impl CpuStates {
    /// Every hart runs the host; the recorded enclave is 0.
    pub fn new() -> (c: CpuStates)
        ensures
            forall|h: int| 0 <= h < MAX_HARTS ==> c.harts@[h] == (CpuState { is_enclave: false, eid: 0 }),
    {
        CpuStates { harts: [CpuState { is_enclave: false, eid: 0 }; MAX_HARTS] }
    }

    /// Whether hart `hartid` is running an enclave.
    pub fn is_enclave_context(&self, hartid: usize) -> (r: bool)
        requires
            hartid < MAX_HARTS,
        ensures
            r == self.harts@[hartid as int].is_enclave,
    {
        self.harts[hartid].is_enclave
    }

    /// The enclave last entered on hart `hartid`.
    pub fn get_enclave_id(&self, hartid: usize) -> (r: usize)
        requires
            hartid < MAX_HARTS,
        ensures
            r == self.harts@[hartid as int].eid,
    {
        self.harts[hartid].eid
    }

    /// Records that hart `hartid` runs enclave `eid`, and switches the
    /// isolation hardware to that enclave.
    pub fn enter_enclave_context<P: Platform>(&mut self, platform: &mut Machine<P>, hartid: usize, eid: usize)
        requires
            hartid < MAX_HARTS,
        ensures
            final(self).harts@ == old(self).harts@.update(hartid as int, CpuState { is_enclave: true, eid }),
            final(platform).trace() == old(platform).trace().push(Access::EnterContext { id: eid }),
    {
        self.harts[hartid] = CpuState { is_enclave: true, eid };
        platform.enter_context(eid);
    }

    /// Records that hart `hartid` runs the host again, and switches the
    /// isolation hardware to the host's region `os_region`.  The enclave
    /// id last entered stays recorded.
    pub fn exit_enclave_context<P: Platform>(&mut self, platform: &mut Machine<P>, hartid: usize, os_region: usize)
        requires
            hartid < MAX_HARTS,
        ensures
            final(self).harts@ == old(self).harts@.update(
                hartid as int,
                CpuState { is_enclave: false, eid: old(self).harts@[hartid as int].eid },
            ),
            final(platform).trace() == old(platform).trace().push(Access::EnterContext { id: os_region }),
    {
        let eid = self.harts[hartid].eid;
        self.harts[hartid] = CpuState { is_enclave: false, eid };
        platform.enter_context(os_region);
    }
}

} // verus!
