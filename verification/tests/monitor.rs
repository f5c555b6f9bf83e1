use std::cell::Cell;
use vyond_monitor::api::{required_status, suspend_status};
use vyond_monitor::cpu::CpuStates;
use vyond_monitor::enclave::{
    create_enclave, destroy_enclave, enclave_exists, enter_enclave, exit_enclave, forwarded_interrupts,
    host_delegated_interrupts, resume_enclave, stop_enclave, stop_error, Enclave, EnclaveTable,
    KeystoneSBICreate, KeystoneSBIPReigion, Region, RegionType, RunState, RuntimePAParams, State,
    MAX_ENCLAVES,
};
use vyond_monitor::encoding::{MIP_MEIP, MIP_MSIP, MIP_MTIP, MIP_SEIP, MIP_SSIP, MIP_STIP, MSTATUS_FS};
use vyond_monitor::platform::{Machine, Platform};
use vyond_monitor::thread;
use vyond_monitor::trap::{GeneralRegs, TrapFrame};
use vyond_monitor::{Error, Monitor};

/// A platform that records what the monitor asks of the hardware.
#[derive(Default)]
struct Mock {
    mideleg: Vec<usize>,
    satp: Vec<usize>,
    vectors: Vec<&'static str>,
    mip: Cell<usize>,
    cleared: Vec<usize>,
    set: Vec<usize>,
    mlwid: Vec<usize>,
    contexts: Vec<usize>,
    reads: Vec<u64>,
    writes: Vec<(u64, u64)>,
    register_value: u64,
    region_inits: Vec<(usize, usize, u64, bool)>,
    refuse_region_after: Option<usize>,
    next_region: usize,
    sets: Vec<usize>,
    frees: Vec<usize>,
}

impl Platform for Mock {
    fn write_mideleg(&mut self, value: usize) {
        self.mideleg.push(value);
    }
    fn write_satp(&mut self, value: usize) {
        self.satp.push(value);
    }
    fn trap_vector_enclave(&mut self) {
        self.vectors.push("enclave");
    }
    fn trap_vector_host(&mut self) {
        self.vectors.push("host");
    }
    fn read_mip(&mut self) -> usize {
        self.mip.get()
    }
    fn clear_mip(&mut self, bits: usize) {
        self.cleared.push(bits);
    }
    fn set_mip(&mut self, bits: usize) {
        self.set.push(bits);
    }
    fn write_mlwid(&mut self, wid: usize) {
        self.mlwid.push(wid);
    }
    fn enter_context(&mut self, id: usize) {
        self.contexts.push(id);
    }
    fn read_u32(&mut self, addr: u64) -> u32 {
        self.reads.push(addr);
        self.register_value as u32
    }
    fn read_u64(&mut self, addr: u64) -> u64 {
        self.reads.push(addr);
        self.register_value
    }
    fn write_u32(&mut self, addr: u64, value: u32) {
        self.writes.push((addr, value as u64));
    }
    fn write_u64(&mut self, addr: u64, value: u64) {
        self.writes.push((addr, value));
    }
    fn wg_region_init(&mut self, start: usize, size: usize, perm: u64, allow_overlap: bool) -> Result<usize, Error> {
        self.region_inits.push((start, size, perm, allow_overlap));
        if let Some(limit) = self.refuse_region_after {
            if self.region_inits.len() > limit {
                return Err(Error::MaxReached);
            }
        }
        let r = self.next_region;
        self.next_region += 1;
        Ok(r)
    }
    fn wg_set(&mut self, region: usize) -> Result<(), Error> {
        self.sets.push(region);
        Ok(())
    }
    fn wg_region_free(&mut self, region: usize) -> Result<(), Error> {
        self.frees.push(region);
        Ok(())
    }
}

fn args() -> KeystoneSBICreate {
    KeystoneSBICreate {
        epm_region: KeystoneSBIPReigion { paddr: 0x8300_0000, size: 0x10_0000 },
        utm_region: KeystoneSBIPReigion { paddr: 0x8400_0000, size: 0x4000 },
        runtime_paddr: 0x8300_1000,
        user_paddr: 0x8302_0000,
        free_paddr: 0x8308_0000,
        free_requested: 0x1000,
    }
}

fn host_frame() -> TrapFrame {
    let mut gprs = GeneralRegs::zeroed();
    gprs.a0 = 11;
    gprs.a1 = 12;
    gprs.sp = 0x9000_0000;
    gprs.ra = 0x8020_1234;
    TrapFrame { gprs, mepc: 0x8020_0100, mstatus: 0xa00000080, mstatus_h: 0 }
}

/// A booted monitor with the host region set up.
fn booted(p: &mut Machine<Mock>) -> Monitor {
    let mut m = Monitor::new();
    assert_eq!(m.sm_init(p, true, 3, 2), 0);
    m
}

fn enclave(m: &Monitor, eid: usize) -> &Enclave {
    m.enclaves.slots[eid].as_ref().unwrap()
}

#[test]
fn error_codes_match_the_sdk() {
    assert_eq!(Error::Success.code(), 0);
    assert_eq!(Error::Unknown.code(), 100000);
    assert_eq!(Error::InvalidId.code(), 100001);
    assert_eq!(Error::Interrupted.code(), 100002);
    assert_eq!(Error::EdgeCallHost.code(), 100011);
    assert_eq!(Error::NoFreeResource.code(), 100013);
    assert_eq!(Error::NotFresh.code(), 100016);
    assert_eq!(Error::RegionSizeInvalid.code(), 10020);
    assert_eq!(Error::ImpossibleTor.code(), 10026);
    assert_eq!(Error::Deprecated.code(), 100099);
    assert_eq!(Error::NotImplemented.code(), 100100);
    assert_eq!(Error::Invalid.code(), 100103);
}

#[test]
fn boot_sets_up_monitor_and_host_regions() {
    let mut p = Machine::new(Mock::default());
    let m = booted(&mut p);
    assert_eq!(p.platform().mlwid, vec![2]);
    assert_eq!(p.platform().region_inits.len(), 2);
    // the monitor's memory for world 3 alone
    assert_eq!(p.platform().region_inits[0], (0x8000_0000, 0x20_0000, 0xc0, false));
    // the host's memory for world 2 and world 0
    assert_eq!(p.platform().region_inits[1], (0x8020_0000, usize::MAX, 0x33, false));
    assert_eq!(p.platform().sets, vec![0, 1]);
    assert_eq!(m.sm_region_id(), 0);
    assert_eq!(m.os_region_id(), 1);
}

#[test]
fn boot_fails_when_the_hardware_refuses_a_region() {
    let mut p = Machine::new(Mock { refuse_region_after: Some(1), ..Default::default() });
    let mut m = Monitor::new();
    assert_eq!(m.sm_init(&mut p, true, 3, 2), -1);
    assert_eq!(m.sm_region_id(), 0);
}

#[test]
fn warm_boot_after_cold_boot_returns_zero() {
    let mut p = Machine::new(Mock::default());
    let mut m = booted(&mut p);
    assert_eq!(m.sm_init(&mut p, false, 3, 2), 0);
    assert_eq!(p.platform().region_inits.len(), 2);
}

#[test]
fn create_enclave_fills_the_first_free_slot() {
    let mut p = Machine::new(Mock::default());
    let mut m = booted(&mut p);
    let eid = create_enclave(&mut m, &mut p, &args()).unwrap();
    assert_eq!(eid, 0);
    assert!(enclave_exists(&m.enclaves.slots, 0));
    assert!(!enclave_exists(&m.enclaves.slots, 1));
    assert!(!enclave_exists(&m.enclaves.slots, 8));
    let e = enclave(&m, 0);
    assert_eq!(e.id(), 0);
    assert_eq!(e.run_state(), RunState { count: 0, state: State::Stopped });
    assert_eq!(e.regions[0], Some(Region { id: 2, r_type: RegionType::RegionEPM }));
    assert_eq!(e.regions[1], Some(Region { id: 3, r_type: RegionType::RegionUTM }));
    assert_eq!(e.regions[2], None);
    let t = e.threads[0].unwrap();
    assert_eq!(t.prev_mepc, 0x8300_0000 - 4);
    assert_eq!(t.prev_mstatus, (1 << 11) | MSTATUS_FS);
    assert_eq!(e.pa_params.dram_base, 0x8300_0000);
    assert_eq!(e.pa_params.untrusted_size, 0x4000);
    // enclave 0's regions are for world 0
    assert_eq!(p.platform().region_inits[2], (0x8300_0000, 0x10_0000, 0x3, true));
    assert_eq!(p.platform().region_inits[3], (0x8400_0000, 0x4000, 0x3, true));

    let eid = create_enclave(&mut m, &mut p, &args()).unwrap();
    assert_eq!(eid, 1);
    assert_eq!(p.platform().region_inits[4].2, 0xc);
}

#[test]
fn create_enclave_fails_when_the_table_is_full() {
    let mut p = Machine::new(Mock::default());
    let mut m = booted(&mut p);
    for i in 0..MAX_ENCLAVES {
        assert_eq!(create_enclave(&mut m, &mut p, &args()), Ok(i));
    }
    let inits = p.platform().region_inits.len();
    assert_eq!(create_enclave(&mut m, &mut p, &args()), Err(Error::NoFreeResource));
    assert_eq!(p.platform().region_inits.len(), inits);
}

#[test]
fn create_enclave_keeps_the_slot_when_a_region_is_refused() {
    let mut p = Machine::new(Mock { refuse_region_after: Some(3), ..Default::default() });
    let mut m = booted(&mut p);
    assert_eq!(create_enclave(&mut m, &mut p, &args()), Err(Error::MaxReached));
    let e = enclave(&m, 0);
    assert!(e.regions[0].is_some());
    assert!(e.threads[0].is_some());
    assert_eq!(e.regions[1], None);

    let mut p = Machine::new(Mock { refuse_region_after: Some(2), ..Default::default() });
    let mut m = booted(&mut p);
    assert_eq!(create_enclave(&mut m, &mut p, &args()), Err(Error::MaxReached));
    let e = enclave(&m, 0);
    assert_eq!(e.regions[0], None);
    assert!(!e.thread_ready());
}

#[test]
fn enter_loads_the_runtime_parameters() {
    let mut p = Machine::new(Mock::default());
    let mut m = booted(&mut p);
    let eid = create_enclave(&mut m, &mut p, &args()).unwrap();
    let host = host_frame();
    let mut tf = host;
    assert_eq!(enter_enclave(&mut m, &mut p, &mut tf, 3, eid), Ok(()));
    assert_eq!(tf.mepc, 0x8300_0000 - 4);
    assert_eq!(tf.mstatus, 1 << 11);
    assert_eq!(tf.gprs.a1, 0x8300_0000);
    assert_eq!(tf.gprs.a2, 0x10_0000);
    assert_eq!(tf.gprs.a3, 0x8300_1000);
    assert_eq!(tf.gprs.a4, 0x8302_0000);
    assert_eq!(tf.gprs.a5, 0x8308_0000);
    assert_eq!(tf.gprs.a6, 0x8400_0000);
    assert_eq!(tf.gprs.a7, 0x4000);
    // the enclave's first thread starts with cleared registers
    assert_eq!(tf.gprs.a0, 0);
    assert_eq!(tf.gprs.sp, 0);
    assert_eq!(enclave(&m, eid).run_state(), RunState { count: 1, state: State::Running });
    assert!(m.cpus.is_enclave_context(3));
    assert_eq!(m.cpus.get_enclave_id(3), eid);
    assert_eq!(p.platform().mideleg, vec![0]);
    assert_eq!(p.platform().satp, vec![0]);
    assert_eq!(p.platform().vectors, vec!["enclave"]);
    assert_eq!(p.platform().contexts, vec![eid]);
}

#[test]
fn enter_fails_for_a_missing_enclave() {
    let mut p = Machine::new(Mock::default());
    let mut m = booted(&mut p);
    let mut tf = host_frame();
    assert_eq!(enter_enclave(&mut m, &mut p, &mut tf, 0, 5), Err(Error::Invalid));
    assert_eq!(tf, host_frame());
    assert!(!m.cpus.is_enclave_context(0));
}

#[test]
fn stop_restores_the_host_and_reports_the_reason() {
    let mut p = Machine::new(Mock::default());
    let mut m = booted(&mut p);
    let eid = create_enclave(&mut m, &mut p, &args()).unwrap();
    let host = host_frame();
    let mut tf = host;
    enter_enclave(&mut m, &mut p, &mut tf, 1, eid).unwrap();
    tf.gprs.a0 = 77;
    tf.mepc = 0x8300_0400;
    assert_eq!(stop_enclave(&mut m, &mut p, &mut tf, 1, 0), Err(Error::Interrupted));
    assert_eq!(tf.gprs, host.gprs);
    assert_eq!(tf.mepc, host.mepc);
    assert_eq!(tf.mstatus, host.mstatus);
    assert_eq!(enclave(&m, eid).run_state(), RunState { count: 0, state: State::Stopped });
    assert!(!m.cpus.is_enclave_context(1));
    assert_eq!(m.cpus.get_enclave_id(1), eid);
    assert_eq!(p.platform().mideleg, vec![0, MIP_SSIP | MIP_STIP | MIP_SEIP]);
    assert_eq!(p.platform().vectors, vec!["enclave", "host"]);
    // the host's region is switched back in
    assert_eq!(p.platform().contexts, vec![eid, 1]);
}

#[test]
fn stop_reasons() {
    assert_eq!(stop_error(0), Error::Interrupted);
    assert_eq!(stop_error(1), Error::EdgeCallHost);
    assert_eq!(stop_error(2), Error::Unknown);
    assert_eq!(stop_error(usize::MAX), Error::Unknown);

    let mut p = Machine::new(Mock::default());
    let mut m = booted(&mut p);
    let eid = create_enclave(&mut m, &mut p, &args()).unwrap();
    let mut tf = host_frame();
    enter_enclave(&mut m, &mut p, &mut tf, 0, eid).unwrap();
    assert_eq!(stop_enclave(&mut m, &mut p, &mut tf, 0, 1), Err(Error::EdgeCallHost));
}

#[test]
fn stop_fails_when_the_enclave_does_not_run() {
    let mut p = Machine::new(Mock::default());
    let mut m = booted(&mut p);
    create_enclave(&mut m, &mut p, &args()).unwrap();
    let mut tf = host_frame();
    assert_eq!(stop_enclave(&mut m, &mut p, &mut tf, 0, 0), Err(Error::NotRunning));
    assert_eq!(tf, host_frame());
}

#[test]
fn resume_restores_the_enclave_context() {
    let mut p = Machine::new(Mock::default());
    let mut m = booted(&mut p);
    let eid = create_enclave(&mut m, &mut p, &args()).unwrap();
    let mut tf = host_frame();
    enter_enclave(&mut m, &mut p, &mut tf, 2, eid).unwrap();
    tf.gprs.a0 = 5;
    tf.gprs.s3 = 6;
    tf.mepc = 0x8300_0800;
    tf.mstatus = 0x100;
    let enclave_frame = tf;
    stop_enclave(&mut m, &mut p, &mut tf, 2, 0).unwrap_err();
    // the host runs meanwhile
    tf.gprs.a0 = 1234;
    tf.mepc = 0x8020_9999;
    assert_eq!(resume_enclave(&mut m, &mut p, &mut tf, 2), Ok(()));
    assert_eq!(tf.gprs, enclave_frame.gprs);
    assert_eq!(tf.mepc, enclave_frame.mepc);
    assert_eq!(tf.mstatus, enclave_frame.mstatus);
    assert_eq!(enclave(&m, eid).run_state(), RunState { count: 1, state: State::Running });
    // no address translation change on resume
    assert_eq!(p.platform().satp, vec![0]);
}

#[test]
fn resume_fails_while_the_enclave_runs() {
    let mut p = Machine::new(Mock::default());
    let mut m = booted(&mut p);
    let eid = create_enclave(&mut m, &mut p, &args()).unwrap();
    let mut tf = host_frame();
    enter_enclave(&mut m, &mut p, &mut tf, 0, eid).unwrap();
    let before = tf;
    assert_eq!(resume_enclave(&mut m, &mut p, &mut tf, 0), Err(Error::NotResumable));
    assert_eq!(tf, before);
    assert_eq!(enclave(&m, eid).run_state(), RunState { count: 1, state: State::Running });
}

#[test]
fn resume_fails_for_a_missing_enclave() {
    let mut p = Machine::new(Mock::default());
    let mut m = booted(&mut p);
    let mut tf = host_frame();
    assert_eq!(resume_enclave(&mut m, &mut p, &mut tf, 0), Err(Error::InvalidId));
    assert_eq!(exit_enclave(&mut m, &mut p, &mut tf, 0), Err(Error::Invalid));
    assert_eq!(stop_enclave(&mut m, &mut p, &mut tf, 0, 0), Err(Error::Invalid));
}

#[test]
fn exit_stops_the_enclave_and_restores_the_host() {
    let mut p = Machine::new(Mock::default());
    let mut m = booted(&mut p);
    let eid = create_enclave(&mut m, &mut p, &args()).unwrap();
    let host = host_frame();
    let mut tf = host;
    enter_enclave(&mut m, &mut p, &mut tf, 4, eid).unwrap();
    assert_eq!(exit_enclave(&mut m, &mut p, &mut tf, 4), Ok(()));
    assert_eq!(tf.gprs, host.gprs);
    assert_eq!(tf.mepc, host.mepc);
    assert_eq!(enclave(&m, eid).run_state(), RunState { count: 0, state: State::Stopped });
}

#[test]
fn entering_twice_counts_two_harts() {
    let mut p = Machine::new(Mock::default());
    let mut m = booted(&mut p);
    let eid = create_enclave(&mut m, &mut p, &args()).unwrap();
    let mut tf0 = host_frame();
    let mut tf1 = host_frame();
    enter_enclave(&mut m, &mut p, &mut tf0, 0, eid).unwrap();
    enter_enclave(&mut m, &mut p, &mut tf1, 1, eid).unwrap();
    assert_eq!(enclave(&m, eid).run_state(), RunState { count: 2, state: State::Running });
    stop_enclave(&mut m, &mut p, &mut tf1, 1, 0).unwrap_err();
    assert_eq!(enclave(&m, eid).run_state(), RunState { count: 1, state: State::Running });
}

#[test]
fn destroy_refuses_a_running_enclave() {
    let mut p = Machine::new(Mock::default());
    let mut m = booted(&mut p);
    let eid = create_enclave(&mut m, &mut p, &args()).unwrap();
    let mut tf = host_frame();
    enter_enclave(&mut m, &mut p, &mut tf, 0, eid).unwrap();
    assert_eq!(destroy_enclave(&mut m, &mut p, eid), Err(Error::NotDestroyable));
    assert!(enclave_exists(&m.enclaves.slots, eid));
    assert!(p.platform().frees.is_empty());
}

#[test]
fn destroy_releases_owned_regions_and_the_slot() {
    let mut p = Machine::new(Mock::default());
    let mut m = booted(&mut p);
    let eid = create_enclave(&mut m, &mut p, &args()).unwrap();
    assert_eq!(enclave(&m, eid).regions_to_release(), vec![2]);
    assert_eq!(destroy_enclave(&mut m, &mut p, eid), Ok(()));
    // the private region goes, the shared one stays
    assert_eq!(p.platform().frees, vec![2]);
    assert!(!enclave_exists(&m.enclaves.slots, eid));
    assert_eq!(destroy_enclave(&mut m, &mut p, eid), Err(Error::InvalidId));
    // the slot is reused
    assert_eq!(create_enclave(&mut m, &mut p, &args()), Ok(eid));
}

#[test]
fn enter_is_refused_while_destroying() {
    let mut p = Machine::new(Mock::default());
    let mut m = booted(&mut p);
    let eid = create_enclave(&mut m, &mut p, &args()).unwrap();
    // an enclave left in the destroying state cannot be entered
    if let Some(e) = m.enclaves.slots[eid].as_mut() {
        *e.state.get_mut() = RunState { count: 0, state: State::Destroying };
    }
    let mut tf = host_frame();
    assert_eq!(enter_enclave(&mut m, &mut p, &mut tf, 0, eid), Err(Error::NotRunnable));
}

#[test]
fn pending_machine_interrupts_go_to_the_host() {
    let f = forwarded_interrupts(MIP_MTIP | MIP_MEIP);
    assert!(f.timer && f.external && !f.software);
    let f = forwarded_interrupts(MIP_MSIP | MIP_STIP);
    assert!(!f.timer && !f.external && f.software);
    assert_eq!(host_delegated_interrupts(), 0x222);

    let mut p = Machine::new(Mock::default());
    let mut m = booted(&mut p);
    let eid = create_enclave(&mut m, &mut p, &args()).unwrap();
    let mut tf = host_frame();
    enter_enclave(&mut m, &mut p, &mut tf, 0, eid).unwrap();
    p.platform().mip.set(MIP_MTIP | MIP_MSIP);
    exit_enclave(&mut m, &mut p, &mut tf, 0).unwrap();
    assert_eq!(p.platform().cleared, vec![MIP_MTIP, MIP_MSIP]);
    assert_eq!(p.platform().set, vec![MIP_STIP, MIP_SSIP]);
}

#[test]
fn sbi_statuses() {
    assert_eq!(required_status(Ok(())), Some(0));
    assert_eq!(required_status(Err(Error::InvalidId)), None);
    assert_eq!(suspend_status(Ok(())), Some(0));
    assert_eq!(suspend_status(Err(Error::Interrupted)), Some(100002));
    assert_eq!(suspend_status(Err(Error::EdgeCallHost)), Some(100011));
    assert_eq!(suspend_status(Err(Error::NotRunning)), None);
}

#[test]
fn enclave_table_allocation() {
    let mut t = EnclaveTable::new();
    let pa = RuntimePAParams {
        dram_base: 1, dram_size: 2, runtime_base: 3, user_base: 4, free_base: 5,
        untrusted_base: 6, untrusted_size: 7, free_requested: 8,
    };
    assert_eq!(Enclave::allocate(&mut t, pa), Ok(0));
    assert_eq!(Enclave::allocate(&mut t, pa), Ok(1));
    assert_eq!(Enclave::free(&mut t, 0), Ok(()));
    assert!(t.slots[0].is_none());
    assert_eq!(Enclave::allocate(&mut t, pa), Ok(0));
    assert_eq!(t.run_state_of(1), Some(RunState { count: 0, state: State::Stopped }));
    assert_eq!(t.run_state_of(2), None);
    for _ in 2..MAX_ENCLAVES {
        Enclave::allocate(&mut t, pa).unwrap();
    }
    assert_eq!(Enclave::allocate(&mut t, pa), Err(Error::NoFreeResource));
    let e = Enclave::new(5, pa);
    assert_eq!(e.id(), 5);
    assert_eq!(e.run_state(), RunState { count: 0, state: State::Stopped });
    assert!(!e.thread_ready());
    assert_eq!(e.pa_params, pa);
}

#[test]
fn thread_context_swaps() {
    let mut t = thread::State::new(0x100, 0x6800);
    assert_eq!(t.prev_state, GeneralRegs::zeroed());
    let mut tf = host_frame();
    t.swap_prev_state(&mut tf);
    assert_eq!(tf.gprs, GeneralRegs::zeroed());
    assert_eq!(t.prev_state, host_frame().gprs);
    let mepc = tf.mepc;
    t.swap_prev_mepc(&mut tf, mepc);
    assert_eq!(tf.mepc, 0x100);
    assert_eq!(t.prev_mepc, host_frame().mepc);
    let mstatus = tf.mstatus;
    t.swap_prev_mstatus(&mut tf, mstatus);
    assert_eq!(tf.mstatus, 0x6800);
    assert_eq!(t.prev_mstatus, host_frame().mstatus);
}

#[test]
fn cpu_states_record_the_running_enclave() {
    let mut p = Machine::new(Mock::default());
    let mut c = CpuStates::new();
    assert!(!c.is_enclave_context(15));
    c.enter_enclave_context(&mut p, 15, 6);
    assert!(c.is_enclave_context(15));
    assert_eq!(c.get_enclave_id(15), 6);
    c.exit_enclave_context(&mut p, 15, 9);
    assert!(!c.is_enclave_context(15));
    assert_eq!(c.get_enclave_id(15), 6);
    assert_eq!(p.platform().contexts, vec![6, 9]);
}

#[test]
fn exit_undoes_resume() {
    let mut p = Machine::new(Mock::default());
    let mut m = booted(&mut p);
    let eid = create_enclave(&mut m, &mut p, &args()).unwrap();
    let mut tf = host_frame();
    enter_enclave(&mut m, &mut p, &mut tf, 0, eid).unwrap();
    stop_enclave(&mut m, &mut p, &mut tf, 0, 0).unwrap_err();
    let stopped = enclave(&m, eid).run_state();
    resume_enclave(&mut m, &mut p, &mut tf, 0).unwrap();
    exit_enclave(&mut m, &mut p, &mut tf, 0).unwrap();
    assert_eq!(enclave(&m, eid).run_state(), stopped);
}

#[test]
fn error_codes_are_distinct() {
    let all = [
        Error::Success, Error::Unknown, Error::InvalidId, Error::Interrupted, Error::PmpFailure,
        Error::NotRunnable, Error::NotDestroyable, Error::RegionOverlaps, Error::NotAccessible,
        Error::IllegalArgument, Error::NotRunning, Error::NotResumable, Error::EdgeCallHost,
        Error::NotInitialized, Error::NoFreeResource, Error::SBIProhibited, Error::IllegalPTE,
        Error::NotFresh, Error::RegionSizeInvalid, Error::NotPageGranularity, Error::NotAligned,
        Error::MaxReached, Error::RegionInvalid, Error::RegionOverlap, Error::ImpossibleTor,
        Error::Deprecated, Error::NotImplemented, Error::Overlap, Error::NotSupported, Error::Invalid,
    ];
    for (i, a) in all.iter().enumerate() {
        for (j, b) in all.iter().enumerate() {
            if i != j {
                assert_ne!(a.code(), b.code());
            }
        }
    }
}

#[test]
fn enclave_attachments() {
    let pa = RuntimePAParams {
        dram_base: 0x8300_0000, dram_size: 2, runtime_base: 3, user_base: 4, free_base: 5,
        untrusted_base: 6, untrusted_size: 7, free_requested: 8,
    };
    let mut e = Enclave::new(1, pa);
    e.attach_epm(9, 0x8300_0000);
    e.attach_utm(10);
    assert_eq!(e.regions[0], Some(Region { id: 9, r_type: RegionType::RegionEPM }));
    assert_eq!(e.regions[1], Some(Region { id: 10, r_type: RegionType::RegionUTM }));
    assert_eq!(e.threads[0], Some(thread::State::new(0x8300_0000 - 4, 0x6800)));
    e.regions[2] = Some(Region { id: 11, r_type: RegionType::RegionOther });
    e.regions[3] = Some(Region { id: 12, r_type: RegionType::RegionInvalid });
    assert_eq!(e.regions_to_release(), vec![9, 11]);
}

#[test]
fn switching_to_an_enclave_without_loading() {
    let mut p = Machine::new(Mock::default());
    let mut cpus = CpuStates::new();
    let pa = RuntimePAParams {
        dram_base: 0x8300_0000, dram_size: 2, runtime_base: 3, user_base: 4, free_base: 5,
        untrusted_base: 6, untrusted_size: 7, free_requested: 8,
    };
    let mut e = Enclave::new(2, pa);
    e.attach_epm(9, 0x8300_0000);
    let host = host_frame();
    let mut tf = host;
    e.switch_to_enclave(&mut p, &mut cpus, 7, &mut tf, false);
    assert_eq!(tf.gprs, GeneralRegs::zeroed());
    assert_eq!(tf.mepc, 0x8300_0000 - 4);
    assert_eq!(tf.mstatus, 0x6800);
    assert_eq!(e.threads[0].unwrap().prev_state, host.gprs);
    assert!(p.platform().satp.is_empty());
    assert_eq!(cpus.get_enclave_id(7), 2);
}
