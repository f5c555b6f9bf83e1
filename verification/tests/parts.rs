use vyond_monitor::isolator::{region_init, reset_isolator, set_isolator, update, world_rw_perm, IsolatorState};
use vyond_monitor::once_cell::OnceCell;
use vyond_monitor::platform::{Machine, Platform};
use vyond_monitor::spinlock::{self, RawSpinLock, SpinLock};
use vyond_monitor::wg::{errcause_merge, WGChecker, WGC_DRAM_BASE, WGC_FLASH_BASE, WGC_UART_BASE};
use vyond_monitor::wg_sm::{
    self, boot_checkers, configure_boot_dram, dram_boot_slots, grant_last_slot, napot_addr, tor_addr, SlotConfig,
    WGCheckers,
};
use vyond_monitor::Error;

/// A platform that records register accesses.
#[derive(Default)]
struct Regs {
    reads: Vec<u64>,
    writes: Vec<(u64, u64)>,
    value: u64,
    region_inits: Vec<(usize, usize, u64, bool)>,
    sets: Vec<usize>,
    frees: Vec<usize>,
}

impl Platform for Regs {
    fn write_mideleg(&mut self, _value: usize) {}
    fn write_satp(&mut self, _value: usize) {}
    fn trap_vector_enclave(&mut self) {}
    fn trap_vector_host(&mut self) {}
    fn read_mip(&mut self) -> usize {
        0
    }
    fn clear_mip(&mut self, _bits: usize) {}
    fn set_mip(&mut self, _bits: usize) {}
    fn write_mlwid(&mut self, _wid: usize) {}
    fn enter_context(&mut self, _id: usize) {}
    fn read_u32(&mut self, addr: u64) -> u32 {
        self.reads.push(addr);
        self.value as u32
    }
    fn read_u64(&mut self, addr: u64) -> u64 {
        self.reads.push(addr);
        self.value
    }
    fn write_u32(&mut self, addr: u64, value: u32) {
        self.writes.push((addr, value as u64));
    }
    fn write_u64(&mut self, addr: u64, value: u64) {
        self.writes.push((addr, value));
    }
    fn wg_region_init(&mut self, start: usize, size: usize, perm: u64, allow_overlap: bool) -> Result<usize, Error> {
        self.region_inits.push((start, size, perm, allow_overlap));
        Ok(40 + self.region_inits.len())
    }
    fn wg_set(&mut self, region: usize) -> Result<(), Error> {
        self.sets.push(region);
        Ok(())
    }
    fn wg_region_free(&mut self, region: usize) -> Result<(), Error> {
        self.frees.push(region);
        Err(Error::RegionInvalid)
    }
}

#[test]
fn world_permissions() {
    assert_eq!(world_rw_perm(0), 0x3);
    assert_eq!(world_rw_perm(1), 0xc);
    assert_eq!(world_rw_perm(3), 0xc0);
    assert_eq!(world_rw_perm(7), 0xc000);
    assert_eq!(world_rw_perm(31), 0xc000_0000_0000_0000);
    for a in 0..32 {
        for b in 0..32 {
            if a != b {
                assert_eq!(world_rw_perm(a) & world_rw_perm(b), 0);
            }
        }
    }
}

#[test]
fn isolator_regions() {
    let mut p = Machine::new(Regs::default());
    assert_eq!(region_init(&mut p, 0x9000_0000, 0x1000, 2, false), Ok(41));
    assert_eq!(p.platform().region_inits, vec![(0x9000_0000, 0x1000, 0x30, true)]);
    assert_eq!(p.platform().sets, vec![41]);
    assert_eq!(vyond_monitor::isolator::region_free(&mut p, 41), Err(Error::RegionInvalid));
    assert_eq!(p.platform().frees, vec![41]);
    assert_eq!(set_isolator(41), Ok(()));
    assert_eq!(reset_isolator(41), Ok(()));
    assert_eq!(update(), Ok(()));
}

#[test]
fn isolator_boot_records() {
    let mut p = Machine::new(Regs { value: 16, ..Default::default() });
    let mut s = IsolatorState::new();
    assert_eq!(s.smm_init(&mut p, 3), Ok(()));
    assert_eq!(s.sm_region_id(), 41);
    // flash and uart: the slot past the last one is opened to all worlds
    assert!(p.platform().writes.contains(&((WGC_FLASH_BASE + 0x20 + 16 * 0x20 + 8) as u64, 0xff)));
    assert!(p.platform().writes.contains(&((WGC_UART_BASE + 0x20 + 16 * 0x20 + 8) as u64, 0xff)));
    assert_eq!(s.osm_init(&mut p, 2), Ok(()));
    assert_eq!(s.os_region_id(), 42);
    s.sm_init_done();
    s.sm_wait_for_completion();
}

#[test]
fn once_cell_keeps_the_first_value() {
    let mut c: OnceCell<usize> = OnceCell::new();
    assert_eq!(c.get(), None);
    c.set(4);
    assert_eq!(c.get(), Some(&4));
    c.set(5);
    assert_eq!(c.get(), Some(&4));
}

#[test]
fn raw_spin_lock() {
    let l = RawSpinLock::new();
    assert!(l.try_lock());
    assert!(!l.try_lock());
    assert!(!l.try_acquire());
    l.unlock();
    assert!(l.try_acquire());
    assert!(!l.try_lock());
    l.unlock();
}

#[test]
fn spin_lock_guards_its_data() {
    let mut s = SpinLock::new(7u32);
    assert_eq!(*s.get(), 7);
    *s.get_mut() = 8;
    {
        let g = s.try_lock().ok().unwrap();
        assert_eq!(*g.get(), 8);
        assert!(matches!(s.try_lock(), Err(spinlock::Error::Undefined)));
        g.release();
    }
    assert!(s.try_lock().is_ok());
    assert_eq!(s.into_inner(), 8);
}

#[test]
fn checkers_are_handed_out_once() {
    let mut taken = false;
    let c = WGCheckers::take(&mut taken).unwrap();
    assert_eq!(c.dmem.base, WGC_DRAM_BASE);
    assert_eq!(c.flash.base, 0x600_1000);
    assert_eq!(c.uart.base, 0x600_2000);
    assert!(taken);
    assert!(WGCheckers::take(&mut taken).is_none());
    let again = WGCheckers::steal(&mut taken);
    assert_eq!(again.uart.base, WGC_UART_BASE);
}

#[test]
fn checker_registers() {
    let mut p = Machine::new(Regs { value: 0x0100, ..Default::default() });
    let mut c = WGChecker::new(0x600_0000);
    assert_eq!(c.get_vendor(&mut p), 0x100);
    c.get_impid(&mut p);
    c.get_nslots(&mut p);
    c.get_errcause(&mut p);
    c.get_erraddr(&mut p);
    assert_eq!(p.platform().reads, vec![0x600_0000, 0x600_0004, 0x600_0008, 0x600_0010, 0x600_0018]);
    assert_eq!(c.slot_base(2), 0x600_0060);
    c.set_slot_addr(&mut p, 2, 0xaa);
    c.set_slot_perm(&mut p, 2, 0xbb);
    c.set_slot_cfg(&mut p, 2, 0xcc);
    c.set_erraddr(&mut p, 0xdd);
    assert_eq!(p.platform().writes, vec![(0x600_0060, 0xaa), (0x600_0068, 0xbb), (0x600_0070, 0xcc), (0x600_0018, 0xdd)]);
    let seen = p.platform().reads.len();
    c.get_slot_addr(&mut p, 1);
    c.get_slot_perm(&mut p, 1);
    c.get_slot_cfg(&mut p, 1);
    assert_eq!(p.platform().reads[seen..].to_vec(), vec![0x600_0040, 0x600_0048, 0x600_0050]);
    // the error cause keeps its bits and gains the world and the flags
    let seen = p.platform().writes.len();
    c.set_errcause(&mut p, 3, true, false, false, true);
    assert_eq!(p.platform().writes[seen..].to_vec(), vec![(0x600_0010, 0x8000_0000_0000_0103)]);
}

#[test]
fn errcause_values() {
    assert_eq!(errcause_merge(0, 2, false, false, false, false), 2);
    assert_eq!(errcause_merge(0, 1, true, true, false, false), 0x301);
    assert_eq!(errcause_merge(0x10, 0, false, false, true, false), 0x4000_0000_0000_0010);
    assert_eq!(errcause_merge(0xff00, 5, true, true, true, true), 0xc000_0000_0000_ff05);
}

#[test]
fn slot_address_encodings() {
    assert_eq!(napot_addr(0x8000_0000, 0x20_0000), 0x2003_ffff);
    assert_eq!(tor_addr(0x8020_0000), 0x2008_0000);
    assert_eq!(napot_addr(0x1000, 8), 0x400);
}

#[test]
fn dram_boot_configuration() {
    let slots = dram_boot_slots();
    assert_eq!(
        slots,
        vec![
            SlotConfig { idx: 1, cfg: 0xf03, addr: 0x2003_ffff, perm: 0xc0 },
            SlotConfig { idx: 2, cfg: 0xf01, addr: 0x2008_0000, perm: 0xf0 },
            SlotConfig { idx: 3, cfg: 0xf01, addr: u64::MAX >> 3, perm: 0xf0 },
        ]
    );
    let mut p = Machine::new(Regs::default());
    let mut dram = wg_sm::WGChecker { base: WGC_DRAM_BASE };
    configure_boot_dram(&mut dram, &mut p);
    assert_eq!(
        p.platform().writes,
        vec![
            (0x600_0058, 0xf03), (0x600_0048, 0x2003_ffff), (0x600_0050, 0xc0),
            (0x600_0080, 0xf01), (0x600_0070, 0x2008_0000), (0x600_0078, 0xf0),
            (0x600_00a8, 0xf01), (0x600_0098, u64::MAX >> 3), (0x600_00a0, 0xf0),
        ]
    );
    let mut p = Machine::new(Regs { value: 4, ..Default::default() });
    let mut flash = wg_sm::WGChecker { base: WGC_FLASH_BASE };
    assert_eq!(grant_last_slot(&mut flash, &mut p, 0xf0), 4);
    assert_eq!(p.platform().writes, vec![(0x600_10c8, 0xf0)]);
}

#[test]
fn boot_sets_the_checkers_up_once() {
    let mut p = Machine::new(Regs { value: 4, ..Default::default() });
    let mut taken = false;
    let b = boot_checkers(&mut p, &mut taken).unwrap();
    assert!(taken);
    assert_eq!(b.checkers.dmem.base, WGC_DRAM_BASE);
    assert_eq!(b.checkers.flash.base, WGC_FLASH_BASE);
    assert_eq!((b.flash_nslots, b.uart_nslots), (4, 4));
    let writes = &p.platform().writes;
    assert_eq!(writes.len(), 11);
    assert_eq!(writes[0], (0x600_0058, 0xf03));
    assert_eq!(writes[9], (0x600_10c8, 0xf0));
    assert_eq!(writes[10], (0x600_20c8, 0xf0));
    assert_eq!(p.platform().reads, vec![0x600_1008, 0x600_2008]);
    assert!(boot_checkers(&mut p, &mut taken).is_none());
    assert_eq!(p.platform().writes.len(), 11);
}

#[test]
fn boot_firmware_checker_registers() {
    let mut p = Machine::new(Regs { value: 0x0100, ..Default::default() });
    let mut c = wg_sm::WGChecker { base: 0x600_0000 };
    assert_eq!(c.get_vendor(&mut p), 0x100);
    c.get_impid(&mut p);
    c.get_nslots(&mut p);
    c.get_errcause(&mut p);
    // this firmware reads the error cause register as the error address
    c.get_erraddr(&mut p);
    assert_eq!(p.platform().reads, vec![0x600_0000, 0x600_0004, 0x600_0008, 0x600_0010, 0x600_0010]);
    // slots are 0x28 bytes apart
    assert_eq!(c.slot_base(2), 0x600_0070);
    c.set_slot_addr(&mut p, 2, 0xaa);
    c.set_slot_perm(&mut p, 2, 0xbb);
    c.set_slot_cfg(&mut p, 2, 0xcc);
    c.set_erraddr(&mut p, 0xdd);
    assert_eq!(p.platform().writes, vec![(0x600_0070, 0xaa), (0x600_0078, 0xbb), (0x600_0080, 0xcc), (0x600_0018, 0xdd)]);
    let seen = p.platform().reads.len();
    c.get_slot_addr(&mut p, 1);
    c.get_slot_perm(&mut p, 1);
    c.get_slot_cfg(&mut p, 1);
    assert_eq!(p.platform().reads[seen..].to_vec(), vec![0x600_0048, 0x600_0050, 0x600_0058]);
    let seen = p.platform().writes.len();
    c.set_errcause(&mut p, 1, false, true, false, false);
    assert_eq!(p.platform().writes[seen..].to_vec(), vec![(0x600_0010, 0x0100 | 0x201)]);
}
