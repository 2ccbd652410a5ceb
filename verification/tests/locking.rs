use axhal::lock::{Context, IrqSafeLock, ReaderPhase, TwoContextComparator, WriterPhase};
use axhal::mem::{phys_to_virt, phys_to_virt_addr};

#[test]
fn lock_saves_and_restores_interrupt_state() {
    let mut lock = IrqSafeLock::new();
    lock.acquire(true);
    assert!(lock.locked);
    assert!(lock.release());
    assert!(!lock.locked);
    lock.acquire(false);
    assert!(!lock.release());
}

#[test]
fn reader_blocked_while_writer_holds_the_lock() {
    let old_val: u64 = 0x0000_0001_ffff_ffff;
    let new_val: u64 = 0x0000_0002_0000_0000;
    let mut m = TwoContextComparator::start(old_val, new_val);

    assert!(m.step(Context::Writer)); // acquire
    assert!(m.step(Context::Writer)); // store high word: comparator torn
    assert_eq!(m.writer, WriterPhase::WWroteHigh);

    // the reader cannot enter while the writer holds the lock
    assert!(!m.step(Context::Reader));

    assert!(m.step(Context::Writer)); // store low word
    assert!(m.step(Context::Writer)); // release

    assert!(m.step(Context::Reader)); // acquire
    assert!(m.step(Context::Reader)); // load high
    assert!(m.step(Context::Reader)); // load low
    assert!(m.step(Context::Reader)); // release
    assert_eq!(m.reader, ReaderPhase::RDone);
    assert_eq!(m.observed(), new_val);
}

#[test]
fn reader_first_observes_the_old_value() {
    let old_val: u64 = 0x1111_1111_2222_2222;
    let new_val: u64 = 0x3333_3333_4444_4444;
    let mut m = TwoContextComparator::start(old_val, new_val);

    assert!(m.step(Context::Reader)); // acquire
    assert!(m.step(Context::Reader)); // load high

    // now the writer cannot enter mid-read
    assert!(!m.step(Context::Writer));

    assert!(m.step(Context::Reader)); // load low
    assert!(m.step(Context::Reader)); // release
    assert_eq!(m.observed(), old_val);

    // the writer proceeds afterwards, untangled
    assert!(m.step(Context::Writer));
    assert!(m.step(Context::Writer));
    assert!(m.step(Context::Writer));
    assert!(m.step(Context::Writer));
    assert_eq!(m.writer, WriterPhase::WDone);
}

#[test]
fn every_interleaving_observes_a_complete_value() {
    let old_val: u64 = 0x0000_00aa_0000_00bb;
    let new_val: u64 = 0x0000_00cc_0000_00dd;
    // drive the two contexts under every schedule of their eight steps
    for schedule in 0..256u32 {
        let mut m = TwoContextComparator::start(old_val, new_val);
        let mut bit = 0;
        let mut steps = 0;
        while steps < 64 {
            let ctx = if (schedule >> (bit & 7)) & 1 == 0 {
                Context::Writer
            } else {
                Context::Reader
            };
            m.step(ctx);
            let other = match ctx {
                Context::Writer => Context::Reader,
                Context::Reader => Context::Writer,
            };
            m.step(other);
            bit += 1;
            steps += 1;
            if m.reader == ReaderPhase::RDone && m.writer == WriterPhase::WDone {
                break;
            }
        }
        assert_eq!(m.reader, ReaderPhase::RDone);
        let seen = m.observed();
        assert!(seen == old_val || seen == new_val);
    }
}

#[test]
fn linear_mapping_translates_addresses() {
    assert_eq!(phys_to_virt(0x0903_0000), 0xffff_0000_0903_0000);
    assert_eq!(phys_to_virt(0), 0xffff_0000_0000_0000);

    let pa = memory_addr::PhysAddr::from_usize(0x2804_0000);
    let va = phys_to_virt_addr(pa);
    assert_eq!(va.as_usize(), 0xffff_0000_2804_0000);
}
