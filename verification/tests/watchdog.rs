use axhal::watchdog_phytium::WatchDog;

#[test]
fn start_and_stop_drive_the_enable_bit() {
    let mut wdt = WatchDog::new(0xffff_0000_2804_0000);
    assert_eq!(wdt.wcs, 0);
    wdt.start();
    assert_eq!(wdt.wcs, 1);
    wdt.stop();
    assert_eq!(wdt.wcs, 0);
}

#[test]
fn reload_offset_round_trip() {
    let mut wdt = WatchDog::new(0xffff_0000_2804_0000);
    wdt.set_wor(0xf00_0000);
    assert_eq!(wdt.get_wor(), 0xf00_0000);
}

#[test]
fn comparator_round_trip() {
    let mut wdt = WatchDog::new(0xffff_0000_2804_0000);
    wdt.set_wcv(0x1234_5678_9abc_def0);
    assert_eq!(wdt.wcvh, 0x1234_5678);
    assert_eq!(wdt.wcvl, 0x9abc_def0);
    assert_eq!(wdt.get_wcv(), 0x1234_5678_9abc_def0);
}

#[test]
fn comparator_round_trip_extremes() {
    let mut wdt = WatchDog::new(0xffff_0000_2804_0000);
    wdt.set_wcv(0);
    assert_eq!(wdt.get_wcv(), 0);
    wdt.set_wcv(u64::MAX);
    assert_eq!(wdt.get_wcv(), u64::MAX);
}

#[test]
fn init_decodes_identity_and_status() {
    let mut wdt = WatchDog::new(0xffff_0000_2804_0000);
    wdt.set_identity(0x0102_0304);
    let report = wdt.init();
    assert_eq!(report.version, 0x02);
    assert_eq!(report.continuation_code, 0x03);
    assert_eq!(report.identity_code, 0x04);
    assert!(report.enabled);
    assert!(!report.ws0);
    assert!(!report.ws1);
    assert_eq!(wdt.wcs, 1);
}

#[test]
fn feed_writes_the_update_register() {
    let mut wdt = WatchDog::new(0xffff_0000_2804_0000);
    wdt.feed();
    assert_eq!(wdt.wrr, 1);
}
