use axhal::watchdog_qemu::{watchdog_init, UnlockStage, WatchDog, WatchDog_Config};

#[test]
fn config_space_reports_device_identity() {
    let config = WatchDog_Config::new(0xffff_0040_1001_0000);
    assert_eq!(config.id(), 0x8086_25ab);
}

#[test]
fn enable_mem_sets_command_bit_1() {
    let mut config = WatchDog_Config::new(0xffff_0040_1001_0000);
    config.enable_mem();
    assert_eq!(config.com, 0x0002);
    // read-modify-write: other command bits stay
    config.com = 0x0005;
    config.enable_mem();
    assert_eq!(config.com, 0x0007);
}

#[test]
fn set_bar_programs_the_memory_window() {
    let mut config = WatchDog_Config::new(0xffff_0040_1001_0000);
    config.set_bar();
    assert_eq!(config.bar, 0x1000_8000);
}

#[test]
fn set_wdt_lock_sets_bit_1() {
    let mut config = WatchDog_Config::new(0xffff_0040_1001_0000);
    config.set_wdt_lock();
    assert_eq!(config.wdt_lock, 0x02);
}

#[test]
fn preload_write_without_unlock_has_no_effect() {
    let mut wdt = WatchDog::new(0xffff_0000_1000_8000);
    wdt.write_preload_1_reg(0x55);
    assert_eq!(wdt.read_preload_value_1(), 0);

    // unlock immediately before: the write takes effect, read back
    wdt.unlock_wdt();
    wdt.write_preload_1_reg(0x55);
    assert_eq!(wdt.read_preload_value_1(), 0x55);
}

#[test]
fn half_unlock_is_not_enough() {
    let mut wdt = WatchDog::new(0xffff_0000_1000_8000);
    wdt.write_wdt_load(0x80);
    wdt.write_preload_2_reg(0x99);
    assert_eq!(wdt.read_preload_value_2(), 0);
}

#[test]
fn each_guarded_write_locks_again() {
    let mut wdt = WatchDog::new(0xffff_0000_1000_8000);
    wdt.unlock_wdt();
    assert_eq!(wdt.stage, UnlockStage::Unlocked);
    wdt.write_preload_1_reg(1);
    assert_eq!(wdt.stage, UnlockStage::Locked);
    // a second write without a fresh unlock has no effect
    wdt.write_preload_1_reg(2);
    assert_eq!(wdt.read_preload_value_1(), 1);
}

#[test]
fn set_preload_values_take_effect() {
    let mut wdt = WatchDog::new(0xffff_0000_1000_8000);
    wdt.set_preload_value_1(0xdead);
    wdt.set_preload_value_2(0xbeef);
    assert_eq!(wdt.read_preload_value_1(), 0xdead);
    assert_eq!(wdt.read_preload_value_2(), 0xbeef);
}

#[test]
fn reset_kicks_the_countdown_once() {
    let mut wdt = WatchDog::new(0xffff_0000_1000_8000);
    wdt.reset();
    assert_eq!(wdt.reloads, 1);
    assert_eq!(wdt.stage, UnlockStage::Locked);
}

#[test]
fn reload_kick_without_unlock_has_no_effect() {
    let mut wdt = WatchDog::new(0xffff_0000_1000_8000);
    wdt.write_wdt_load(0x0100);
    assert_eq!(wdt.reloads, 0);
}

#[test]
fn watchdog_init_configures_and_kicks() {
    let (config, wdt) = watchdog_init();
    assert_eq!(config.bar, 0x1000_8000);
    assert_eq!(config.com & 2, 2);
    assert_eq!(config.wdt_lock & 2, 2);
    assert_eq!(wdt.reloads, 1);
    assert_eq!(wdt.stage, UnlockStage::Locked);
    assert_eq!(wdt.read_wdt_int_status(), 0);
}
