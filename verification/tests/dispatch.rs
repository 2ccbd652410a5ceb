use axhal::config;
use axhal::gic::{translate_irq, ConfigError, InterruptTable, InterruptType, IrqHandler};
use axhal::platform::{
    dispatch, handle, init_gpio, platform_init, platform_init_secondary, power_gpio_init,
    DispatchOutcome, Platform, Watchdog_init,
};

#[test]
fn translate_irq_per_class() {
    assert_eq!(translate_irq(7, InterruptType::Spi), Some(39));
    assert_eq!(translate_irq(0, InterruptType::Spi), Some(32));
    assert_eq!(translate_irq(988, InterruptType::Spi), None);
    assert_eq!(translate_irq(3, InterruptType::Ppi), Some(19));
    assert_eq!(translate_irq(16, InterruptType::Ppi), None);
    assert_eq!(translate_irq(5, InterruptType::Sgi), Some(5));
    assert_eq!(translate_irq(16, InterruptType::Sgi), None);
}

#[test]
fn register_handler_rejects_second_binding() {
    let mut table = InterruptTable::new();
    assert!(table.register_handler(39, IrqHandler::GpioPowerOff));
    assert!(!table.register_handler(39, IrqHandler::WatchdogFeed));
    // the first binding is untouched
    assert_eq!(table.handler_for(39), Some(IrqHandler::GpioPowerOff));
}

#[test]
fn set_enable_is_idempotent() {
    let mut table = InterruptTable::new();
    table.set_enable(39, true);
    assert!(table.is_enabled(39));
    table.set_enable(39, true);
    assert!(table.is_enabled(39));
    table.set_enable(39, false);
    assert!(!table.is_enabled(39));
}

#[test]
fn dispatch_unbound_is_dropped() {
    let mut plat = Platform::new();
    let outcome = dispatch(&mut plat, 100);
    assert_eq!(outcome, DispatchOutcome::DroppedUnbound);
    assert_eq!(plat.power_off_count, 0);
}

#[test]
fn dispatch_disabled_is_dropped() {
    let mut plat = Platform::new();
    assert!(plat.intr.register_handler(39, IrqHandler::GpioPowerOff));
    plat.gpio.latch_events(1 << 3);
    let outcome = dispatch(&mut plat, 39);
    assert_eq!(outcome, DispatchOutcome::DroppedDisabled);
    assert_eq!(plat.power_off_count, 0);
    // the pending status is untouched: no handler ran
    assert_eq!(plat.gpio.read_ris(), 1 << 3);
}

#[test]
fn end_to_end_power_off_via_pin_3() {
    let mut plat = Platform::new();
    assert_eq!(platform_init(&mut plat), Ok(()));
    assert_eq!(plat.gpio.read_ie(), 1 << 3);

    // the hardware latches an edge on pin 3
    plat.gpio.latch_events(1 << 3);
    assert_eq!(plat.gpio.read_ris(), 1 << 3);

    let gpio_irq = translate_irq(config::GPIO_IRQ, InterruptType::Spi).unwrap();
    let outcome = dispatch(&mut plat, gpio_irq);
    assert_eq!(outcome, DispatchOutcome::Handled(IrqHandler::GpioPowerOff));
    assert_eq!(plat.gpio.read_ris(), 0);
    assert_eq!(plat.power_off_count, 1);
}

#[test]
fn platform_init_rejects_conflicting_binding() {
    let mut plat = Platform::new();
    assert!(plat.intr.register_handler(39, IrqHandler::WatchdogFeed));
    assert_eq!(
        platform_init(&mut plat),
        Err(ConfigError::HandlerAlreadyBound)
    );
    // the first binding is untouched
    assert_eq!(plat.intr.handler_for(39), Some(IrqHandler::WatchdogFeed));
}

#[test]
fn power_gpio_init_configures_pin_3_only() {
    let mut plat = Platform::new();
    assert_eq!(power_gpio_init(&mut plat), Ok(()));
    assert_eq!(plat.gpio.read_ie(), 0b1000);
    assert!(plat.intr.is_enabled(39));
    assert_eq!(plat.intr.handler_for(39), Some(IrqHandler::GpioPowerOff));
}

#[test]
fn init_gpio_matches_power_gpio_init() {
    let mut plat = Platform::new();
    assert_eq!(init_gpio(&mut plat), Ok(()));
    assert_eq!(plat.gpio.read_ie(), 1 << 3);
    assert_eq!(plat.intr.handler_for(39), Some(IrqHandler::GpioPowerOff));
}

#[test]
fn handler_clears_enabled_pins_then_powers_off() {
    let mut plat = Platform::new();
    plat.gpio.write_ie(1 << 3);
    plat.gpio.latch_events((1 << 3) | (1 << 5));
    handle(&mut plat);
    // only the enabled pin is cleared; the power-off sequence is reached once
    assert_eq!(plat.gpio.read_ris(), 1 << 5);
    assert_eq!(plat.power_off_count, 1);
}

#[test]
fn watchdog_init_binds_and_feeds() {
    let mut plat = Platform::new();
    let report = Watchdog_init(&mut plat).unwrap();
    assert!(report.enabled);
    assert!(!report.ws0);
    assert!(!report.ws1);
    assert_eq!(plat.wdt.wcs, 1);
    assert_eq!(plat.wdt.wrr, 1);
    assert!(plat.intr.is_enabled(config::WATCHDOG_IRQ_NUM));

    // a second bring-up of the same device is a configuration error
    assert_eq!(
        Watchdog_init(&mut plat),
        Err(ConfigError::HandlerAlreadyBound)
    );
}

#[test]
fn dispatch_watchdog_irq_feeds() {
    let mut plat = Platform::new();
    Watchdog_init(&mut plat).unwrap();
    plat.wdt.wrr = 0;
    let outcome = dispatch(&mut plat, config::WATCHDOG_IRQ_NUM);
    assert_eq!(outcome, DispatchOutcome::Handled(IrqHandler::WatchdogFeed));
    assert_eq!(plat.wdt.wrr, 1);
}

#[test]
fn secondary_bring_up_after_primary() {
    let mut plat = Platform::new();
    platform_init(&mut plat).unwrap();
    let percpu = platform_init_secondary(&plat);
    assert!(percpu.gic_cpu_ready);
    assert!(percpu.timer_ready);
}
