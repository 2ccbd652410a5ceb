use axhal::pl061::Pl061Regs;

#[test]
fn interrupt_enable_round_trip_all_pins() {
    for p in 0..8u32 {
        let mut gpio = Pl061Regs::new(0xffff_0000_0903_0000);
        gpio.write_ie(1 << p);
        assert_eq!(gpio.read_ie(), 1 << p);
    }
}

#[test]
fn interrupt_enable_ignores_unwired_bits() {
    let mut gpio = Pl061Regs::new(0xffff_0000_0903_0000);
    gpio.write_ie(0xffff_ff00);
    assert_eq!(gpio.read_ie(), 0);
    gpio.write_ie(0x1ff);
    assert_eq!(gpio.read_ie(), 0xff);
}

#[test]
fn clear_semantics_per_pin() {
    for p in 0..8u32 {
        let mut gpio = Pl061Regs::new(0xffff_0000_0903_0000);
        gpio.latch_events(1 << p);
        assert_eq!(gpio.read_ris() & (1 << p), 1 << p);
        gpio.write_ic(1 << p);
        assert_eq!(gpio.read_ris() & (1 << p), 0);
    }
}

#[test]
fn clear_leaves_other_pins_pending() {
    let mut gpio = Pl061Regs::new(0xffff_0000_0903_0000);
    gpio.latch_events(0b1010_0001);
    gpio.write_ic(0b0010_0000);
    assert_eq!(gpio.read_ris(), 0b1000_0001);
}

#[test]
fn masked_status_is_raw_and_enable() {
    let mut gpio = Pl061Regs::new(0xffff_0000_0903_0000);
    gpio.latch_events(0xff);
    gpio.write_ie(0x08);
    assert_eq!(gpio.read_mis(), 0x08);
    assert_eq!(gpio.read_ris(), 0xff);
}
