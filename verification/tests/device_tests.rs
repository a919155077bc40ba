use pca963x::{
    Address, Channels4, Channels8, Config, LedOut, SimEvent, SimTransport, PCA9633, PCA9634,
    PCA963X,
};

fn expect_write(ev: &SimEvent, addr: u8, data: &[u8], ok: bool) {
    match ev {
        SimEvent::Write { addr: a, data: d, ok: o } => {
            assert_eq!(*a, addr);
            assert_eq!(d.as_slice(), data);
            assert_eq!(*o, ok);
        },
        SimEvent::Read { .. } => panic!("expected a write transaction"),
    }
}

#[test]
fn address_resolution_examples() {
    assert_eq!(Address::_8Pin.address(), 0x62);
    assert_eq!(Address::_10Pin { a0: true, a1: false }.address(), 0x61);
    assert_eq!(Address::_10Pin { a0: false, a1: true }.address(), 0x62);
    let only_a3 = Address::_16Pin {
        a0: false,
        a1: false,
        a2: false,
        a3: true,
        a4: false,
        a5: false,
        a6: false,
    };
    assert_eq!(only_a3.address(), 0x08);
    assert_eq!(Address::Custom(0x55).address(), 0x55);
}

#[test]
fn address_resolution_is_deterministic() {
    let descriptor = Address::_10Pin { a0: true, a1: true };
    assert_eq!(descriptor.address(), descriptor.address());
    assert_eq!(descriptor.address(), 0x63);
}

#[test]
fn write_config_is_one_auto_increment_write_4ch() {
    let mut dev = PCA9633::new(SimTransport::new(), Address::Custom(0x20));
    dev.write_config(Config::default()).unwrap();
    let sim = dev.free();
    let ev = sim.events();
    assert_eq!(ev.len(), 1);
    expect_write(&ev[0], 0x20, &[0x80, 0b0001_0001, 0b0000_0101], true);
}

#[test]
fn write_config_is_one_auto_increment_write_8ch() {
    let mut dev = PCA9634::new(SimTransport::new(), Address::_8Pin);
    dev.write_config(Config::new().blink(true)).unwrap();
    let sim = dev.free();
    let ev = sim.events();
    assert_eq!(ev.len(), 1);
    expect_write(&ev[0], 0x62, &[0x80, 0b0000_0001, 0b0010_0101], true);
}

#[test]
fn new_config_writes_during_construction() {
    let dev = PCA9633::new_config(SimTransport::new(), Address::Custom(0x41), Config::new())
        .unwrap();
    let sim = dev.free();
    let ev = sim.events();
    assert_eq!(ev.len(), 1);
    expect_write(&ev[0], 0x41, &[0x80, 0b0000_0001, 0b0000_0101], true);
}

#[test]
fn new_config_propagates_transport_failure() {
    let result = PCA9633::new_config(
        SimTransport::failing_after(0),
        Address::_8Pin,
        Config::default(),
    );
    assert!(result.is_err());
}

#[test]
fn duty_round_trip_4ch() {
    let mut dev = PCA9633::new(SimTransport::new(), Address::_8Pin);
    dev.write_duty(Channels4::_2, 0x7E).unwrap();
    assert_eq!(dev.read_duty(Channels4::_2).unwrap(), 0x7E);
}

#[test]
fn duty_round_trip_8ch() {
    let mut dev = PCA9634::new(SimTransport::new(), Address::_8Pin);
    dev.write_duty(Channels8::_7, 0xAB).unwrap();
    assert_eq!(dev.read_duty(Channels8::_7).unwrap(), 0xAB);
    // An untouched channel keeps its reset value.
    assert_eq!(dev.read_duty(Channels8::_1).unwrap(), 0x00);
}

#[test]
fn duty_registers_follow_channel_offsets() {
    let mut dev = PCA9634::new(SimTransport::new(), Address::_8Pin);
    dev.write_duty(Channels8::_6, 0x33).unwrap();
    let sim = dev.free();
    // PWM base 0x02, channel offset 5.
    expect_write(&sim.events()[0], 0x62, &[0x07, 0x33], true);
    assert_eq!(sim.reg(0x07), 0x33);
}

#[test]
fn write_out_targets_second_ledout_register_8ch() {
    // Channel _6 has offset 5: register 0x0C + 5/4 = 0x0D, bit-shift
    // (5 % 4) * 2 = 2.
    let mut dev = PCA9634::new(SimTransport::new(), Address::_8Pin);
    dev.write(0x0D, 0xF1).unwrap();
    dev.write_out(Channels8::_6, LedOut::Pwm).unwrap();
    let sim = dev.free();
    let ev = sim.events();
    assert_eq!(ev.len(), 4);
    expect_write(&ev[1], 0x62, &[0x0D], true);
    match &ev[2] {
        SimEvent::Read { addr, data, ok } => {
            assert_eq!(*addr, 0x62);
            assert_eq!(data.as_slice(), &[0xF1]);
            assert!(*ok);
        },
        SimEvent::Write { .. } => panic!("expected a read transaction"),
    }
    // 0xF1 with the two-bit field at shift 2 replaced by code 2.
    expect_write(&ev[3], 0x62, &[0x0D, 0xF9], true);
    assert_eq!(sim.reg(0x0D), 0xF9);
}

#[test]
fn write_out_targets_first_ledout_register_4ch() {
    // Channel _3 has offset 2: register 0x08, bit-shift 4.
    let mut dev = PCA9633::new(SimTransport::new(), Address::_8Pin);
    dev.write_out(Channels4::_3, LedOut::PwmGroup).unwrap();
    let sim = dev.free();
    let ev = sim.events();
    assert_eq!(ev.len(), 3);
    expect_write(&ev[0], 0x62, &[0x08], true);
    expect_write(&ev[2], 0x62, &[0x08, 0b0011_0000], true);
}

#[test]
fn write_out_replaces_only_its_channel_field() {
    let mut dev = PCA9633::new(SimTransport::new(), Address::_8Pin);
    dev.write_out(Channels4::_1, LedOut::FullyOn).unwrap();
    dev.write_out(Channels4::_2, LedOut::Pwm).unwrap();
    dev.write_out(Channels4::_1, LedOut::FullyOff).unwrap();
    let sim = dev.free();
    // Channel 2's field (code 2 at shift 2) survives both writes to
    // channel 1's field.
    assert_eq!(sim.reg(0x08), 0b0000_1000);
}

#[test]
fn write_out_stops_after_failed_read() {
    // The select write succeeds, the read fails: no write may follow.
    let mut dev = PCA9633::new(SimTransport::failing_after(1), Address::_8Pin);
    assert!(dev.write_out(Channels4::_1, LedOut::FullyOn).is_err());
    let sim = dev.free();
    let ev = sim.events();
    assert_eq!(ev.len(), 2);
    expect_write(&ev[0], 0x62, &[0x08], true);
    match &ev[1] {
        SimEvent::Read { ok, .. } => assert!(!*ok),
        SimEvent::Write { .. } => panic!("expected a read transaction"),
    }
    // The register file is untouched.
    assert_eq!(sim.reg(0x08), 0x00);
}

#[test]
fn write_out_stops_after_failed_select_write() {
    let mut dev = PCA9634::new(SimTransport::failing_after(0), Address::_8Pin);
    assert!(dev.write_out(Channels8::_2, LedOut::Pwm).is_err());
    let sim = dev.free();
    let ev = sim.events();
    assert_eq!(ev.len(), 1);
    expect_write(&ev[0], 0x62, &[0x0C], false);
}

#[test]
fn read_propagates_transport_failure() {
    let mut dev = PCA9633::new(SimTransport::failing_after(0), Address::_8Pin);
    assert!(dev.read(0x00).is_err());
    let mut dev2 = PCA9634::new(SimTransport::failing_after(1), Address::_8Pin);
    assert!(dev2.read(0x00).is_err());
}

#[test]
fn write_propagates_transport_failure() {
    let mut dev = PCA9633::new(SimTransport::failing_after(0), Address::_8Pin);
    assert!(dev.write(0x02, 0x10).is_err());
    let sim = dev.free();
    expect_write(&sim.events()[0], 0x62, &[0x02, 0x10], false);
}

#[test]
fn group_registers_differ_by_variant() {
    let mut dev4 = PCA9633::new(SimTransport::new(), Address::_8Pin);
    dev4.write_group_duty(0x40).unwrap();
    dev4.write_group_freq(0x11).unwrap();
    let sim4 = dev4.free();
    expect_write(&sim4.events()[0], 0x62, &[0x06, 0x40], true);
    expect_write(&sim4.events()[1], 0x62, &[0x07, 0x11], true);

    let mut dev8 = PCA9634::new(SimTransport::new(), Address::_8Pin);
    dev8.write_group_duty(0x40).unwrap();
    dev8.write_group_freq(0x11).unwrap();
    let sim8 = dev8.free();
    expect_write(&sim8.events()[0], 0x62, &[0x0A, 0x40], true);
    expect_write(&sim8.events()[1], 0x62, &[0x0B, 0x11], true);
}

#[test]
fn sub_addresses_are_left_shifted() {
    let mut dev = PCA9633::new(SimTransport::new(), Address::_8Pin);
    dev.write_sub_address1(0x45).unwrap();
    dev.write_sub_address2(0x46).unwrap();
    dev.write_sub_address3(0x47).unwrap();
    dev.write_all_call_address1(0x70).unwrap();
    let sim = dev.free();
    let ev = sim.events();
    expect_write(&ev[0], 0x62, &[0x09, 0x8A], true);
    expect_write(&ev[1], 0x62, &[0x0A, 0x8C], true);
    expect_write(&ev[2], 0x62, &[0x0B, 0x8E], true);
    expect_write(&ev[3], 0x62, &[0x0C, 0xE0], true);

    let mut dev8 = PCA9634::new(SimTransport::new(), Address::_8Pin);
    dev8.write_sub_address1(0x45).unwrap();
    let sim8 = dev8.free();
    expect_write(&sim8.events()[0], 0x62, &[0x0E, 0x8A], true);
}

#[test]
fn write_config_lands_in_both_mode_registers() {
    // The auto-increment control byte distributes the two mode bytes
    // over MODE1 then MODE2.
    let mut dev = PCA9633::new(SimTransport::new(), Address::_8Pin);
    dev.write_config(Config::new().invert(true)).unwrap();
    let sim = dev.free();
    assert_eq!(sim.reg(0x00), 0b0000_0001);
    assert_eq!(sim.reg(0x01), 0b0001_0101);
}

#[test]
fn write_out_codes_cover_all_modes() {
    let mut dev = PCA9633::new(SimTransport::new(), Address::_8Pin);
    for (mode, code) in [
        (LedOut::FullyOff, 0x00u8),
        (LedOut::FullyOn, 0x01),
        (LedOut::Pwm, 0x02),
        (LedOut::PwmGroup, 0x03),
    ] {
        dev.write_out(Channels4::_1, mode).unwrap();
        assert_eq!(dev.read(0x08).unwrap() & 0x03, code);
    }
}

#[test]
fn custom_address_passes_through_verbatim() {
    assert_eq!(Address::Custom(0x00).address(), 0x00);
    assert_eq!(Address::Custom(0xFF).address(), 0xFF);
    let mut dev = PCA9634::new(SimTransport::new(), Address::Custom(0x7F));
    dev.write_group_duty(0x01).unwrap();
    let sim = dev.free();
    expect_write(&sim.events()[0], 0x7F, &[0x0A, 0x01], true);
}

#[test]
fn channel_offsets_match_their_numbering() {
    let chans4 = [Channels4::_1, Channels4::_2, Channels4::_3, Channels4::_4];
    for (i, ch) in chans4.iter().enumerate() {
        let mut dev = PCA9633::new(SimTransport::new(), Address::_8Pin);
        dev.write_duty(*ch, 0x10).unwrap();
        let sim = dev.free();
        expect_write(&sim.events()[0], 0x62, &[0x02 + i as u8, 0x10], true);
    }
    let chans8 = [
        Channels8::_1,
        Channels8::_2,
        Channels8::_3,
        Channels8::_4,
        Channels8::_5,
        Channels8::_6,
        Channels8::_7,
        Channels8::_8,
    ];
    for (i, ch) in chans8.iter().enumerate() {
        let mut dev = PCA9634::new(SimTransport::new(), Address::_8Pin);
        dev.write_duty(*ch, 0x10).unwrap();
        let sim = dev.free();
        expect_write(&sim.events()[0], 0x62, &[0x02 + i as u8, 0x10], true);
    }
}
