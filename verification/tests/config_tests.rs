use pca963x::{Config, Och, OutDrv, OutputDrive};

#[test]
fn test_default() {
    let config: Config = Default::default();
    assert_eq!(config.mode1_bits(), 0b0001_0001); // Per 7.3.1
    assert_eq!(config.mode2_bits(), 0b0000_0101); // Per 7.3.2
}

#[test]
fn test_sub() {
    let config: Config = Config::default().sub1(true).sub2(true).sub3(true);
    assert_eq!(config.mode1_bits(), 0b0001_1111); // Per 7.3.1
}

#[test]
fn test_all_call() {
    let config: Config = Config::default().all_call(false);
    assert_eq!(config.mode1_bits(), 0b0001_0000); // Per 7.3.1
    let config2: Config = Config::default().all_call(true);
    assert_eq!(config2.mode1_bits(), 0b0001_0001); // Per 7.3.1
}

#[test]
fn test_sleep() {
    let config: Config = Config::default().sleep(false);
    assert_eq!(config.mode1_bits(), 0b0000_0001); // Per 7.3.1
}

#[test]
fn test_blink() {
    let config: Config = Config::default().blink(true);
    assert_eq!(config.mode2_bits(), 0b0010_0101); // Per 7.3.1
}

#[test]
fn test_invert() {
    let config: Config = Config::default().invert(true);
    assert_eq!(config.mode2_bits(), 0b0001_0101); // Per 7.3.1
}

#[test]
fn test_och() {
    let config: Config = Config::default().och(Och::ChangeOnAck);
    assert_eq!(config.mode2_bits(), 0b0000_1101); // Per 7.3.1
}

#[test]
fn test_outdrv() {
    let config: Config = Config::default().out_drv(OutDrv::OpenDrain);
    assert_eq!(config.mode2_bits(), 0b0000_0001); // Per 7.3.1
}

#[test]
fn test_outne() {
    let mut config: Config = Config::default().outne(OutputDrive::OutNe00);
    assert_eq!(config.mode2_bits(), 0b0000_0100); // Per 7.3.1
    config = config.outne(OutputDrive::OutNe01);
    assert_eq!(config.mode2_bits(), 0b0000_0101); // Per 7.3.1
    config = config.outne(OutputDrive::OutNe10);
    assert_eq!(config.mode2_bits(), 0b0000_0110); // Per 7.3.1
}

#[test]
fn test_new_wakes_from_sleep() {
    let config: Config = Config::new();
    assert_eq!(config.mode1_bits(), 0b0000_0001);
    assert_eq!(config.mode2_bits(), 0b0000_0101);
}

#[test]
fn independent_setters_commute() {
    let a = Config::default().sub1(true).blink(true);
    let b = Config::default().blink(true).sub1(true);
    assert_eq!(a.mode1_bits(), b.mode1_bits());
    assert_eq!(a.mode2_bits(), b.mode2_bits());

    let c = Config::new().invert(true).sleep(true).och(Och::ChangeOnAck);
    let d = Config::new().och(Och::ChangeOnAck).invert(true).sleep(true);
    assert_eq!(c.mode1_bits(), d.mode1_bits());
    assert_eq!(c.mode2_bits(), d.mode2_bits());
}

#[test]
fn outne_is_idempotent() {
    let once = Config::default().outne(OutputDrive::OutNe10);
    let twice = once.outne(OutputDrive::OutNe10);
    assert_eq!(once.mode2_bits(), twice.mode2_bits());

    let once0 = Config::default().outne(OutputDrive::OutNe00);
    let twice0 = once0.outne(OutputDrive::OutNe00);
    assert_eq!(once0.mode2_bits(), twice0.mode2_bits());

    let once1 = Config::default().outne(OutputDrive::OutNe01);
    let twice1 = once1.outne(OutputDrive::OutNe01);
    assert_eq!(once1.mode2_bits(), twice1.mode2_bits());
}

#[test]
fn outne_never_sets_both_bits() {
    // Even from a byte where both OUTNE bits happen to be set by
    // earlier history, every mode leaves at most one of them set.
    let start = Config::default().outne(OutputDrive::OutNe01);
    for mode in [OutputDrive::OutNe00, OutputDrive::OutNe01, OutputDrive::OutNe10] {
        let bits = start.outne(mode).mode2_bits();
        assert_ne!(bits & 0b0000_0011, 0b0000_0011);
    }
}
