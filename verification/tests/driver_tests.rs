use htu21df::sim::user_register_round_trip;
use htu21df::sim::SIM_USER_REG_DEFAULT;
use htu21df::FailBus;
use htu21df::Htu21df;
use htu21df::Register;
use htu21df::SimBus;
use htu21df::SimError;

#[test]
fn construction_resets_and_succeeds() {
    let sim = SimBus::new(0, 0, 0);
    let drv = Htu21df::new(sim);
    assert!(drv.is_ok());
}

#[test]
fn construction_fails_when_reset_fails() {
    let drv = Htu21df::new(FailBus {});
    assert!(matches!(drv, Err(SimError)));
}

#[test]
fn operations_propagate_transport_failure() {
    let mut drv = Htu21df { i2c: FailBus {} };
    assert!(drv.reset().is_err());
    assert!(drv.write_register(Register::WRITEREG, 0x55).is_err());
    assert!(drv.get_user_reg().is_err());
    assert!(drv.get_humidity_raw().is_err());
}

#[test]
fn user_register_write_then_read_returns_written_value() {
    let sim = SimBus::new(0, 0, 0);
    let mut drv = Htu21df::new(sim).unwrap();
    drv.write_register(Register::WRITEREG, 0x3A).unwrap();
    assert_eq!(drv.get_user_reg(), Ok(0x3A));
}

#[test]
fn round_trip_harness_returns_written_value() {
    assert_eq!(user_register_round_trip(0x00), Ok(0x00));
    assert_eq!(user_register_round_trip(0x42), Ok(0x42));
    assert_eq!(user_register_round_trip(0xFF), Ok(0xFF));
}

#[test]
fn reset_restores_default_user_register() {
    let sim = SimBus::new(0, 0, 0);
    let mut drv = Htu21df::new(sim).unwrap();
    drv.write_register(Register::WRITEREG, 0x77).unwrap();
    assert_eq!(drv.get_user_reg(), Ok(0x77));
    drv.reset().unwrap();
    assert_eq!(drv.get_user_reg(), Ok(SIM_USER_REG_DEFAULT));
}

#[test]
fn fresh_device_reads_default_user_register() {
    let sim = SimBus::new(0, 0, 0);
    let mut drv = Htu21df::new(sim).unwrap();
    assert_eq!(drv.get_user_reg(), Ok(SIM_USER_REG_DEFAULT));
}

#[test]
fn humidity_read_decodes_reference_sample() {
    let sim = SimBus::new(0x4E, 0x85, 0x00);
    let mut drv = Htu21df::new(sim).unwrap();
    assert_eq!(drv.get_humidity_raw(), Ok(33870));
}

#[test]
fn humidity_read_discards_third_byte() {
    let a = SimBus::new(0x4E, 0x85, 0x00);
    let b = SimBus::new(0x4E, 0x85, 0xC7);
    let mut drv_a = Htu21df::new(a).unwrap();
    let mut drv_b = Htu21df::new(b).unwrap();
    assert_eq!(drv_a.get_humidity_raw(), drv_b.get_humidity_raw());
}

#[test]
fn humidity_read_masks_status_bits() {
    // 0x87 and 0x84 as the high byte give the same sample
    let a = SimBus::new(0x10, 0x87, 0x00);
    let b = SimBus::new(0x10, 0x84, 0x00);
    let mut drv_a = Htu21df::new(a).unwrap();
    let mut drv_b = Htu21df::new(b).unwrap();
    assert_eq!(drv_a.get_humidity_raw(), Ok(0x8410));
    assert_eq!(drv_b.get_humidity_raw(), Ok(0x8410));
}
