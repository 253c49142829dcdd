use htu21df::protocol::mask_status;
use htu21df::protocol::raw_humidity;
use htu21df::Register;
use htu21df::ADDRESS;

#[test]
fn device_address() {
    assert_eq!(ADDRESS, 0x40);
}

#[test]
fn register_codes() {
    assert_eq!(Register::READTEMP.addr(), 0xE3);
    assert_eq!(Register::READHUM.addr(), 0xE5);
    assert_eq!(Register::WRITEREG.addr(), 0xE6);
    assert_eq!(Register::READREG.addr(), 0xE7);
    assert_eq!(Register::RESET.addr(), 0xFE);
}

#[test]
fn mask_clears_low_status_bits() {
    assert_eq!(mask_status(0x85), 0x84);
    assert_eq!(mask_status(0xFF), 0xFC);
    assert_eq!(mask_status(0x03), 0x00);
    assert_eq!(mask_status(0x00), 0x00);
}

#[test]
fn mask_is_idempotent_on_every_byte() {
    for b in 0..=255u8 {
        assert_eq!(mask_status(mask_status(b)), mask_status(b));
    }
}

#[test]
fn raw_humidity_composition() {
    // byte0 is the low byte; byte1, masked, is the high byte
    assert_eq!(raw_humidity(0x4E, 0x85), 0x844E);
    assert_eq!(raw_humidity(0x4E, 0x85), 33870);
    assert_eq!(raw_humidity(0x00, 0x00), 0x0000);
    assert_eq!(raw_humidity(0xFF, 0xFF), 0xFCFF);
}

#[test]
fn humidity_formula_on_reference_sample() {
    let raw = raw_humidity(0x4E, 0x85);
    // 33870 * 125 / 65536 - 6 = 58.60196...
    let rh = raw as f32 * 125.0 / 65536.0 - 6.0;
    assert!((rh - 58.602).abs() < 0.01);
}
