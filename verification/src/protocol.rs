//! Wire-level constants of the HTU21D register protocol, and the pure
//! decoding steps for raw humidity samples.

use vstd::prelude::*;

verus! {

/// Fixed 7-bit bus address of the HTU21D device family.
pub const ADDRESS: u8 = 0x40;

/// Command code: trigger/read a temperature measurement.
pub const CMD_READ_TEMP: u8 = 0xE3;

/// Command code: trigger/read a humidity measurement.
pub const CMD_READ_HUM: u8 = 0xE5;

/// Command code: write the user (configuration) register.
pub const CMD_WRITE_USER_REG: u8 = 0xE6;

/// Command code: read the user (configuration) register.
pub const CMD_READ_USER_REG: u8 = 0xE7;

/// Command code: soft reset of the device.
pub const CMD_SOFT_RESET: u8 = 0xFE;

/// Mask that clears the two low status bits of the second humidity byte.
pub const STATUS_MASK: u8 = 0xFC;

/// The closed set of register operations the device understands.
#[derive(Copy, Clone)]
pub enum Register {
    READTEMP,
    READHUM,
    WRITEREG,
    READREG,
    RESET,
}

impl Register {
    /// The single-byte command code of this register operation.
    pub open spec fn spec_addr(self) -> u8 {
        match self {
            Register::READTEMP => CMD_READ_TEMP,
            Register::READHUM => CMD_READ_HUM,
            Register::WRITEREG => CMD_WRITE_USER_REG,
            Register::READREG => CMD_READ_USER_REG,
            Register::RESET => CMD_SOFT_RESET,
        }
    }

    /// Get register address.
    pub fn addr(&self) -> (code: u8)
        ensures
            code == self.spec_addr(),
    {
        match self {
            Register::READTEMP => CMD_READ_TEMP,
            Register::READHUM => CMD_READ_HUM,
            Register::WRITEREG => CMD_WRITE_USER_REG,
            Register::READREG => CMD_READ_USER_REG,
            Register::RESET => CMD_SOFT_RESET,
        }
    }
}

/// The second humidity byte with its two low status bits cleared.
pub open spec fn spec_mask_status(b: u8) -> u8 {
    b & STATUS_MASK
}

/// Clear the two low status bits of a raw humidity byte.
pub fn mask_status(b: u8) -> (r: u8)
    ensures
        r == spec_mask_status(b),
{
    b & STATUS_MASK
}

/// Clearing the status bits twice yields the same byte as clearing them once.
pub proof fn lemma_mask_status_idempotent(b: u8)
    ensures
        spec_mask_status(spec_mask_status(b)) == spec_mask_status(b),
{
    assert((b & 0xFC) & 0xFC == b & 0xFC) by (bit_vector);
}

/// The 16-bit raw humidity sample: `b0` is the low byte and `b1`, with its
/// status bits cleared, is the high byte.
pub open spec fn spec_raw_humidity(b0: u8, b1: u8) -> u16 {
    (b0 + spec_mask_status(b1) * 0x100) as u16
}

/// Compose the 16-bit raw humidity sample from the first two response bytes.
pub fn raw_humidity(b0: u8, b1: u8) -> (raw: u16)
    ensures
        raw == spec_raw_humidity(b0, b1),
{
    let masked = mask_status(b1);
    assert(b1 & 0xFC <= 0xFC) by (bit_vector);
    b0 as u16 + masked as u16 * 0x100
}

} // verus!
