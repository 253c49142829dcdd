//! The sensor driver: a thin stateful wrapper over an exclusively owned
//! bus transport. Every operation's contract pins down exactly which bus
//! transactions it performs and how the result is decoded.

use vstd::prelude::*;

use crate::bus::I2cBus;
use crate::bus::Transaction;
use crate::protocol::raw_humidity;
use crate::protocol::spec_raw_humidity;
use crate::protocol::Register;
use crate::protocol::ADDRESS;
use crate::protocol::CMD_READ_HUM;
use crate::protocol::CMD_READ_TEMP;
use crate::protocol::CMD_SOFT_RESET;

verus! {

/// The single write transaction a reset performs: the soft-reset code,
/// with no payload, to the device address.
pub open spec fn reset_transaction() -> Transaction {
    Transaction::Write { addr: ADDRESS, data: seq![CMD_SOFT_RESET] }
}

/// The single write transaction of `write_register`: the register's
/// command code followed by the data byte, to the device address.
pub open spec fn write_register_transaction(reg: Register, data: u8) -> Transaction {
    Transaction::Write { addr: ADDRESS, data: seq![reg.spec_addr(), data] }
}

/// The single write-then-read transaction of `get_user_reg`: it sends the
/// temperature-read code and receives the one returned byte.
///
/// The command code really is `CMD_READ_TEMP`, not `CMD_READ_USER_REG`:
/// the behaviour preserved here reads the user register through the
/// temperature-read code. See `Htu21df::get_user_reg`.
pub open spec fn user_reg_read_transaction(b: u8) -> Transaction {
    Transaction::WriteRead { addr: ADDRESS, data: seq![CMD_READ_TEMP], response: seq![b] }
}

/// How a successful humidity read extends the transport history `pre` to
/// `post` and what raw sample it returns: exactly one write-then-read of
/// the humidity code with a 3-byte response, whose first two bytes compose
/// the sample (the third byte is discarded).
pub open spec fn humidity_read_step(pre: Seq<Transaction>, post: Seq<Transaction>, raw: u16) -> bool {
    &&& post.len() == pre.len() + 1
    &&& post.drop_last() == pre
    &&& match post.last() {
        Transaction::WriteRead { addr, data, response } => {
            &&& addr == ADDRESS
            &&& data == seq![CMD_READ_HUM]
            &&& response.len() == 3
            &&& raw == spec_raw_humidity(response[0], response[1])
        },
        Transaction::Write { .. } => false,
    }
}

/// Driver for the HTU21D sensor. It exclusively owns its bus transport
/// for its whole lifetime.
pub struct Htu21df<I2C> {
    pub i2c: I2C,
}

impl<I2C: I2cBus> Htu21df<I2C> {
    /// Creates a new driver from an I2C peripheral.
    ///
    /// Construction immediately issues a soft reset; if the transport
    /// reports failure on it, construction fails and no driver is
    /// returned. No transaction other than the reset is issued.
    pub fn new(i2c: I2C) -> (r: Result<Htu21df<I2C>, I2C::BusError>)
        ensures
            match r {
                Ok(drv) => drv.i2c.history() == i2c.history().push(reset_transaction()),
                Err(_) => true,
            },
            i2c.write_accepted(ADDRESS, seq![CMD_SOFT_RESET]) ==> r is Ok,
    {
        let mut htu21df = Htu21df { i2c };
        match htu21df.reset() {
            Ok(()) => Ok(htu21df),
            Err(e) => Err(e),
        }
    }

    /// Issues a soft reset: exactly one write of `[CMD_SOFT_RESET]` to the
    /// device address, with nothing read back. On failure the transport's
    /// error is propagated and the history is unchanged. The device falls
    /// back to its default configuration; any earlier register write is
    /// lost.
    pub fn reset(&mut self) -> (r: Result<(), I2C::BusError>)
        ensures
            match r {
                Ok(()) => final(self).i2c.history() == old(self).i2c.history().push(reset_transaction()),
                Err(_) => final(self).i2c.history() == old(self).i2c.history(),
            },
            old(self).i2c.write_accepted(ADDRESS, seq![CMD_SOFT_RESET]) ==> r is Ok,
    {
        let mut msg: Vec<u8> = Vec::new();
        msg.push(CMD_SOFT_RESET);
        proof {
            assert(msg@ =~= seq![CMD_SOFT_RESET]);
        }
        self.i2c.write(ADDRESS, &msg)
    }

    /// Writes one data byte to a register: exactly one write of
    /// `[reg_code, data]` to the device address. The data byte is not
    /// validated against the target register's accepted bit patterns;
    /// that is the caller's responsibility.
    pub fn write_register(&mut self, reg: Register, data: u8) -> (r: Result<(), I2C::BusError>)
        ensures
            match r {
                Ok(()) => final(self).i2c.history() == old(self).i2c.history().push(
                    write_register_transaction(reg, data),
                ),
                Err(_) => final(self).i2c.history() == old(self).i2c.history(),
            },
            old(self).i2c.write_accepted(ADDRESS, seq![reg.spec_addr(), data]) ==> r is Ok,
    {
        let mut msg: Vec<u8> = Vec::new();
        msg.push(reg.addr());
        msg.push(data);
        proof {
            assert(msg@ =~= seq![reg.spec_addr(), data]);
        }
        self.i2c.write(ADDRESS, &msg)
    }

    /// Reads the user (configuration) register: one combined
    /// write-then-read transaction that sends a single command code and
    /// reads one byte back, returned unmodified.
    ///
    /// The command code sent is `CMD_READ_TEMP` (`0xE3`), not
    /// `CMD_READ_USER_REG` (`0xE7`). This behaviour is preserved
    /// deliberately; whether it is a device quirk or a defect, callers
    /// relying on it must not be misled by a silent correction. The
    /// contract states the code actually sent.
    pub fn get_user_reg(&mut self) -> (r: Result<u8, I2C::BusError>)
        ensures
            match r {
                Ok(b) => final(self).i2c.history() == old(self).i2c.history().push(
                    user_reg_read_transaction(b),
                ),
                Err(_) => final(self).i2c.history() == old(self).i2c.history(),
            },
            old(self).i2c.write_read_accepted(ADDRESS, seq![CMD_READ_TEMP], 1) ==> r is Ok,
    {
        let mut cmd: Vec<u8> = Vec::new();
        cmd.push(CMD_READ_TEMP);
        proof {
            assert(cmd@ =~= seq![CMD_READ_TEMP]);
        }
        match self.i2c.write_read(ADDRESS, &cmd, 1) {
            Ok(response) => {
                let b = response[0];
                proof {
                    assert(response@ =~= seq![b]);
                }
                Ok(b)
            },
            Err(e) => Err(e),
        }
    }

    /// Reads a raw humidity sample: one combined write-then-read
    /// transaction that sends the humidity code and reads 3 bytes back.
    /// The third byte is discarded, the second has its two low status
    /// bits masked off, and the result is `byte0 + (masked_byte1 << 8)`.
    ///
    /// The conversion of the raw sample to a relative-humidity
    /// percentage, `raw * 125.0 / 65536.0 - 6.0`, is floating-point work
    /// and lives outside this library.
    pub fn get_humidity_raw(&mut self) -> (r: Result<u16, I2C::BusError>)
        ensures
            match r {
                Ok(raw) => humidity_read_step(old(self).i2c.history(), final(self).i2c.history(), raw),
                Err(_) => final(self).i2c.history() == old(self).i2c.history(),
            },
            old(self).i2c.write_read_accepted(ADDRESS, seq![CMD_READ_HUM], 3) ==> r is Ok,
    {
        let mut cmd: Vec<u8> = Vec::new();
        cmd.push(CMD_READ_HUM);
        proof {
            assert(cmd@ =~= seq![CMD_READ_HUM]);
        }
        match self.i2c.write_read(ADDRESS, &cmd, 3) {
            Ok(response) => {
                let raw = raw_humidity(response[0], response[1]);
                proof {
                    let pre = old(self).i2c.history();
                    let post = self.i2c.history();
                    assert(post.drop_last() =~= pre);
                }
                Ok(raw)
            },
            Err(e) => Err(e),
        }
    }
}

} // verus!
