//! A simulated transport that models the sensor itself. It backs the
//! tests (no real bus is available there) and the proof of the
//! end-to-end round-trip property of the driver: a value written to the
//! configuration register is read back unchanged.

use vstd::prelude::*;

use crate::bus::I2cBus;
use crate::bus::Transaction;
use crate::driver::reset_transaction;
use crate::driver::user_reg_read_transaction;
use crate::driver::write_register_transaction;
use crate::driver::Htu21df;
use crate::protocol::Register;
use crate::protocol::ADDRESS;
use crate::protocol::CMD_READ_HUM;
use crate::protocol::CMD_READ_TEMP;
use crate::protocol::CMD_SOFT_RESET;
use crate::protocol::CMD_WRITE_USER_REG;

verus! {

/// Power-on-reset value of the simulated device's user register.
pub const SIM_USER_REG_DEFAULT: u8 = 0x02;

/// The error the simulated transports report.
#[derive(Clone, Copy, PartialEq, Eq, Debug)]
pub struct SimError;

/// The value the simulated device's user register holds after the
/// transactions in `log`, starting from the power-on default: a soft
/// reset restores the default, a two-byte write of the write-register
/// command stores its data byte, and every other transaction leaves the
/// register as it was.
pub open spec fn reg_after(log: Seq<Transaction>) -> u8
    decreases log.len(),
{
    if log.len() == 0 {
        SIM_USER_REG_DEFAULT
    } else {
        match log.last() {
            Transaction::Write { addr, data } => {
                if addr == ADDRESS && data.len() == 1 && data[0] == CMD_SOFT_RESET {
                    SIM_USER_REG_DEFAULT
                } else if addr == ADDRESS && data.len() == 2 && data[0] == CMD_WRITE_USER_REG {
                    data[1]
                } else {
                    reg_after(log.drop_last())
                }
            },
            Transaction::WriteRead { .. } => reg_after(log.drop_last()),
        }
    }
}

/// Whether entry `i` of `log` is consistent with the simulated device:
/// an answered user-register read returned the register value the device
/// held at that point in the history.
pub open spec fn entry_consistent(log: Seq<Transaction>, i: int) -> bool {
    match log[i] {
        Transaction::WriteRead { addr, data, response } => (addr == ADDRESS && data == seq![
            CMD_READ_TEMP,
        ]) ==> response == seq![reg_after(log.take(i))],
        Transaction::Write { .. } => true,
    }
}

/// Every entry of `log` is consistent with the simulated device.
pub open spec fn log_consistent(log: Seq<Transaction>) -> bool {
    forall|i: int| 0 <= i < log.len() ==> #[trigger] entry_consistent(log, i)
}

/// Appending a transaction that is itself consistent with the device's
/// current register value keeps the whole history consistent.
proof fn lemma_consistent_push(log: Seq<Transaction>, t: Transaction)
    requires
        log_consistent(log),
        match t {
            Transaction::WriteRead { addr, data, response } => (addr == ADDRESS && data == seq![
                CMD_READ_TEMP,
            ]) ==> response == seq![reg_after(log)],
            Transaction::Write { .. } => true,
        },
    ensures
        log_consistent(log.push(t)),
{
    let nl = log.push(t);
    assert forall|i: int| 0 <= i < nl.len() implies #[trigger] entry_consistent(nl, i) by {
        if i < log.len() {
            assert(entry_consistent(log, i));
            assert(nl[i] == log[i]);
            assert(nl.take(i) =~= log.take(i));
        } else {
            assert(nl[i] == t);
            assert(nl.take(i) =~= log);
        }
    }
}

/// A simulated transport over the sensor: it accepts every well-formed
/// request, keeps the user register (updated by register writes,
/// restored by reset), and answers humidity reads with the three bytes
/// it was programmed with.
pub struct SimBus {
    user_reg: u8,
    hum0: u8,
    hum1: u8,
    hum2: u8,
    log: Ghost<Seq<Transaction>>,
}

impl SimBus {
    /// The simulated device's state agrees with its transaction history:
    /// the user register holds the value the history determines, and
    /// every answered user-register read in the history returned the
    /// register value of its time.
    #[verifier::type_invariant]
    spec fn inv(self) -> bool {
        &&& self.user_reg == reg_after(self.log@)
        &&& log_consistent(self.log@)
    }

    /// A fresh simulated device that answers humidity reads with the
    /// response bytes `h0`, `h1`, `h2`.
    pub fn new(h0: u8, h1: u8, h2: u8) -> (r: SimBus)
        ensures
            r.history() == Seq::<Transaction>::empty(),
    {
        SimBus {
            user_reg: SIM_USER_REG_DEFAULT,
            hum0: h0,
            hum1: h1,
            hum2: h2,
            log: Ghost(Seq::empty()),
        }
    }
}

impl I2cBus for SimBus {
    type BusError = SimError;

    closed spec fn history(&self) -> Seq<Transaction> {
        self.log@
    }

    open spec fn write_accepted(&self, addr: u8, data: Seq<u8>) -> bool {
        addr == ADDRESS && (data == seq![CMD_SOFT_RESET] || data.len() == 2)
    }

    open spec fn write_read_accepted(&self, addr: u8, data: Seq<u8>, read_len: nat) -> bool {
        addr == ADDRESS && ((data == seq![CMD_READ_TEMP] && read_len == 1) || (data == seq![
            CMD_READ_HUM,
        ] && read_len == 3))
    }

    fn write(&mut self, addr: u8, bytes: &Vec<u8>) -> (r: Result<(), SimError>) {
        proof {
            use_type_invariant(&*self);
        }
        if addr == ADDRESS && bytes.len() == 1 && bytes[0] == CMD_SOFT_RESET {
            let ghost t = Transaction::Write { addr, data: bytes@ };
            proof {
                assert(bytes@ =~= seq![CMD_SOFT_RESET]);
                lemma_consistent_push(self.log@, t);
                assert(self.log@.push(t).drop_last() =~= self.log@);
            }
            *self = SimBus {
                user_reg: SIM_USER_REG_DEFAULT,
                hum0: self.hum0,
                hum1: self.hum1,
                hum2: self.hum2,
                log: Ghost(self.log@.push(t)),
            };
            Ok(())
        } else if addr == ADDRESS && bytes.len() == 2 {
            let new_reg = if bytes[0] == CMD_WRITE_USER_REG {
                bytes[1]
            } else {
                self.user_reg
            };
            let ghost t = Transaction::Write { addr, data: bytes@ };
            proof {
                lemma_consistent_push(self.log@, t);
                assert(self.log@.push(t).drop_last() =~= self.log@);
            }
            *self = SimBus {
                user_reg: new_reg,
                hum0: self.hum0,
                hum1: self.hum1,
                hum2: self.hum2,
                log: Ghost(self.log@.push(t)),
            };
            Ok(())
        } else {
            Err(SimError)
        }
    }

    fn write_read(&mut self, addr: u8, bytes: &Vec<u8>, read_len: usize) -> (r: Result<
        Vec<u8>,
        SimError,
    >) {
        proof {
            use_type_invariant(&*self);
        }
        if addr == ADDRESS && bytes.len() == 1 && bytes[0] == CMD_READ_TEMP && read_len == 1 {
            let mut response: Vec<u8> = Vec::new();
            response.push(self.user_reg);
            let ghost t = Transaction::WriteRead { addr, data: bytes@, response: response@ };
            proof {
                assert(bytes@ =~= seq![CMD_READ_TEMP]);
                assert(response@ =~= seq![reg_after(self.log@)]);
                lemma_consistent_push(self.log@, t);
                assert(self.log@.push(t).drop_last() =~= self.log@);
            }
            *self = SimBus {
                user_reg: self.user_reg,
                hum0: self.hum0,
                hum1: self.hum1,
                hum2: self.hum2,
                log: Ghost(self.log@.push(t)),
            };
            Ok(response)
        } else if addr == ADDRESS && bytes.len() == 1 && bytes[0] == CMD_READ_HUM && read_len == 3 {
            let mut response: Vec<u8> = Vec::new();
            response.push(self.hum0);
            response.push(self.hum1);
            response.push(self.hum2);
            let ghost t = Transaction::WriteRead { addr, data: bytes@, response: response@ };
            proof {
                assert(bytes@ =~= seq![CMD_READ_HUM]);
                assert(seq![CMD_READ_HUM][0] == CMD_READ_HUM);
                assert(seq![CMD_READ_TEMP][0] == CMD_READ_TEMP);
                assert(bytes@ != seq![CMD_READ_TEMP]);
                lemma_consistent_push(self.log@, t);
                assert(self.log@.push(t).drop_last() =~= self.log@);
            }
            *self = SimBus {
                user_reg: self.user_reg,
                hum0: self.hum0,
                hum1: self.hum1,
                hum2: self.hum2,
                log: Ghost(self.log@.push(t)),
            };
            Ok(response)
        } else {
            Err(SimError)
        }
    }
}

/// A transport that fails every transaction, as a broken or absent bus
/// would. Its history stays empty: it never completes anything.
pub struct FailBus {}

impl I2cBus for FailBus {
    type BusError = SimError;

    fn write(&mut self, _addr: u8, _bytes: &Vec<u8>) -> (r: Result<(), SimError>) {
        Err(SimError)
    }

    fn write_read(&mut self, _addr: u8, _bytes: &Vec<u8>, _read_len: usize) -> (r: Result<
        Vec<u8>,
        SimError,
    >) {
        Err(SimError)
    }
}

/// Round-trip law: over the simulated transport, a value written to the
/// configuration register and then read back (with no reset in between)
/// comes back exactly as written, for every byte value.
pub fn user_register_round_trip(value: u8) -> (r: Result<u8, SimError>)
    ensures
        r == Ok::<u8, SimError>(value),
{
    let sim = SimBus::new(0, 0, 0);
    let mut drv = match Htu21df::new(sim) {
        Ok(d) => d,
        Err(e) => {
            proof {
                assert(false);
            }
            return Err(e);
        },
    };
    match drv.write_register(Register::WRITEREG, value) {
        Ok(()) => {},
        Err(e) => {
            proof {
                assert(false);
            }
            return Err(e);
        },
    }
    match drv.get_user_reg() {
        Ok(b) => {
            proof {
                use_type_invariant(&drv.i2c);
                let h1 = Seq::<Transaction>::empty().push(reset_transaction());
                let h2 = h1.push(write_register_transaction(Register::WRITEREG, value));
                let h3 = h2.push(user_reg_read_transaction(b));
                assert(drv.i2c.history() == h3);
                assert(entry_consistent(h3, 2));
                assert(h3[2] == user_reg_read_transaction(b));
                assert(h3.take(2) =~= h2);
                assert(reg_after(h2) == value);
                assert(seq![b][0] == seq![reg_after(h3.take(2))][0]);
                assert(b == value);
            }
            Ok(b)
        },
        Err(e) => {
            proof {
                assert(false);
            }
            return Err(e);
        },
    }
}

} // verus!
