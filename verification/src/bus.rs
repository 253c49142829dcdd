//! The transport capability the driver is built over: a two-wire bus that
//! can write bytes to a device and perform combined write-then-read
//! transactions, together with a ghost history of the transactions it has
//! carried out.

use vstd::prelude::*;

verus! {

/// One bus transaction, as seen on the wire: either a plain write of a
/// payload to a device address, or a combined write-then-read that sent a
/// payload and received a response, with no stop between the two halves.
pub enum Transaction {
    Write { addr: u8, data: Seq<u8> },
    WriteRead { addr: u8, data: Seq<u8>, response: Seq<u8> },
}

/// A blocking two-wire bus transport.
///
/// Every implementation carries a ghost `history` of the transactions it
/// has completed, newest last. A failed call leaves the history unchanged:
/// a transaction appears in it exactly when the transport reported success.
///
/// `write_accepted` and `write_read_accepted` say on which requests the
/// transport is known to succeed. A transport over real hardware promises
/// nothing (`false`); the simulated transport accepts every well-formed
/// request, which is what makes end-to-end properties of the driver
/// provable against it.
pub trait I2cBus: Sized {
    /// The transport's own error type, opaque to the driver.
    type BusError;

    /// The transactions this transport has completed, newest last.
    /// The default promises nothing: an implementation that leaves it in
    /// place reports an empty history and so can never report success.
    open spec fn history(&self) -> Seq<Transaction> {
        Seq::empty()
    }

    /// Requests on which `write` is known to succeed. The default
    /// promises success on none.
    open spec fn write_accepted(&self, addr: u8, data: Seq<u8>) -> bool {
        false
    }

    /// Requests on which `write_read` is known to succeed. The default
    /// promises success on none.
    open spec fn write_read_accepted(&self, addr: u8, data: Seq<u8>, read_len: nat) -> bool {
        false
    }

    /// Write `bytes` to the device at `addr` in one bus transaction.
    fn write(&mut self, addr: u8, bytes: &Vec<u8>) -> (r: Result<(), Self::BusError>)
        ensures
            match r {
                Ok(()) => final(self).history() == old(self).history().push(
                    Transaction::Write { addr, data: bytes@ },
                ),
                Err(_) => final(self).history() == old(self).history(),
            },
            old(self).write_accepted(addr, bytes@) ==> r is Ok,
    ;

    /// Write `bytes` to the device at `addr`, then read exactly `read_len`
    /// bytes back, as a single bus transaction.
    fn write_read(&mut self, addr: u8, bytes: &Vec<u8>, read_len: usize) -> (r: Result<
        Vec<u8>,
        Self::BusError,
    >)
        ensures
            match r {
                Ok(response) => {
                    &&& response@.len() == read_len
                    &&& final(self).history() == old(self).history().push(
                        Transaction::WriteRead { addr, data: bytes@, response: response@ },
                    )
                },
                Err(_) => final(self).history() == old(self).history(),
            },
            old(self).write_read_accepted(addr, bytes@, read_len as nat) ==> r is Ok,
    ;
}

} // verus!
