//! The bus-transport capability and its transaction model.
//!
//! The transport is an opaque capability supplied by the host environment: a
//! blocking write / write-read interface over an addressed two-wire bus. The
//! driver never interprets transport errors; they surface to the caller
//! verbatim.
//!
//! Every transport carries a ghost [`Transaction`] log. A transaction is
//! appended for each attempted bus operation, whether or not it succeeds: a
//! failed read is recorded with an empty response. Driver operations are
//! specified by exactly how they extend this log.

use vstd::prelude::*;

verus! {

/// One bus transaction, as the transport saw it.
pub enum Transaction {
    /// A plain write of `bytes` to the device at bus address `addr`.
    Write { addr: u8, bytes: Seq<u8> },
    /// A write of `out` to the device at bus address `addr`, followed by a
    /// read whose response was `read` (empty if the transaction failed).
    WriteRead { addr: u8, out: Seq<u8>, read: Seq<u8> },
}

/// A blocking write / write-read capability over an addressed bus.
///
/// `BusError` is the transport's own error type; the driver passes it through
/// unchanged. Implementations decide when a transaction fails; the contract
/// only fixes how each call extends the transaction log.
pub trait I2cBus: Sized {
    /// The transport's opaque error type.
    type BusError;

    /// The ghost log of every transaction attempted so far, oldest first.
    ///
    /// A transport outside the verifier's reach may leave the default, an
    /// always-empty log: its transactions are not modelled, and nothing is
    /// proved about code that runs on it.
    open spec fn log(&self) -> Seq<Transaction> {
        Seq::empty()
    }

    /// Writes `bytes` to the device at bus address `addr`.
    ///
    /// The attempt is recorded whether or not it succeeds.
    fn write(&mut self, addr: u8, bytes: Vec<u8>) -> (r: Result<(), Self::BusError>)
        ensures
            final (self).log() == old(self).log().push(
                Transaction::Write { addr, bytes: bytes@ },
            ),
    ;

    /// Writes `out` to the device at bus address `addr`, then reads
    /// `read_len` bytes back.
    ///
    /// On success the response has exactly `read_len` bytes and is recorded
    /// in the log; a failed attempt is recorded with an empty response.
    fn write_read(&mut self, addr: u8, out: Vec<u8>, read_len: usize) -> (r: Result<
        Vec<u8>,
        Self::BusError,
    >)
        ensures
            r matches Ok(data) ==> data@.len() == read_len && final (self).log() == old(
                self,
            ).log().push(Transaction::WriteRead { addr, out: out@, read: data@ }),
            r is Err ==> final (self).log() == old(self).log().push(
                Transaction::WriteRead { addr, out: out@, read: Seq::empty() },
            ),
    ;
}

} // verus!
