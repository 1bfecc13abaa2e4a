//! A scripted transport for exercising the driver without hardware.
//!
//! [`ScriptedBus`] implements [`I2cBus`] deterministically: it replays a
//! queue of scripted steps, one per transaction, and records every
//! transaction it was asked to perform. A test runs a driver operation and
//! then inspects the recorded history.

use crate::bus::{I2cBus, Transaction};
use vstd::prelude::*;
use vstd::assert_seqs_equal;

verus! {

/// The transport error of the scripted bus: an opaque fault code.
#[derive(Clone, Copy, Debug, PartialEq, Eq, Structural)]
pub struct BusFault {
    pub code: u8,
}

/// The fault code returned when a scripted response does not have the
/// number of bytes the caller asked to read.
pub const SCRIPT_LENGTH_FAULT: u8 = 0xEE;

/// One scripted step: what the bus does for the next transaction.
#[derive(Debug, PartialEq, Eq)]
pub enum BusStep {
    /// The transaction succeeds; for a write-read, these are the bytes
    /// the device answers with (ignored for a plain write).
    Respond(Vec<u8>),
    /// The transaction fails with `BusFault` of this code.
    Fail(u8),
}

/// One recorded transaction, with owned byte buffers.
#[derive(Debug, PartialEq, Eq)]
pub enum RecordedTransaction {
    Write { addr: u8, bytes: Vec<u8> },
    WriteRead { addr: u8, out: Vec<u8>, read: Vec<u8> },
}

impl View for RecordedTransaction {
    type V = Transaction;

    open spec fn view(&self) -> Transaction {
        match self {
            RecordedTransaction::Write { addr, bytes } => Transaction::Write {
                addr: *addr,
                bytes: bytes@,
            },
            RecordedTransaction::WriteRead { addr, out, read } => Transaction::WriteRead {
                addr: *addr,
                out: out@,
                read: read@,
            },
        }
    }
}

/// A deterministic transport that consumes `script` front to back, one step
/// per transaction, and records each transaction in `history`. Once the
/// script is exhausted, every write succeeds and every write-read fails.
pub struct ScriptedBus {
    pub script: Vec<BusStep>,
    pub history: Vec<RecordedTransaction>,
}

impl ScriptedBus {
    /// Creates a scripted bus with an empty history.
    pub fn new(script: Vec<BusStep>) -> (r: ScriptedBus)
        ensures
            r.script == script,
            r.log() == Seq::<Transaction>::empty(),
            r.history@.len() == 0,
    {
        let r = ScriptedBus { script, history: Vec::new() };
        proof {
            assert_seqs_equal!(r.log(), Seq::<Transaction>::empty());
        }
        r
    }

    /// True when every scripted step has been consumed.
    pub fn script_done(&self) -> (r: bool)
        ensures
            r == (self.script@.len() == 0),
    {
        self.script.len() == 0
    }
}

/// Copies a byte vector.
fn copy_bytes(v: &Vec<u8>) -> (r: Vec<u8>)
    ensures
        r@ == v@,
{
    let mut r: Vec<u8> = Vec::new();
    let mut i: usize = 0;
    while i < v.len()
        invariant
            i <= v@.len(),
            r@ == v@.subrange(0, i as int),
        decreases v@.len() - i,
    {
        r.push(v[i]);
        i = i + 1;
        proof {
            assert_seqs_equal!(r@, v@.subrange(0, i as int));
        }
    }
    proof {
        assert_seqs_equal!(r@, v@);
    }
    r
}

impl I2cBus for ScriptedBus {
    type BusError = BusFault;

    open spec fn log(&self) -> Seq<Transaction> {
        self.history@.map_values(|t: RecordedTransaction| t@)
    }

    fn write(&mut self, addr: u8, bytes: Vec<u8>) -> (r: Result<(), BusFault>) {
        let ghost pre = self.log();
        let ghost txn = Transaction::Write { addr, bytes: bytes@ };
        self.history.push(RecordedTransaction::Write { addr, bytes });
        proof {
            assert_seqs_equal!(self.log(), pre.push(txn));
        }
        if self.script.len() > 0 {
            let step = self.script.remove(0);
            match step {
                BusStep::Respond(_) => Ok(()),
                BusStep::Fail(code) => Err(BusFault { code }),
            }
        } else {
            Ok(())
        }
    }

    fn write_read(&mut self, addr: u8, out: Vec<u8>, read_len: usize) -> (r: Result<
        Vec<u8>,
        BusFault,
    >) {
        let ghost pre = self.log();
        if self.script.len() > 0 {
            let step = self.script.remove(0);
            match step {
                BusStep::Respond(data) => {
                    if data.len() == read_len {
                        let response = copy_bytes(&data);
                        let ghost txn = Transaction::WriteRead {
                            addr,
                            out: out@,
                            read: response@,
                        };
                        self.history.push(
                            RecordedTransaction::WriteRead { addr, out, read: data },
                        );
                        proof {
                            assert_seqs_equal!(self.log(), pre.push(txn));
                        }
                        Ok(response)
                    } else {
                        let ghost txn = Transaction::WriteRead {
                            addr,
                            out: out@,
                            read: Seq::empty(),
                        };
                        self.history.push(
                            RecordedTransaction::WriteRead { addr, out, read: Vec::new() },
                        );
                        proof {
                            assert_seqs_equal!(self.log(), pre.push(txn));
                        }
                        Err(BusFault { code: SCRIPT_LENGTH_FAULT })
                    }
                },
                BusStep::Fail(code) => {
                    let ghost txn = Transaction::WriteRead { addr, out: out@, read: Seq::empty() };
                    self.history.push(
                        RecordedTransaction::WriteRead { addr, out, read: Vec::new() },
                    );
                    proof {
                        assert_seqs_equal!(self.log(), pre.push(txn));
                    }
                    Err(BusFault { code })
                },
            }
        } else {
            let ghost txn = Transaction::WriteRead { addr, out: out@, read: Seq::empty() };
            self.history.push(RecordedTransaction::WriteRead { addr, out, read: Vec::new() });
            proof {
                assert_seqs_equal!(self.log(), pre.push(txn));
            }
            Err(BusFault { code: SCRIPT_LENGTH_FAULT })
        }
    }
}

} // verus!
