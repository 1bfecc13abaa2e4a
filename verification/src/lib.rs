//! Driver for a magnetic rotary-position sensor on a two-wire,
//! register-addressed bus.
//!
//! The sensor exposes configuration registers (zero position, max position,
//! angular range), live outputs (raw angle, scaled angle, automatic gain
//! control, magnitude), a status byte describing magnet proximity, and a
//! one-time permanent-configuration ("burn") command.
//!
//! The bus transport is an injected capability (the [`I2cBus`] trait);
//! every operation of [`AS5600`] is specified by the exact sequence of bus
//! transactions it issues, stated over the transport's ghost transaction log.

use vstd::prelude::*;

mod bus;
mod codec;
mod mock;
mod registers;
mod sensor_status;

pub use crate::bus::{I2cBus, Transaction};
pub use crate::codec::{
    lemma_pack12_hi_masked, lemma_pack12_roundtrip, lemma_unpack16_bytes, pack12, pack12_hi,
    pack12_lo, u16_hi, u16_lo, unpack16, unpack16_spec,
};
pub use crate::mock::{BusFault, BusStep, RecordedTransaction, ScriptedBus, SCRIPT_LENGTH_FAULT};
pub use crate::registers::{
    lemma_paired_registers_adjacent, lemma_register_addresses_distinct, BurnCommands,
    ConfigRegisters, FastFilterThresholdBM, HysteresisBM, OutputRegisters, OutputStageBM,
    PWMFrequencyBM, PowerModeBM, SlowFilterBM, StatusRegisters, WatchDogBM,
};
pub use crate::sensor_status::{
    spec_magnet_detected, spec_magnet_high, spec_magnet_low, SensorStatus, MAGNET_DETECTED,
    MAGNET_HIGH, MAGNET_LOW, MAG_DETECTED_BM, MAG_HIGH_BM, MAG_LOW_BM,
};

use crate::codec::bytes_to_u16;

verus! {

/// Default bus address of the sensor.
pub const SENSOR_ADDR: u8 = 0b0011_1010;

/// The write transaction that transmits the 12-bit `value` to register
/// `reg` on the device at bus address `bus_addr`: three bytes, register
/// address first, then the masked big-endian byte pair.
pub open spec fn write12_txn(bus_addr: u8, reg: u8, value: u16) -> Transaction {
    Transaction::Write { addr: bus_addr, bytes: seq![reg, pack12_hi(value), pack12_lo(value)] }
}

/// The write-read transaction that fetched the 16-bit `value` from register
/// `reg`: one request byte out, the big-endian byte pair of `value` back.
pub open spec fn read12_txn(bus_addr: u8, reg: u8, value: u16) -> Transaction {
    Transaction::WriteRead { addr: bus_addr, out: seq![reg], read: seq![u16_hi(value), u16_lo(value)] }
}

/// A write-read of register `reg` that failed: nothing came back.
pub open spec fn failed_read_txn(bus_addr: u8, reg: u8) -> Transaction {
    Transaction::WriteRead { addr: bus_addr, out: seq![reg], read: Seq::empty() }
}

/// The handle to one sensor: owns the bus-transport capability and the bus
/// address its transactions are directed to.
///
/// The stored address is set at construction only; `set_temporary_address`
/// changes the address the device answers on but deliberately leaves the
/// handle's own copy untouched (the override lasts until the device power
/// cycles, and the old address may still answer).
pub struct AS5600<I2C> {
    pub i2c: I2C,
    pub address: u8,
}

impl<I2C: I2cBus> AS5600<I2C> {
    /// Creates a new handle around a transport capability. Pure: no bus
    /// traffic is issued at construction time.
    pub fn new(i2c: I2C, address: u8) -> (r: Self)
        ensures
            r.i2c == i2c,
            r.address == address,
    {
        Self { i2c, address }
    }

    /// Reads the status of the sensor.
    ///
    /// Issues exactly one write-read transaction: the status-register
    /// address out, one status byte back, which the returned decoder wraps
    /// unchanged. A transport error is returned verbatim.
    pub fn read_status(&mut self) -> (r: Result<SensorStatus, I2C::BusError>)
        ensures
            final(self).address == old(self).address,
            r matches Ok(s) ==> final(self).i2c.log() == old(self).i2c.log().push(
                Transaction::WriteRead {
                    addr: old(self).address,
                    out: seq![StatusRegisters::Status.spec_addr()],
                    read: seq![s.status],
                },
            ),
            r is Err ==> final(self).i2c.log() == old(self).i2c.log().push(
                failed_read_txn(old(self).address, StatusRegisters::Status.spec_addr()),
            ),
    {
        let mut out: Vec<u8> = Vec::new();
        out.push(StatusRegisters::Status.addr());
        proof {
            assert(out@ =~= seq![StatusRegisters::Status.spec_addr()]);
        }
        match self.i2c.write_read(self.address, out, 1) {
            Ok(data) => {
                proof {
                    assert(data@ =~= seq![data@[0]]);
                }
                Ok(SensorStatus::new(data[0]))
            },
            Err(e) => Err(e),
        }
    }

    /// Writes the zero (start) position, then reads it back.
    ///
    /// The returned value is what the device now stores, not the caller's
    /// input echoed blindly: the device may clamp or round. A transport
    /// error aborts the remaining transaction and is returned verbatim; the
    /// write may then already have taken effect.
    pub fn config_start_position(&mut self, start: u16) -> (r: Result<u16, I2C::BusError>)
        ensures
            final(self).address == old(self).address,
            r matches Ok(v) ==> final(self).i2c.log() == old(self).i2c.log().push(
                write12_txn(old(self).address, ConfigRegisters::ZPosHi.spec_addr(), start),
            ).push(read12_txn(old(self).address, ConfigRegisters::ZPosHi.spec_addr(), v)),
            r is Err ==> final(self).i2c.log() == old(self).i2c.log().push(
                write12_txn(old(self).address, ConfigRegisters::ZPosHi.spec_addr(), start),
            ) || final(self).i2c.log() == old(self).i2c.log().push(
                write12_txn(old(self).address, ConfigRegisters::ZPosHi.spec_addr(), start),
            ).push(failed_read_txn(old(self).address, ConfigRegisters::ZPosHi.spec_addr())),
    {
        match self.write_12bits(ConfigRegisters::ZPosHi.addr(), start) {
            Ok(_) => {},
            Err(e) => {
                return Err(e);
            },
        }
        let verify_value = match self.read_12bits(ConfigRegisters::ZPosHi.addr()) {
            Ok(v) => v,
            Err(e) => {
                return Err(e);
            },
        };
        Ok(verify_value)
    }

    /// Writes the max (stop) position, then reads it back; see
    /// `config_start_position` for the read-back rationale.
    pub fn config_stop_position(&mut self, stop: u16) -> (r: Result<u16, I2C::BusError>)
        ensures
            final(self).address == old(self).address,
            r matches Ok(v) ==> final(self).i2c.log() == old(self).i2c.log().push(
                write12_txn(old(self).address, ConfigRegisters::MPosHi.spec_addr(), stop),
            ).push(read12_txn(old(self).address, ConfigRegisters::MPosHi.spec_addr(), v)),
            r is Err ==> final(self).i2c.log() == old(self).i2c.log().push(
                write12_txn(old(self).address, ConfigRegisters::MPosHi.spec_addr(), stop),
            ) || final(self).i2c.log() == old(self).i2c.log().push(
                write12_txn(old(self).address, ConfigRegisters::MPosHi.spec_addr(), stop),
            ).push(failed_read_txn(old(self).address, ConfigRegisters::MPosHi.spec_addr())),
    {
        match self.write_12bits(ConfigRegisters::MPosHi.addr(), stop) {
            Ok(_) => {},
            Err(e) => {
                return Err(e);
            },
        }
        let verify_value = match self.read_12bits(ConfigRegisters::MPosHi.addr()) {
            Ok(v) => v,
            Err(e) => {
                return Err(e);
            },
        };
        Ok(verify_value)
    }

    /// Writes the angular range, then reads it back; see
    /// `config_start_position` for the read-back rationale.
    pub fn config_angular_range(&mut self, angle_range: u16) -> (r: Result<u16, I2C::BusError>)
        ensures
            final(self).address == old(self).address,
            r matches Ok(v) ==> final(self).i2c.log() == old(self).i2c.log().push(
                write12_txn(old(self).address, ConfigRegisters::MAngHi.spec_addr(), angle_range),
            ).push(read12_txn(old(self).address, ConfigRegisters::MAngHi.spec_addr(), v)),
            r is Err ==> final(self).i2c.log() == old(self).i2c.log().push(
                write12_txn(old(self).address, ConfigRegisters::MAngHi.spec_addr(), angle_range),
            ) || final(self).i2c.log() == old(self).i2c.log().push(
                write12_txn(old(self).address, ConfigRegisters::MAngHi.spec_addr(), angle_range),
            ).push(failed_read_txn(old(self).address, ConfigRegisters::MAngHi.spec_addr())),
    {
        match self.write_12bits(ConfigRegisters::MAngHi.addr(), angle_range) {
            Ok(_) => {},
            Err(e) => {
                return Err(e);
            },
        }
        let verify_value = match self.read_12bits(ConfigRegisters::MAngHi.addr()) {
            Ok(v) => v,
            Err(e) => {
                return Err(e);
            },
        };
        Ok(verify_value)
    }

    /// Reads the current AGC (automatic gain control) code.
    ///
    /// AGC compensates for variations in magnetic field strength. In 5 V
    /// operation the range is 0-255; in 3.3 V operation it is 0-128. Ensure
    /// the value sits near the middle of its range when the magnet is
    /// installed.
    pub fn read_agc(&mut self) -> (r: Result<u16, I2C::BusError>)
        ensures
            final(self).address == old(self).address,
            r matches Ok(v) ==> final(self).i2c.log() == old(self).i2c.log().push(
                read12_txn(old(self).address, StatusRegisters::AGC.spec_addr(), v),
            ),
            r is Err ==> final(self).i2c.log() == old(self).i2c.log().push(
                failed_read_txn(old(self).address, StatusRegisters::AGC.spec_addr()),
            ),
    {
        self.read_12bits(StatusRegisters::AGC.addr())
    }

    /// Reads the magnitude code of the sensed magnetic field.
    pub fn read_magnitude(&mut self) -> (r: Result<u16, I2C::BusError>)
        ensures
            final(self).address == old(self).address,
            r matches Ok(v) ==> final(self).i2c.log() == old(self).i2c.log().push(
                read12_txn(old(self).address, StatusRegisters::MagnitudeHi.spec_addr(), v),
            ),
            r is Err ==> final(self).i2c.log() == old(self).i2c.log().push(
                failed_read_txn(old(self).address, StatusRegisters::MagnitudeHi.spec_addr()),
            ),
    {
        self.read_12bits(StatusRegisters::MagnitudeHi.addr())
    }

    /// Reads the scaled angle code from the output registers, a value in
    /// 0-4095 over the configured angular range.
    pub fn read_angle(&mut self) -> (r: Result<u16, I2C::BusError>)
        ensures
            final(self).address == old(self).address,
            r matches Ok(v) ==> final(self).i2c.log() == old(self).i2c.log().push(
                read12_txn(old(self).address, OutputRegisters::AngleHi.spec_addr(), v),
            ),
            r is Err ==> final(self).i2c.log() == old(self).i2c.log().push(
                failed_read_txn(old(self).address, OutputRegisters::AngleHi.spec_addr()),
            ),
    {
        self.read_12bits(OutputRegisters::AngleHi.addr())
    }

    /// Reads the unscaled, unmodified angle code; the scaled output is
    /// available through `read_angle`.
    pub fn read_raw_angle(&mut self) -> (r: Result<u16, I2C::BusError>)
        ensures
            final(self).address == old(self).address,
            r matches Ok(v) ==> final(self).i2c.log() == old(self).i2c.log().push(
                read12_txn(old(self).address, OutputRegisters::RawAngleHi.spec_addr(), v),
            ),
            r is Err ==> final(self).i2c.log() == old(self).i2c.log().push(
                failed_read_txn(old(self).address, OutputRegisters::RawAngleHi.spec_addr()),
            ),
    {
        self.read_12bits(OutputRegisters::RawAngleHi.addr())
    }

    /// Sets a temporary bus address for the device: two single-byte-payload
    /// writes carrying the new address, first to the address register, then
    /// to the update register, in that order; no read.
    ///
    /// The handle keeps addressing the original bus address afterwards; the
    /// device-side override lasts until the next power cycle.
    pub fn set_temporary_address(&mut self, address: u8) -> (r: Result<(), I2C::BusError>)
        ensures
            final(self).address == old(self).address,
            r is Ok ==> final(self).i2c.log() == old(self).i2c.log().push(
                Transaction::Write {
                    addr: old(self).address,
                    bytes: seq![ConfigRegisters::I2cAddr.spec_addr(), address],
                },
            ).push(
                Transaction::Write {
                    addr: old(self).address,
                    bytes: seq![ConfigRegisters::I2cUpdt.spec_addr(), address],
                },
            ),
            r is Err ==> final(self).i2c.log() == old(self).i2c.log().push(
                Transaction::Write {
                    addr: old(self).address,
                    bytes: seq![ConfigRegisters::I2cAddr.spec_addr(), address],
                },
            ) || final(self).i2c.log() == old(self).i2c.log().push(
                Transaction::Write {
                    addr: old(self).address,
                    bytes: seq![ConfigRegisters::I2cAddr.spec_addr(), address],
                },
            ).push(
                Transaction::Write {
                    addr: old(self).address,
                    bytes: seq![ConfigRegisters::I2cUpdt.spec_addr(), address],
                },
            ),
    {
        let mut first: Vec<u8> = Vec::new();
        first.push(ConfigRegisters::I2cAddr.addr());
        first.push(address);
        proof {
            assert(first@ =~= seq![ConfigRegisters::I2cAddr.spec_addr(), address]);
        }
        match self.i2c.write(self.address, first) {
            Ok(_) => {},
            Err(e) => {
                return Err(e);
            },
        }
        let mut second: Vec<u8> = Vec::new();
        second.push(ConfigRegisters::I2cUpdt.addr());
        second.push(address);
        proof {
            assert(second@ =~= seq![ConfigRegisters::I2cUpdt.spec_addr(), address]);
        }
        match self.i2c.write(self.address, second) {
            Ok(_) => {},
            Err(e) => {
                return Err(e);
            },
        }
        Ok(())
    }

    /// Burns the current configuration settings into non-volatile storage;
    /// a permanent, irreversible hardware action, issued exactly once per
    /// call with no confirmation step. That decision belongs to the caller.
    pub fn burn_setting(&mut self) -> (r: Result<(), I2C::BusError>)
        ensures
            final(self).address == old(self).address,
            final(self).i2c.log() == old(self).i2c.log().push(
                Transaction::Write {
                    addr: old(self).address,
                    bytes: seq![BurnCommands::Burn.spec_addr(), 0x40],
                },
            ),
    {
        let mut cmd: Vec<u8> = Vec::new();
        cmd.push(BurnCommands::Burn.addr());
        cmd.push(0x40);
        proof {
            assert(cmd@ =~= seq![BurnCommands::Burn.spec_addr(), 0x40u8]);
        }
        match self.i2c.write(self.address, cmd) {
            Ok(_) => Ok(()),
            Err(e) => Err(e),
        }
    }

    /// Reads a 12-bit quantity: one write-read transaction with the
    /// register address out and the high/low byte pair back, reassembled
    /// big-endian without masking.
    pub fn read_12bits(&mut self, address: u8) -> (r: Result<u16, I2C::BusError>)
        ensures
            final(self).address == old(self).address,
            r matches Ok(v) ==> final(self).i2c.log() == old(self).i2c.log().push(
                read12_txn(old(self).address, address, v),
            ),
            r is Err ==> final(self).i2c.log() == old(self).i2c.log().push(
                failed_read_txn(old(self).address, address),
            ),
    {
        let mut out: Vec<u8> = Vec::new();
        out.push(address);
        proof {
            assert(out@ =~= seq![address]);
        }
        match self.i2c.write_read(self.address, out, 2) {
            Ok(data) => {
                let value = bytes_to_u16([data[0], data[1]]);
                proof {
                    lemma_unpack16_bytes(data@[0], data@[1]);
                    assert(data@ =~= seq![u16_hi(value), u16_lo(value)]);
                }
                Ok(value)
            },
            Err(e) => Err(e),
        }
    }

    /// Writes a 12-bit quantity: one three-byte write holding the register
    /// address and the value's byte pair, the value masked to its low 12
    /// bits first. The transmitted high byte always has a clear top nibble,
    /// whatever the caller supplied.
    pub fn write_12bits(&mut self, address: u8, value: u16) -> (r: Result<(), I2C::BusError>)
        ensures
            final(self).address == old(self).address,
            final(self).i2c.log() == old(self).i2c.log().push(
                write12_txn(old(self).address, address, value),
            ),
    {
        let (hi, lo) = pack12(value);
        let mut data: Vec<u8> = Vec::new();
        data.push(address);
        data.push(hi);
        data.push(lo);
        proof {
            assert(data@ =~= seq![address, pack12_hi(value), pack12_lo(value)]);
        }
        match self.i2c.write(self.address, data) {
            Ok(_) => Ok(()),
            Err(e) => Err(e),
        }
    }
}

} // verus!
