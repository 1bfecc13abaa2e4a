//! The status byte and its decoder.
//!
//! One read of the status register yields a raw byte with three independent
//! single-bit flags: bit 3 reports that the magnetic field is too strong,
//! bit 4 that it is too weak, and bit 5 that a magnet is detected. The flags
//! are independent; the hardware does not guarantee mutual exclusivity, and
//! any combination may be true at once.

use vstd::prelude::*;

verus! {

pub const MAGNET_HIGH: u8 = 8;

pub const MAGNET_LOW: u8 = 16;

pub const MAGNET_DETECTED: u8 = 32;

pub const MAG_HIGH_BM: u8 = 0x08;

pub const MAG_LOW_BM: u8 = 0x10;

pub const MAG_DETECTED_BM: u8 = 0x20;

/// Whether bit 3 of `status` is set: magnetic field too strong.
pub open spec fn spec_magnet_high(status: u8) -> bool {
    status & MAG_HIGH_BM == MAGNET_HIGH
}

/// Whether bit 4 of `status` is set: magnetic field too weak.
pub open spec fn spec_magnet_low(status: u8) -> bool {
    status & MAG_LOW_BM == MAGNET_LOW
}

/// Whether bit 5 of `status` is set: magnet detected.
pub open spec fn spec_magnet_detected(status: u8) -> bool {
    status & MAG_DETECTED_BM == MAGNET_DETECTED
}

/// An immutable snapshot of the sensor's status byte, decoded on demand.
#[derive(Clone, Copy, Debug, PartialEq, Eq, Structural)]
pub struct SensorStatus {
    pub status: u8,
}

impl SensorStatus {
    /// Wraps a raw status byte. Total; construction never fails.
    pub fn new(status: u8) -> (r: SensorStatus)
        ensures
            r.status == status,
    {
        SensorStatus { status }
    }

    /// True exactly when bit 3 of the status byte is set: the magnetic
    /// field is stronger than the sensor's nominal range.
    pub fn is_magnet_high(&self) -> (r: bool)
        ensures
            r == spec_magnet_high(self.status),
            r == ((self.status >> 3) & 1 == 1),
    {
        proof {
            let s = self.status;
            assert((s & 0x08 == 8) == ((s >> 3) & 1 == 1)) by (bit_vector);
        }
        (self.status & MAG_HIGH_BM) == MAGNET_HIGH
    }

    /// True exactly when bit 4 of the status byte is set: the magnetic
    /// field is weaker than the sensor's nominal range.
    pub fn is_magnet_low(&self) -> (r: bool)
        ensures
            r == spec_magnet_low(self.status),
            r == ((self.status >> 4) & 1 == 1),
    {
        proof {
            let s = self.status;
            assert((s & 0x10 == 16) == ((s >> 4) & 1 == 1)) by (bit_vector);
        }
        (self.status & MAG_LOW_BM) == MAGNET_LOW
    }

    /// True exactly when bit 5 of the status byte is set: a magnet is
    /// detected in front of the sensor.
    pub fn is_magnet_detected(&self) -> (r: bool)
        ensures
            r == spec_magnet_detected(self.status),
            r == ((self.status >> 5) & 1 == 1),
    {
        proof {
            let s = self.status;
            assert((s & 0x20 == 32) == ((s >> 5) & 1 == 1)) by (bit_vector);
        }
        (self.status & MAG_DETECTED_BM) == MAGNET_DETECTED
    }
}

} // verus!
