//! The register map of the sensor: every addressable register and command
//! byte, grouped by purpose, plus the bit masks of the configuration word.
//!
//! Each group is a closed enumeration; consumers reference entries by name
//! and obtain the wire value through `addr` or `value`. A 12-bit quantity
//! occupies a high-byte register immediately followed by its low-byte
//! register in address space.

use vstd::prelude::*;

verus! {

/// Configuration registers: zero position, max position, max angle, the
/// two configuration bytes, and the temporary-address pair.
#[derive(Clone, Copy, Debug, PartialEq, Eq, Structural)]
pub enum ConfigRegisters {
    Zmco,
    ZPosHi,
    ZPosLo,
    MPosHi,
    MPosLo,
    MAngHi,
    MAngLo,
    ConfHi,
    ConfLo,
    I2cAddr,
    I2cUpdt,
}

impl ConfigRegisters {
    /// The bus address of this register.
    pub open spec fn spec_addr(self) -> u8 {
        match self {
            ConfigRegisters::Zmco => 0x00,
            ConfigRegisters::ZPosHi => 0x01,
            ConfigRegisters::ZPosLo => 0x02,
            ConfigRegisters::MPosHi => 0x03,
            ConfigRegisters::MPosLo => 0x04,
            ConfigRegisters::MAngHi => 0x05,
            ConfigRegisters::MAngLo => 0x06,
            ConfigRegisters::ConfHi => 0x07,
            ConfigRegisters::ConfLo => 0x08,
            ConfigRegisters::I2cAddr => 0x20,
            ConfigRegisters::I2cUpdt => 0x21,
        }
    }

    /// The bus address of this register.
    pub fn addr(self) -> (r: u8)
        ensures
            r == self.spec_addr(),
    {
        match self {
            ConfigRegisters::Zmco => 0x00,
            ConfigRegisters::ZPosHi => 0x01,
            ConfigRegisters::ZPosLo => 0x02,
            ConfigRegisters::MPosHi => 0x03,
            ConfigRegisters::MPosLo => 0x04,
            ConfigRegisters::MAngHi => 0x05,
            ConfigRegisters::MAngLo => 0x06,
            ConfigRegisters::ConfHi => 0x07,
            ConfigRegisters::ConfLo => 0x08,
            ConfigRegisters::I2cAddr => 0x20,
            ConfigRegisters::I2cUpdt => 0x21,
        }
    }
}

/// Output registers: the raw and the scaled angle, each a high/low pair.
#[derive(Clone, Copy, Debug, PartialEq, Eq, Structural)]
pub enum OutputRegisters {
    RawAngleHi,
    RawAngleLo,
    AngleHi,
    AngleLo,
}

impl OutputRegisters {
    /// The bus address of this register.
    pub open spec fn spec_addr(self) -> u8 {
        match self {
            OutputRegisters::RawAngleHi => 0x0C,
            OutputRegisters::RawAngleLo => 0x0D,
            OutputRegisters::AngleHi => 0x0E,
            OutputRegisters::AngleLo => 0x0F,
        }
    }

    /// The bus address of this register.
    pub fn addr(self) -> (r: u8)
        ensures
            r == self.spec_addr(),
    {
        match self {
            OutputRegisters::RawAngleHi => 0x0C,
            OutputRegisters::RawAngleLo => 0x0D,
            OutputRegisters::AngleHi => 0x0E,
            OutputRegisters::AngleLo => 0x0F,
        }
    }
}

/// Status registers: the magnet-status byte, the automatic gain control,
/// and the magnitude pair.
#[derive(Clone, Copy, Debug, PartialEq, Eq, Structural)]
pub enum StatusRegisters {
    Status,
    AGC,
    MagnitudeHi,
    MagnitudeLo,
}

impl StatusRegisters {
    /// The bus address of this register.
    pub open spec fn spec_addr(self) -> u8 {
        match self {
            StatusRegisters::Status => 0x0B,
            StatusRegisters::AGC => 0x1A,
            StatusRegisters::MagnitudeHi => 0x1B,
            StatusRegisters::MagnitudeLo => 0x1C,
        }
    }

    /// The bus address of this register.
    pub fn addr(self) -> (r: u8)
        ensures
            r == self.spec_addr(),
    {
        match self {
            StatusRegisters::Status => 0x0B,
            StatusRegisters::AGC => 0x1A,
            StatusRegisters::MagnitudeHi => 0x1B,
            StatusRegisters::MagnitudeLo => 0x1C,
        }
    }
}

/// The one-time permanent-configuration command byte.
#[derive(Clone, Copy, Debug, PartialEq, Eq, Structural)]
pub enum BurnCommands {
    Burn,
}

impl BurnCommands {
    /// The command byte on the bus.
    pub open spec fn spec_addr(self) -> u8 {
        match self {
            BurnCommands::Burn => 0xFF,
        }
    }

    /// The command byte on the bus.
    pub fn addr(self) -> (r: u8)
        ensures
            r == self.spec_addr(),
    {
        match self {
            BurnCommands::Burn => 0xFF,
        }
    }
}

/// Power-mode bits of the configuration word.
#[derive(Clone, Copy, Debug, PartialEq, Eq, Structural)]
pub enum PowerModeBM {
    Nom,
    LPM1,
    LPM2,
    LPM3,
}

impl PowerModeBM {
    /// The mask of this setting within the configuration word.
    pub open spec fn spec_value(self) -> u16 {
        match self {
            PowerModeBM::Nom => 0x0000,
            PowerModeBM::LPM1 => 0x0001,
            PowerModeBM::LPM2 => 0x0002,
            PowerModeBM::LPM3 => 0x0003,
        }
    }

    /// The mask of this setting within the configuration word.
    pub fn value(self) -> (r: u16)
        ensures
            r == self.spec_value(),
    {
        match self {
            PowerModeBM::Nom => 0x0000,
            PowerModeBM::LPM1 => 0x0001,
            PowerModeBM::LPM2 => 0x0002,
            PowerModeBM::LPM3 => 0x0003,
        }
    }
}

/// Hysteresis bits of the configuration word.
#[derive(Clone, Copy, Debug, PartialEq, Eq, Structural)]
pub enum HysteresisBM {
    HysteresisOff,
    HysteresisLSB1,
    HysteresisLSB2,
    HysteresisLSB3,
}

impl HysteresisBM {
    /// The mask of this setting within the configuration word.
    pub open spec fn spec_value(self) -> u16 {
        match self {
            HysteresisBM::HysteresisOff => 0x0000,
            HysteresisBM::HysteresisLSB1 => 0x0004,
            HysteresisBM::HysteresisLSB2 => 0x0008,
            HysteresisBM::HysteresisLSB3 => 0x000C,
        }
    }

    /// The mask of this setting within the configuration word.
    pub fn value(self) -> (r: u16)
        ensures
            r == self.spec_value(),
    {
        match self {
            HysteresisBM::HysteresisOff => 0x0000,
            HysteresisBM::HysteresisLSB1 => 0x0004,
            HysteresisBM::HysteresisLSB2 => 0x0008,
            HysteresisBM::HysteresisLSB3 => 0x000C,
        }
    }
}

/// Output-stage bits of the configuration word.
#[derive(Clone, Copy, Debug, PartialEq, Eq, Structural)]
pub enum OutputStageBM {
    VDD,
    VDD1,
    PWM,
}

impl OutputStageBM {
    /// The mask of this setting within the configuration word.
    pub open spec fn spec_value(self) -> u16 {
        match self {
            OutputStageBM::VDD => 0x0000,
            OutputStageBM::VDD1 => 0x0010,
            OutputStageBM::PWM => 0x0020,
        }
    }

    /// The mask of this setting within the configuration word.
    pub fn value(self) -> (r: u16)
        ensures
            r == self.spec_value(),
    {
        match self {
            OutputStageBM::VDD => 0x0000,
            OutputStageBM::VDD1 => 0x0010,
            OutputStageBM::PWM => 0x0020,
        }
    }
}

/// PWM-frequency bits of the configuration word.
#[derive(Clone, Copy, Debug, PartialEq, Eq, Structural)]
pub enum PWMFrequencyBM {
    F115hz,
    F230hz,
    F460hz,
    F920hz,
}

impl PWMFrequencyBM {
    /// The mask of this setting within the configuration word.
    pub open spec fn spec_value(self) -> u16 {
        match self {
            PWMFrequencyBM::F115hz => 0x0000,
            PWMFrequencyBM::F230hz => 0x0040,
            PWMFrequencyBM::F460hz => 0x0080,
            PWMFrequencyBM::F920hz => 0x00C0,
        }
    }

    /// The mask of this setting within the configuration word.
    pub fn value(self) -> (r: u16)
        ensures
            r == self.spec_value(),
    {
        match self {
            PWMFrequencyBM::F115hz => 0x0000,
            PWMFrequencyBM::F230hz => 0x0040,
            PWMFrequencyBM::F460hz => 0x0080,
            PWMFrequencyBM::F920hz => 0x00C0,
        }
    }
}

/// Slow-filter bits of the configuration word.
#[derive(Clone, Copy, Debug, PartialEq, Eq, Structural)]
pub enum SlowFilterBM {
    Fltr16x,
    Fltr8x,
    Fltr4x,
    Fltr2x,
}

impl SlowFilterBM {
    /// The mask of this setting within the configuration word.
    pub open spec fn spec_value(self) -> u16 {
        match self {
            SlowFilterBM::Fltr16x => 0x0000,
            SlowFilterBM::Fltr8x => 0x0100,
            SlowFilterBM::Fltr4x => 0x0200,
            SlowFilterBM::Fltr2x => 0x0300,
        }
    }

    /// The mask of this setting within the configuration word.
    pub fn value(self) -> (r: u16)
        ensures
            r == self.spec_value(),
    {
        match self {
            SlowFilterBM::Fltr16x => 0x0000,
            SlowFilterBM::Fltr8x => 0x0100,
            SlowFilterBM::Fltr4x => 0x0200,
            SlowFilterBM::Fltr2x => 0x0300,
        }
    }
}

/// Fast-filter-threshold bits of the configuration word.
#[derive(Clone, Copy, Debug, PartialEq, Eq, Structural)]
pub enum FastFilterThresholdBM {
    SlowOnly,
    LSB6,
    LSB7,
    LSB9,
    LSB18,
    LSB21,
    LSB24,
    LSB10,
}

impl FastFilterThresholdBM {
    /// The mask of this setting within the configuration word.
    pub open spec fn spec_value(self) -> u16 {
        match self {
            FastFilterThresholdBM::SlowOnly => 0x0000,
            FastFilterThresholdBM::LSB6 => 0x0400,
            FastFilterThresholdBM::LSB7 => 0x0800,
            FastFilterThresholdBM::LSB9 => 0x0C00,
            FastFilterThresholdBM::LSB18 => 0x1000,
            FastFilterThresholdBM::LSB21 => 0x1400,
            FastFilterThresholdBM::LSB24 => 0x1800,
            FastFilterThresholdBM::LSB10 => 0x1C00,
        }
    }

    /// The mask of this setting within the configuration word.
    pub fn value(self) -> (r: u16)
        ensures
            r == self.spec_value(),
    {
        match self {
            FastFilterThresholdBM::SlowOnly => 0x0000,
            FastFilterThresholdBM::LSB6 => 0x0400,
            FastFilterThresholdBM::LSB7 => 0x0800,
            FastFilterThresholdBM::LSB9 => 0x0C00,
            FastFilterThresholdBM::LSB18 => 0x1000,
            FastFilterThresholdBM::LSB21 => 0x1400,
            FastFilterThresholdBM::LSB24 => 0x1800,
            FastFilterThresholdBM::LSB10 => 0x1C00,
        }
    }
}

/// No two enumerated register names share an address value: within each
/// group every name has its own address, and the four groups are pairwise
/// disjoint.
pub proof fn lemma_register_addresses_distinct()
    ensures
        forall|a: ConfigRegisters, b: ConfigRegisters|
            #[trigger] a.spec_addr() == #[trigger] b.spec_addr() ==> a == b,
        forall|a: OutputRegisters, b: OutputRegisters|
            #[trigger] a.spec_addr() == #[trigger] b.spec_addr() ==> a == b,
        forall|a: StatusRegisters, b: StatusRegisters|
            #[trigger] a.spec_addr() == #[trigger] b.spec_addr() ==> a == b,
        forall|a: ConfigRegisters, b: OutputRegisters|
            #[trigger] a.spec_addr() != #[trigger] b.spec_addr(),
        forall|a: ConfigRegisters, b: StatusRegisters|
            #[trigger] a.spec_addr() != #[trigger] b.spec_addr(),
        forall|a: ConfigRegisters, b: BurnCommands|
            #[trigger] a.spec_addr() != #[trigger] b.spec_addr(),
        forall|a: OutputRegisters, b: StatusRegisters|
            #[trigger] a.spec_addr() != #[trigger] b.spec_addr(),
        forall|a: OutputRegisters, b: BurnCommands|
            #[trigger] a.spec_addr() != #[trigger] b.spec_addr(),
        forall|a: StatusRegisters, b: BurnCommands|
            #[trigger] a.spec_addr() != #[trigger] b.spec_addr(),
{
}

/// Every 12-bit quantity occupies a high-byte register immediately followed
/// by its low-byte register in address space.
pub proof fn lemma_paired_registers_adjacent()
    ensures
        ConfigRegisters::ZPosLo.spec_addr() == ConfigRegisters::ZPosHi.spec_addr() + 1,
        ConfigRegisters::MPosLo.spec_addr() == ConfigRegisters::MPosHi.spec_addr() + 1,
        ConfigRegisters::MAngLo.spec_addr() == ConfigRegisters::MAngHi.spec_addr() + 1,
        ConfigRegisters::ConfLo.spec_addr() == ConfigRegisters::ConfHi.spec_addr() + 1,
        ConfigRegisters::I2cUpdt.spec_addr() == ConfigRegisters::I2cAddr.spec_addr() + 1,
        OutputRegisters::RawAngleLo.spec_addr() == OutputRegisters::RawAngleHi.spec_addr() + 1,
        OutputRegisters::AngleLo.spec_addr() == OutputRegisters::AngleHi.spec_addr() + 1,
        StatusRegisters::MagnitudeLo.spec_addr() == StatusRegisters::MagnitudeHi.spec_addr() + 1,
{
}

/// Watchdog bit of the configuration word.
#[derive(Clone, Copy, Debug, PartialEq, Eq, Structural)]
pub enum WatchDogBM {
    Off,
    On,
}

impl WatchDogBM {
    /// The mask of this setting within the configuration word.
    pub open spec fn spec_value(self) -> u16 {
        match self {
            WatchDogBM::Off => 0x0000,
            WatchDogBM::On => 0x2000,
        }
    }

    /// The mask of this setting within the configuration word.
    pub fn value(self) -> (r: u16)
        ensures
            r == self.spec_value(),
    {
        match self {
            WatchDogBM::Off => 0x0000,
            WatchDogBM::On => 0x2000,
        }
    }
}

} // verus!
