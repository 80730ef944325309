//! Domain types of the controller protocol.

use vstd::prelude::*;

verus! {

/// Behaviour of the fans below the start threshold (the "ECO" setting).
#[derive(Debug, Clone, Copy, PartialEq, Eq, Structural)]
pub enum WorkMode {
    /// Fans stop completely below the start threshold.
    Shutdown,
    /// Fans keep 20 % speed below the start threshold.
    MinimumSpeed,
}

impl WorkMode {
    /// The register value that selects this mode.
    pub open spec fn register(self) -> u16 {
        match self {
            WorkMode::Shutdown => 0x0000,
            WorkMode::MinimumSpeed => 0x0001,
        }
    }

    /// The mode that a register value selects, if any.
    pub open spec fn of_register(value: u16) -> Option<WorkMode> {
        if value == 0x0000 {
            Some(WorkMode::Shutdown)
        } else if value == 0x0001 {
            Some(WorkMode::MinimumSpeed)
        } else {
            None
        }
    }

    /// Converts the mode to its register value.
    pub fn to_register_value(self) -> (value: u16)
        ensures
            value == self.register(),
    {
        match self {
            WorkMode::Shutdown => 0x0000,
            WorkMode::MinimumSpeed => 0x0001,
        }
    }

    /// Reads a mode from a register value; `None` for values other than 0 and 1.
    pub fn from_register_value(value: u16) -> (mode: Option<Self>)
        ensures
            mode == Self::of_register(value),
            mode matches Some(found) ==> found.register() == value,
            mode is None <==> value > 1,
    {
        match value {
            0x0000 => Some(WorkMode::Shutdown),
            0x0001 => Some(WorkMode::MinimumSpeed),
            _ => None,
        }
    }
}

/// What drives the fan speed.
#[derive(Debug, Clone, Copy, PartialEq, Eq, Structural)]
pub enum OperatingMode {
    /// The controller follows the temperature sensor.
    Temperature,
    /// The speed is set by hand, as a percentage.
    Manual,
}

impl OperatingMode {
    /// The register value that selects this mode. For manual operation it is
    /// the sentinel 0, which doubles as a manual speed of 0 %.
    pub open spec fn register(self) -> u16 {
        match self {
            OperatingMode::Temperature => 0xFFFF,
            OperatingMode::Manual => 0x0000,
        }
    }

    /// The mode that a value of the speed-control register stands for:
    /// 0xFFFF is temperature-driven, everything else is a manual speed.
    pub open spec fn of_register(value: u16) -> OperatingMode {
        if value == 0xFFFF {
            OperatingMode::Temperature
        } else {
            OperatingMode::Manual
        }
    }

    /// Converts the mode to its register value.
    pub fn to_register_value(self) -> (value: u16)
        ensures
            value == self.register(),
    {
        match self {
            OperatingMode::Temperature => 0xFFFF,
            OperatingMode::Manual => 0x0000,
        }
    }

    /// Reads the mode off a value of the speed-control register.
    pub fn from_register_value(value: u16) -> (mode: Self)
        ensures
            mode == Self::of_register(value),
    {
        if value == 0xFFFF {
            OperatingMode::Temperature
        } else {
            OperatingMode::Manual
        }
    }
}

/// Fan operational status from controller diagnostics.
#[derive(Debug, Clone, Copy, PartialEq, Eq, Structural)]
pub enum FanStatus {
    /// Fan operating correctly.
    Normal,
    /// Fan fault detected.
    Fault,
}

/// Unit tag of a temperature. Only Celsius ever travels on the wire.
#[derive(Debug, Clone, Copy, PartialEq, Eq, Structural)]
pub enum TemperatureUnit {
    /// Celsius temperature scale.
    Celsius,
    /// Fahrenheit temperature scale.
    Fahrenheit,
}

/// PWM frequency of the fan control signal: one of six fixed values.
#[derive(Debug, Clone, Copy, PartialEq, Eq, Structural)]
pub enum PwmFrequency {
    /// 500 Hz.
    Hz500,
    /// 1000 Hz.
    Hz1000,
    /// 2000 Hz.
    Hz2000,
    /// 5000 Hz.
    Hz5000,
    /// 10000 Hz.
    Hz10000,
    /// 25000 Hz, the factory setting.
    Hz25000,
}

impl PwmFrequency {
    /// The register index of the frequency, 0 to 5.
    pub open spec fn register(self) -> u16 {
        match self {
            PwmFrequency::Hz500 => 0,
            PwmFrequency::Hz1000 => 1,
            PwmFrequency::Hz2000 => 2,
            PwmFrequency::Hz5000 => 3,
            PwmFrequency::Hz10000 => 4,
            PwmFrequency::Hz25000 => 5,
        }
    }

    /// The frequency in Hertz.
    pub open spec fn hertz(self) -> u32 {
        match self {
            PwmFrequency::Hz500 => 500,
            PwmFrequency::Hz1000 => 1000,
            PwmFrequency::Hz2000 => 2000,
            PwmFrequency::Hz5000 => 5000,
            PwmFrequency::Hz10000 => 10000,
            PwmFrequency::Hz25000 => 25000,
        }
    }

    /// The frequency with register index `value`, if there is one.
    pub open spec fn of_register(value: u16) -> Option<PwmFrequency> {
        if value == 0 {
            Some(PwmFrequency::Hz500)
        } else if value == 1 {
            Some(PwmFrequency::Hz1000)
        } else if value == 2 {
            Some(PwmFrequency::Hz2000)
        } else if value == 3 {
            Some(PwmFrequency::Hz5000)
        } else if value == 4 {
            Some(PwmFrequency::Hz10000)
        } else if value == 5 {
            Some(PwmFrequency::Hz25000)
        } else {
            None
        }
    }

    /// The frequency of `hz` Hertz, if it is one of the six.
    pub open spec fn of_hertz(hz: u32) -> Option<PwmFrequency> {
        if hz == 500 {
            Some(PwmFrequency::Hz500)
        } else if hz == 1000 {
            Some(PwmFrequency::Hz1000)
        } else if hz == 2000 {
            Some(PwmFrequency::Hz2000)
        } else if hz == 5000 {
            Some(PwmFrequency::Hz5000)
        } else if hz == 10000 {
            Some(PwmFrequency::Hz10000)
        } else if hz == 25000 {
            Some(PwmFrequency::Hz25000)
        } else {
            None
        }
    }

    /// Converts the frequency to its register index.
    pub fn to_register_value(self) -> (value: u16)
        ensures
            value == self.register(),
            value <= 5,
    {
        match self {
            PwmFrequency::Hz500 => 0x0000,
            PwmFrequency::Hz1000 => 0x0001,
            PwmFrequency::Hz2000 => 0x0002,
            PwmFrequency::Hz5000 => 0x0003,
            PwmFrequency::Hz10000 => 0x0004,
            PwmFrequency::Hz25000 => 0x0005,
        }
    }

    /// Reads a frequency from its register index; `None` above 5.
    pub fn from_register_value(value: u16) -> (frequency: Option<Self>)
        ensures
            frequency == Self::of_register(value),
            frequency matches Some(found) ==> found.register() == value,
            frequency is None <==> value > 5,
    {
        match value {
            0x0000 => Some(PwmFrequency::Hz500),
            0x0001 => Some(PwmFrequency::Hz1000),
            0x0002 => Some(PwmFrequency::Hz2000),
            0x0003 => Some(PwmFrequency::Hz5000),
            0x0004 => Some(PwmFrequency::Hz10000),
            0x0005 => Some(PwmFrequency::Hz25000),
            _ => None,
        }
    }

    /// Returns the frequency in Hertz.
    pub fn to_hz(self) -> (hz: u32)
        ensures
            hz == self.hertz(),
    {
        match self {
            PwmFrequency::Hz500 => 500,
            PwmFrequency::Hz1000 => 1000,
            PwmFrequency::Hz2000 => 2000,
            PwmFrequency::Hz5000 => 5000,
            PwmFrequency::Hz10000 => 10000,
            PwmFrequency::Hz25000 => 25000,
        }
    }

    /// Reads a frequency from a value in Hertz; `None` for any value that is
    /// not one of the six.
    pub fn from_hz(hz: u32) -> (frequency: Option<Self>)
        ensures
            frequency == Self::of_hertz(hz),
            frequency matches Some(found) ==> found.hertz() == hz,
    {
        match hz {
            500 => Some(PwmFrequency::Hz500),
            1000 => Some(PwmFrequency::Hz1000),
            2000 => Some(PwmFrequency::Hz2000),
            5000 => Some(PwmFrequency::Hz5000),
            10000 => Some(PwmFrequency::Hz10000),
            25000 => Some(PwmFrequency::Hz25000),
            _ => None,
        }
    }
}

/// Temperature reading with its unit.
#[derive(Debug, Clone, Copy, PartialEq, Eq, Structural)]
pub struct Temperature {
    /// Temperature value.
    pub value: i16,
    /// Temperature unit.
    pub unit: TemperatureUnit,
}

/// Status and speed of one fan.
#[derive(Debug, Clone, Copy, PartialEq, Eq, Structural)]
pub struct FanInfo {
    /// Fan index (1-4).
    pub index: u8,
    /// Operational status.
    pub status: FanStatus,
    /// Rotation speed in RPM.
    pub rpm: u16,
}

/// Snapshot of the controller, assembled from several register reads.
///
/// The reads are separate exchanges, so the snapshot is not atomic: the
/// controller may change state between them.
#[derive(Debug, Clone, PartialEq)]
pub struct ControllerStatus {
    /// ECO setting: `true` when the fans shut down below the start
    /// threshold, `false` when they keep the minimum speed.
    pub eco_mode: bool,
    /// Bus address of the controller (1-254).
    pub modbus_address: u8,
    /// PWM frequency setting.
    pub pwm_frequency: PwmFrequency,
    /// Number of fans configured (0-4, 0 = fault detection disabled).
    pub fan_count: u8,
    /// Current temperature reading.
    pub temperature_current: Temperature,
    /// Threshold at which the fans start.
    pub temperature_low_threshold: Temperature,
    /// Threshold at which the fans reach full speed.
    pub temperature_high_threshold: Temperature,
    /// Status of the individual fans.
    pub fans: Vec<FanInfo>,
}

/// Mathematical content of a [`ControllerStatus`].
pub struct StatusView {
    pub eco_mode: bool,
    pub modbus_address: u8,
    pub pwm_frequency: PwmFrequency,
    pub fan_count: u8,
    pub temperature_current: Temperature,
    pub temperature_low_threshold: Temperature,
    pub temperature_high_threshold: Temperature,
    pub fans: Seq<FanInfo>,
}

impl View for ControllerStatus {
    type V = StatusView;

    open spec fn view(&self) -> StatusView {
        StatusView {
            eco_mode: self.eco_mode,
            modbus_address: self.modbus_address,
            pwm_frequency: self.pwm_frequency,
            fan_count: self.fan_count,
            temperature_current: self.temperature_current,
            temperature_low_threshold: self.temperature_low_threshold,
            temperature_high_threshold: self.temperature_high_threshold,
            fans: self.fans@,
        }
    }
}

/// A Celsius temperature.
pub open spec fn celsius(value: int) -> Temperature {
    Temperature { value: value as i16, unit: TemperatureUnit::Celsius }
}

/// Register value and operating or work mode determine each other.
pub proof fn mode_register_round_trip(work: WorkMode, operating: OperatingMode)
    ensures
        WorkMode::of_register(work.register()) == Some(work),
        OperatingMode::of_register(operating.register()) == operating,
{
}

/// Register index, Hertz value and PWM frequency determine each other: the
/// six frequencies take the indices 0 to 5 and six distinct Hertz values.
pub proof fn pwm_frequency_round_trip(frequency: PwmFrequency, other: PwmFrequency)
    ensures
        PwmFrequency::of_register(frequency.register()) == Some(frequency),
        PwmFrequency::of_hertz(frequency.hertz()) == Some(frequency),
        frequency.register() == other.register() <==> frequency == other,
        frequency.hertz() == other.hertz() <==> frequency == other,
{
}

} // verus!
