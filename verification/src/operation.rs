//! Operations as state machines: where an operation stands, what it asks
//! of the line next, and what follows from the answer.
//!
//! An operation is a run of exchanges. Between two exchanges it is a
//! [`Stage`]: the exchange that is due, and what the operation remembers of
//! the exchanges before. The functions [`after_read`] and [`after_write`]
//! say what follows a stage once its exchange has succeeded; [`resumed`]
//! adds what follows when it has not.

use crate::conversions::{
    celsius_of_register, celsius_to_register, fault_status, parse_fan_fault_bitmap,
    register_of_celsius, register_to_celsius,
};
use crate::error::{ErrorKind, Jpf4826Error};
use crate::frame::Request;
use crate::modbus::{read_outcome, write_outcome, ReplyView};
use crate::registers::RegisterAddress;
use crate::types::{
    celsius, ControllerStatus, FanInfo, PwmFrequency, StatusView, Temperature, TemperatureUnit,
    WorkMode,
};
use vstd::prelude::*;

verus! {

/// Number of registers, from the first one on, that a status snapshot reads
/// in one exchange.
pub const STATUS_BLOCK: u16 = 15;

/// The settings part of a status snapshot: what the first exchange of
/// a status snapshot yields.
#[derive(Debug, Clone, Copy, PartialEq, Eq, Structural)]
pub struct Settings {
    pub eco_mode: bool,
    pub modbus_address: u8,
    pub pwm_frequency: PwmFrequency,
    pub fan_count: u8,
    pub temperature_current: Temperature,
    pub temperature_low_threshold: Temperature,
    pub temperature_high_threshold: Temperature,
}

/// The speeds of the four fans, in RPM.
#[derive(Debug, Clone, Copy, PartialEq, Eq, Structural)]
pub struct Speeds {
    pub fan1: u16,
    pub fan2: u16,
    pub fan3: u16,
    pub fan4: u16,
}

/// Whether a fan reading is part of a full status snapshot.
#[derive(Debug, Clone, Copy, PartialEq, Eq, Structural)]
pub enum Scope {
    /// The fans alone are asked for.
    FansOnly,
    /// The fans complete a snapshot that began with these settings.
    Snapshot(Settings),
}

/// Where an operation stands: the exchange that is due, and what the
/// operation remembers of the exchanges before it.
#[derive(Debug, Clone, Copy, PartialEq, Eq, Structural)]
pub enum Stage {
    /// Raw read of `count` registers from `register` on.
    Read { register: RegisterAddress, count: u16 },
    /// Read of the current temperature.
    Temperature,
    /// Read of one fan's speed.
    FanSpeed { register: RegisterAddress },
    /// Read of the configured number of fans.
    FanCount,
    /// First exchange of a status snapshot: the block of settings.
    StatusRegisters,
    /// Fan reading, first exchange: the running bitmap.
    FanRunning { scope: Scope },
    /// Fan reading, second exchange: the four speeds.
    FanSpeeds { scope: Scope },
    /// Fan reading, third exchange: the fault bitmap.
    FanFaults { scope: Scope, speeds: Speeds },
    /// Raw write, and the last exchange of every setter but the following.
    Write { register: RegisterAddress, value: u16 },
    /// Write of a new bus address; the session follows when it is confirmed.
    Address { addr: u8 },
    /// Setting both thresholds, first exchange: the low one.
    LowThreshold { low: i16, high: i16 },
    /// Setting the start threshold alone, first exchange: reading the
    /// full-speed threshold that the controller holds.
    StartCheck { low: i16 },
    /// Setting the full-speed threshold alone, first exchange: reading the
    /// start threshold that the controller holds.
    FullSpeedCheck { high: i16 },
}

/// What a finished operation yields.
#[derive(Debug)]
pub enum Outcome {
    /// Raw register values, in address order.
    Registers(Vec<u16>),
    /// The current temperature.
    Temperature(Temperature),
    /// The speed of one fan, in RPM.
    FanSpeed(u16),
    /// The configured number of fans.
    FanCount(u8),
    /// The four fans.
    FanStatus(Vec<FanInfo>),
    /// A status snapshot.
    Status(ControllerStatus),
    /// The controller confirmed what was written.
    Written,
}

/// Mathematical content of an [`Outcome`].
pub enum OutcomeView {
    Registers(Seq<u16>),
    Temperature(Temperature),
    FanSpeed(u16),
    FanCount(u8),
    FanStatus(Seq<FanInfo>),
    Status(StatusView),
    Written,
}

impl View for Outcome {
    type V = OutcomeView;

    open spec fn view(&self) -> OutcomeView {
        match *self {
            Outcome::Registers(values) => OutcomeView::Registers(values@),
            Outcome::Temperature(temperature) => OutcomeView::Temperature(temperature),
            Outcome::FanSpeed(rpm) => OutcomeView::FanSpeed(rpm),
            Outcome::FanCount(count) => OutcomeView::FanCount(count),
            Outcome::FanStatus(fans) => OutcomeView::FanStatus(fans@),
            Outcome::Status(status) => OutcomeView::Status(status@),
            Outcome::Written => OutcomeView::Written,
        }
    }
}

impl Outcome {
    /// The register values, if that is what the operation yielded.
    pub fn into_registers(self) -> (values: Option<Vec<u16>>)
        ensures
            match values {
                Some(values) => self@ == OutcomeView::Registers(values@),
                None => !(self@ is Registers),
            },
    {
        match self {
            Outcome::Registers(values) => Some(values),
            _ => None,
        }
    }

    /// The temperature, if that is what the operation yielded.
    pub fn into_temperature(self) -> (temperature: Option<Temperature>)
        ensures
            match temperature {
                Some(temperature) => self@ == OutcomeView::Temperature(temperature),
                None => !(self@ is Temperature),
            },
    {
        match self {
            Outcome::Temperature(temperature) => Some(temperature),
            _ => None,
        }
    }

    /// The fan speed, if that is what the operation yielded.
    pub fn into_fan_speed(self) -> (rpm: Option<u16>)
        ensures
            match rpm {
                Some(rpm) => self@ == OutcomeView::FanSpeed(rpm),
                None => !(self@ is FanSpeed),
            },
    {
        match self {
            Outcome::FanSpeed(rpm) => Some(rpm),
            _ => None,
        }
    }

    /// The fan count, if that is what the operation yielded.
    pub fn into_fan_count(self) -> (count: Option<u8>)
        ensures
            match count {
                Some(count) => self@ == OutcomeView::FanCount(count),
                None => !(self@ is FanCount),
            },
    {
        match self {
            Outcome::FanCount(count) => Some(count),
            _ => None,
        }
    }

    /// The four fans, if that is what the operation yielded.
    pub fn into_fan_status(self) -> (fans: Option<Vec<FanInfo>>)
        ensures
            match fans {
                Some(fans) => self@ == OutcomeView::FanStatus(fans@),
                None => !(self@ is FanStatus),
            },
    {
        match self {
            Outcome::FanStatus(fans) => Some(fans),
            _ => None,
        }
    }

    /// The status snapshot, if that is what the operation yielded.
    pub fn into_status(self) -> (status: Option<ControllerStatus>)
        ensures
            match status {
                Some(status) => self@ == OutcomeView::Status(status@),
                None => !(self@ is Status),
            },
    {
        match self {
            Outcome::Status(status) => Some(status),
            _ => None,
        }
    }

    /// Whether the operation was a write that the controller confirmed.
    pub fn is_written(&self) -> (yes: bool)
        ensures
            yes == (self@ is Written),
    {
        match self {
            Outcome::Written => true,
            _ => false,
        }
    }
}

/// What is due next in an operation.
#[derive(Debug)]
pub enum Step {
    /// An exchange with the controller: send the request of this stage, and
    /// resume with what the line returns.
    Exchange(Stage),
    /// The operation succeeded.
    Finished(Outcome),
    /// The operation failed.
    Failed(Jpf4826Error),
}

/// Mathematical content of a [`Step`].
pub enum StepView {
    Exchange(Stage),
    Finished(OutcomeView),
    Failed(ErrorKind),
}

impl View for Step {
    type V = StepView;

    open spec fn view(&self) -> StepView {
        match *self {
            Step::Exchange(stage) => StepView::Exchange(stage),
            Step::Finished(outcome) => StepView::Finished(outcome@),
            Step::Failed(error) => StepView::Failed(*error.kind()),
        }
    }
}

/// The low byte of a register, which is all that an 8-bit setting keeps of it.
pub open spec fn low_half(value: u16) -> u8 {
    (value % 256) as u8
}

/// The settings that a block of status registers holds. The ECO flag is set
/// when the work mode register selects shutdown; a PWM index that names no
/// frequency is read as the factory setting.
pub open spec fn settings_of(block: Seq<u16>) -> Settings {
    Settings {
        eco_mode: WorkMode::of_register(block[RegisterAddress::WorkMode.address() as int]) == Some(
            WorkMode::Shutdown,
        ),
        modbus_address: low_half(block[RegisterAddress::ModbusAddress.address() as int]),
        pwm_frequency: match PwmFrequency::of_register(
            block[RegisterAddress::PwmFrequency.address() as int],
        ) {
            Some(frequency) => frequency,
            None => PwmFrequency::Hz25000,
        },
        fan_count: low_half(block[RegisterAddress::FanQuantity.address() as int]),
        temperature_current: celsius(
            celsius_of_register(block[RegisterAddress::CurrentTemperature.address() as int] as int),
        ),
        temperature_low_threshold: celsius(
            celsius_of_register(block[RegisterAddress::StartTemperature.address() as int] as int),
        ),
        temperature_high_threshold: celsius(
            celsius_of_register(
                block[RegisterAddress::FullSpeedTemperature.address() as int] as int,
            ),
        ),
    }
}

/// The speed of fan `fan` (1 to 4).
pub open spec fn speed_of(speeds: Speeds, fan: int) -> u16 {
    if fan == 1 {
        speeds.fan1
    } else if fan == 2 {
        speeds.fan2
    } else if fan == 3 {
        speeds.fan3
    } else {
        speeds.fan4
    }
}

/// The four fans, from their speeds and the fault bitmap: entry `i` is fan
/// `i + 1`.
pub open spec fn fans_of(speeds: Speeds, fault_bitmap: u16) -> Seq<FanInfo> {
    Seq::new(
        4,
        |i: int|
            FanInfo {
                index: (i + 1) as u8,
                status: fault_status(fault_bitmap, i + 1),
                rpm: speed_of(speeds, i + 1),
            },
    )
}

/// The snapshot made of settings and fans.
pub open spec fn snapshot_of(settings: Settings, fans: Seq<FanInfo>) -> StatusView {
    StatusView {
        eco_mode: settings.eco_mode,
        modbus_address: settings.modbus_address,
        pwm_frequency: settings.pwm_frequency,
        fan_count: settings.fan_count,
        temperature_current: settings.temperature_current,
        temperature_low_threshold: settings.temperature_low_threshold,
        temperature_high_threshold: settings.temperature_high_threshold,
        fans,
    }
}

impl Stage {
    /// The exchange that is due at this stage.
    pub open spec fn spec_request(self) -> Request {
        match self {
            Stage::Read { register, count } => Request::ReadHoldingRegisters {
                start: register.address(),
                count,
            },
            Stage::Temperature => Request::ReadHoldingRegisters {
                start: RegisterAddress::CurrentTemperature.address(),
                count: 1,
            },
            Stage::FanSpeed { register } => Request::ReadHoldingRegisters {
                start: register.address(),
                count: 1,
            },
            Stage::FanCount => Request::ReadHoldingRegisters {
                start: RegisterAddress::FanQuantity.address(),
                count: 1,
            },
            Stage::StatusRegisters => Request::ReadHoldingRegisters {
                start: RegisterAddress::CurrentTemperature.address(),
                count: STATUS_BLOCK,
            },
            Stage::FanRunning { .. } => Request::ReadHoldingRegisters {
                start: RegisterAddress::FanStatus.address(),
                count: 1,
            },
            Stage::FanSpeeds { .. } => Request::ReadHoldingRegisters {
                start: RegisterAddress::Fan1Speed.address(),
                count: 4,
            },
            Stage::FanFaults { .. } => Request::ReadHoldingRegisters {
                start: RegisterAddress::FanFaultCode.address(),
                count: 1,
            },
            Stage::Write { register, value } => Request::WriteSingleRegister {
                register: register.address(),
                value,
            },
            Stage::Address { addr } => Request::WriteSingleRegister {
                register: RegisterAddress::ModbusAddress.address(),
                value: addr as u16,
            },
            Stage::LowThreshold { low, .. } => Request::WriteSingleRegister {
                register: RegisterAddress::StartTemperature.address(),
                value: register_of_celsius(low as int) as u16,
            },
            Stage::StartCheck { .. } => Request::ReadHoldingRegisters {
                start: RegisterAddress::FullSpeedTemperature.address(),
                count: 1,
            },
            Stage::FullSpeedCheck { .. } => Request::ReadHoldingRegisters {
                start: RegisterAddress::StartTemperature.address(),
                count: 1,
            },
        }
    }

    /// The largest number of exchanges that the operation still takes, this
    /// stage's included.
    pub open spec fn exchanges_left(self) -> nat {
        match self {
            Stage::StatusRegisters => 4,
            Stage::FanRunning { .. } => 3,
            Stage::FanSpeeds { .. } => 2,
            Stage::LowThreshold { .. } => 2,
            Stage::StartCheck { .. } => 2,
            Stage::FullSpeedCheck { .. } => 2,
            _ => 1,
        }
    }

    /// Returns the exchange that is due at this stage.
    #[verifier::when_used_as_spec(spec_request)]
    pub fn request(self) -> (request: Request)
        ensures
            request == self.request(),
    {
        match self {
            Stage::Read { register, count } => Request::ReadHoldingRegisters {
                start: register.addr(),
                count,
            },
            Stage::Temperature => Request::ReadHoldingRegisters {
                start: RegisterAddress::CurrentTemperature.addr(),
                count: 1,
            },
            Stage::FanSpeed { register } => Request::ReadHoldingRegisters {
                start: register.addr(),
                count: 1,
            },
            Stage::FanCount => Request::ReadHoldingRegisters {
                start: RegisterAddress::FanQuantity.addr(),
                count: 1,
            },
            Stage::StatusRegisters => Request::ReadHoldingRegisters {
                start: RegisterAddress::CurrentTemperature.addr(),
                count: STATUS_BLOCK,
            },
            Stage::FanRunning { .. } => Request::ReadHoldingRegisters {
                start: RegisterAddress::FanStatus.addr(),
                count: 1,
            },
            Stage::FanSpeeds { .. } => Request::ReadHoldingRegisters {
                start: RegisterAddress::Fan1Speed.addr(),
                count: 4,
            },
            Stage::FanFaults { .. } => Request::ReadHoldingRegisters {
                start: RegisterAddress::FanFaultCode.addr(),
                count: 1,
            },
            Stage::Write { register, value } => Request::WriteSingleRegister {
                register: register.addr(),
                value,
            },
            Stage::Address { addr } => Request::WriteSingleRegister {
                register: RegisterAddress::ModbusAddress.addr(),
                value: addr as u16,
            },
            Stage::LowThreshold { low, .. } => Request::WriteSingleRegister {
                register: RegisterAddress::StartTemperature.addr(),
                value: celsius_to_register(low),
            },
            Stage::StartCheck { .. } => Request::ReadHoldingRegisters {
                start: RegisterAddress::FullSpeedTemperature.addr(),
                count: 1,
            },
            Stage::FullSpeedCheck { .. } => Request::ReadHoldingRegisters {
                start: RegisterAddress::StartTemperature.addr(),
                count: 1,
            },
        }
    }
}

/// The step that follows a read at `stage` which returned `values`.
pub open spec fn after_read(stage: Stage, values: Seq<u16>) -> StepView {
    match stage {
        Stage::Read { .. } => StepView::Finished(OutcomeView::Registers(values)),
        Stage::Temperature => StepView::Finished(
            OutcomeView::Temperature(celsius(celsius_of_register(values[0] as int))),
        ),
        Stage::FanSpeed { .. } => StepView::Finished(OutcomeView::FanSpeed(values[0])),
        Stage::FanCount => StepView::Finished(OutcomeView::FanCount(low_half(values[0]))),
        Stage::StatusRegisters => StepView::Exchange(
            Stage::FanRunning { scope: Scope::Snapshot(settings_of(values)) },
        ),
        Stage::FanRunning { scope } => StepView::Exchange(Stage::FanSpeeds { scope }),
        Stage::FanSpeeds { scope } => StepView::Exchange(
            Stage::FanFaults {
                scope,
                speeds: Speeds {
                    fan1: values[0],
                    fan2: values[1],
                    fan3: values[2],
                    fan4: values[3],
                },
            },
        ),
        Stage::FanFaults { scope, speeds } => match scope {
            Scope::FansOnly => StepView::Finished(
                OutcomeView::FanStatus(fans_of(speeds, values[0])),
            ),
            Scope::Snapshot(settings) => StepView::Finished(
                OutcomeView::Status(snapshot_of(settings, fans_of(speeds, values[0]))),
            ),
        },
        Stage::StartCheck { low } => {
            let high = celsius_of_register(values[0] as int);
            if low >= high {
                StepView::Failed(ErrorKind::InvalidThresholds { low, high: high as i16 })
            } else {
                StepView::Exchange(
                    Stage::Write {
                        register: RegisterAddress::StartTemperature,
                        value: register_of_celsius(low as int) as u16,
                    },
                )
            }
        },
        Stage::FullSpeedCheck { high } => {
            let low = celsius_of_register(values[0] as int);
            if high <= low {
                StepView::Failed(ErrorKind::InvalidThresholds { low: low as i16, high })
            } else {
                StepView::Exchange(
                    Stage::Write {
                        register: RegisterAddress::FullSpeedTemperature,
                        value: register_of_celsius(high as int) as u16,
                    },
                )
            }
        },
        Stage::Write { .. } | Stage::Address { .. } | Stage::LowThreshold { .. } => after_write(
            stage,
        ),
    }
}

/// The step that follows a write at `stage` which the controller confirmed.
pub open spec fn after_write(stage: Stage) -> StepView {
    match stage {
        Stage::LowThreshold { high, .. } => StepView::Exchange(
            Stage::Write {
                register: RegisterAddress::FullSpeedTemperature,
                value: register_of_celsius(high as int) as u16,
            },
        ),
        _ => StepView::Finished(OutcomeView::Written),
    }
}

/// The step that follows `stage` when the line returned `reply` to a session
/// with bus address `slave` and timeout `timeout`.
///
/// Any failure of the exchange ends the operation with that failure. In
/// particular a timeout ends it with a timeout, at every stage.
pub open spec fn resumed(slave: u8, timeout: u64, stage: Stage, reply: ReplyView) -> StepView {
    match stage.request() {
        Request::ReadHoldingRegisters { start, count } => match read_outcome(
            slave,
            timeout,
            start,
            count,
            reply,
        ) {
            Ok(values) => after_read(stage, values),
            Err(kind) => StepView::Failed(kind),
        },
        Request::WriteSingleRegister { register, value } => match write_outcome(
            slave,
            timeout,
            register,
            value,
            reply,
        ) {
            Ok(()) => after_write(stage),
            Err(kind) => StepView::Failed(kind),
        },
    }
}

/// The bus address that the session holds after `stage` led to `step`: the
/// new address once its write is confirmed, the old one in every other case.
pub open spec fn address_after(slave: u8, stage: Stage, step: StepView) -> u8 {
    match (stage, step) {
        (Stage::Address { addr }, StepView::Finished(_)) => addr,
        _ => slave,
    }
}

fn celsius_reading(register: u16) -> (temperature: Temperature)
    ensures
        temperature == celsius(celsius_of_register(register as int)),
{
    Temperature { value: register_to_celsius(register), unit: TemperatureUnit::Celsius }
}

fn low_half_of(value: u16) -> (byte: u8)
    ensures
        byte == low_half(value),
{
    (value % 256) as u8
}

fn settings_from(block: &Vec<u16>) -> (settings: Settings)
    requires
        block@.len() == STATUS_BLOCK,
    ensures
        settings == settings_of(block@),
{
    let eco_mode = match WorkMode::from_register_value(block[5]) {
        Some(WorkMode::Shutdown) => true,
        _ => false,
    };
    let pwm_frequency = match PwmFrequency::from_register_value(block[11]) {
        Some(frequency) => frequency,
        None => PwmFrequency::Hz25000,
    };
    Settings {
        eco_mode,
        modbus_address: low_half_of(block[2]),
        pwm_frequency,
        fan_count: low_half_of(block[6]),
        temperature_current: celsius_reading(block[0]),
        temperature_low_threshold: celsius_reading(block[12]),
        temperature_high_threshold: celsius_reading(block[13]),
    }
}

fn fans_from(speeds: Speeds, fault_bitmap: u16) -> (fans: Vec<FanInfo>)
    ensures
        fans@ == fans_of(speeds, fault_bitmap),
{
    let statuses = parse_fan_fault_bitmap(fault_bitmap);
    let mut fans: Vec<FanInfo> = Vec::with_capacity(4);
    fans.push(FanInfo { index: 1, status: statuses[0], rpm: speeds.fan1 });
    fans.push(FanInfo { index: 2, status: statuses[1], rpm: speeds.fan2 });
    fans.push(FanInfo { index: 3, status: statuses[2], rpm: speeds.fan3 });
    fans.push(FanInfo { index: 4, status: statuses[3], rpm: speeds.fan4 });
    assert(fans@ =~= fans_of(speeds, fault_bitmap));
    fans
}

fn snapshot_from(settings: Settings, fans: Vec<FanInfo>) -> (status: ControllerStatus)
    ensures
        status@ == snapshot_of(settings, fans@),
{
    ControllerStatus {
        eco_mode: settings.eco_mode,
        modbus_address: settings.modbus_address,
        pwm_frequency: settings.pwm_frequency,
        fan_count: settings.fan_count,
        temperature_current: settings.temperature_current,
        temperature_low_threshold: settings.temperature_low_threshold,
        temperature_high_threshold: settings.temperature_high_threshold,
        fans,
    }
}

pub(crate) fn proceed_after_read(stage: Stage, values: Vec<u16>) -> (step: Step)
    requires
        stage.request() matches Request::ReadHoldingRegisters { count, .. } && values@.len()
            == count,
    ensures
        step@ == after_read(stage, values@),
{
    match stage {
        Stage::Read { .. } => Step::Finished(Outcome::Registers(values)),
        Stage::Temperature => Step::Finished(Outcome::Temperature(celsius_reading(values[0]))),
        Stage::FanSpeed { .. } => Step::Finished(Outcome::FanSpeed(values[0])),
        Stage::FanCount => Step::Finished(Outcome::FanCount(low_half_of(values[0]))),
        Stage::StatusRegisters => Step::Exchange(
            Stage::FanRunning { scope: Scope::Snapshot(settings_from(&values)) },
        ),
        Stage::FanRunning { scope } => Step::Exchange(Stage::FanSpeeds { scope }),
        Stage::FanSpeeds { scope } => Step::Exchange(
            Stage::FanFaults {
                scope,
                speeds: Speeds {
                    fan1: values[0],
                    fan2: values[1],
                    fan3: values[2],
                    fan4: values[3],
                },
            },
        ),
        Stage::FanFaults { scope, speeds } => {
            let fans = fans_from(speeds, values[0]);
            match scope {
                Scope::FansOnly => Step::Finished(Outcome::FanStatus(fans)),
                Scope::Snapshot(settings) => Step::Finished(
                    Outcome::Status(snapshot_from(settings, fans)),
                ),
            }
        },
        Stage::StartCheck { low } => {
            let high = register_to_celsius(values[0]);
            if low >= high {
                Step::Failed(Jpf4826Error::invalid_thresholds(low, high))
            } else {
                Step::Exchange(
                    Stage::Write {
                        register: RegisterAddress::StartTemperature,
                        value: celsius_to_register(low),
                    },
                )
            }
        },
        Stage::FullSpeedCheck { high } => {
            let low = register_to_celsius(values[0]);
            if high <= low {
                Step::Failed(Jpf4826Error::invalid_thresholds(low, high))
            } else {
                Step::Exchange(
                    Stage::Write {
                        register: RegisterAddress::FullSpeedTemperature,
                        value: celsius_to_register(high),
                    },
                )
            }
        },
        Stage::Write { .. } | Stage::Address { .. } | Stage::LowThreshold { .. } => {
            proceed_after_write(stage)
        },
    }
}

pub(crate) fn proceed_after_write(stage: Stage) -> (step: Step)
    ensures
        step@ == after_write(stage),
{
    match stage {
        Stage::LowThreshold { high, .. } => Step::Exchange(
            Stage::Write {
                register: RegisterAddress::FullSpeedTemperature,
                value: celsius_to_register(high),
            },
        ),
        _ => Step::Finished(Outcome::Written),
    }
}

} // verus!
