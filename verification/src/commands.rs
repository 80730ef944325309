//! Settings requested together: which operations they come to, and in
//! which order.

use crate::client::{threshold_in_range, Jpf4826Client};
use crate::operation::{Stage, Step, StepView};
use crate::error::{ErrorKind, Jpf4826Error, ParameterFault};
use crate::registers::RegisterAddress;
use crate::types::{OperatingMode, PwmFrequency, WorkMode};
use vstd::prelude::*;

verus! {

/// Settings to apply; what is `None` (or `false`) is left as it is.
#[derive(Debug, Clone, Copy, PartialEq, Eq, Structural)]
pub struct SetArgs {
    /// Switch to temperature-driven operation.
    pub auto_speed: bool,
    /// New bus address, 1 to 254.
    pub modbus_addr: Option<u8>,
    /// New start threshold, -20 to 120 degrees.
    pub low_temp: Option<i16>,
    /// New full-speed threshold, -20 to 120 degrees.
    pub high_temp: Option<i16>,
    /// ECO selector: 0 keeps the minimum speed below the start threshold,
    /// 1 shuts the fans down.
    pub eco: Option<u8>,
    /// Number of fans, 0 to 4; 0 disables fault detection.
    pub fan_qty: Option<u8>,
    /// PWM frequency in Hertz: one of the six.
    pub pwm_freq: Option<u32>,
    /// Manual speed in percent, 0 to 100; switches to manual operation.
    pub manual_speed: Option<u8>,
}

/// One setter of the client, with its arguments.
#[derive(Debug, Clone, Copy, PartialEq, Eq, Structural)]
pub enum Command {
    SetMode(OperatingMode),
    SetAddr(u8),
    SetTemperatureThreshold { low: i16, high: i16 },
    SetStartTemperature(i16),
    SetFullSpeedTemperature(i16),
    SetEco(WorkMode),
    SetFanCount(u8),
    SetPwmFrequency(PwmFrequency),
    SetFanSpeed(u8),
}

/// The work mode that an ECO selector stands for.
pub open spec fn work_mode_of(selector: u8) -> Option<WorkMode> {
    if selector == 0 {
        Some(WorkMode::MinimumSpeed)
    } else if selector == 1 {
        Some(WorkMode::Shutdown)
    } else {
        None
    }
}

/// The first of the settings that names no value of its kind, if any: an
/// ECO selector other than 0 and 1, or a frequency that is none of the six.
pub open spec fn misnomer(args: SetArgs) -> Option<ParameterFault> {
    if args.eco is Some && work_mode_of(args.eco.unwrap()) is None {
        Some(ParameterFault::EcoMode(args.eco.unwrap()))
    } else if args.pwm_freq is Some && PwmFrequency::of_hertz(args.pwm_freq.unwrap()) is None {
        Some(ParameterFault::PwmFrequency(args.pwm_freq.unwrap()))
    } else {
        None
    }
}

/// The one command, or none.
pub open spec fn one_if(command: Option<Command>) -> Seq<Command> {
    match command {
        Some(command) => seq![command],
        None => seq![],
    }
}

/// The commands that the thresholds come to: both at once when both are
/// given, else the one that is given.
pub open spec fn threshold_commands(low: Option<i16>, high: Option<i16>) -> Seq<Command> {
    match (low, high) {
        (Some(low), Some(high)) => seq![Command::SetTemperatureThreshold { low, high }],
        (Some(low), None) => seq![Command::SetStartTemperature(low)],
        (None, Some(high)) => seq![Command::SetFullSpeedTemperature(high)],
        (None, None) => seq![],
    }
}

/// The commands that a manual speed comes to: manual operation first, then
/// the speed.
pub open spec fn speed_commands(percent: Option<u8>) -> Seq<Command> {
    match percent {
        Some(percent) => seq![
            Command::SetMode(OperatingMode::Manual),
            Command::SetFanSpeed(percent),
        ],
        None => seq![],
    }
}

/// The commands that the settings come to, in the order in which they are
/// carried out: operating mode, bus address, thresholds, ECO, fan count,
/// PWM frequency, and last the manual speed, which first switches to manual
/// operation. The bus address comes early on purpose: what follows it goes
/// to the new address.
pub open spec fn planned(args: SetArgs) -> Seq<Command> {
    one_if(
        if args.auto_speed {
            Some(Command::SetMode(OperatingMode::Temperature))
        } else {
            None
        },
    ) + one_if(
        match args.modbus_addr {
            Some(addr) => Some(Command::SetAddr(addr)),
            None => None,
        },
    ) + threshold_commands(args.low_temp, args.high_temp) + one_if(
        match args.eco {
            Some(selector) => Some(Command::SetEco(work_mode_of(selector).unwrap())),
            None => None,
        },
    ) + one_if(
        match args.fan_qty {
            Some(count) => Some(Command::SetFanCount(count)),
            None => None,
        },
    ) + one_if(
        match args.pwm_freq {
            Some(hz) => Some(Command::SetPwmFrequency(PwmFrequency::of_hertz(hz).unwrap())),
            None => None,
        },
    ) + speed_commands(args.manual_speed)
}

fn push_if(commands: &mut Vec<Command>, command: Option<Command>)
    ensures
        final(commands)@ == old(commands)@ + one_if(command),
{
    if let Some(command) = command {
        commands.push(command);
    }
    assert(commands@ =~= old(commands)@ + one_if(command));
}

fn push_thresholds(commands: &mut Vec<Command>, low: Option<i16>, high: Option<i16>)
    ensures
        final(commands)@ == old(commands)@ + threshold_commands(low, high),
{
    match (low, high) {
        (Some(low), Some(high)) => {
            commands.push(Command::SetTemperatureThreshold { low, high });
        },
        (Some(low), None) => {
            commands.push(Command::SetStartTemperature(low));
        },
        (None, Some(high)) => {
            commands.push(Command::SetFullSpeedTemperature(high));
        },
        (None, None) => {},
    }
    assert(commands@ =~= old(commands)@ + threshold_commands(low, high));
}

fn push_speed(commands: &mut Vec<Command>, percent: Option<u8>)
    ensures
        final(commands)@ == old(commands)@ + speed_commands(percent),
{
    if let Some(percent) = percent {
        commands.push(Command::SetMode(OperatingMode::Manual));
        commands.push(Command::SetFanSpeed(percent));
    }
    assert(commands@ =~= old(commands)@ + speed_commands(percent));
}

/// The first step of the operation that a command stands for.
pub open spec fn begun(command: Command) -> StepView {
    match command {
        Command::SetMode(mode) => StepView::Exchange(
            Stage::Write { register: RegisterAddress::ManualSpeedControl, value: mode.register() },
        ),
        Command::SetAddr(addr) => if 1 <= addr <= 254 {
            StepView::Exchange(Stage::Address { addr })
        } else {
            StepView::Failed(ErrorKind::InvalidAddress(addr))
        },
        Command::SetTemperatureThreshold { low, high } => if high <= low {
            StepView::Failed(ErrorKind::InvalidThresholds { low, high })
        } else if !threshold_in_range(low) {
            StepView::Failed(ErrorKind::InvalidParameter(ParameterFault::LowTemperature(low)))
        } else if !threshold_in_range(high) {
            StepView::Failed(ErrorKind::InvalidParameter(ParameterFault::HighTemperature(high)))
        } else {
            StepView::Exchange(Stage::LowThreshold { low, high })
        },
        Command::SetStartTemperature(low) => if threshold_in_range(low) {
            StepView::Exchange(Stage::StartCheck { low })
        } else {
            StepView::Failed(ErrorKind::InvalidParameter(ParameterFault::StartTemperature(low)))
        },
        Command::SetFullSpeedTemperature(high) => if threshold_in_range(high) {
            StepView::Exchange(Stage::FullSpeedCheck { high })
        } else {
            StepView::Failed(
                ErrorKind::InvalidParameter(ParameterFault::FullSpeedTemperature(high)),
            )
        },
        Command::SetEco(mode) => StepView::Exchange(
            Stage::Write { register: RegisterAddress::WorkMode, value: mode.register() },
        ),
        Command::SetFanCount(count) => if count <= 4 {
            StepView::Exchange(
                Stage::Write { register: RegisterAddress::FanQuantity, value: count as u16 },
            )
        } else {
            StepView::Failed(ErrorKind::InvalidParameter(ParameterFault::FanCount(count)))
        },
        Command::SetPwmFrequency(frequency) => StepView::Exchange(
            Stage::Write { register: RegisterAddress::PwmFrequency, value: frequency.register() },
        ),
        Command::SetFanSpeed(percent) => if percent <= 100 {
            StepView::Exchange(
                Stage::Write {
                    register: RegisterAddress::ManualSpeedControl,
                    value: percent as u16,
                },
            )
        } else {
            StepView::Failed(ErrorKind::InvalidSpeed(percent))
        },
    }
}

impl SetArgs {
    /// Tells whether nothing is to be set.
    pub fn is_empty(&self) -> (empty: bool)
        ensures
            empty == (!self.auto_speed && self.modbus_addr is None && self.low_temp is None
                && self.high_temp is None && self.eco is None && self.fan_qty is None
                && self.pwm_freq is None && self.manual_speed is None),
            empty == (planned(*self).len() == 0),
    {
        !self.auto_speed && self.modbus_addr.is_none() && self.low_temp.is_none()
            && self.high_temp.is_none() && self.eco.is_none() && self.fan_qty.is_none()
            && self.pwm_freq.is_none() && self.manual_speed.is_none()
    }

    /// Turns the settings into the commands of [`planned`]. Refuses them as
    /// a whole, before anything is carried out, when the ECO selector or
    /// the frequency names no value. Ranges are left to the commands.
    pub fn plan(&self) -> (result: Result<Vec<Command>, Jpf4826Error>)
        ensures
            match result {
                Ok(commands) => misnomer(*self) is None && commands@ == planned(*self),
                Err(error) => misnomer(*self) matches Some(fault) && error.kind()
                    == ErrorKind::InvalidParameter(fault),
            },
    {
        let work_mode = match self.eco {
            Some(0) => Some(WorkMode::MinimumSpeed),
            Some(1) => Some(WorkMode::Shutdown),
            Some(selector) => {
                return Err(Jpf4826Error::invalid_parameter(ParameterFault::EcoMode(selector)));
            },
            None => None,
        };
        let frequency = match self.pwm_freq {
            Some(hz) => match PwmFrequency::from_hz(hz) {
                Some(frequency) => Some(frequency),
                None => {
                    return Err(
                        Jpf4826Error::invalid_parameter(ParameterFault::PwmFrequency(hz)),
                    );
                },
            },
            None => None,
        };
        let mut commands: Vec<Command> = Vec::new();
        push_if(
            &mut commands,
            if self.auto_speed {
                Some(Command::SetMode(OperatingMode::Temperature))
            } else {
                None
            },
        );
        push_if(
            &mut commands,
            match self.modbus_addr {
                Some(addr) => Some(Command::SetAddr(addr)),
                None => None,
            },
        );
        push_thresholds(&mut commands, self.low_temp, self.high_temp);
        push_if(
            &mut commands,
            match work_mode {
                Some(mode) => Some(Command::SetEco(mode)),
                None => None,
            },
        );
        push_if(
            &mut commands,
            match self.fan_qty {
                Some(count) => Some(Command::SetFanCount(count)),
                None => None,
            },
        );
        push_if(
            &mut commands,
            match frequency {
                Some(frequency) => Some(Command::SetPwmFrequency(frequency)),
                None => None,
            },
        );
        push_speed(&mut commands, self.manual_speed);
        assert(commands@ =~= planned(*self));
        Ok(commands)
    }
}

impl Jpf4826Client {
    /// Starts the operation that a command stands for.
    pub fn begin(&self, command: Command) -> (step: Step)
        ensures
            step@ == begun(command),
    {
        match command {
            Command::SetMode(mode) => self.set_mode(mode),
            Command::SetAddr(addr) => self.set_addr(addr),
            Command::SetTemperatureThreshold { low, high } => self.set_temperature_threshold(
                low,
                high,
            ),
            Command::SetStartTemperature(low) => self.set_start_temperature(low),
            Command::SetFullSpeedTemperature(high) => self.set_full_speed_temperature(high),
            Command::SetEco(mode) => self.set_eco(mode),
            Command::SetFanCount(count) => self.set_fan_count(count),
            Command::SetPwmFrequency(frequency) => self.set_pwm_frequency(frequency),
            Command::SetFanSpeed(percent) => self.set_fan_speed(percent),
        }
    }
}

} // verus!
