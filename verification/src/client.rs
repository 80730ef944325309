//! Controller client: the operations of the controller, one exchange at a
//! time.
//!
//! The client performs no I/O. Each operation starts with a [`Step`]: either
//! the operation is already over (its parameters were refused, before
//! anything was sent), or an exchange with the controller is due. The caller
//! sends the frame of [`Jpf4826Client::request_frame`], waits for what the
//! line returns, and hands it to [`Jpf4826Client::resume`], which answers
//! with the next step. An operation takes between one and four exchanges.
//!
//! The composite reads ([`Jpf4826Client::status`], [`Jpf4826Client::fan_status`])
//! are several exchanges and so are not atomic: the controller may change
//! between them, and the snapshot then mixes two states. The controller has
//! no transactional read, so nothing is done about it.
//!
//! Every operation needs the client exclusively until it is over: the bus
//! address and the timeout belong to one conversation.

use crate::conversions::celsius_of_register;
use crate::error::{ErrorKind, Jpf4826Error, ParameterFault};
use crate::frame::{write_response_is_accepted, Request};
use crate::modbus::{ModbusRtuClient, Reply, ReplyView, DEFAULT_TIMEOUT};
use crate::operation::{
    address_after, after_read, after_write, proceed_after_read, proceed_after_write, resumed,
    OutcomeView, Scope, Stage, Step, StepView,
};
use crate::registers::{permitted, RegisterAddress};
use crate::types::{OperatingMode, PwmFrequency, WorkMode};
use vstd::prelude::*;

verus! {

/// Lowest temperature, in degrees Celsius, that a threshold may take.
pub const LOWEST_THRESHOLD: i16 = -20;

/// Highest temperature, in degrees Celsius, that a threshold may take.
pub const HIGHEST_THRESHOLD: i16 = 120;

/// Value that restarts the controller when written to the reset register.
pub const RESET_COMMAND: u16 = 0x00AA;

/// Whether a threshold lies in the range that the controller accepts.
pub open spec fn threshold_in_range(celsius: i16) -> bool {
    LOWEST_THRESHOLD <= celsius <= HIGHEST_THRESHOLD
}

/// Client of one controller.
#[derive(Debug)]
pub struct Jpf4826Client {
    modbus: ModbusRtuClient,
}

impl Jpf4826Client {
    /// The bus address that the client sends its requests to.
    pub closed spec fn spec_slave_addr(&self) -> u8 {
        self.modbus.slave_addr()
    }

    /// The bound on each exchange, in milliseconds.
    pub closed spec fn spec_timeout(&self) -> u64 {
        self.modbus.timeout()
    }

    /// Makes a client for the controller at bus address `slave_addr`, with
    /// the default timeout. Addresses outside 1 to 254 are refused.
    pub fn new(slave_addr: u8) -> (result: Result<Self, Jpf4826Error>)
        ensures
            match result {
                Ok(client) => 1 <= slave_addr <= 254 && client.slave_addr() == slave_addr
                    && client.timeout() == DEFAULT_TIMEOUT,
                Err(error) => !(1 <= slave_addr <= 254) && error.kind()
                    == ErrorKind::InvalidAddress(slave_addr),
            },
    {
        if slave_addr < 1 || slave_addr > 254 {
            return Err(Jpf4826Error::invalid_address(slave_addr));
        }
        Ok(Jpf4826Client { modbus: ModbusRtuClient::new(slave_addr) })
    }

    /// Returns the bus address that the client sends its requests to: the
    /// one it was made with, or the last one that the controller confirmed.
    #[verifier::when_used_as_spec(spec_slave_addr)]
    pub fn slave_addr(&self) -> (addr: u8)
        ensures
            addr == self.slave_addr(),
    {
        self.modbus.slave_addr()
    }

    /// Returns the bound on each exchange, in milliseconds.
    #[verifier::when_used_as_spec(spec_timeout)]
    pub fn timeout(&self) -> (millis: u64)
        ensures
            millis == self.timeout(),
    {
        self.modbus.timeout()
    }

    /// Sets the bound on each exchange that follows, in milliseconds.
    pub fn set_timeout(&mut self, millis: u64)
        ensures
            final(self).timeout() == millis,
            final(self).slave_addr() == old(self).slave_addr(),
    {
        self.modbus.set_timeout(millis);
    }

    /// Builds the frame to send for the exchange that is due at `stage`,
    /// addressed to the controller as the client knows it now.
    pub fn request_frame(&self, stage: Stage) -> (frame: Vec<u8>)
        ensures
            frame@ == stage.request().frame(self.slave_addr()),
            frame@.len() == 8,
            frame@[0] == self.slave_addr(),
    {
        stage.request().encode(self.modbus.slave_addr())
    }

    /// Takes what the line returned for the exchange of `stage`, and says
    /// what is due next.
    ///
    /// A failed exchange ends the operation with its failure, and a timeout
    /// ends it with a timeout. The client's bus address changes in one case
    /// only: when the controller has confirmed the write of a new address.
    /// If that write fails, the address stays as it was.
    pub fn resume(&mut self, stage: Stage, reply: Reply) -> (step: Step)
        ensures
            step@ == resumed(old(self).slave_addr(), old(self).timeout(), stage, reply@),
            final(self).slave_addr() == address_after(old(self).slave_addr(), stage, step@),
            final(self).timeout() == old(self).timeout(),
    {
        match stage.request() {
            Request::ReadHoldingRegisters { start, count } => {
                match self.modbus.read_holding_registers(start, count, reply) {
                    Ok(values) => proceed_after_read(stage, values),
                    Err(error) => Step::Failed(error),
                }
            },
            Request::WriteSingleRegister { register, value } => {
                match self.modbus.write_single_register(register, value, reply) {
                    Ok(()) => {
                        if let Stage::Address { addr } = stage {
                            self.modbus.set_slave_addr(addr);
                        }
                        proceed_after_write(stage)
                    },
                    Err(error) => Step::Failed(error),
                }
            },
        }
    }

    /// Starts a raw read of `count` registers from `register` on. Nothing is
    /// checked beyond what the register map encodes.
    pub fn read(&self, register: RegisterAddress, count: u16) -> (step: Step)
        ensures
            step@ == StepView::Exchange(Stage::Read { register, count }),
    {
        Step::Exchange(Stage::Read { register, count })
    }

    /// Starts a read of the current temperature.
    pub fn temperature(&self) -> (step: Step)
        ensures
            step@ == StepView::Exchange(Stage::Temperature),
    {
        Step::Exchange(Stage::Temperature)
    }

    /// Starts a read of the speed of fan `index`. An index outside 1 to 4 is
    /// refused before any register is derived from it.
    pub fn fan_speed(&self, index: u8) -> (step: Step)
        ensures
            step@ == match RegisterAddress::fan_speed(index) {
                Some(register) => StepView::Exchange(Stage::FanSpeed { register }),
                None => StepView::Failed(ErrorKind::InvalidFanIndex(index)),
            },
            step is Failed <==> !(1 <= index <= 4),
    {
        match RegisterAddress::fan_speed_register(index) {
            Some(register) => Step::Exchange(Stage::FanSpeed { register }),
            None => Step::Failed(Jpf4826Error::new_invalid_fan_index(index)),
        }
    }

    /// Starts a read of the configured number of fans.
    pub fn fan_count(&self) -> (step: Step)
        ensures
            step@ == StepView::Exchange(Stage::FanCount),
    {
        Step::Exchange(Stage::FanCount)
    }

    /// Starts a read of all four fans: running bitmap, speeds, fault bitmap.
    pub fn fan_status(&self) -> (step: Step)
        ensures
            step@ == StepView::Exchange(Stage::FanRunning { scope: Scope::FansOnly }),
    {
        Step::Exchange(Stage::FanRunning { scope: Scope::FansOnly })
    }

    /// Starts a status snapshot: the block of settings, then the fans.
    pub fn status(&self) -> (step: Step)
        ensures
            step@ == StepView::Exchange(Stage::StatusRegisters),
    {
        Step::Exchange(Stage::StatusRegisters)
    }

    /// Starts a raw write of `value` to `register`. Nothing is checked
    /// beyond what the register map encodes.
    pub fn write(&self, register: RegisterAddress, value: u16) -> (step: Step)
        ensures
            step@ == StepView::Exchange(Stage::Write { register, value }),
    {
        Step::Exchange(Stage::Write { register, value })
    }

    /// Starts a restart of the controller.
    pub fn reset(&self) -> (step: Step)
        ensures
            step@ == StepView::Exchange(
                Stage::Write { register: RegisterAddress::ResetController, value: RESET_COMMAND },
            ),
    {
        self.write(RegisterAddress::ResetController, RESET_COMMAND)
    }

    /// Starts a change of the operating mode.
    pub fn set_mode(&self, mode: OperatingMode) -> (step: Step)
        ensures
            step@ == StepView::Exchange(
                Stage::Write {
                    register: RegisterAddress::ManualSpeedControl,
                    value: mode.register(),
                },
            ),
    {
        self.write(RegisterAddress::ManualSpeedControl, mode.to_register_value())
    }

    /// Starts a change of the ECO setting.
    pub fn set_eco(&self, mode: WorkMode) -> (step: Step)
        ensures
            step@ == StepView::Exchange(
                Stage::Write { register: RegisterAddress::WorkMode, value: mode.register() },
            ),
    {
        self.write(RegisterAddress::WorkMode, mode.to_register_value())
    }

    /// Starts a change of the manual speed. A speed above 100 percent is
    /// refused.
    pub fn set_fan_speed(&self, speed_percent: u8) -> (step: Step)
        ensures
            step@ == if speed_percent <= 100 {
                StepView::Exchange(
                    Stage::Write {
                        register: RegisterAddress::ManualSpeedControl,
                        value: speed_percent as u16,
                    },
                )
            } else {
                StepView::Failed(ErrorKind::InvalidSpeed(speed_percent))
            },
    {
        if speed_percent > 100 {
            return Step::Failed(Jpf4826Error::invalid_speed(speed_percent));
        }
        self.write(RegisterAddress::ManualSpeedControl, speed_percent as u16)
    }

    /// Starts a change of the number of fans. A count above 4 is refused;
    /// 0 disables fault detection.
    pub fn set_fan_count(&self, count: u8) -> (step: Step)
        ensures
            step@ == if count <= 4 {
                StepView::Exchange(
                    Stage::Write { register: RegisterAddress::FanQuantity, value: count as u16 },
                )
            } else {
                StepView::Failed(ErrorKind::InvalidParameter(ParameterFault::FanCount(count)))
            },
    {
        if count > 4 {
            return Step::Failed(Jpf4826Error::invalid_parameter(ParameterFault::FanCount(count)));
        }
        self.write(RegisterAddress::FanQuantity, count as u16)
    }

    /// Starts switching fault detection off: a fan count of 0.
    pub fn disable_fault_detection(&self) -> (step: Step)
        ensures
            step@ == StepView::Exchange(
                Stage::Write { register: RegisterAddress::FanQuantity, value: 0 },
            ),
    {
        self.set_fan_count(0)
    }

    /// Starts a change of the controller's bus address. An address outside
    /// 1 to 254 is refused. The client follows to the new address when the
    /// controller confirms the write, and not before.
    pub fn set_addr(&self, addr: u8) -> (step: Step)
        ensures
            step@ == if 1 <= addr <= 254 {
                StepView::Exchange(Stage::Address { addr })
            } else {
                StepView::Failed(ErrorKind::InvalidAddress(addr))
            },
    {
        if addr < 1 || addr > 254 {
            return Step::Failed(Jpf4826Error::invalid_address(addr));
        }
        Step::Exchange(Stage::Address { addr })
    }

    /// Starts a change of the PWM frequency.
    pub fn set_pwm_frequency(&self, freq: PwmFrequency) -> (step: Step)
        ensures
            step@ == StepView::Exchange(
                Stage::Write { register: RegisterAddress::PwmFrequency, value: freq.register() },
            ),
    {
        self.write(RegisterAddress::PwmFrequency, freq.to_register_value())
    }

    /// Starts a change of both thresholds. The high threshold must be above
    /// the low one, and both must lie between -20 and 120 degrees; the order
    /// is checked first. The low threshold is written first.
    pub fn set_temperature_threshold(&self, low: i16, high: i16) -> (step: Step)
        ensures
            step@ == if high <= low {
                StepView::Failed(ErrorKind::InvalidThresholds { low, high })
            } else if !threshold_in_range(low) {
                StepView::Failed(
                    ErrorKind::InvalidParameter(ParameterFault::LowTemperature(low)),
                )
            } else if !threshold_in_range(high) {
                StepView::Failed(
                    ErrorKind::InvalidParameter(ParameterFault::HighTemperature(high)),
                )
            } else {
                StepView::Exchange(Stage::LowThreshold { low, high })
            },
    {
        if high <= low {
            return Step::Failed(Jpf4826Error::invalid_thresholds(low, high));
        }
        if low < LOWEST_THRESHOLD || low > HIGHEST_THRESHOLD {
            return Step::Failed(
                Jpf4826Error::invalid_parameter(ParameterFault::LowTemperature(low)),
            );
        }
        if high < LOWEST_THRESHOLD || high > HIGHEST_THRESHOLD {
            return Step::Failed(
                Jpf4826Error::invalid_parameter(ParameterFault::HighTemperature(high)),
            );
        }
        Step::Exchange(Stage::LowThreshold { low, high })
    }

    /// Starts a change of the start threshold alone. It must lie between -20
    /// and 120 degrees, and below the full-speed threshold that the
    /// controller holds, which is read first.
    pub fn set_start_temperature(&self, low: i16) -> (step: Step)
        ensures
            step@ == if threshold_in_range(low) {
                StepView::Exchange(Stage::StartCheck { low })
            } else {
                StepView::Failed(
                    ErrorKind::InvalidParameter(ParameterFault::StartTemperature(low)),
                )
            },
    {
        if low < LOWEST_THRESHOLD || low > HIGHEST_THRESHOLD {
            return Step::Failed(
                Jpf4826Error::invalid_parameter(ParameterFault::StartTemperature(low)),
            );
        }
        Step::Exchange(Stage::StartCheck { low })
    }

    /// Starts a change of the full-speed threshold alone. It must lie
    /// between -20 and 120 degrees, and above the start threshold that the
    /// controller holds, which is read first.
    pub fn set_full_speed_temperature(&self, high: i16) -> (step: Step)
        ensures
            step@ == if threshold_in_range(high) {
                StepView::Exchange(Stage::FullSpeedCheck { high })
            } else {
                StepView::Failed(
                    ErrorKind::InvalidParameter(ParameterFault::FullSpeedTemperature(high)),
                )
            },
    {
        if high < LOWEST_THRESHOLD || high > HIGHEST_THRESHOLD {
            return Step::Failed(
                Jpf4826Error::invalid_parameter(ParameterFault::FullSpeedTemperature(high)),
            );
        }
        Step::Exchange(Stage::FullSpeedCheck { high })
    }
}

/// An exchange that times out ends the operation with a timeout, at every
/// stage, and leaves the client's bus address alone. Whether the controller
/// acted on the request is not known.
pub proof fn timeout_ends_the_operation(slave: u8, timeout: u64, stage: Stage)
    ensures
        resumed(slave, timeout, stage, ReplyView::TimedOut) == StepView::Failed(
            ErrorKind::Timeout { request: stage.request(), millis: timeout },
        ),
        address_after(slave, stage, resumed(slave, timeout, stage, ReplyView::TimedOut)) == slave,
{
}

/// The client's bus address changes only when the controller has echoed the
/// write of the new address; after a failure it is what it was.
pub proof fn address_follows_confirmed_write(
    slave: u8,
    timeout: u64,
    stage: Stage,
    reply: ReplyView,
)
    ensures
        resumed(slave, timeout, stage, reply) is Failed ==> address_after(
            slave,
            stage,
            resumed(slave, timeout, stage, reply),
        ) == slave,
        address_after(slave, stage, resumed(slave, timeout, stage, reply)) != slave ==> {
            &&& stage is Address
            &&& reply == ReplyView::Frame(stage.request().frame(slave))
            &&& address_after(slave, stage, resumed(slave, timeout, stage, reply))
                == stage->addr
        },
        stage is Address ==> {
            let echo = ReplyView::Frame(stage.request().frame(slave));
            &&& resumed(slave, timeout, stage, echo) == StepView::Finished(OutcomeView::Written)
            &&& address_after(slave, stage, resumed(slave, timeout, stage, echo)) == stage->addr
        },
{
    if let Stage::Address { addr } = stage {
        let register = RegisterAddress::ModbusAddress.address();
        if let ReplyView::Frame(bytes) = reply {
            write_response_is_accepted(bytes, slave, register, addr as u16);
        }
        write_response_is_accepted(Seq::empty(), slave, register, addr as u16);
    }
}

/// Every exchange brings an operation closer to its end: an operation takes
/// at most four.
pub proof fn operation_makes_progress(slave: u8, timeout: u64, stage: Stage, reply: ReplyView)
    ensures
        1 <= stage.exchanges_left() <= 4,
        resumed(slave, timeout, stage, reply) matches StepView::Exchange(next)
            ==> next.exchanges_left() < stage.exchanges_left(),
{
}

/// Thresholds that reach the wire are in order: when both are set, the two
/// writes carry a low threshold strictly below the high one, both between
/// -20 and 120 degrees; when one is set alone, its write is only issued if
/// it keeps strictly to its side of the threshold that the controller
/// reported.
pub proof fn thresholds_stay_ordered(low: i16, high: i16, stored: u16)
    ensures
        threshold_in_range(low) && threshold_in_range(high) && low < high ==> {
            &&& Stage::LowThreshold { low, high }.request() == Request::WriteSingleRegister {
                register: RegisterAddress::StartTemperature.address(),
                value: (low + 40) as u16,
            }
            &&& after_write(Stage::LowThreshold { low, high }) == StepView::Exchange(
                Stage::Write {
                    register: RegisterAddress::FullSpeedTemperature,
                    value: (high + 40) as u16,
                },
            )
        },
        after_read(Stage::StartCheck { low }, seq![stored]) is Exchange <==> low
            < celsius_of_register(stored as int),
        after_read(Stage::FullSpeedCheck { high }, seq![stored]) is Exchange <==> high
            > celsius_of_register(stored as int),
{
}

/// Whether a stage is one of the client's own making, with its target fixed
/// by the operation: every stage but the raw read and the raw write, whose
/// target the caller chooses.
pub open spec fn composed(stage: Stage) -> bool {
    match stage {
        Stage::Read { .. } => false,
        Stage::Write { register, .. } => register == RegisterAddress::StartTemperature
            || register == RegisterAddress::FullSpeedTemperature,
        Stage::FanSpeed { register } => exists|index: u8|
            RegisterAddress::fan_speed(index) == Some(register),
        _ => true,
    }
}

/// The operations keep to the register map: what the client reads of its
/// own accord can be read, what it writes can be written, and a stage of
/// the client's making is followed by none but stages of its making.
pub proof fn operations_keep_to_the_register_map(
    slave: u8,
    timeout: u64,
    stage: Stage,
    reply: ReplyView,
)
    requires
        composed(stage),
    ensures
        permitted(stage.request()),
        resumed(slave, timeout, stage, reply) matches StepView::Exchange(next) ==> composed(next),
{
}

/// The registers that the setters write can be written.
pub proof fn setters_write_what_can_be_written(value: u16)
    ensures
        permitted(
            Stage::Write { register: RegisterAddress::ManualSpeedControl, value }.request(),
        ),
        permitted(Stage::Write { register: RegisterAddress::WorkMode, value }.request()),
        permitted(Stage::Write { register: RegisterAddress::FanQuantity, value }.request()),
        permitted(Stage::Write { register: RegisterAddress::PwmFrequency, value }.request()),
        permitted(Stage::Write { register: RegisterAddress::ResetController, value }.request()),
        permitted(Stage::Write { register: RegisterAddress::ModbusAddress, value }.request()),
{
}

} // verus!
