//! Failures that the driver reports.
//!
//! Every failure is handed to the caller; none is retried, and none is fatal:
//! a new operation may follow any of them. After a timeout, though, the
//! caller cannot know whether the controller acted on the request, and has
//! to read the controller back to find out.

use crate::frame::{FrameError, Request};
use crate::text::{decimal_of, push_decimal, push_signed_decimal, signed_decimal_of};
use std::backtrace::Backtrace;
use vstd::prelude::*;

verus! {

/// The standard library's captured stack, `std::backtrace::Backtrace`. An
/// error carries one for debugging; the library never looks inside, and
/// nothing is claimed of it.
#[verifier::external_type_specification]
#[verifier::external_body]
pub struct ExBacktrace(std::backtrace::Backtrace);

/// What went wrong in an exchange that did get an answer, or on the way to one.
#[derive(Debug)]
pub enum ExchangeFault {
    /// The link underneath failed; the text is the cause as the link gave it.
    Link(String),
    /// A response arrived and was rejected: malformed, bad checksum, device
    /// exception, or wrong echo.
    Frame(FrameError),
}

/// A parameter that is out of its range, with the value that was passed.
#[derive(Debug, Clone, Copy, PartialEq, Eq, Structural)]
pub enum ParameterFault {
    /// Fan count above 4.
    FanCount(u8),
    /// Low threshold outside -20 to 120 degrees, when both are set at once.
    LowTemperature(i16),
    /// High threshold outside -20 to 120 degrees, when both are set at once.
    HighTemperature(i16),
    /// Start threshold outside -20 to 120 degrees, when set alone.
    StartTemperature(i16),
    /// Full-speed threshold outside -20 to 120 degrees, when set alone.
    FullSpeedTemperature(i16),
    /// ECO selector other than 0 and 1.
    EcoMode(u8),
    /// A frequency in Hertz that is none of the six.
    PwmFrequency(u32),
}

impl ParameterFault {
    /// The fault in words.
    pub open spec fn text(self) -> Seq<char> {
        match self {
            ParameterFault::FanCount(count) => "Fan count "@ + decimal_of(count as nat)
                + " out of range (0-4)"@,
            ParameterFault::LowTemperature(celsius) => "Low temperature "@ + signed_decimal_of(
                celsius as int,
            ) + "°C out of range (-20 to 120)"@,
            ParameterFault::HighTemperature(celsius) => "High temperature "@ + signed_decimal_of(
                celsius as int,
            ) + "°C out of range (-20 to 120)"@,
            ParameterFault::StartTemperature(celsius) => "Start temperature "@
                + signed_decimal_of(celsius as int) + "°C out of range (-20 to 120)"@,
            ParameterFault::FullSpeedTemperature(celsius) => "Full speed temperature "@
                + signed_decimal_of(celsius as int) + "°C out of range (-20 to 120)"@,
            ParameterFault::EcoMode(selector) => "ECO mode "@ + decimal_of(selector as nat)
                + " out of range (0-1)"@,
            ParameterFault::PwmFrequency(hz) => "PWM frequency "@ + decimal_of(hz as nat)
                + " Hz is none of 500, 1000, 2000, 5000, 10000, 25000"@,
        }
    }

    /// Appends the fault in words.
    pub fn push_text(&self, text: &mut String)
        ensures
            final(text)@ == old(text)@ + self.text(),
    {
        match *self {
            ParameterFault::FanCount(count) => {
                text.append("Fan count ");
                push_decimal(text, count as u64);
                text.append(" out of range (0-4)");
            },
            ParameterFault::LowTemperature(celsius) => {
                text.append("Low temperature ");
                push_signed_decimal(text, celsius as i32);
                text.append("°C out of range (-20 to 120)");
            },
            ParameterFault::HighTemperature(celsius) => {
                text.append("High temperature ");
                push_signed_decimal(text, celsius as i32);
                text.append("°C out of range (-20 to 120)");
            },
            ParameterFault::StartTemperature(celsius) => {
                text.append("Start temperature ");
                push_signed_decimal(text, celsius as i32);
                text.append("°C out of range (-20 to 120)");
            },
            ParameterFault::FullSpeedTemperature(celsius) => {
                text.append("Full speed temperature ");
                push_signed_decimal(text, celsius as i32);
                text.append("°C out of range (-20 to 120)");
            },
            ParameterFault::EcoMode(selector) => {
                text.append("ECO mode ");
                push_decimal(text, selector as u64);
                text.append(" out of range (0-1)");
            },
            ParameterFault::PwmFrequency(hz) => {
                text.append("PWM frequency ");
                push_decimal(text, hz as u64);
                text.append(" Hz is none of 500, 1000, 2000, 5000, 10000, 25000");
            },
        }
        assert(text@ =~= old(text)@ + self.text());
    }
}

/// Classification of a failure.
#[derive(Debug)]
pub enum ErrorKind {
    /// The exchange for `request` failed.
    Modbus { request: Request, fault: ExchangeFault },
    /// The serial port could not be opened or configured.
    Serial(String),
    /// No response to `request` arrived within `millis` milliseconds.
    Timeout { request: Request, millis: u64 },
    /// A parameter is out of range.
    InvalidParameter(ParameterFault),
    /// The high threshold is not above the low one.
    InvalidThresholds { low: i16, high: i16 },
    /// Fan index outside 1 to 4.
    InvalidFanIndex(u8),
    /// Bus address outside 1 to 254.
    InvalidAddress(u8),
    /// Manual speed above 100 percent.
    InvalidSpeed(u8),
}

impl ErrorKind {
    /// The failure in words, as [`Jpf4826Error::message`] renders it.
    pub open spec fn text(self) -> Seq<char> {
        match self {
            ErrorKind::Modbus { request, fault } => "Modbus communication error: "@
                + request.text() + " failed: "@ + match fault {
                ExchangeFault::Link(cause) => cause@,
                ExchangeFault::Frame(reason) => reason.text(),
            },
            ErrorKind::Serial(cause) => "Serial port error: "@ + cause@,
            ErrorKind::Timeout { request, millis } => "Timeout: no response to "@
                + request.text() + " within "@ + decimal_of(millis as nat) + " ms"@,
            ErrorKind::InvalidParameter(fault) => "Invalid parameter: "@ + fault.text(),
            ErrorKind::InvalidThresholds { low, high } => "Temperature threshold error: high ("@
                + signed_decimal_of(high as int) + "°C) must be greater than low ("@
                + signed_decimal_of(low as int) + "°C)"@,
            ErrorKind::InvalidFanIndex(index) => "Fan index "@ + decimal_of(index as nat)
                + " out of range (1-4)"@,
            ErrorKind::InvalidAddress(addr) => "Modbus address "@ + decimal_of(addr as nat)
                + " out of range (1-254)"@,
            ErrorKind::InvalidSpeed(speed) => "Manual speed "@ + decimal_of(speed as nat)
                + "% out of range (0-100)"@,
        }
    }
}

/// Error of a driver operation: what failed, and where it was noticed.
#[derive(Debug)]
pub struct Jpf4826Error {
    kind: ErrorKind,
    backtrace: Backtrace,
}

/// Captures the current stack with `Backtrace::capture`. Whether anything is
/// captured depends on the environment, so nothing is claimed of the result.
#[verifier::external_body]
fn capture() -> Backtrace {
    Backtrace::capture()
}

impl Jpf4826Error {
    /// What failed.
    pub closed spec fn spec_kind(&self) -> &ErrorKind {
        &self.kind
    }

    /// The stack that the error carries: the one captured when it was made.
    pub closed spec fn spec_backtrace(&self) -> &Backtrace {
        &self.backtrace
    }

    /// Returns what failed.
    #[verifier::when_used_as_spec(spec_kind)]
    pub fn kind(&self) -> (kind: &ErrorKind)
        ensures
            kind == self.kind(),
    {
        &self.kind
    }

    fn new(kind: ErrorKind) -> (error: Self)
        ensures
            error.kind() == kind,
    {
        Jpf4826Error { kind, backtrace: capture() }
    }

    /// Error for an exchange that failed.
    pub fn modbus(request: Request, fault: ExchangeFault) -> (error: Self)
        ensures
            error.kind() == (ErrorKind::Modbus { request, fault }),
    {
        Self::new(ErrorKind::Modbus { request, fault })
    }

    /// Error for a serial port failure.
    pub fn serial(cause: String) -> (error: Self)
        ensures
            error.kind() == ErrorKind::Serial(cause),
    {
        Self::new(ErrorKind::Serial(cause))
    }

    /// Error for an exchange that got no response in time.
    pub fn timeout(request: Request, millis: u64) -> (error: Self)
        ensures
            error.kind() == (ErrorKind::Timeout { request, millis }),
    {
        Self::new(ErrorKind::Timeout { request, millis })
    }

    /// Error for a parameter out of range.
    pub fn invalid_parameter(fault: ParameterFault) -> (error: Self)
        ensures
            error.kind() == ErrorKind::InvalidParameter(fault),
    {
        Self::new(ErrorKind::InvalidParameter(fault))
    }

    /// Error for thresholds in the wrong order.
    pub fn invalid_thresholds(low: i16, high: i16) -> (error: Self)
        ensures
            error.kind() == (ErrorKind::InvalidThresholds { low, high }),
    {
        Self::new(ErrorKind::InvalidThresholds { low, high })
    }

    /// Error for a fan index outside 1 to 4.
    pub fn new_invalid_fan_index(index: u8) -> (error: Self)
        ensures
            error.kind() == ErrorKind::InvalidFanIndex(index),
    {
        Self::new(ErrorKind::InvalidFanIndex(index))
    }

    /// Error for a bus address outside 1 to 254.
    pub fn invalid_address(addr: u8) -> (error: Self)
        ensures
            error.kind() == ErrorKind::InvalidAddress(addr),
    {
        Self::new(ErrorKind::InvalidAddress(addr))
    }

    /// Error for a manual speed above 100 percent.
    pub fn invalid_speed(speed: u8) -> (error: Self)
        ensures
            error.kind() == ErrorKind::InvalidSpeed(speed),
    {
        Self::new(ErrorKind::InvalidSpeed(speed))
    }

    /// Whether an exchange failed: link fault, rejected frame, device
    /// exception or wrong echo.
    pub fn is_modbus(&self) -> (yes: bool)
        ensures
            yes == (self.kind() is Modbus),
    {
        match self.kind {
            ErrorKind::Modbus { .. } => true,
            _ => false,
        }
    }

    /// Whether the serial port failed.
    pub fn is_serial(&self) -> (yes: bool)
        ensures
            yes == (self.kind() is Serial),
    {
        match self.kind {
            ErrorKind::Serial(_) => true,
            _ => false,
        }
    }

    /// Whether an exchange got no response in time.
    pub fn is_timeout(&self) -> (yes: bool)
        ensures
            yes == (self.kind() is Timeout),
    {
        match self.kind {
            ErrorKind::Timeout { .. } => true,
            _ => false,
        }
    }

    /// Whether a parameter was out of range.
    pub fn is_invalid_parameter(&self) -> (yes: bool)
        ensures
            yes == (self.kind() is InvalidParameter),
    {
        match self.kind {
            ErrorKind::InvalidParameter(_) => true,
            _ => false,
        }
    }

    /// The fan index, if the error is an invalid fan index.
    pub fn invalid_fan_index(&self) -> (index: Option<u8>)
        ensures
            index == match *self.kind() {
                ErrorKind::InvalidFanIndex(index) => Some(index),
                _ => None,
            },
    {
        match self.kind {
            ErrorKind::InvalidFanIndex(index) => Some(index),
            _ => None,
        }
    }

    /// Renders the error as one line of text.
    pub fn message(&self) -> (text: String)
        ensures
            text@ == self.kind().text(),
    {
        let mut text = String::new();
        match &self.kind {
            ErrorKind::Modbus { request, fault } => {
                text.append("Modbus communication error: ");
                request.push_text(&mut text);
                text.append(" failed: ");
                match fault {
                    ExchangeFault::Link(cause) => {
                        text.append(cause.as_str());
                    },
                    ExchangeFault::Frame(reason) => {
                        reason.push_text(&mut text);
                    },
                }
            },
            ErrorKind::Serial(cause) => {
                text.append("Serial port error: ");
                text.append(cause.as_str());
            },
            ErrorKind::Timeout { request, millis } => {
                text.append("Timeout: no response to ");
                request.push_text(&mut text);
                text.append(" within ");
                push_decimal(&mut text, *millis);
                text.append(" ms");
            },
            ErrorKind::InvalidParameter(fault) => {
                text.append("Invalid parameter: ");
                fault.push_text(&mut text);
            },
            ErrorKind::InvalidThresholds { low, high } => {
                text.append("Temperature threshold error: high (");
                push_signed_decimal(&mut text, *high as i32);
                text.append("°C) must be greater than low (");
                push_signed_decimal(&mut text, *low as i32);
                text.append("°C)");
            },
            ErrorKind::InvalidFanIndex(index) => {
                text.append("Fan index ");
                push_decimal(&mut text, *index as u64);
                text.append(" out of range (1-4)");
            },
            ErrorKind::InvalidAddress(addr) => {
                text.append("Modbus address ");
                push_decimal(&mut text, *addr as u64);
                text.append(" out of range (1-254)");
            },
            ErrorKind::InvalidSpeed(speed) => {
                text.append("Manual speed ");
                push_decimal(&mut text, *speed as u64);
                text.append("% out of range (0-100)");
            },
        }
        assert(text@ =~= self.kind().text());
        text
    }

    /// Returns the stack that the error carries: the one captured when the
    /// error was made. Whether it holds any frames depends on the
    /// environment.
    #[verifier::when_used_as_spec(spec_backtrace)]
    pub fn backtrace(&self) -> (stack: &Backtrace)
        ensures
            stack == self.backtrace(),
    {
        &self.backtrace
    }
}

} // verus!
