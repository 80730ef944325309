//! Register map of the controller.
//!
//! Every register the driver touches has a name here; raw addresses are
//! derived from the names and never computed, except for the fan speed
//! registers, which are selected by fan index.

use crate::frame::Request;
use vstd::prelude::*;

verus! {

/// What may be done with a register.
#[derive(Debug, Clone, Copy, PartialEq, Eq, Structural)]
pub enum AccessMode {
    /// The register can be read, and not written.
    ReadOnly,
    /// The register can be read and written.
    ReadWrite,
    /// The register can be written, and not read.
    WriteOnly,
}

/// Holding registers of the controller.
#[derive(Debug, Clone, Copy, PartialEq, Eq, Structural)]
pub enum RegisterAddress {
    /// 0x0000, read-only: current temperature, stored with the +40 offset.
    CurrentTemperature,
    /// 0x0001, read-only: running bitmap, bit 0 is fan 1; 1 = running.
    FanStatus,
    /// 0x0002, read/write: bus address of the controller, 1 to 254.
    ModbusAddress,
    /// 0x0003, read/write: 0 to 100 is the manual speed in percent,
    /// 0xFFFF selects temperature-driven operation.
    ManualSpeedControl,
    /// 0x0004, read/write: start threshold in the high byte, full-speed
    /// threshold in the low byte, each with the +40 offset.
    CombinedTemperature,
    /// 0x0005, read/write: behaviour below the start threshold;
    /// 0 = shut down, 1 = keep the minimum speed.
    WorkMode,
    /// 0x0006, read/write: number of fans, 1 to 4; 0 disables fault detection.
    FanQuantity,
    /// 0x0007, read-only: speed of fan 1 in RPM.
    Fan1Speed,
    /// 0x0008, read-only: speed of fan 2 in RPM.
    Fan2Speed,
    /// 0x0009, read-only: speed of fan 3 in RPM.
    Fan3Speed,
    /// 0x000A, read-only: speed of fan 4 in RPM.
    Fan4Speed,
    /// 0x000B, read/write: PWM frequency index, 0 to 5.
    PwmFrequency,
    /// 0x000C, read/write: start threshold, stored with the +40 offset.
    StartTemperature,
    /// 0x000D, read/write: full-speed threshold, stored with the +40 offset.
    FullSpeedTemperature,
    /// 0x000E, read-only: fault bitmap, bit 0 is fan 1; 1 = normal, 0 = fault.
    FanFaultCode,
    /// 0x0020, write-only: writing 0x00AA restarts the controller.
    ResetController,
}

impl RegisterAddress {
    /// The numeric address of the register.
    pub open spec fn address(self) -> u16 {
        match self {
            RegisterAddress::CurrentTemperature => 0x0000,
            RegisterAddress::FanStatus => 0x0001,
            RegisterAddress::ModbusAddress => 0x0002,
            RegisterAddress::ManualSpeedControl => 0x0003,
            RegisterAddress::CombinedTemperature => 0x0004,
            RegisterAddress::WorkMode => 0x0005,
            RegisterAddress::FanQuantity => 0x0006,
            RegisterAddress::Fan1Speed => 0x0007,
            RegisterAddress::Fan2Speed => 0x0008,
            RegisterAddress::Fan3Speed => 0x0009,
            RegisterAddress::Fan4Speed => 0x000A,
            RegisterAddress::PwmFrequency => 0x000B,
            RegisterAddress::StartTemperature => 0x000C,
            RegisterAddress::FullSpeedTemperature => 0x000D,
            RegisterAddress::FanFaultCode => 0x000E,
            RegisterAddress::ResetController => 0x0020,
        }
    }

    /// What may be done with the register.
    pub open spec fn access_mode(self) -> AccessMode {
        match self {
            RegisterAddress::CurrentTemperature => AccessMode::ReadOnly,
            RegisterAddress::FanStatus => AccessMode::ReadOnly,
            RegisterAddress::ModbusAddress => AccessMode::ReadWrite,
            RegisterAddress::ManualSpeedControl => AccessMode::ReadWrite,
            RegisterAddress::CombinedTemperature => AccessMode::ReadWrite,
            RegisterAddress::WorkMode => AccessMode::ReadWrite,
            RegisterAddress::FanQuantity => AccessMode::ReadWrite,
            RegisterAddress::Fan1Speed => AccessMode::ReadOnly,
            RegisterAddress::Fan2Speed => AccessMode::ReadOnly,
            RegisterAddress::Fan3Speed => AccessMode::ReadOnly,
            RegisterAddress::Fan4Speed => AccessMode::ReadOnly,
            RegisterAddress::PwmFrequency => AccessMode::ReadWrite,
            RegisterAddress::StartTemperature => AccessMode::ReadWrite,
            RegisterAddress::FullSpeedTemperature => AccessMode::ReadWrite,
            RegisterAddress::FanFaultCode => AccessMode::ReadOnly,
            RegisterAddress::ResetController => AccessMode::WriteOnly,
        }
    }

    /// The register at a numeric address, if the map names one there.
    pub open spec fn at(address: u16) -> Option<RegisterAddress> {
        if address == 0x0000 {
            Some(RegisterAddress::CurrentTemperature)
        } else if address == 0x0001 {
            Some(RegisterAddress::FanStatus)
        } else if address == 0x0002 {
            Some(RegisterAddress::ModbusAddress)
        } else if address == 0x0003 {
            Some(RegisterAddress::ManualSpeedControl)
        } else if address == 0x0004 {
            Some(RegisterAddress::CombinedTemperature)
        } else if address == 0x0005 {
            Some(RegisterAddress::WorkMode)
        } else if address == 0x0006 {
            Some(RegisterAddress::FanQuantity)
        } else if address == 0x0007 {
            Some(RegisterAddress::Fan1Speed)
        } else if address == 0x0008 {
            Some(RegisterAddress::Fan2Speed)
        } else if address == 0x0009 {
            Some(RegisterAddress::Fan3Speed)
        } else if address == 0x000A {
            Some(RegisterAddress::Fan4Speed)
        } else if address == 0x000B {
            Some(RegisterAddress::PwmFrequency)
        } else if address == 0x000C {
            Some(RegisterAddress::StartTemperature)
        } else if address == 0x000D {
            Some(RegisterAddress::FullSpeedTemperature)
        } else if address == 0x000E {
            Some(RegisterAddress::FanFaultCode)
        } else if address == 0x0020 {
            Some(RegisterAddress::ResetController)
        } else {
            None
        }
    }

    /// The speed register of fan `fan_index`, for indices 1 to 4 only.
    pub open spec fn fan_speed(fan_index: u8) -> Option<RegisterAddress> {
        if fan_index == 1 {
            Some(RegisterAddress::Fan1Speed)
        } else if fan_index == 2 {
            Some(RegisterAddress::Fan2Speed)
        } else if fan_index == 3 {
            Some(RegisterAddress::Fan3Speed)
        } else if fan_index == 4 {
            Some(RegisterAddress::Fan4Speed)
        } else {
            None
        }
    }

    /// Returns the numeric register address.
    pub fn addr(self) -> (address: u16)
        ensures
            address == self.address(),
    {
        match self {
            RegisterAddress::CurrentTemperature => 0x0000,
            RegisterAddress::FanStatus => 0x0001,
            RegisterAddress::ModbusAddress => 0x0002,
            RegisterAddress::ManualSpeedControl => 0x0003,
            RegisterAddress::CombinedTemperature => 0x0004,
            RegisterAddress::WorkMode => 0x0005,
            RegisterAddress::FanQuantity => 0x0006,
            RegisterAddress::Fan1Speed => 0x0007,
            RegisterAddress::Fan2Speed => 0x0008,
            RegisterAddress::Fan3Speed => 0x0009,
            RegisterAddress::Fan4Speed => 0x000A,
            RegisterAddress::PwmFrequency => 0x000B,
            RegisterAddress::StartTemperature => 0x000C,
            RegisterAddress::FullSpeedTemperature => 0x000D,
            RegisterAddress::FanFaultCode => 0x000E,
            RegisterAddress::ResetController => 0x0020,
        }
    }

    /// Returns what may be done with the register.
    pub fn access(self) -> (mode: AccessMode)
        ensures
            mode == self.access_mode(),
    {
        match self {
            RegisterAddress::CurrentTemperature
            | RegisterAddress::FanStatus
            | RegisterAddress::Fan1Speed
            | RegisterAddress::Fan2Speed
            | RegisterAddress::Fan3Speed
            | RegisterAddress::Fan4Speed
            | RegisterAddress::FanFaultCode => AccessMode::ReadOnly,
            RegisterAddress::ResetController => AccessMode::WriteOnly,
            _ => AccessMode::ReadWrite,
        }
    }

    /// Returns the register at a numeric address, if the map names one there.
    pub fn from_addr(address: u16) -> (register: Option<Self>)
        ensures
            register == Self::at(address),
            register matches Some(found) ==> found.address() == address,
    {
        match address {
            0x0000 => Some(RegisterAddress::CurrentTemperature),
            0x0001 => Some(RegisterAddress::FanStatus),
            0x0002 => Some(RegisterAddress::ModbusAddress),
            0x0003 => Some(RegisterAddress::ManualSpeedControl),
            0x0004 => Some(RegisterAddress::CombinedTemperature),
            0x0005 => Some(RegisterAddress::WorkMode),
            0x0006 => Some(RegisterAddress::FanQuantity),
            0x0007 => Some(RegisterAddress::Fan1Speed),
            0x0008 => Some(RegisterAddress::Fan2Speed),
            0x0009 => Some(RegisterAddress::Fan3Speed),
            0x000A => Some(RegisterAddress::Fan4Speed),
            0x000B => Some(RegisterAddress::PwmFrequency),
            0x000C => Some(RegisterAddress::StartTemperature),
            0x000D => Some(RegisterAddress::FullSpeedTemperature),
            0x000E => Some(RegisterAddress::FanFaultCode),
            0x0020 => Some(RegisterAddress::ResetController),
            _ => None,
        }
    }

    /// Returns the speed register of one fan, or `None` when the index is
    /// not one of 1, 2, 3, 4.
    pub fn fan_speed_register(fan_index: u8) -> (register: Option<Self>)
        ensures
            register == Self::fan_speed(fan_index),
            register is Some <==> 1 <= fan_index <= 4,
            register matches Some(found) ==> found.address() == 0x0006 + fan_index,
    {
        match fan_index {
            1 => Some(RegisterAddress::Fan1Speed),
            2 => Some(RegisterAddress::Fan2Speed),
            3 => Some(RegisterAddress::Fan3Speed),
            4 => Some(RegisterAddress::Fan4Speed),
            _ => None,
        }
    }
}

/// Whether the map lets the register at an address be read: it is not
/// write-only. Addresses that the map does not name are nobody's business.
pub open spec fn readable_at(address: u16) -> bool {
    match RegisterAddress::at(address) {
        Some(register) => register.access_mode() != AccessMode::WriteOnly,
        None => true,
    }
}

/// Whether the map lets the register at an address be written: it is not
/// read-only.
pub open spec fn writable_at(address: u16) -> bool {
    match RegisterAddress::at(address) {
        Some(register) => register.access_mode() != AccessMode::ReadOnly,
        None => true,
    }
}

/// Whether the register map lets a request through: a read must not touch
/// a write-only register, a write must not target a read-only one.
pub open spec fn permitted(request: Request) -> bool {
    match request {
        Request::ReadHoldingRegisters { start, count } => forall|address: u16|
            start <= address < start + count ==> #[trigger] readable_at(address),
        Request::WriteSingleRegister { register, .. } => writable_at(register),
    }
}

/// No two registers share an address, and the address leads back to the
/// register.
pub proof fn register_addresses_are_distinct(a: RegisterAddress, b: RegisterAddress)
    ensures
        a.address() == b.address() <==> a == b,
        RegisterAddress::at(a.address()) == Some(a),
{
}

} // verus!
