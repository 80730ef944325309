//! Value codec: conversions between raw register values and domain values.
//!
//! Everything here is a pure function of its arguments.

use crate::types::FanStatus;
use vstd::prelude::*;

verus! {

/// Offset added to a Celsius temperature before it is stored in a register.
///
/// The documented range of -20 to 120 degrees maps to register values 20 to 160.
pub const TEMPERATURE_OFFSET: i16 = 40;

/// The register value that stands for `celsius`: the temperature plus the
/// offset, reduced to 16 bits.
pub open spec fn register_of_celsius(celsius: int) -> int {
    (celsius + 40) % 0x1_0000
}

/// The temperature that `register` stands for: the register minus the offset,
/// read as a signed 16-bit quantity.
pub open spec fn celsius_of_register(register: int) -> int {
    if register - 40 >= 0x8000 {
        register - 40 - 0x1_0000
    } else {
        register - 40
    }
}

/// Truncating quotient of `n` by 5, as the machine computes it.
pub open spec fn fifth_toward_zero(n: int) -> int {
    if n >= 0 {
        n / 5
    } else {
        -((-n) / 5)
    }
}

/// Fahrenheit reading of a Celsius temperature, truncated toward zero.
pub open spec fn fahrenheit_of_celsius(celsius: int) -> int {
    fifth_toward_zero(celsius * 9) + 32
}

/// Converts a Celsius temperature to its register value.
pub fn celsius_to_register(celsius: i16) -> (register: u16)
    ensures
        register == register_of_celsius(celsius as int),
        -40 <= celsius ==> register == celsius + 40,
{
    let shifted: i32 = celsius as i32 + TEMPERATURE_OFFSET as i32;
    if shifted < 0 {
        (shifted + 0x1_0000) as u16
    } else {
        shifted as u16
    }
}

/// Converts a register value to the Celsius temperature it stands for.
pub fn register_to_celsius(register: u16) -> (celsius: i16)
    ensures
        celsius == celsius_of_register(register as int),
        register < 0x8028 ==> celsius == register - 40,
{
    let shifted: i32 = register as i32 - TEMPERATURE_OFFSET as i32;
    if shifted >= 0x8000 {
        (shifted - 0x1_0000) as i16
    } else {
        shifted as i16
    }
}

/// Converts Celsius to Fahrenheit with truncating integer arithmetic.
pub fn celsius_to_fahrenheit(celsius: i16) -> (fahrenheit: i16)
    requires
        i16::MIN <= fahrenheit_of_celsius(celsius as int) <= i16::MAX,
    ensures
        fahrenheit == fahrenheit_of_celsius(celsius as int),
{
    let scaled: i32 = celsius as i32 * 9;
    let fifth: i32 = scaled / 5;
    (fifth + 32) as i16
}

/// Whether the bit of `bitmap` that belongs to fan `fan` (1 to 4) is set.
/// Fan 1 owns the least significant bit.
pub open spec fn fan_bit(bitmap: u16, fan: int) -> bool {
    if fan == 1 {
        bitmap % 2 == 1
    } else if fan == 2 {
        (bitmap / 2) % 2 == 1
    } else if fan == 3 {
        (bitmap / 4) % 2 == 1
    } else {
        (bitmap / 8) % 2 == 1
    }
}

/// Status that the fault bitmap reports for fan `fan` (1 to 4). The polarity
/// is inverted with respect to the running bitmap: a set bit means the fan is
/// healthy, a clear bit means it has failed.
pub open spec fn fault_status(bitmap: u16, fan: int) -> FanStatus {
    if fan_bit(bitmap, fan) {
        FanStatus::Normal
    } else {
        FanStatus::Fault
    }
}

/// Parses the fan running bitmap: entry `i` tells whether fan `i + 1` runs.
pub fn parse_fan_status_bitmap(bitmap: u16) -> (running: [bool; 4])
    ensures
        forall|i: int| 0 <= i < 4 ==> running[i] == fan_bit(bitmap, i + 1),
{
    assert(((bitmap & 0x01) != 0) == (bitmap % 2 == 1)) by (bit_vector);
    assert(((bitmap & 0x02) != 0) == ((bitmap / 2) % 2 == 1)) by (bit_vector);
    assert(((bitmap & 0x04) != 0) == ((bitmap / 4) % 2 == 1)) by (bit_vector);
    assert(((bitmap & 0x08) != 0) == ((bitmap / 8) % 2 == 1)) by (bit_vector);
    [(bitmap & 0x01) != 0, (bitmap & 0x02) != 0, (bitmap & 0x04) != 0, (bitmap & 0x08) != 0]
}

/// Parses the fan fault bitmap: entry `i` is the status of fan `i + 1`, with
/// the inverted polarity described at [`fault_status`].
pub fn parse_fan_fault_bitmap(bitmap: u16) -> (statuses: [FanStatus; 4])
    ensures
        forall|i: int| 0 <= i < 4 ==> statuses[i] == fault_status(bitmap, i + 1),
{
    let running = parse_fan_status_bitmap(bitmap);
    [
        status_of_flag(running[0]),
        status_of_flag(running[1]),
        status_of_flag(running[2]),
        status_of_flag(running[3]),
    ]
}

fn status_of_flag(healthy: bool) -> (status: FanStatus)
    ensures
        status == if healthy {
            FanStatus::Normal
        } else {
            FanStatus::Fault
        },
{
    if healthy {
        FanStatus::Normal
    } else {
        FanStatus::Fault
    }
}

/// The two thresholds packed in a combined register: the high byte is the
/// start threshold, the low byte the full-speed threshold, each with the
/// temperature offset.
pub open spec fn combined_temperature_of(combined: int) -> (int, int) {
    (celsius_of_register(combined / 256), celsius_of_register(combined % 256))
}

/// The combined register for two thresholds. Each encoded threshold is cut
/// to its low eight bits before packing, so a threshold outside -40 to 215
/// degrees does not survive the encoding.
pub open spec fn combined_register_of(start: int, full: int) -> int {
    (register_of_celsius(start) % 256) * 256 + register_of_celsius(full) % 256
}

/// Splits the combined threshold register into (start, full-speed) degrees.
pub fn parse_combined_temperature(combined: u16) -> (thresholds: (i16, i16))
    ensures
        (thresholds.0 as int, thresholds.1 as int) == combined_temperature_of(combined as int),
{
    let high_byte: u16 = (combined >> 8) & 0xFF;
    let low_byte: u16 = combined & 0xFF;
    assert((combined >> 8) & 0xFF == combined / 256) by (bit_vector);
    assert(combined & 0xFF == combined % 256) by (bit_vector);
    (register_to_celsius(high_byte), register_to_celsius(low_byte))
}

/// Packs start and full-speed thresholds into the combined register.
pub fn encode_combined_temperature(start_celsius: i16, full_celsius: i16) -> (combined: u16)
    ensures
        combined == combined_register_of(start_celsius as int, full_celsius as int),
{
    let start_register: u16 = celsius_to_register(start_celsius) % 256;
    let full_register: u16 = celsius_to_register(full_celsius) % 256;
    start_register * 256 + full_register
}

/// Encoding a temperature and decoding the register gives the temperature
/// back, for every 16-bit temperature and so for the documented range of
/// -20 to 120 degrees.
pub proof fn celsius_register_round_trip(celsius: i16)
    ensures
        celsius_of_register(register_of_celsius(celsius as int)) == celsius,
        -20 <= celsius <= 120 ==> 20 <= register_of_celsius(celsius as int) <= 160,
{
}

/// Decoding a register and encoding the temperature gives the register back.
pub proof fn register_celsius_round_trip(register: u16)
    ensures
        register_of_celsius(celsius_of_register(register as int)) == register,
{
}

/// Packing two thresholds and unpacking the register gives both back, as long
/// as each lies between -40 and 215 degrees, which covers the documented
/// range of -20 to 120.
pub proof fn combined_temperature_round_trip(start: i16, full: i16)
    requires
        -40 <= start <= 215,
        -40 <= full <= 215,
    ensures
        0 <= combined_register_of(start as int, full as int) < 0x1_0000,
        combined_temperature_of(combined_register_of(start as int, full as int)) == (
            start as int,
            full as int,
        ),
{
}

} // verus!
