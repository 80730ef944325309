//! A status snapshot for people: text rendering and Fahrenheit conversion.

use crate::conversions::{celsius_to_fahrenheit, fahrenheit_of_celsius};
use crate::text::{
    decimal_of, hex_of, push_decimal, push_hex, push_signed_decimal, signed_decimal_of,
};
use crate::types::{
    ControllerStatus, FanInfo, FanStatus, StatusView, Temperature, TemperatureUnit,
};
use vstd::prelude::*;

verus! {

/// Whether a temperature can be shown in Fahrenheit: it is in Fahrenheit
/// already, or its conversion fits the 16 bits of a temperature.
pub open spec fn convertible(temperature: Temperature) -> bool {
    temperature.unit == TemperatureUnit::Celsius ==> i16::MIN <= fahrenheit_of_celsius(
        temperature.value as int,
    ) <= i16::MAX
}

/// A temperature in Fahrenheit: converted if it is in Celsius, as it is
/// otherwise.
pub open spec fn in_fahrenheit(temperature: Temperature) -> Temperature {
    if temperature.unit == TemperatureUnit::Celsius {
        Temperature {
            value: fahrenheit_of_celsius(temperature.value as int) as i16,
            unit: TemperatureUnit::Fahrenheit,
        }
    } else {
        temperature
    }
}

/// A temperature as text: the value, a space, and the sign of the unit.
pub open spec fn temperature_text(temperature: Temperature) -> Seq<char> {
    signed_decimal_of(temperature.value as int) + " "@ + match temperature.unit {
        TemperatureUnit::Celsius => "℃"@,
        TemperatureUnit::Fahrenheit => "℉"@,
    }
}

/// The three lines of one fan: its index, its status, its speed.
pub open spec fn fan_text(fan: FanInfo) -> Seq<char> {
    "\t"@ + decimal_of(fan.index as nat) + "\n\t\tStatus\t"@ + match fan.status {
        FanStatus::Normal => "Normal"@,
        FanStatus::Fault => "Fault"@,
    } + "\n\t\tSpeed (RPM)\t"@ + decimal_of(fan.rpm as nat) + "\n"@
}

/// The lines of all fans, in order.
pub open spec fn fans_text(fans: Seq<FanInfo>) -> Seq<char>
    decreases fans.len(),
{
    if fans.len() == 0 {
        Seq::empty()
    } else {
        fans_text(fans.drop_last()) + fan_text(fans.last())
    }
}

/// A snapshot as text: one line per setting, the thresholds indented under
/// the temperature, then a blank line and the fans.
pub open spec fn status_text(status: StatusView) -> Seq<char> {
    "ECO Mode\t"@ + (if status.eco_mode {
        "true"@
    } else {
        "false"@
    }) + "\nModbus Address\t0x"@ + hex_of(status.modbus_address as u16) + "\nPWM Frequency\t"@
        + decimal_of(status.pwm_frequency.hertz() as nat) + " Hz\nFan Quantity\t"@ + decimal_of(
        status.fan_count as nat,
    ) + "\nTemperature\t"@ + temperature_text(status.temperature_current)
        + "\n\tLow Threshold\t"@ + temperature_text(status.temperature_low_threshold)
        + "\n\tHigh Threshold\t"@ + temperature_text(status.temperature_high_threshold)
        + "\n\nFan Status\n"@ + fans_text(status.fans)
}

fn push_temperature(text: &mut String, temperature: &Temperature)
    ensures
        final(text)@ == old(text)@ + temperature_text(*temperature),
{
    push_signed_decimal(text, temperature.value as i32);
    text.append(" ");
    match temperature.unit {
        TemperatureUnit::Celsius => {
            text.append("℃");
        },
        TemperatureUnit::Fahrenheit => {
            text.append("℉");
        },
    }
    assert(text@ =~= old(text)@ + temperature_text(*temperature));
}

fn push_fan(text: &mut String, fan: &FanInfo)
    ensures
        final(text)@ == old(text)@ + fan_text(*fan),
{
    text.append("\t");
    push_decimal(text, fan.index as u64);
    text.append("\n\t\tStatus\t");
    match fan.status {
        FanStatus::Normal => {
            text.append("Normal");
        },
        FanStatus::Fault => {
            text.append("Fault");
        },
    }
    text.append("\n\t\tSpeed (RPM)\t");
    push_decimal(text, fan.rpm as u64);
    text.append("\n");
    assert(text@ =~= old(text)@ + fan_text(*fan));
}

/// Formats a temperature with the sign of its unit.
pub fn format_temperature(temp: &Temperature) -> (text: String)
    ensures
        text@ == temperature_text(*temp),
{
    let mut text = String::new();
    push_temperature(&mut text, temp);
    text
}

/// Formats a status snapshot as text for people.
pub fn format_status_text(status: &ControllerStatus) -> (text: String)
    ensures
        text@ == status_text(status@),
{
    let mut text = String::new();
    text.append("ECO Mode\t");
    if status.eco_mode {
        text.append("true");
    } else {
        text.append("false");
    }
    text.append("\nModbus Address\t0x");
    push_hex(&mut text, status.modbus_address as u16);
    text.append("\nPWM Frequency\t");
    push_decimal(&mut text, status.pwm_frequency.to_hz() as u64);
    text.append(" Hz\nFan Quantity\t");
    push_decimal(&mut text, status.fan_count as u64);
    text.append("\nTemperature\t");
    push_temperature(&mut text, &status.temperature_current);
    text.append("\n\tLow Threshold\t");
    push_temperature(&mut text, &status.temperature_low_threshold);
    text.append("\n\tHigh Threshold\t");
    push_temperature(&mut text, &status.temperature_high_threshold);
    text.append("\n\nFan Status\n");
    let ghost head = text@;
    assert(head + fans_text(status.fans@) =~= status_text(status@));
    let mut i: usize = 0;
    while i < status.fans.len()
        invariant
            i <= status.fans@.len(),
            text@ == head + fans_text(status.fans@.take(i as int)),
        decreases status.fans@.len() - i,
    {
        let ghost before = text@;
        push_fan(&mut text, &status.fans[i]);
        assert(status.fans@.take(i + 1).drop_last() =~= status.fans@.take(i as int));
        assert(text@ =~= head + fans_text(status.fans@.take(i + 1)));
        i = i + 1;
    }
    assert(status.fans@.take(i as int) =~= status.fans@);
    text
}

/// Converts one temperature to Fahrenheit; a temperature that is in
/// Fahrenheit already is returned as it is.
pub fn celsius_to_fahrenheit_temp(temp: Temperature) -> (converted: Temperature)
    requires
        convertible(temp),
    ensures
        converted == in_fahrenheit(temp),
{
    match temp.unit {
        TemperatureUnit::Celsius => Temperature {
            value: celsius_to_fahrenheit(temp.value),
            unit: TemperatureUnit::Fahrenheit,
        },
        TemperatureUnit::Fahrenheit => temp,
    }
}

/// Tells whether [`convert_to_fahrenheit`] can take a snapshot: whether each
/// of its three temperatures can be shown in Fahrenheit.
pub fn can_convert_to_fahrenheit(status: &ControllerStatus) -> (yes: bool)
    ensures
        yes == (convertible(status.temperature_current) && convertible(
            status.temperature_low_threshold,
        ) && convertible(status.temperature_high_threshold)),
{
    can_convert(&status.temperature_current) && can_convert(&status.temperature_low_threshold)
        && can_convert(&status.temperature_high_threshold)
}

fn can_convert(temp: &Temperature) -> (yes: bool)
    ensures
        yes == convertible(*temp),
{
    match temp.unit {
        TemperatureUnit::Celsius => -18222 <= temp.value && temp.value <= 18186,
        TemperatureUnit::Fahrenheit => true,
    }
}

/// Converts the three temperatures of a snapshot to Fahrenheit, and leaves
/// everything else as it is.
pub fn convert_to_fahrenheit(status: ControllerStatus) -> (converted: ControllerStatus)
    requires
        convertible(status.temperature_current),
        convertible(status.temperature_low_threshold),
        convertible(status.temperature_high_threshold),
    ensures
        converted@ == (StatusView {
            temperature_current: in_fahrenheit(status.temperature_current),
            temperature_low_threshold: in_fahrenheit(status.temperature_low_threshold),
            temperature_high_threshold: in_fahrenheit(status.temperature_high_threshold),
            ..status@
        }),
{
    let mut status = status;
    status.temperature_current = celsius_to_fahrenheit_temp(status.temperature_current);
    status.temperature_low_threshold = celsius_to_fahrenheit_temp(status.temperature_low_threshold);
    status.temperature_high_threshold = celsius_to_fahrenheit_temp(
        status.temperature_high_threshold,
    );
    status
}

} // verus!
