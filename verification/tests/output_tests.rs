use jpf4826_driver::error::{ExchangeFault, ParameterFault};
use jpf4826_driver::frame::{FrameError, Request};
use jpf4826_driver::output::{
    can_convert_to_fahrenheit, celsius_to_fahrenheit_temp, convert_to_fahrenheit,
    format_status_text, format_temperature,
};
use jpf4826_driver::text::{push_decimal, push_hex, push_signed_decimal};
use jpf4826_driver::{
    ControllerStatus, FanInfo, FanStatus, Jpf4826Client, Jpf4826Error, PwmFrequency, Reply, Step,
    Temperature, TemperatureUnit,
};

fn create_test_status() -> ControllerStatus {
    ControllerStatus {
        eco_mode: true,
        modbus_address: 1,
        pwm_frequency: PwmFrequency::Hz25000,
        fan_count: 4,
        temperature_current: Temperature {
            value: 26,
            unit: TemperatureUnit::Celsius,
        },
        temperature_low_threshold: Temperature {
            value: 27,
            unit: TemperatureUnit::Celsius,
        },
        temperature_high_threshold: Temperature {
            value: 40,
            unit: TemperatureUnit::Celsius,
        },
        fans: vec![
            FanInfo {
                index: 1,
                status: FanStatus::Normal,
                rpm: 1400,
            },
            FanInfo {
                index: 2,
                status: FanStatus::Fault,
                rpm: 0,
            },
        ],
    }
}

#[test]
fn test_format_text_contains_key_fields() {
    let status = create_test_status();
    let output = format_status_text(&status);

    assert!(output.contains("ECO Mode\ttrue"));
    assert!(output.contains("Modbus Address\t0x0001"));
    assert!(output.contains("PWM Frequency\t25000 Hz"));
    assert!(output.contains("Fan Quantity\t4"));
    assert!(output.contains("Temperature\t26 ℃"));
    assert!(output.contains("Status\tNormal"));
    assert!(output.contains("Status\tFault"));
}

#[test]
fn test_fahrenheit_conversion() {
    let status = create_test_status();
    let converted = convert_to_fahrenheit(status);

    assert_eq!(converted.temperature_current.value, 78); // 26°C = 78.8°F ≈ 78
    assert_eq!(
        converted.temperature_current.unit,
        TemperatureUnit::Fahrenheit
    );
}

#[test]
fn test_format_text_whole() {
    let output = format_status_text(&create_test_status());
    assert_eq!(
        output,
        "ECO Mode\ttrue\n\
         Modbus Address\t0x0001\n\
         PWM Frequency\t25000 Hz\n\
         Fan Quantity\t4\n\
         Temperature\t26 ℃\n\
         \tLow Threshold\t27 ℃\n\
         \tHigh Threshold\t40 ℃\n\
         \n\
         Fan Status\n\
         \t1\n\
         \t\tStatus\tNormal\n\
         \t\tSpeed (RPM)\t1400\n\
         \t2\n\
         \t\tStatus\tFault\n\
         \t\tSpeed (RPM)\t0\n"
    );
}

#[test]
fn test_format_text_without_fans_and_negative() {
    let mut status = create_test_status();
    status.eco_mode = false;
    status.modbus_address = 254;
    status.pwm_frequency = PwmFrequency::Hz500;
    status.fan_count = 0;
    status.temperature_current.value = -20;
    status.fans = vec![];
    let status = convert_to_fahrenheit(status);
    assert_eq!(
        format_status_text(&status),
        "ECO Mode\tfalse\n\
         Modbus Address\t0x00FE\n\
         PWM Frequency\t500 Hz\n\
         Fan Quantity\t0\n\
         Temperature\t-4 ℉\n\
         \tLow Threshold\t80 ℉\n\
         \tHigh Threshold\t104 ℉\n\
         \n\
         Fan Status\n"
    );
}

#[test]
fn test_format_temperature() {
    let celsius = Temperature { value: 31, unit: TemperatureUnit::Celsius };
    assert_eq!(format_temperature(&celsius), "31 ℃");
    let fahrenheit = celsius_to_fahrenheit_temp(celsius);
    assert_eq!(fahrenheit, Temperature { value: 87, unit: TemperatureUnit::Fahrenheit });
    assert_eq!(format_temperature(&fahrenheit), "87 ℉");
    // A temperature in Fahrenheit is not converted again.
    assert_eq!(celsius_to_fahrenheit_temp(fahrenheit), fahrenheit);
    let cold = Temperature { value: i16::MIN, unit: TemperatureUnit::Celsius };
    assert_eq!(format_temperature(&cold), "-32768 ℃");
}

#[test]
fn test_convert_to_fahrenheit_keeps_the_rest() {
    let status = create_test_status();
    let converted = convert_to_fahrenheit(status.clone());
    assert_eq!(converted.temperature_low_threshold, Temperature { value: 80, unit: TemperatureUnit::Fahrenheit });
    assert_eq!(converted.temperature_high_threshold, Temperature { value: 104, unit: TemperatureUnit::Fahrenheit });
    assert_eq!(converted.eco_mode, status.eco_mode);
    assert_eq!(converted.modbus_address, status.modbus_address);
    assert_eq!(converted.pwm_frequency, status.pwm_frequency);
    assert_eq!(converted.fan_count, status.fan_count);
    assert_eq!(converted.fans, status.fans);
    // Converting twice changes nothing more.
    assert_eq!(convert_to_fahrenheit(converted.clone()), converted);
}

#[test]
fn test_can_convert_to_fahrenheit() {
    let mut status = create_test_status();
    assert!(can_convert_to_fahrenheit(&status));
    status.temperature_current.value = 18186;
    assert!(can_convert_to_fahrenheit(&status));
    assert_eq!(convert_to_fahrenheit(status.clone()).temperature_current.value, 32766);
    status.temperature_current.value = 18187;
    assert!(!can_convert_to_fahrenheit(&status));
    status.temperature_current.unit = TemperatureUnit::Fahrenheit;
    assert!(can_convert_to_fahrenheit(&status));
    status.temperature_high_threshold.value = -18223;
    assert!(!can_convert_to_fahrenheit(&status));
    status.temperature_high_threshold.value = -18222;
    assert!(can_convert_to_fahrenheit(&status));
    assert_eq!(convert_to_fahrenheit(status).temperature_high_threshold.value, -32767);
}

#[test]
fn test_numbers_as_text() {
    let mut text = String::from(">");
    push_decimal(&mut text, 0);
    text.push(' ');
    push_decimal(&mut text, 7);
    text.push(' ');
    push_decimal(&mut text, 10);
    text.push(' ');
    push_decimal(&mut text, 25000);
    text.push(' ');
    push_decimal(&mut text, u64::MAX);
    text.push(' ');
    push_signed_decimal(&mut text, -1);
    text.push(' ');
    push_signed_decimal(&mut text, 0);
    text.push(' ');
    push_signed_decimal(&mut text, i32::MIN);
    text.push(' ');
    push_signed_decimal(&mut text, i32::MAX);
    text.push(' ');
    push_hex(&mut text, 0);
    text.push(' ');
    push_hex(&mut text, 0x00FE);
    text.push(' ');
    push_hex(&mut text, 0xABCD);
    text.push(' ');
    push_hex(&mut text, 0x1209);
    assert_eq!(
        text,
        ">0 7 10 25000 18446744073709551615 -1 0 -2147483648 2147483647 0000 00FE ABCD 1209"
    );
}

fn failure_of(step: Step) -> Jpf4826Error {
    match step {
        Step::Failed(error) => error,
        other => panic!("the operation did not fail: {:?}", other),
    }
}

#[test]
fn test_messages_of_refused_parameters() {
    let client = Jpf4826Client::new(1).unwrap();
    assert_eq!(
        failure_of(client.set_addr(0)).message(),
        "Modbus address 0 out of range (1-254)"
    );
    assert_eq!(
        Jpf4826Client::new(255).unwrap_err().message(),
        "Modbus address 255 out of range (1-254)"
    );
    assert_eq!(failure_of(client.fan_speed(5)).message(), "Fan index 5 out of range (1-4)");
    assert_eq!(
        failure_of(client.set_fan_speed(101)).message(),
        "Manual speed 101% out of range (0-100)"
    );
    assert_eq!(
        failure_of(client.set_fan_count(5)).message(),
        "Invalid parameter: Fan count 5 out of range (0-4)"
    );
    assert_eq!(
        failure_of(client.set_temperature_threshold(40, 40)).message(),
        "Temperature threshold error: high (40°C) must be greater than low (40°C)"
    );
    assert_eq!(
        failure_of(client.set_temperature_threshold(-25, 50)).message(),
        "Invalid parameter: Low temperature -25°C out of range (-20 to 120)"
    );
    assert_eq!(
        failure_of(client.set_temperature_threshold(20, 125)).message(),
        "Invalid parameter: High temperature 125°C out of range (-20 to 120)"
    );
    assert_eq!(
        failure_of(client.set_start_temperature(121)).message(),
        "Invalid parameter: Start temperature 121°C out of range (-20 to 120)"
    );
    assert_eq!(
        failure_of(client.set_full_speed_temperature(-21)).message(),
        "Invalid parameter: Full speed temperature -21°C out of range (-20 to 120)"
    );
    assert_eq!(
        Jpf4826Error::invalid_parameter(ParameterFault::FanCount(200)).message(),
        "Invalid parameter: Fan count 200 out of range (0-4)"
    );
}

#[test]
fn test_messages_of_failed_exchanges() {
    let read = Request::ReadHoldingRegisters { start: 0x000E, count: 1 };
    let write = Request::WriteSingleRegister { register: 0x0002, value: 42 };
    assert_eq!(
        Jpf4826Error::timeout(read, 10_000).message(),
        "Timeout: no response to read of 1 register(s) at 0x000E within 10000 ms"
    );
    assert_eq!(
        Jpf4826Error::modbus(write, ExchangeFault::Link(String::from("broken pipe"))).message(),
        "Modbus communication error: write of 0x002A to register 0x0002 failed: broken pipe"
    );
    assert_eq!(
        Jpf4826Error::serial(String::from("Failed to open serial port /dev/ttyUSB0: no such file"))
            .message(),
        "Serial port error: Failed to open serial port /dev/ttyUSB0: no such file"
    );
    let frame = |fault: FrameError| Jpf4826Error::modbus(read, ExchangeFault::Frame(fault)).message();
    let head = "Modbus communication error: read of 1 register(s) at 0x000E failed: ";
    assert_eq!(frame(FrameError::Truncated), format!("{}response too short", head));
    assert_eq!(
        frame(FrameError::ChecksumMismatch { computed: 0x76F8, carried: 0x76F9 }),
        format!("{}invalid CRC: expected = 0x76F8, actual = 0x76F9", head)
    );
    assert_eq!(
        frame(FrameError::AddressMismatch { asked: 1, answered: 42 }),
        format!("{}response from address 42 instead of 1", head)
    );
    assert_eq!(
        frame(FrameError::FunctionMismatch { requested: 0x03, returned: 0x06 }),
        format!("{}response to function 0x0006 instead of 0x0003", head)
    );
    assert_eq!(
        frame(FrameError::Exception { function: 0x03, code: 2 }),
        format!("{}device exception, code 2", head)
    );
    assert_eq!(frame(FrameError::Malformed), format!("{}response of unexpected length", head));
    assert_eq!(
        frame(FrameError::CountMismatch { registers: 2, data_bytes: 2 }),
        format!("{}2 data byte(s) for 2 register(s)", head)
    );
    assert_eq!(
        frame(FrameError::EchoMismatch { register: 0x0002, value: 0x002B }),
        format!("{}echo of 0x002B to register 0x0002", head)
    );
}

#[test]
fn test_message_of_timeout_from_client() {
    let mut client = Jpf4826Client::new(1).unwrap();
    let stage = match client.set_addr(42) {
        Step::Exchange(stage) => stage,
        other => panic!("{:?}", other),
    };
    let error = failure_of(client.resume(stage, Reply::TimedOut));
    assert_eq!(
        error.message(),
        "Timeout: no response to write of 0x002A to register 0x0002 within 10000 ms"
    );
}
