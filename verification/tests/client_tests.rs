use std::time::Duration;

use jpf4826_driver::operation::{Scope, Stage};
use jpf4826_driver::error::{ErrorKind, ExchangeFault, ParameterFault};
use jpf4826_driver::frame::{FrameError, Request};
use jpf4826_driver::mock::MockController;
use jpf4826_driver::registers::RegisterAddress;
use jpf4826_driver::{
    ControllerStatus, FanInfo, FanStatus, Jpf4826Client, Jpf4826Error, OperatingMode, Outcome,
    PwmFrequency, Reply, Step, Temperature, TemperatureUnit, WorkMode, DEFAULT_TIMEOUT,
};

// Helper to create a test client and the controller it talks to
fn create_test_client() -> (Jpf4826Client, MockController) {
    let mock = MockController::new();
    let client = Jpf4826Client::new(1).unwrap();
    (client, mock)
}

fn temperature(client: &mut Jpf4826Client, mock: &mut MockController) -> Result<Temperature, Jpf4826Error> {
    let first = client.temperature();
    match mock.serve(client, first)? {
        Outcome::Temperature(temperature) => Ok(temperature),
        other => panic!("unexpected outcome: {:?}", other),
    }
}

fn fan_speed(client: &mut Jpf4826Client, mock: &mut MockController, index: u8) -> Result<u16, Jpf4826Error> {
    let first = client.fan_speed(index);
    match mock.serve(client, first)? {
        Outcome::FanSpeed(rpm) => Ok(rpm),
        other => panic!("unexpected outcome: {:?}", other),
    }
}

fn fan_count(client: &mut Jpf4826Client, mock: &mut MockController) -> Result<u8, Jpf4826Error> {
    let first = client.fan_count();
    match mock.serve(client, first)? {
        Outcome::FanCount(count) => Ok(count),
        other => panic!("unexpected outcome: {:?}", other),
    }
}

fn fan_status(client: &mut Jpf4826Client, mock: &mut MockController) -> Result<Vec<FanInfo>, Jpf4826Error> {
    let first = client.fan_status();
    match mock.serve(client, first)? {
        Outcome::FanStatus(fans) => Ok(fans),
        other => panic!("unexpected outcome: {:?}", other),
    }
}

fn status(client: &mut Jpf4826Client, mock: &mut MockController) -> Result<ControllerStatus, Jpf4826Error> {
    let first = client.status();
    match mock.serve(client, first)? {
        Outcome::Status(status) => Ok(status),
        other => panic!("unexpected outcome: {:?}", other),
    }
}

fn read(
    client: &mut Jpf4826Client,
    mock: &mut MockController,
    register: RegisterAddress,
    count: u16,
) -> Result<Vec<u16>, Jpf4826Error> {
    let first = client.read(register, count);
    match mock.serve(client, first)? {
        Outcome::Registers(values) => Ok(values),
        other => panic!("unexpected outcome: {:?}", other),
    }
}

fn written(client: &mut Jpf4826Client, mock: &mut MockController, first: Step) -> Result<(), Jpf4826Error> {
    match mock.serve(client, first)? {
        Outcome::Written => Ok(()),
        other => panic!("unexpected outcome: {:?}", other),
    }
}

fn set_addr(client: &mut Jpf4826Client, mock: &mut MockController, addr: u8) -> Result<(), Jpf4826Error> {
    let first = client.set_addr(addr);
    written(client, mock, first)
}

fn set_fan_speed(client: &mut Jpf4826Client, mock: &mut MockController, percent: u8) -> Result<(), Jpf4826Error> {
    let first = client.set_fan_speed(percent);
    written(client, mock, first)
}

fn set_fan_count(client: &mut Jpf4826Client, mock: &mut MockController, count: u8) -> Result<(), Jpf4826Error> {
    let first = client.set_fan_count(count);
    written(client, mock, first)
}

fn set_temperature_threshold(
    client: &mut Jpf4826Client,
    mock: &mut MockController,
    low: i16,
    high: i16,
) -> Result<(), Jpf4826Error> {
    let first = client.set_temperature_threshold(low, high);
    written(client, mock, first)
}

fn set_start_temperature(client: &mut Jpf4826Client, mock: &mut MockController, low: i16) -> Result<(), Jpf4826Error> {
    let first = client.set_start_temperature(low);
    written(client, mock, first)
}

fn set_full_speed_temperature(
    client: &mut Jpf4826Client,
    mock: &mut MockController,
    high: i16,
) -> Result<(), Jpf4826Error> {
    let first = client.set_full_speed_temperature(high);
    written(client, mock, first)
}

fn stage_of(step: Step) -> Stage {
    match step {
        Step::Exchange(stage) => stage,
        other => panic!("no exchange is due: {:?}", other),
    }
}

fn failure_of(step: Step) -> Jpf4826Error {
    match step {
        Step::Failed(error) => error,
        other => panic!("the operation did not fail: {:?}", other),
    }
}

// Reads

#[test]
fn test_read_temperature() {
    let (mut client, mut mock) = create_test_client();

    let temp = temperature(&mut client, &mut mock).unwrap();
    assert_eq!(temp.value, 31); // 71 - 40 = 31°C
    assert_eq!(temp.unit, TemperatureUnit::Celsius);
}

#[test]
fn test_read_fan_speed() {
    let (mut client, mut mock) = create_test_client();

    // Test all 4 fans
    for fan_index in 1..=4 {
        let rpm = fan_speed(&mut client, &mut mock, fan_index).unwrap();
        assert_eq!(rpm, 1400);
    }
}

#[test]
fn test_read_fan_speed_invalid_index() {
    let (mut client, mut mock) = create_test_client();

    // Fan index 0 should fail
    let result = fan_speed(&mut client, &mut mock, 0);
    assert!(result.is_err());
    assert!(result.unwrap_err().invalid_fan_index().is_some());

    // Fan index 5 should fail
    let result = fan_speed(&mut client, &mut mock, 5);
    assert!(result.is_err());
}

#[test]
fn test_read_fan_count() {
    let (mut client, mut mock) = create_test_client();

    let count = fan_count(&mut client, &mut mock).unwrap();
    assert_eq!(count, 4);
}

#[test]
fn test_read_fan_status() {
    let (mut client, mut mock) = create_test_client();

    // Initially all fans running and normal
    let fans = fan_status(&mut client, &mut mock).unwrap();
    assert_eq!(fans.len(), 4);

    for (i, fan) in fans.iter().enumerate() {
        assert_eq!(fan.index, (i + 1) as u8);
        assert_eq!(fan.status, FanStatus::Normal);
        assert_eq!(fan.rpm, 1400);
    }

    // Set Fan 3 to have a fault
    mock.set_fan_fault(3, true);
    let fans = fan_status(&mut client, &mut mock).unwrap();
    assert_eq!(fans[2].status, FanStatus::Fault);
    assert_eq!(fans[0].status, FanStatus::Normal);
}

#[test]
fn test_read_full_status() {
    let (mut client, mut mock) = create_test_client();

    let status = status(&mut client, &mut mock).unwrap();

    // Verify all fields
    assert_eq!(status.modbus_address, 1);
    assert_eq!(status.fan_count, 4);
    assert!(!status.eco_mode); // Work mode = 1 = MinimumSpeed, so eco_mode = false
    assert_eq!(status.temperature_current.value, 31);
    assert_eq!(status.temperature_low_threshold.value, 30);
    assert_eq!(status.temperature_high_threshold.value, 50);
    assert_eq!(status.fans.len(), 4);
}

#[test]
fn test_read_low_level() {
    let (mut client, mut mock) = create_test_client();

    // Read single register
    let values = read(&mut client, &mut mock, RegisterAddress::CurrentTemperature, 1).unwrap();
    assert_eq!(values.len(), 1);
    assert_eq!(values[0], 71); // 31°C + 40

    // Read multiple consecutive registers
    let values = read(&mut client, &mut mock, RegisterAddress::CurrentTemperature, 3).unwrap();
    assert_eq!(values.len(), 3);
    assert_eq!(values[0], 71); // Temperature
    assert_eq!(values[1], 0x000F); // Fan status
    assert_eq!(values[2], 0x0001); // Modbus addr
}

// Writes

#[test]
fn test_write_low_level() {
    let (mut client, mut mock) = create_test_client();

    // Write to a register
    let first = client.write(RegisterAddress::ModbusAddress, 5);
    written(&mut client, &mut mock, first).unwrap();

    // Verify it was written
    let value = mock.read_register(0x0002).unwrap();
    assert_eq!(value, 5);
}

#[test]
fn test_reset() {
    let (mut client, mut mock) = create_test_client();

    let first = client.reset();
    written(&mut client, &mut mock, first).unwrap();

    // Verify reset command was written (0x00AA to register 0x0020)
    let value = mock.read_register(0x0020).unwrap();
    assert_eq!(value, 0x00AA);
}

#[test]
fn test_set_mode_temperature() {
    let (mut client, mut mock) = create_test_client();

    let first = client.set_mode(OperatingMode::Temperature);
    written(&mut client, &mut mock, first).unwrap();

    // Verify 0xFFFF was written to register 0x0003
    let value = mock.read_register(0x0003).unwrap();
    assert_eq!(value, 0xFFFF);
}

#[test]
fn test_set_mode_manual() {
    let (mut client, mut mock) = create_test_client();

    let first = client.set_mode(OperatingMode::Manual);
    written(&mut client, &mut mock, first).unwrap();

    // Manual mode sets register to 0 (actual speed set via set_fan_speed)
    let value = mock.read_register(0x0003).unwrap();
    assert_eq!(value, 0);
}

#[test]
fn test_set_eco_shutdown() {
    let (mut client, mut mock) = create_test_client();

    let first = client.set_eco(WorkMode::Shutdown);
    written(&mut client, &mut mock, first).unwrap();

    let value = mock.read_register(0x0005).unwrap();
    assert_eq!(value, 0x0000);
}

#[test]
fn test_set_eco_minimum_speed() {
    let (mut client, mut mock) = create_test_client();

    let first = client.set_eco(WorkMode::MinimumSpeed);
    written(&mut client, &mut mock, first).unwrap();

    let value = mock.read_register(0x0005).unwrap();
    assert_eq!(value, 0x0001);
}

#[test]
fn test_set_fan_speed_valid() {
    let (mut client, mut mock) = create_test_client();

    // Set speed to 75%
    set_fan_speed(&mut client, &mut mock, 75).unwrap();

    let value = mock.read_register(0x0003).unwrap();
    assert_eq!(value, 75);
}

#[test]
fn test_set_fan_speed_zero() {
    let (mut client, mut mock) = create_test_client();

    set_fan_speed(&mut client, &mut mock, 0).unwrap();

    let value = mock.read_register(0x0003).unwrap();
    assert_eq!(value, 0);
}

#[test]
fn test_set_fan_speed_hundred() {
    let (mut client, mut mock) = create_test_client();

    set_fan_speed(&mut client, &mut mock, 100).unwrap();

    let value = mock.read_register(0x0003).unwrap();
    assert_eq!(value, 100);
}

#[test]
fn test_set_fan_speed_invalid() {
    let (mut client, mut mock) = create_test_client();

    // 101% should fail
    let result = set_fan_speed(&mut client, &mut mock, 101);
    assert!(result.is_err());
}

#[test]
fn test_set_fan_count() {
    let (mut client, mut mock) = create_test_client();

    set_fan_count(&mut client, &mut mock, 3).unwrap();

    let value = mock.read_register(0x0006).unwrap();
    assert_eq!(value, 3);
}

#[test]
fn test_disable_fault_detection() {
    let (mut client, mut mock) = create_test_client();

    let first = client.disable_fault_detection();
    written(&mut client, &mut mock, first).unwrap();

    // Setting fan count to 0 disables fault detection
    let value = mock.read_register(0x0006).unwrap();
    assert_eq!(value, 0);
}

#[test]
fn test_set_fan_count_invalid() {
    let (mut client, mut mock) = create_test_client();

    // Fan count 5 should fail (valid: 0-4)
    let result = set_fan_count(&mut client, &mut mock, 5);
    assert!(result.is_err());
}

#[test]
fn test_set_addr_valid() {
    let (mut client, mut mock) = create_test_client();

    set_addr(&mut client, &mut mock, 10).unwrap();

    let value = mock.read_register(0x0002).unwrap();
    assert_eq!(value, 10);
}

#[test]
fn test_set_addr_invalid_zero() {
    let (mut client, mut mock) = create_test_client();

    // Address 0 is invalid
    let result = set_addr(&mut client, &mut mock, 0);
    assert!(result.is_err());
}

#[test]
fn test_set_addr_invalid_255() {
    let (mut client, mut mock) = create_test_client();

    // Address 255 is invalid (max is 254)
    let result = set_addr(&mut client, &mut mock, 255);
    assert!(result.is_err());
}

#[test]
fn test_set_addr_updates_client_internal_address() {
    let (mut client, mut mock) = create_test_client();

    // Verify initial address
    assert_eq!(client.slave_addr(), 1, "Initial client address should be 1");

    // Change address to 42
    set_addr(&mut client, &mut mock, 42).unwrap();

    // Verify the controller's register was updated
    let register_value = mock.read_register(0x0002).unwrap();
    assert_eq!(
        register_value, 42,
        "Controller register should contain new address"
    );

    // Verify the client's internal address was synchronized
    assert_eq!(
        client.slave_addr(),
        42,
        "Client internal address should be updated to match controller"
    );

    // Change address again to verify it works multiple times
    set_addr(&mut client, &mut mock, 100).unwrap();
    assert_eq!(
        client.slave_addr(),
        100,
        "Client address should update correctly on subsequent calls"
    );
    assert_eq!(
        mock.read_register(0x0002).unwrap(),
        100,
        "Controller register should reflect second address change"
    );
}

#[test]
fn test_set_pwm_frequency() {
    let (mut client, mut mock) = create_test_client();

    let first = client.set_pwm_frequency(PwmFrequency::Hz5000);
    written(&mut client, &mut mock, first).unwrap();

    let value = mock.read_register(0x000B).unwrap();
    assert_eq!(value, 0x0003); // Hz5000 = 0x0003
}

#[test]
fn test_set_temperature_threshold_valid() {
    let (mut client, mut mock) = create_test_client();

    // Start 25°C, Full 45°C
    set_temperature_threshold(&mut client, &mut mock, 25, 45).unwrap();

    // Check start temp (register 0x000C)
    let start = mock.read_register(0x000C).unwrap();
    assert_eq!(start, 65); // 25 + 40

    // Check full temp (register 0x000D)
    let full = mock.read_register(0x000D).unwrap();
    assert_eq!(full, 85); // 45 + 40
}

#[test]
fn test_set_temperature_threshold_invalid_order() {
    let (mut client, mut mock) = create_test_client();

    // High temp must be greater than low temp
    let result = set_temperature_threshold(&mut client, &mut mock, 50, 30);
    assert!(result.is_err());
}

#[test]
fn test_set_temperature_threshold_equal() {
    let (mut client, mut mock) = create_test_client();

    // Equal temps should fail
    let result = set_temperature_threshold(&mut client, &mut mock, 40, 40);
    assert!(result.is_err());
}

#[test]
fn test_set_temperature_threshold_out_of_range() {
    let (mut client, mut mock) = create_test_client();

    // -25°C is below minimum (-20°C)
    let result = set_temperature_threshold(&mut client, &mut mock, -25, 50);
    assert!(result.is_err());

    // 125°C is above maximum (120°C)
    let result2 = set_temperature_threshold(&mut client, &mut mock, 20, 125);
    assert!(result2.is_err());
}

// Timeout

#[test]
fn test_default_timeout_is_ten_seconds() {
    assert_eq!(Duration::from_millis(DEFAULT_TIMEOUT), Duration::from_secs(10));
}

#[test]
fn test_mock_client_returns_default_timeout() {
    let (client, _mock) = create_test_client();

    assert_eq!(client.timeout(), DEFAULT_TIMEOUT);
}

#[test]
fn test_set_timeout_applies_to_later_exchanges() {
    let (mut client, _mock) = create_test_client();

    client.set_timeout(30_000);
    assert_eq!(client.timeout(), 30_000);
    assert_eq!(client.slave_addr(), 1);

    let stage = stage_of(client.temperature());
    let error = failure_of(client.resume(stage, Reply::TimedOut));
    assert!(error.is_timeout());
    assert!(matches!(
        error.kind(),
        ErrorKind::Timeout {
            request: Request::ReadHoldingRegisters { start: 0, count: 1 },
            millis: 30_000,
        }
    ));
}

#[test]
fn test_timeout_ends_every_operation() {
    let (mut client, _mock) = create_test_client();

    let stages = [
        stage_of(client.read(RegisterAddress::CurrentTemperature, 3)),
        stage_of(client.temperature()),
        stage_of(client.fan_speed(2)),
        stage_of(client.fan_count()),
        stage_of(client.fan_status()),
        stage_of(client.status()),
        stage_of(client.write(RegisterAddress::WorkMode, 1)),
        stage_of(client.reset()),
        stage_of(client.set_addr(42)),
        stage_of(client.set_temperature_threshold(25, 45)),
        stage_of(client.set_start_temperature(25)),
        stage_of(client.set_full_speed_temperature(45)),
    ];
    for stage in stages {
        let error = failure_of(client.resume(stage, Reply::TimedOut));
        assert!(error.is_timeout());
        assert!(!error.is_modbus());
        match error.kind() {
            ErrorKind::Timeout { request, millis } => {
                assert_eq!(*request, stage.request());
                assert_eq!(*millis, DEFAULT_TIMEOUT);
            }
            other => panic!("not a timeout: {:?}", other),
        }
        assert_eq!(client.slave_addr(), 1);
    }
}

#[test]
fn test_silent_controller_times_out() {
    // The controller answers to address 1 only; a client for address 7 hears nothing.
    let mut mock = MockController::new();
    let mut client = Jpf4826Client::new(7).unwrap();

    let error = temperature(&mut client, &mut mock).unwrap_err();
    assert!(error.is_timeout());
    let error = set_fan_speed(&mut client, &mut mock, 50).unwrap_err();
    assert!(error.is_timeout());
    assert_eq!(mock.read_register(0x0003), Some(0xFFFF));
}

// Validation boundaries

#[test]
fn test_new_validates_address() {
    assert!(Jpf4826Client::new(1).is_ok());
    assert!(Jpf4826Client::new(254).is_ok());
    assert!(matches!(Jpf4826Client::new(0).unwrap_err().kind(), ErrorKind::InvalidAddress(0)));
    assert!(matches!(Jpf4826Client::new(255).unwrap_err().kind(), ErrorKind::InvalidAddress(255)));
    assert_eq!(Jpf4826Client::new(17).unwrap().slave_addr(), 17);
}

#[test]
fn test_set_addr_boundaries() {
    let (mut client, mut mock) = create_test_client();

    assert!(matches!(failure_of(client.set_addr(0)).kind(), ErrorKind::InvalidAddress(0)));
    assert!(matches!(failure_of(client.set_addr(255)).kind(), ErrorKind::InvalidAddress(255)));
    assert_eq!(stage_of(client.set_addr(1)), Stage::Address { addr: 1 });

    set_addr(&mut client, &mut mock, 254).unwrap();
    assert_eq!(client.slave_addr(), 254);
    set_addr(&mut client, &mut mock, 1).unwrap();
    assert_eq!(client.slave_addr(), 1);
    assert_eq!(mock.read_register(0x0002), Some(1));
}

#[test]
fn test_invalid_input_sends_nothing() {
    let (mut client, mut mock) = create_test_client();

    assert!(set_addr(&mut client, &mut mock, 0).is_err());
    assert!(set_fan_speed(&mut client, &mut mock, 101).is_err());
    assert!(set_fan_count(&mut client, &mut mock, 5).is_err());
    assert!(set_temperature_threshold(&mut client, &mut mock, 40, 40).is_err());
    assert!(set_temperature_threshold(&mut client, &mut mock, -25, 50).is_err());
    assert!(set_start_temperature(&mut client, &mut mock, 121).is_err());
    assert!(set_full_speed_temperature(&mut client, &mut mock, -21).is_err());
    assert!(fan_speed(&mut client, &mut mock, 0).is_err());

    // Nothing reached the controller, and the client is where it was.
    let untouched = MockController::new();
    for addr in 0u16..=0x20 {
        assert_eq!(mock.read_register(addr), untouched.read_register(addr));
    }
    assert_eq!(client.slave_addr(), 1);
}

#[test]
fn test_error_of_each_kind() {
    let client = Jpf4826Client::new(1).unwrap();

    let error = failure_of(client.fan_speed(9));
    assert_eq!(error.invalid_fan_index(), Some(9));
    assert!(!error.is_invalid_parameter());

    let error = failure_of(client.set_fan_speed(101));
    assert!(matches!(error.kind(), ErrorKind::InvalidSpeed(101)));
    assert_eq!(error.invalid_fan_index(), None);

    let error = failure_of(client.set_fan_count(5));
    assert!(error.is_invalid_parameter());
    assert!(matches!(error.kind(), ErrorKind::InvalidParameter(ParameterFault::FanCount(5))));

    let error = failure_of(client.set_temperature_threshold(50, 30));
    assert!(matches!(error.kind(), ErrorKind::InvalidThresholds { low: 50, high: 30 }));

    // The order of the two is checked before the range of either.
    let error = failure_of(client.set_temperature_threshold(130, 125));
    assert!(matches!(error.kind(), ErrorKind::InvalidThresholds { low: 130, high: 125 }));

    let error = failure_of(client.set_temperature_threshold(-21, 50));
    assert!(matches!(
        error.kind(),
        ErrorKind::InvalidParameter(ParameterFault::LowTemperature(-21))
    ));

    let error = failure_of(client.set_temperature_threshold(20, 121));
    assert!(matches!(
        error.kind(),
        ErrorKind::InvalidParameter(ParameterFault::HighTemperature(121))
    ));

    let error = failure_of(client.set_start_temperature(-21));
    assert!(matches!(
        error.kind(),
        ErrorKind::InvalidParameter(ParameterFault::StartTemperature(-21))
    ));

    let error = failure_of(client.set_full_speed_temperature(121));
    assert!(matches!(
        error.kind(),
        ErrorKind::InvalidParameter(ParameterFault::FullSpeedTemperature(121))
    ));

    let error = Jpf4826Error::serial(String::from("no such port"));
    assert!(error.is_serial());
    assert!(!error.is_modbus());
    let _ = error.backtrace();
}

#[test]
fn test_threshold_boundaries() {
    let (mut client, mut mock) = create_test_client();

    set_temperature_threshold(&mut client, &mut mock, -20, 120).unwrap();
    assert_eq!(mock.read_register(0x000C), Some(20));
    assert_eq!(mock.read_register(0x000D), Some(160));

    set_temperature_threshold(&mut client, &mut mock, 39, 40).unwrap();
    assert_eq!(mock.read_register(0x000C), Some(79));
    assert_eq!(mock.read_register(0x000D), Some(80));
}

#[test]
fn test_set_start_temperature() {
    let (mut client, mut mock) = create_test_client();

    // The controller holds 30 and 50.
    set_start_temperature(&mut client, &mut mock, 25).unwrap();
    assert_eq!(mock.read_register(0x000C), Some(65));
    assert_eq!(mock.read_register(0x000D), Some(90));

    set_start_temperature(&mut client, &mut mock, 49).unwrap();
    assert_eq!(mock.read_register(0x000C), Some(89));

    // Not strictly below the full-speed threshold that the controller holds.
    let error = set_start_temperature(&mut client, &mut mock, 50).unwrap_err();
    assert!(matches!(error.kind(), ErrorKind::InvalidThresholds { low: 50, high: 50 }));
    let error = set_start_temperature(&mut client, &mut mock, 60).unwrap_err();
    assert!(matches!(error.kind(), ErrorKind::InvalidThresholds { low: 60, high: 50 }));
    assert_eq!(mock.read_register(0x000C), Some(89));
}

#[test]
fn test_set_full_speed_temperature() {
    let (mut client, mut mock) = create_test_client();

    // The controller holds 30 and 50.
    set_full_speed_temperature(&mut client, &mut mock, 45).unwrap();
    assert_eq!(mock.read_register(0x000D), Some(85));
    assert_eq!(mock.read_register(0x000C), Some(70));

    set_full_speed_temperature(&mut client, &mut mock, 31).unwrap();
    assert_eq!(mock.read_register(0x000D), Some(71));

    // Not strictly above the start threshold that the controller holds.
    let error = set_full_speed_temperature(&mut client, &mut mock, 30).unwrap_err();
    assert!(matches!(error.kind(), ErrorKind::InvalidThresholds { low: 30, high: 30 }));
    let error = set_full_speed_temperature(&mut client, &mut mock, 10).unwrap_err();
    assert!(matches!(error.kind(), ErrorKind::InvalidThresholds { low: 30, high: 10 }));
    assert_eq!(mock.read_register(0x000D), Some(71));
}

// Scenarios

#[test]
fn test_status_of_simulated_device() {
    let mut mock = MockController::blank();
    mock.write_register(0x0000, 71);
    mock.write_register(0x0001, 0x000F);
    mock.write_register(0x0002, 1);
    mock.write_register(0x000E, 0x000F);
    for addr in 0x0007..=0x000A {
        mock.write_register(addr, 1400);
    }
    let mut client = Jpf4826Client::new(1).unwrap();

    let status = status(&mut client, &mut mock).unwrap();
    assert_eq!(status.temperature_current.value, 31);
    assert_eq!(status.temperature_current.unit, TemperatureUnit::Celsius);
    assert_eq!(status.fans.len(), 4);
    for (i, fan) in status.fans.iter().enumerate() {
        assert_eq!(fan.index, (i + 1) as u8);
        assert_eq!(fan.status, FanStatus::Normal);
        assert_eq!(fan.rpm, 1400);
    }
}

#[test]
fn test_status_decodes_every_field() {
    let (mut client, mut mock) = create_test_client();
    mock.write_register(0x0005, 0); // shut down below the start threshold
    mock.write_register(0x0006, 3);
    mock.write_register(0x0008, 900);
    mock.write_register(0x000A, 0);
    mock.write_register(0x000B, 2);
    mock.write_register(0x000C, 20);
    mock.write_register(0x000D, 160);
    mock.write_register(0x000E, 0x0007);

    let status = status(&mut client, &mut mock).unwrap();
    assert_eq!(
        status,
        ControllerStatus {
            eco_mode: true,
            modbus_address: 1,
            pwm_frequency: PwmFrequency::Hz2000,
            fan_count: 3,
            temperature_current: Temperature { value: 31, unit: TemperatureUnit::Celsius },
            temperature_low_threshold: Temperature { value: -20, unit: TemperatureUnit::Celsius },
            temperature_high_threshold: Temperature { value: 120, unit: TemperatureUnit::Celsius },
            fans: vec![
                FanInfo { index: 1, status: FanStatus::Normal, rpm: 1400 },
                FanInfo { index: 2, status: FanStatus::Normal, rpm: 900 },
                FanInfo { index: 3, status: FanStatus::Normal, rpm: 1400 },
                FanInfo { index: 4, status: FanStatus::Fault, rpm: 0 },
            ],
        }
    );

    // An index that names no frequency reads as the factory setting.
    mock.write_register(0x000B, 9);
    mock.write_register(0x0005, 2);
    let first = client.status();
    match mock.serve(&mut client, first).unwrap() {
        Outcome::Status(second) => {
            assert_eq!(second.pwm_frequency, PwmFrequency::Hz25000);
            assert!(!second.eco_mode);
        }
        other => panic!("{:?}", other),
    }
}

#[test]
fn test_status_takes_four_exchanges() {
    let (mut client, mut mock) = create_test_client();

    let mut step = client.status();
    let mut requests = Vec::new();
    let outcome = loop {
        match step {
            Step::Exchange(stage) => {
                requests.push(stage.request());
                let frame = client.request_frame(stage);
                let reply = mock.respond(&frame);
                step = client.resume(stage, reply);
            }
            Step::Finished(outcome) => break outcome,
            Step::Failed(error) => panic!("{:?}", error),
        }
    };
    assert_eq!(
        requests,
        vec![
            Request::ReadHoldingRegisters { start: 0x0000, count: 15 },
            Request::ReadHoldingRegisters { start: 0x0001, count: 1 },
            Request::ReadHoldingRegisters { start: 0x0007, count: 4 },
            Request::ReadHoldingRegisters { start: 0x000E, count: 1 },
        ]
    );
    assert!(matches!(outcome, Outcome::Status(_)));
}

#[test]
fn test_fan_status_stages() {
    let (mut client, mut mock) = create_test_client();

    let first = stage_of(client.fan_status());
    assert_eq!(first, Stage::FanRunning { scope: Scope::FansOnly });
    let frame = client.request_frame(first);
    let second = stage_of(client.resume(first, mock.respond(&frame)));
    assert_eq!(second, Stage::FanSpeeds { scope: Scope::FansOnly });
    mock.write_register(0x0009, 1234);
    let frame = client.request_frame(second);
    let third = stage_of(client.resume(second, mock.respond(&frame)));
    match third {
        Stage::FanFaults { scope: Scope::FansOnly, speeds } => {
            assert_eq!((speeds.fan1, speeds.fan2, speeds.fan3, speeds.fan4), (1400, 1400, 1234, 1400));
        }
        other => panic!("{:?}", other),
    }
}

#[test]
fn test_operations_follow_a_changed_address() {
    let (mut client, mut mock) = create_test_client();

    set_addr(&mut client, &mut mock, 42).unwrap();
    assert_eq!(client.slave_addr(), 42);
    assert_eq!(mock.bus_address(), 42);

    // The frames that follow are addressed to 42, and are answered.
    let stage = stage_of(client.temperature());
    let frame = client.request_frame(stage);
    assert_eq!(frame, vec![0x2A, 0x03, 0x00, 0x00, 0x00, 0x01, 0x82, 0x11]);
    assert_eq!(temperature(&mut client, &mut mock).unwrap().value, 31);
    set_fan_speed(&mut client, &mut mock, 60).unwrap();
    assert_eq!(mock.read_register(0x0003), Some(60));

    // A client that did not follow hears nothing.
    let mut stale = Jpf4826Client::new(1).unwrap();
    assert!(temperature(&mut stale, &mut mock).unwrap_err().is_timeout());
}

#[test]
fn test_failed_address_write_leaves_client_address() {
    let (mut client, _mock) = create_test_client();

    let stage = stage_of(client.set_addr(42));
    let error = failure_of(client.resume(stage, Reply::TimedOut));
    assert!(error.is_timeout());
    assert_eq!(client.slave_addr(), 1);

    let stage = stage_of(client.set_addr(42));
    let error = failure_of(client.resume(stage, Reply::LinkFailed(String::from("unplugged"))));
    assert!(error.is_modbus());
    match error.kind() {
        ErrorKind::Modbus { request, fault: ExchangeFault::Link(cause) } => {
            assert_eq!(*request, Request::WriteSingleRegister { register: 0x0002, value: 42 });
            assert_eq!(cause, "unplugged");
        }
        other => panic!("{:?}", other),
    }
    assert_eq!(client.slave_addr(), 1);

    // An echo of another value is refused although its checksum holds.
    let stage = stage_of(client.set_addr(42));
    let wrong_echo = vec![0x01, 0x06, 0x00, 0x02, 0x00, 0x2B, 0x68, 0x15];
    let error = failure_of(client.resume(stage, Reply::Frame(wrong_echo)));
    assert!(matches!(
        error.kind(),
        ErrorKind::Modbus {
            fault: ExchangeFault::Frame(FrameError::EchoMismatch { register: 0x0002, value: 0x002B }),
            ..
        }
    ));
    assert_eq!(client.slave_addr(), 1);

    // The right echo moves the client.
    let stage = stage_of(client.set_addr(42));
    let echo = client.request_frame(stage);
    assert!(matches!(client.resume(stage, Reply::Frame(echo)), Step::Finished(Outcome::Written)));
    assert_eq!(client.slave_addr(), 42);
}

#[test]
fn test_raw_write_of_address_does_not_move_client() {
    let (mut client, mut mock) = create_test_client();

    let first = client.write(RegisterAddress::ModbusAddress, 5);
    written(&mut client, &mut mock, first).unwrap();
    assert_eq!(mock.bus_address(), 5);
    assert_eq!(client.slave_addr(), 1);
}

#[test]
fn test_device_exception_is_reported() {
    let (mut client, mut mock) = create_test_client();

    // More registers than one read may ask for.
    let error = read(&mut client, &mut mock, RegisterAddress::CurrentTemperature, 126).unwrap_err();
    assert!(error.is_modbus());
    match error.kind() {
        ErrorKind::Modbus { request, fault: ExchangeFault::Frame(fault) } => {
            assert_eq!(*request, Request::ReadHoldingRegisters { start: 0, count: 126 });
            assert_eq!(*fault, FrameError::Exception { function: 0x03, code: 0x03 });
        }
        other => panic!("{:?}", other),
    }
    let error = read(&mut client, &mut mock, RegisterAddress::CurrentTemperature, 0).unwrap_err();
    assert!(matches!(
        error.kind(),
        ErrorKind::Modbus {
            fault: ExchangeFault::Frame(FrameError::Exception { function: 0x03, code: 0x03 }),
            ..
        }
    ));
}

#[test]
fn test_read_returns_requested_count() {
    let (mut client, mut mock) = create_test_client();

    for count in 1u16..=125 {
        let values = read(&mut client, &mut mock, RegisterAddress::CurrentTemperature, count).unwrap();
        assert_eq!(values.len(), count as usize);
        assert_eq!(values[0], 71);
        if count > 0x20 {
            assert_eq!(values[0x20], 0);
        }
    }

    // A response with fewer registers than were asked for is refused.
    let stage = stage_of(client.read(RegisterAddress::CurrentTemperature, 2));
    let one_register = vec![0x01, 0x03, 0x02, 0x00, 0x47, 0xF8, 0x76];
    let error = failure_of(client.resume(stage, Reply::Frame(one_register)));
    assert!(matches!(
        error.kind(),
        ErrorKind::Modbus {
            fault: ExchangeFault::Frame(FrameError::CountMismatch { registers: 2, data_bytes: 2 }),
            ..
        }
    ));
}
