use vedirect::{
    convert_alarm, convert_alarm_reason, convert_ble, convert_capble, convert_device_mode,
    convert_error_code, convert_load, convert_off_reason, convert_relay,
    convert_state_of_operation, Alarm, AlarmReason, BluetoothCapBle, BluetoothStatus, DeviceMode,
    ErrorCode, Load, OffReason, Relay, StateOfOperation,
};

#[test]
fn state_of_operation_test() {
    assert_eq!(convert_state_of_operation("0".to_string()).unwrap(), StateOfOperation::Off);
    assert_eq!(convert_state_of_operation("5".to_string()).unwrap(), StateOfOperation::Float);
    assert_eq!(convert_state_of_operation("245".to_string()).unwrap(), StateOfOperation::StartingUp);
    assert_eq!(convert_state_of_operation("3".to_string()).unwrap(), StateOfOperation::Bulk);
    convert_state_of_operation("-1120".to_string()).expect_err("");
    convert_state_of_operation("1120".to_string()).expect_err("");
}

#[test]
fn convert_error_code_test() {
    assert_eq!(convert_error_code("0".to_string()).unwrap(), ErrorCode::Nil);
    convert_error_code("5".to_string()).expect_err("");
    assert_eq!(convert_error_code("2".to_string()).unwrap(), ErrorCode::BatteryVoltageTooHigh);
    assert_eq!(convert_error_code("34".to_string()).unwrap(), ErrorCode::InputCurrentTooHigh);
    convert_error_code("-1120".to_string()).expect_err("");
    convert_error_code("1120".to_string()).expect_err("");
}

#[test]
fn convert_alarm_reason_test() {
    assert_eq!(convert_alarm_reason("0".to_string()).unwrap(), [AlarmReason::Nil]);
    assert_eq!(convert_alarm_reason("5".to_string()).unwrap(), [AlarmReason::LowVoltage, AlarmReason::LowSOC]);
    assert_eq!(convert_alarm_reason("2".to_string()).unwrap(), [AlarmReason::HighVoltage]);
    assert_eq!(convert_alarm_reason("34".to_string()).unwrap(), [AlarmReason::HighVoltage, AlarmReason::LowTemperature]);
    convert_alarm_reason("-1120".to_string()).expect_err("");
}

#[test]
fn convert_device_mode_test() {
    assert_eq!(convert_device_mode("0".to_string()).unwrap(), DeviceMode::Nil);
    assert_eq!(convert_device_mode("2".to_string()).unwrap(), DeviceMode::VE_REG_MODE_INVERTER);
    assert_eq!(convert_device_mode("4".to_string()).unwrap(), DeviceMode::VE_REG_MODE_OFF);
    assert_eq!(convert_device_mode("5".to_string()).unwrap(), DeviceMode::VE_REG_MODE_ECO);
    convert_device_mode("34".to_string()).expect_err("");
    convert_device_mode("-1120".to_string()).expect_err("");
}

#[test]
fn convert_device_off_reason() {
    assert_eq!(convert_off_reason("0x00000000".to_string()).unwrap(), [OffReason::Nil]);
    assert_eq!(convert_off_reason("0x00000010".to_string()).unwrap(), [OffReason::ProtectionActive]);
    assert_eq!(convert_off_reason("0x00000020".to_string()).unwrap(), [OffReason::Paygo]);
    assert_eq!(convert_off_reason("0x00000021".to_string()).unwrap(), [OffReason::NoInputPower, OffReason::Paygo]);
    assert_eq!(convert_off_reason("0x00000042".to_string()).unwrap(), [OffReason::SwitchedOffPowerSwitch, OffReason::BMS]);
    convert_off_reason("0x000f0000".to_string()).expect_err("");
    convert_off_reason("-12".to_string()).expect_err("");
}

#[test]
fn convert_ble_test() {
    assert_eq!(convert_ble("0x00000000".to_string()).unwrap(), BluetoothStatus::Off);
    assert_eq!(convert_ble("0x00000001".to_string()).unwrap(), BluetoothStatus::On);
    convert_ble("0x000f0000".to_string()).expect_err("");
    convert_ble("-12".to_string()).expect_err("");
}

#[test]
fn convert_capble_test() {
    assert_eq!(convert_capble("0x00000000".to_string()).unwrap(), BluetoothCapBle::Nil);
    assert_eq!(convert_capble("0x00000001".to_string()).unwrap(), BluetoothCapBle::BLE_Supports_Switching_Off);
    assert_eq!(convert_capble("0x00000002".to_string()).unwrap(), BluetoothCapBle::BLE_Switching_Off_Is_Permanent);
    convert_capble("0x000f0000".to_string()).expect_err("");
    convert_capble("-12".to_string()).expect_err("");
}

#[test]
fn convert_alarm_test() {
    assert_eq!(convert_alarm("OFF".to_string()).unwrap(), Alarm::Off);
    assert_eq!(convert_alarm("On".to_string()).unwrap(), Alarm::On);
}

#[test]
fn convert_relay_test() {
    assert_eq!(convert_relay("Off".to_string()).unwrap(), Relay::Off);
    assert_eq!(convert_relay("On".to_string()).unwrap(), Relay::On);
}

#[test]
fn convert_load_test() {
    assert_eq!(convert_load("off".to_string()).unwrap(), Load::Off);
    assert_eq!(convert_load("On".to_string()).unwrap(), Load::On);
}

