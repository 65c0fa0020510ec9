use vedirect::number::{
    decimal_number, decimal_text, digits_from, i64_from_text, usize_from_hex, usize_from_text,
};
use vedirect::parser::{fold_byte, fold_bytes, position, stamp};
use vedirect::text::{bytes_eq, eq_ignore_case, text_bytes, text_eq};
use vedirect::{
    convert, convert_alarm, convert_alarm_reason, convert_ble, convert_capble,
    convert_device_mode, convert_error_code, convert_load, convert_none, convert_off_reason,
    convert_quantity, convert_relay, convert_state_of_operation, convert_warning_reason, Alarm, AlarmReason,
    BluetoothCapBle, BluetoothStatus, DeviceMode, ErrorCode, Labels, Load, OffReason, Quantity,
    Relay, StateOfOperation, Unit, VEDirectData, VEDirectParse, WarningReason,
};

fn record(fields: &[(&str, &[u8])]) -> VEDirectParse {
    let mut record = VEDirectParse::new();
    for (label, value) in fields {
        record.insert(label.to_string(), value.to_vec());
    }
    record
}

#[test]
fn unsigned_decimal_numbers() {
    assert_eq!(usize_from_text(b"0", 10), Some(0));
    assert_eq!(usize_from_text(b"007", 10), Some(7));
    assert_eq!(usize_from_text(b"+5", 10), Some(5));
    assert_eq!(usize_from_text(b"1120", 10), Some(1120));
    assert_eq!(usize_from_text(usize::MAX.to_string().as_bytes(), 10), Some(usize::MAX));
    assert_eq!(usize_from_text(b"18446744073709551616", 10), None);
    assert_eq!(usize_from_text(b"99999999999999999999999999", 10), None);
    assert_eq!(usize_from_text(b"", 10), None);
    assert_eq!(usize_from_text(b"+", 10), None);
    assert_eq!(usize_from_text(b"-1", 10), None);
    assert_eq!(usize_from_text(b"++1", 10), None);
    assert_eq!(usize_from_text(b" 1", 10), None);
    assert_eq!(usize_from_text(b"1 ", 10), None);
    assert_eq!(usize_from_text(b"1_0", 10), None);
    assert_eq!(usize_from_text(b"1a", 10), None);
    assert_eq!(usize_from_text(b"12.5", 10), None);
    for text in ["0", "42", "+42", "0042", "", "+", "x", "4x", "18446744073709551615", "18446744073709551616"] {
        assert_eq!(usize_from_text(text.as_bytes(), 10), text.parse::<usize>().ok(), "{}", text);
    }
}

#[test]
fn unsigned_hexadecimal_numbers() {
    assert_eq!(usize_from_hex(b"0x00000021"), Some(0x21));
    assert_eq!(usize_from_hex(b"0X1f"), Some(31));
    assert_eq!(usize_from_hex(b"ff"), Some(255));
    assert_eq!(usize_from_hex(b"FF"), Some(255));
    assert_eq!(usize_from_hex(b"4"), Some(4));
    assert_eq!(usize_from_hex(b"0"), Some(0));
    assert_eq!(usize_from_hex(b"0x+5"), Some(5));
    assert_eq!(usize_from_hex(b"0xffffffffffffffff"), Some(usize::MAX));
    assert_eq!(usize_from_hex(b"0x10000000000000000"), None);
    assert_eq!(usize_from_hex(b"0x"), None);
    assert_eq!(usize_from_hex(b"0x0x10"), None);
    assert_eq!(usize_from_hex(b"x10"), None);
    assert_eq!(usize_from_hex(b"-12"), None);
    assert_eq!(usize_from_hex(b"1g"), None);
    assert_eq!(usize_from_hex(b""), None);
    assert_eq!(usize_from_text(b"z", 36), Some(35));
    assert_eq!(usize_from_text(b"101", 2), Some(5));
    assert_eq!(usize_from_text(b"102", 2), None);
}

#[test]
fn digits_up_to_a_limit() {
    assert_eq!(digits_from(b"ab255", 2, 10, 255), Some(255));
    assert_eq!(digits_from(b"ab256", 2, 10, 255), None);
    assert_eq!(digits_from(b"ab", 2, 10, 255), None);
    assert_eq!(digits_from(b"0000000000000000000000001", 0, 10, 1), Some(1));
}

#[test]
fn signed_decimal_numbers() {
    assert_eq!(i64_from_text(b"12344556789"), Some(12344556789));
    assert_eq!(i64_from_text(b"+3"), Some(3));
    assert_eq!(i64_from_text(b"-3"), Some(-3));
    assert_eq!(i64_from_text(b"-0"), Some(0));
    assert_eq!(i64_from_text(b"9223372036854775807"), Some(i64::MAX));
    assert_eq!(i64_from_text(b"9223372036854775808"), None);
    assert_eq!(i64_from_text(b"-9223372036854775808"), Some(i64::MIN));
    assert_eq!(i64_from_text(b"-9223372036854775809"), None);
    assert_eq!(i64_from_text(b"-"), None);
    assert_eq!(i64_from_text(b""), None);
    assert_eq!(i64_from_text(b"+-3"), None);
    assert_eq!(i64_from_text(b"-+3"), None);
    assert_eq!(i64_from_text(b"1.5"), None);
    for text in ["0", "-7", "+7", "--7", "007", "-007", "9223372036854775807", "-9223372036854775808"] {
        assert_eq!(i64_from_text(text.as_bytes()), text.parse::<i64>().ok(), "{}", text);
    }
}

#[test]
fn decimal_numbers_are_told_from_other_text() {
    let numbers = [
        "0", "12540", "-1", "+5", "0307", "12488.12", "0.012", ".5", "5.", "-.5", "+5.", "1e3",
        "1E3", "1e+3", "1e-3", "1.5e10", ".5e1", "5.e1", "-0.0", "00.00", "1e0003",
        "123456789012345678901234567890.123456789012345678901234567890",
    ];
    for text in numbers {
        assert!(decimal_number(text.as_bytes()), "{}", text);
        assert!(text.parse::<f64>().is_ok(), "{}", text);
        let quantity = convert_quantity(text.to_string(), Unit::MilliVolt).unwrap();
        assert_eq!(quantity, Quantity { text: text.to_string(), unit: Unit::MilliVolt });
    }
    let others = [
        "", "+", "-", ".", "+.", "e5", ".e5", "1e", "1e+", "1e-", "1e5.0", "1.2.3", "1..2", "--1",
        "+-1", "1-", " 1", "1 ", "1_0", "0x10", "12a", "a12", "1,5", "1e5e5", "1f32", "٣",
    ];
    for text in others {
        assert!(!decimal_number(text.as_bytes()), "{}", text);
        assert!(text.parse::<f64>().is_err(), "{}", text);
        convert_quantity(text.to_string(), Unit::One).expect_err(text);
    }
    for text in ["inf", "-inf", "+infinity", "Infinity", "nan", "NaN", "-nan"] {
        assert!(!decimal_number(text.as_bytes()), "{}", text);
        convert_quantity(text.to_string(), Unit::One).expect_err(text);
    }
}

#[test]
fn decimal_text_is_read_back() {
    for n in [0i64, 1, 9, 10, 11, 99, 100, 1700000000, -1, -10, -999, i64::MAX, i64::MIN, i64::MIN + 1] {
        assert_eq!(decimal_text(n), n.to_string().into_bytes());
        assert_eq!(i64_from_text(&decimal_text(n)), Some(n));
    }
}

#[test]
fn helpers_on_bytes_and_text() {
    assert_eq!(position(b"ab\rcd\r", 0, 13), 2);
    assert_eq!(position(b"ab\rcd\r", 2, 13), 2);
    assert_eq!(position(b"ab\rcd\r", 3, 13), 5);
    assert_eq!(position(b"ab\rcd\r", 6, 13), 6);
    assert_eq!(position(b"abc", 0, 13), 3);
    assert_eq!(fold_byte(250, 10), 4);
    assert_eq!(fold_bytes(7, b""), 7);
    assert_eq!(fold_bytes(0, &[200, 100, 1]), 45);
    assert!(bytes_eq(b"abc", b"abc"));
    assert!(!bytes_eq(b"abc", b"abd"));
    assert!(!bytes_eq(b"abc", b"ab"));
    assert!(text_eq("SER#", "SER#"));
    assert!(!text_eq("SER#", "SER"));
    assert!(!text_eq("V", "v"));
    assert_eq!(text_bytes("SER#"), b"SER#".to_vec());
    assert!(eq_ignore_case("oN", "on"));
    assert!(eq_ignore_case("OFF", "off"));
    assert!(!eq_ignore_case("of", "off"));
    assert!(!eq_ignore_case("0n", "on"));
    assert!(!eq_ignore_case("[N", "{n"));
    let stamped = stamp(record(&[("V", "1".as_bytes())]), -25);
    assert_eq!(stamped.len(), 2);
    assert_eq!(stamped.get(&"Time".to_string()).unwrap(), b"-25");
    let again = stamp(stamped, 9);
    assert_eq!(again.len(), 2);
    assert_eq!(again.get(&"Time".to_string()).unwrap(), b"9");
}

#[test]
fn the_raw_record_is_a_mapping() {
    let mut raw = VEDirectParse::new();
    assert_eq!(raw.len(), 0);
    assert!(raw.get(&"V".to_string()).is_none());
    raw.insert("V".to_string(), b"1".to_vec());
    raw.insert("I".to_string(), b"2".to_vec());
    raw.insert("V".to_string(), b"3".to_vec());
    assert_eq!(raw.len(), 2);
    assert_eq!(raw.get(&"V".to_string()).unwrap(), b"3");
    assert_eq!(raw.get(&"I".to_string()).unwrap(), b"2");
    assert!(raw.get(&"v".to_string()).is_none());
    assert_eq!(raw.field_at(0).label, "V");
    assert_eq!(raw.field_at(0).value, b"3");
    assert_eq!(raw.field_at(1).label, "I");
    let copy = raw.clone();
    raw.insert("I".to_string(), b"4".to_vec());
    assert_eq!(copy.len(), 2);
    assert_eq!(copy.get(&"I".to_string()).unwrap(), b"2");
    assert_eq!(raw.get(&"I".to_string()).unwrap(), b"4");
}

#[test]
fn codes_and_variants_go_back_and_forth() {
    for code in 0..=300usize {
        if let Some(state) = StateOfOperation::from_repr(code) {
            assert_eq!(state.repr(), code);
        }
        if let Some(error) = ErrorCode::from_repr(code) {
            assert_eq!(error.repr(), code);
        }
        if let Some(mode) = DeviceMode::from_repr(code) {
            assert_eq!(mode.repr(), code);
        }
        if let Some(reason) = OffReason::from_repr(code) {
            assert_eq!(reason.repr(), code);
        }
    }
    assert_eq!((0..=300).filter(|c| StateOfOperation::from_repr(*c).is_some()).count(), 15);
    assert_eq!((0..=300).filter(|c| ErrorCode::from_repr(*c).is_some()).count(), 20);
    assert_eq!((0..=300).filter(|c| DeviceMode::from_repr(*c).is_some()).count(), 4);
    assert_eq!((0..=3000).filter(|c| OffReason::from_repr(*c).is_some()).count(), 10);
    assert_eq!((0..=3000).filter(|c| AlarmReason::from_repr(*c).is_some()).count(), 13);
    assert_eq!((0..=3000).filter(|c| WarningReason::from_repr(*c).is_some()).count(), 13);
    assert_eq!(StateOfOperation::Inverting.repr(), 9);
    assert_eq!(StateOfOperation::ExternalControl.repr(), 252);
    assert_eq!(ErrorCode::UserSettingsInvalid.repr(), 119);
    assert_eq!(DeviceMode::VE_REG_MODE_ECO.repr(), 5);
    assert_eq!(OffReason::AnalysingInputVoltage.repr(), 256);
    assert_eq!(AlarmReason::HighVACout.repr(), 2048);
    assert_eq!(WarningReason::DCripple.repr(), 512);
    assert_eq!(BluetoothStatus::from_repr(1), Some(BluetoothStatus::On));
    assert_eq!(BluetoothStatus::from_repr(2), None);
    assert_eq!(BluetoothCapBle::from_repr(2), Some(BluetoothCapBle::BLE_Switching_Off_Is_Permanent));
    assert_eq!(Load::from_repr(1), Some(Load::On));
    assert_eq!(Alarm::from_repr(0), Some(Alarm::Off));
    assert_eq!(Relay::from_repr(2), None);
    assert_eq!(Relay::On.repr(), 1);
}

#[test]
fn defaults_are_the_zero_variants() {
    assert_eq!(StateOfOperation::default(), StateOfOperation::Off);
    assert_eq!(ErrorCode::default(), ErrorCode::Nil);
    assert_eq!(OffReason::default(), OffReason::Nil);
    assert_eq!(AlarmReason::default(), AlarmReason::Nil);
    assert_eq!(WarningReason::default(), WarningReason::Nil);
    assert_eq!(DeviceMode::default(), DeviceMode::Nil);
    assert_eq!(BluetoothStatus::default(), BluetoothStatus::Off);
    assert_eq!(BluetoothCapBle::default(), BluetoothCapBle::Nil);
    assert_eq!(Load::default(), Load::Off);
    assert_eq!(Alarm::default(), Alarm::Off);
    assert_eq!(Relay::default(), Relay::Off);
    assert_eq!(StateOfOperation::default().repr(), 0);
    assert_eq!(VEDirectData::default(), convert(VEDirectParse::new()).unwrap());
    assert!(VEDirectData::default().V.is_none());
    assert!(VEDirectData::default().Unknown.is_none());
}

#[test]
fn bit_masks_in_decimal() {
    assert_eq!(convert_alarm_reason("5".to_string()).unwrap(), [AlarmReason::LowVoltage, AlarmReason::LowSOC]);
    assert_eq!(convert_warning_reason("5".to_string()).unwrap(), [WarningReason::LowVoltage, WarningReason::LowSOC]);
    assert_eq!(convert_alarm_reason("0".to_string()).unwrap(), [AlarmReason::Nil]);
    assert_eq!(convert_warning_reason("0".to_string()).unwrap(), [WarningReason::Nil]);
    assert_eq!(convert_warning_reason("32".to_string()).unwrap(), [WarningReason::LowTemperature]);
    assert_eq!(convert_alarm_reason("4095".to_string()).unwrap().len(), 12);
    assert_eq!(
        convert_alarm_reason("3072".to_string()).unwrap(),
        [AlarmReason::LowVACout, AlarmReason::HighVACout]
    );
    convert_alarm_reason("4096".to_string()).expect_err("no known bit");
    convert_warning_reason("12288".to_string()).expect_err("no known bit");
    assert_eq!(convert_alarm_reason("4097".to_string()).unwrap(), [AlarmReason::LowVoltage]);
    convert_alarm_reason("0x5".to_string()).expect_err("no decimal number");
    convert_alarm_reason("".to_string()).expect_err("no number");
    convert_warning_reason("five".to_string()).expect_err("no number");
    assert_eq!(AlarmReason::vocabulary().len(), 13);
    assert_eq!(AlarmReason::vocabulary()[0], AlarmReason::Nil);
    assert_eq!(AlarmReason::vocabulary()[12], AlarmReason::HighVACout);
    assert_eq!(AlarmReason::from_bits(6).unwrap(), [AlarmReason::HighVoltage, AlarmReason::LowSOC]);
    assert_eq!(WarningReason::from_bits(8192), None);
}

#[test]
fn bit_masks_in_hexadecimal() {
    assert_eq!(
        convert_off_reason("0x00000021".to_string()).unwrap(),
        [OffReason::NoInputPower, OffReason::Paygo]
    );
    assert_eq!(convert_off_reason("21".to_string()).unwrap(), [OffReason::NoInputPower, OffReason::Paygo]);
    assert_eq!(convert_off_reason("0X100".to_string()).unwrap(), [OffReason::AnalysingInputVoltage]);
    assert_eq!(convert_off_reason("0x1ff".to_string()).unwrap().len(), 9);
    assert_eq!(convert_off_reason("0".to_string()).unwrap(), [OffReason::Nil]);
    convert_off_reason("0x200".to_string()).expect_err("no known bit");
    convert_off_reason("0x0x21".to_string()).expect_err("two prefixes");
    convert_off_reason("0x".to_string()).expect_err("no digits");
    assert_eq!(OffReason::vocabulary().len(), 10);
}

#[test]
fn codes_in_decimal_and_hexadecimal() {
    assert_eq!(convert_state_of_operation("252".to_string()).unwrap(), StateOfOperation::ExternalControl);
    assert_eq!(convert_state_of_operation("+9".to_string()).unwrap(), StateOfOperation::Inverting);
    convert_state_of_operation("8".to_string()).expect_err("no state");
    convert_state_of_operation("".to_string()).expect_err("no number");
    convert_state_of_operation("3 ".to_string()).expect_err("no number");
    assert_eq!(convert_error_code("119".to_string()).unwrap(), ErrorCode::UserSettingsInvalid);
    convert_error_code("1".to_string()).expect_err("no error code");
    convert_device_mode("3".to_string()).expect_err("no mode");
    assert_eq!(convert_ble("1".to_string()).unwrap(), BluetoothStatus::On);
    assert_eq!(convert_ble("0X1".to_string()).unwrap(), BluetoothStatus::On);
    convert_ble("2".to_string()).expect_err("no status");
    assert_eq!(convert_capble("0x2".to_string()).unwrap(), BluetoothCapBle::BLE_Switching_Off_Is_Permanent);
    convert_capble("3".to_string()).expect_err("no capability");
    assert_eq!(
        convert_capble("3".to_string()).unwrap_err().kind(),
        std::io::ErrorKind::InvalidData
    );
    assert_eq!(
        convert_off_reason("0x200".to_string()).unwrap_err().kind(),
        std::io::ErrorKind::InvalidData
    );
    assert_eq!(convert_none(17u8).unwrap(), 17);
    assert_eq!(convert_none("text".to_string()).unwrap(), "text");
}

#[test]
fn on_and_off_in_either_case() {
    for on in ["on", "ON", "On", "oN"] {
        assert_eq!(convert_load(on.to_string()).unwrap(), Load::On);
        assert_eq!(convert_alarm(on.to_string()).unwrap(), Alarm::On);
        assert_eq!(convert_relay(on.to_string()).unwrap(), Relay::On);
    }
    for off in ["off", "OFF", "Off", "oFf"] {
        assert_eq!(convert_load(off.to_string()).unwrap(), Load::Off);
        assert_eq!(convert_alarm(off.to_string()).unwrap(), Alarm::Off);
        assert_eq!(convert_relay(off.to_string()).unwrap(), Relay::Off);
    }
    for other in ["", "o", "onn", " on", "of", "0", "1", "true", "öff"] {
        convert_load(other.to_string()).expect_err(other);
        convert_alarm(other.to_string()).expect_err(other);
        convert_relay(other.to_string()).expect_err(other);
    }
}

#[test]
fn labels_and_their_names() {
    let all = [
        Labels::V, Labels::VS, Labels::VM, Labels::DM, Labels::VPV, Labels::PPV, Labels::I,
        Labels::IL, Labels::LOAD, Labels::T, Labels::P, Labels::CE, Labels::SOC, Labels::TTG,
        Labels::Alarm, Labels::Relay, Labels::AR, Labels::OR, Labels::H1, Labels::H2, Labels::H3,
        Labels::H4, Labels::H5, Labels::H6, Labels::H7, Labels::H8, Labels::H9, Labels::H10,
        Labels::H11, Labels::H12, Labels::H13, Labels::H14, Labels::H15, Labels::H16, Labels::H17,
        Labels::H18, Labels::H19, Labels::H20, Labels::H21, Labels::H22, Labels::H23, Labels::ERR,
        Labels::CS, Labels::BMV, Labels::FW, Labels::FWE, Labels::PID, Labels::SER, Labels::HSDS,
        Labels::MODE, Labels::AC_OUT_V, Labels::AC_OUT_I, Labels::AC_OUT_S, Labels::WARN,
        Labels::BLE, Labels::CAP_BLE, Labels::Checksum, Labels::Calc_sum, Labels::Time,
    ];
    for label in all {
        assert_eq!(Labels::of(label.as_str()), label);
    }
    assert_eq!(Labels::SER.as_str(), "SER#");
    assert_eq!(Labels::of("SER#"), Labels::SER);
    assert_eq!(Labels::of("SER"), Labels::Unknown);
    assert_eq!(Labels::of("v"), Labels::Unknown);
    assert_eq!(Labels::of(""), Labels::Unknown);
    assert_eq!(Labels::of("Unknown"), Labels::Unknown);
    assert_eq!(Labels::of("Bleble"), Labels::Unknown);
    assert_eq!(Labels::Unknown.as_str(), "Unknown");
    assert_eq!(Labels::V.measured_in(), Some(Unit::MilliVolt));
    assert_eq!(Labels::AC_OUT_V.measured_in(), Some(Unit::CentiVolt));
    assert_eq!(Labels::AC_OUT_I.measured_in(), Some(Unit::DeciAmpere));
    assert_eq!(Labels::I.measured_in(), Some(Unit::MilliAmpere));
    assert_eq!(Labels::CE.measured_in(), Some(Unit::MilliAmpereHour));
    assert_eq!(Labels::H19.measured_in(), Some(Unit::DecaWattHour));
    assert_eq!(Labels::TTG.measured_in(), Some(Unit::Minute));
    assert_eq!(Labels::SOC.measured_in(), Some(Unit::One));
    assert_eq!(Labels::LOAD.measured_in(), None);
    assert_eq!(Labels::PID.measured_in(), None);
    assert_eq!(Labels::Time.measured_in(), None);
}

#[test]
fn units_and_their_factors() {
    assert_eq!(Unit::MilliVolt.factor(), (1, 1000));
    assert_eq!(Unit::CentiVolt.factor(), (1, 100));
    assert_eq!(Unit::MilliAmpere.factor(), (1, 1000));
    assert_eq!(Unit::DeciAmpere.factor(), (1, 10));
    assert_eq!(Unit::MilliAmpereHour.factor(), (1, 1000));
    assert_eq!(Unit::DecaWattHour.factor(), (10, 1));
    assert_eq!(Unit::KiloWattHour.factor(), (1000, 1));
    assert_eq!(Unit::Minute.factor(), (60, 1));
    assert_eq!(Unit::One.factor(), (1, 1));
}

#[test]
fn an_unknown_label_is_kept_as_text() {
    let typed = convert(record(&[("Bleble", "ola".as_bytes())])).unwrap();
    assert_eq!(typed.Unknown, Some(vec!["Bleble: ola".to_string()]));
    assert!(typed.V.is_none());
    assert!(typed.Checksum.is_none());

    let typed = convert(record(&[("x", "1".as_bytes()), ("V", "2".as_bytes()), ("Unknown", "3".as_bytes()), ("", "".as_bytes()), ("x", "4".as_bytes())])).unwrap();
    assert_eq!(
        typed.Unknown,
        Some(vec!["x: 4".to_string(), "Unknown: 3".to_string(), ": ".to_string()])
    );
    assert_eq!(typed.V, Some(Quantity { text: "2".to_string(), unit: Unit::MilliVolt }));
}

#[test]
fn a_label_that_the_record_lacks_is_absent() {
    let typed = convert(record(&[("V", "12540".as_bytes()), ("LOAD", "ON".as_bytes())])).unwrap();
    assert_eq!(typed.V, Some(Quantity { text: "12540".to_string(), unit: Unit::MilliVolt }));
    assert_eq!(typed.LOAD, Some(Load::On));
    assert!(typed.I.is_none());
    assert!(typed.CS.is_none());
    assert!(typed.AR.is_none());
    assert!(typed.PID.is_none());
    assert!(typed.Checksum.is_none());
    assert!(typed.Time.is_none());
    assert!(typed.Unknown.is_none());
}

#[test]
fn each_kind_of_field_is_decoded_by_its_rule() {
    let typed = convert(record(&[
        ("TTG", "-1".as_bytes()),
        ("H17", "12".as_bytes()),
        ("AC_OUT_V", "23000".as_bytes()),
        ("AC_OUT_I", "15".as_bytes()),
        ("CE", "-500".as_bytes()),
        ("IL", "300".as_bytes()),
        ("SOC", "1000".as_bytes()),
        ("OR", "0x00000081".as_bytes()),
        ("WARN", "3".as_bytes()),
        ("AR", "0".as_bytes()),
        ("MODE", "4".as_bytes()),
        ("ERR", "17".as_bytes()),
        ("CS", "5".as_bytes()),
        ("BLE", "0x1".as_bytes()),
        ("CAP_BLE", "0x00000001".as_bytes()),
        ("Relay", "on".as_bytes()),
        ("Alarm", "OFF".as_bytes()),
        ("FWE", "0308FF".as_bytes()),
        ("SER#", "HQ2132".as_bytes()),
        ("Checksum", &[0xd8][..]),
        ("Calc_sum", &[0][..]),
        ("Time", "-12".as_bytes()),
    ]))
    .unwrap();
    assert_eq!(typed.TTG, Some(Quantity { text: "-1".to_string(), unit: Unit::Minute }));
    assert_eq!(typed.H17, Some(Quantity { text: "12".to_string(), unit: Unit::DecaWattHour }));
    assert_eq!(typed.AC_OUT_V, Some(Quantity { text: "23000".to_string(), unit: Unit::CentiVolt }));
    assert_eq!(typed.AC_OUT_I, Some(Quantity { text: "15".to_string(), unit: Unit::DeciAmpere }));
    assert_eq!(typed.CE, Some(Quantity { text: "-500".to_string(), unit: Unit::MilliAmpereHour }));
    assert_eq!(typed.IL, Some(Quantity { text: "300".to_string(), unit: Unit::MilliAmpere }));
    assert_eq!(typed.SOC, Some(Quantity { text: "1000".to_string(), unit: Unit::One }));
    assert_eq!(typed.OR, Some(vec![OffReason::NoInputPower, OffReason::EngineShutdownDetection]));
    assert_eq!(typed.WARN, Some(vec![WarningReason::LowVoltage, WarningReason::HighVoltage]));
    assert_eq!(typed.AR, Some(vec![AlarmReason::Nil]));
    assert_eq!(typed.MODE, Some(DeviceMode::VE_REG_MODE_OFF));
    assert_eq!(typed.ERR, Some(ErrorCode::ChargerTemperatureTooHigh));
    assert_eq!(typed.CS, Some(StateOfOperation::Float));
    assert_eq!(typed.BLE, Some(BluetoothStatus::On));
    assert_eq!(typed.CAP_BLE, Some(BluetoothCapBle::BLE_Supports_Switching_Off));
    assert_eq!(typed.Relay, Some(Relay::On));
    assert_eq!(typed.Alarm, Some(Alarm::Off));
    assert_eq!(typed.FWE, Some("0308FF".to_string()));
    assert_eq!(typed.SER, Some("HQ2132".to_string()));
    assert_eq!(typed.Checksum, Some(0xd8));
    assert_eq!(typed.Calc_sum, Some(0));
    assert_eq!(typed.Time, Some(-12));
    assert!(typed.Unknown.is_none());
}

#[test]
fn a_value_that_cannot_be_decoded_fails_the_record() {
    let bad: [(&str, &[u8]); 26] = [
        ("LOAD", "maybe".as_bytes()),
        ("Alarm", "".as_bytes()),
        ("Relay", "0".as_bytes()),
        ("AR", "4096".as_bytes()),
        ("AR", "x".as_bytes()),
        ("WARN", "-1".as_bytes()),
        ("OR", "0x200".as_bytes()),
        ("ERR", "1".as_bytes()),
        ("CS", "8".as_bytes()),
        ("MODE", "1".as_bytes()),
        ("BLE", "2".as_bytes()),
        ("CAP_BLE", "3".as_bytes()),
        ("Checksum", "".as_bytes()),
        ("Checksum", "12".as_bytes()),
        ("Calc_sum", "255".as_bytes()),
        ("Time", "soon".as_bytes()),
        ("Time", "9223372036854775808".as_bytes()),
        ("V", &[0x31, 0xff][..]),
        ("V", "12a".as_bytes()),
        ("SOC", "".as_bytes()),
        ("TTG", "inf".as_bytes()),
        ("H1", "NaN".as_bytes()),
        ("AC_OUT_S", "1 ".as_bytes()),
        ("HSDS", "0x10".as_bytes()),
        ("PID", &[0xc0, 0x80][..]),
        ("Bleble", &[0x80][..]),
    ];
    for (label, value) in bad {
        convert(record(&[(label, value)])).expect_err(label);
        convert(record(&[("I", "40".as_bytes()), (label, value), ("P", "1".as_bytes())])).expect_err(label);
    }
    convert(record(&[("I", "40".as_bytes()), ("P", "1".as_bytes())])).unwrap();
    assert_eq!(
        convert(record(&[("CS", "8".as_bytes())])).unwrap_err().kind(),
        std::io::ErrorKind::InvalidData
    );
}
