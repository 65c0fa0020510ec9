//! The typed record, and what it means for it to be the conversion of a raw
//! record.

use super::labels::{label_of, Labels, Unit};
use super::models::{
    alarm, alarm_reasons, bluetooth_capability, bluetooth_status, device_mode, error_code,
    invalid_data, load, off_reasons, relay, state_of_operation, warning_reasons, Alarm,
    AlarmReason, BluetoothCapBle, BluetoothStatus, DeviceMode, ErrorCode, Load, OffReason, Relay,
    StateOfOperation, WarningReason,
};
use crate::number::{decimal_number, is_decimal_number, parse_i64};
use vstd::prelude::*;
use vstd::utf8::{decode_utf8, encode_utf8, valid_utf8};

verus! {

/// A measurement as the device sent it: the text of a decimal number and the
/// unit in which the number counts. The number of volts, amperes, ampere
/// hours, watt hours or seconds is the number that the text stands for, times
/// the multiplier of [`Unit::factor`] and divided by its divisor.
#[derive(PartialEq, Eq, Debug, Clone)]
pub struct Quantity {
    pub text: String,
    pub unit: Unit,
}

/// Whether `quantity` is the measurement that `text` stands for in `unit`.
pub open spec fn quantity_of(text: Seq<char>, unit: Unit, quantity: Quantity) -> bool {
    quantity.text@ == text && quantity.unit == unit
}

/// Decodes a measurement: a decimal number, which counts in `unit`. The
/// text is kept as it is; it is a failure where the text is no decimal
/// number.
pub fn convert_quantity(field: String, unit: Unit) -> (res: Result<Quantity, std::io::Error>)
    ensures
        res is Ok <==> is_decimal_number(encode_utf8(field@)),
        res matches Ok(quantity) ==> quantity_of(field@, unit, quantity),
{
    if decimal_number(field.as_str().as_bytes()) {
        Ok(Quantity { text: field, unit })
    } else {
        Err(invalid_data())
    }
}

/// One frame, typed: for each label the value that the frame held, or `None`
/// where the frame did not hold the label.
#[allow(non_snake_case)]
#[derive(PartialEq, Debug, Clone)]
pub struct VEDirectData {
    pub V: Option<Quantity>,
    pub VS: Option<Quantity>,
    pub VM: Option<Quantity>,
    pub DM: Option<Quantity>,
    pub VPV: Option<Quantity>,
    pub PPV: Option<Quantity>,
    pub I: Option<Quantity>,
    pub IL: Option<Quantity>,
    pub LOAD: Option<Load>,
    pub T: Option<Quantity>,
    pub P: Option<Quantity>,
    pub CE: Option<Quantity>,
    pub SOC: Option<Quantity>,
    pub TTG: Option<Quantity>,
    pub Alarm: Option<Alarm>,
    pub Relay: Option<Relay>,
    pub AR: Option<Vec<AlarmReason>>,
    pub OR: Option<Vec<OffReason>>,
    pub H1: Option<Quantity>,
    pub H2: Option<Quantity>,
    pub H3: Option<Quantity>,
    pub H4: Option<Quantity>,
    pub H5: Option<Quantity>,
    pub H6: Option<Quantity>,
    pub H7: Option<Quantity>,
    pub H8: Option<Quantity>,
    pub H9: Option<Quantity>,
    pub H10: Option<Quantity>,
    pub H11: Option<Quantity>,
    pub H12: Option<Quantity>,
    pub H13: Option<Quantity>,
    pub H14: Option<Quantity>,
    pub H15: Option<Quantity>,
    pub H16: Option<Quantity>,
    pub H17: Option<Quantity>,
    pub H18: Option<Quantity>,
    pub H19: Option<Quantity>,
    pub H20: Option<Quantity>,
    pub H21: Option<Quantity>,
    pub H22: Option<Quantity>,
    pub H23: Option<Quantity>,
    pub ERR: Option<ErrorCode>,
    pub CS: Option<StateOfOperation>,
    pub BMV: Option<String>,
    pub FW: Option<String>,
    pub FWE: Option<String>,
    pub PID: Option<String>,
    pub SER: Option<String>,
    pub HSDS: Option<Quantity>,
    pub MODE: Option<DeviceMode>,
    pub AC_OUT_V: Option<Quantity>,
    pub AC_OUT_I: Option<Quantity>,
    pub AC_OUT_S: Option<Quantity>,
    pub WARN: Option<Vec<WarningReason>>,
    pub Calc_sum: Option<u8>,
    pub Checksum: Option<u8>,
    pub BLE: Option<BluetoothStatus>,
    pub CAP_BLE: Option<BluetoothCapBle>,
    pub Time: Option<i64>,
    pub Unknown: Option<Vec<String>>,
}

impl Default for VEDirectData {
    fn default() -> (data: VEDirectData)
        ensures
            data.is_conversion_of(Map::empty(), Seq::empty()),
    {
        VEDirectData {
            V: None,
            VS: None,
            VM: None,
            DM: None,
            VPV: None,
            PPV: None,
            I: None,
            IL: None,
            LOAD: None,
            T: None,
            P: None,
            CE: None,
            SOC: None,
            TTG: None,
            Alarm: None,
            Relay: None,
            AR: None,
            OR: None,
            H1: None,
            H2: None,
            H3: None,
            H4: None,
            H5: None,
            H6: None,
            H7: None,
            H8: None,
            H9: None,
            H10: None,
            H11: None,
            H12: None,
            H13: None,
            H14: None,
            H15: None,
            H16: None,
            H17: None,
            H18: None,
            H19: None,
            H20: None,
            H21: None,
            H22: None,
            H23: None,
            ERR: None,
            CS: None,
            BMV: None,
            FW: None,
            FWE: None,
            PID: None,
            SER: None,
            HSDS: None,
            MODE: None,
            AC_OUT_V: None,
            AC_OUT_I: None,
            AC_OUT_S: None,
            WARN: None,
            Calc_sum: None,
            Checksum: None,
            BLE: None,
            CAP_BLE: None,
            Time: None,
            Unknown: None,
        }
    }
}

/// The raw value that a record holds under a label.
pub open spec fn raw(record: Map<Seq<char>, Seq<u8>>, label: Labels) -> Option<Seq<u8>> {
    if record.dom().contains(label.name()) {
        Some(record[label.name()])
    } else {
        None
    }
}

/// Whether a raw value can be decoded as the value of a label. The two
/// checksums are one raw byte each. Everything else is text: a word, a
/// number or a code that the label's vocabulary knows, a decimal number for a
/// measurement, and any text at all for an identifier and under a label that
/// is not known.
pub open spec fn decodable(label: Labels, value: Seq<u8>) -> bool {
    match label {
        Labels::Checksum | Labels::Calc_sum => value.len() == 1,
        Labels::Time => valid_utf8(value) && parse_i64(value) is Some,
        Labels::LOAD => valid_utf8(value) && load(value) is Some,
        Labels::Alarm => valid_utf8(value) && alarm(value) is Some,
        Labels::Relay => valid_utf8(value) && relay(value) is Some,
        Labels::AR => valid_utf8(value) && alarm_reasons(value) is Some,
        Labels::OR => valid_utf8(value) && off_reasons(value) is Some,
        Labels::ERR => valid_utf8(value) && error_code(value) is Some,
        Labels::CS => valid_utf8(value) && state_of_operation(value) is Some,
        Labels::MODE => valid_utf8(value) && device_mode(value) is Some,
        Labels::WARN => valid_utf8(value) && warning_reasons(value) is Some,
        Labels::BLE => valid_utf8(value) && bluetooth_status(value) is Some,
        Labels::CAP_BLE => valid_utf8(value) && bluetooth_capability(value) is Some,
        Labels::BMV | Labels::FW | Labels::FWE | Labels::PID | Labels::SER => valid_utf8(value),
        Labels::Unknown => valid_utf8(value),
        _ => valid_utf8(value) && is_decimal_number(value),
    }
}

/// Whether every value of a record can be decoded.
pub open spec fn convertible(record: Map<Seq<char>, Seq<u8>>) -> bool {
    forall|text: Seq<char>| #[trigger]
        record.dom().contains(text) ==> decodable(label_of(text), record[text])
}

/// Whether the value under a label, if the record holds one, can be decoded.
pub open spec fn settled(record: Map<Seq<char>, Seq<u8>>, label: Labels) -> bool {
    raw(record, label) matches Some(value) ==> decodable(label, value)
}


/// The state of the load output that the record holds under `LOAD`.
pub open spec fn load_at(record: Map<Seq<char>, Seq<u8>>) -> Option<Load> {
    match raw(record, Labels::LOAD) {
        Some(value) => load(value),
        None => None,
    }
}

/// Whether an alarm is active that the record holds under `Alarm`.
pub open spec fn alarm_at(record: Map<Seq<char>, Seq<u8>>) -> Option<Alarm> {
    match raw(record, Labels::Alarm) {
        Some(value) => alarm(value),
        None => None,
    }
}

/// The state of the relay that the record holds under `Relay`.
pub open spec fn relay_at(record: Map<Seq<char>, Seq<u8>>) -> Option<Relay> {
    match raw(record, Labels::Relay) {
        Some(value) => relay(value),
        None => None,
    }
}

/// The alarm reasons that the record holds under `AR`.
pub open spec fn alarm_reasons_at(record: Map<Seq<char>, Seq<u8>>) -> Option<Seq<AlarmReason>> {
    match raw(record, Labels::AR) {
        Some(value) => alarm_reasons(value),
        None => None,
    }
}

/// The off reasons that the record holds under `OR`.
pub open spec fn off_reasons_at(record: Map<Seq<char>, Seq<u8>>) -> Option<Seq<OffReason>> {
    match raw(record, Labels::OR) {
        Some(value) => off_reasons(value),
        None => None,
    }
}

/// The error code that the record holds under `ERR`.
pub open spec fn error_at(record: Map<Seq<char>, Seq<u8>>) -> Option<ErrorCode> {
    match raw(record, Labels::ERR) {
        Some(value) => error_code(value),
        None => None,
    }
}

/// The state of operation that the record holds under `CS`.
pub open spec fn state_at(record: Map<Seq<char>, Seq<u8>>) -> Option<StateOfOperation> {
    match raw(record, Labels::CS) {
        Some(value) => state_of_operation(value),
        None => None,
    }
}

/// The device mode that the record holds under `MODE`.
pub open spec fn mode_at(record: Map<Seq<char>, Seq<u8>>) -> Option<DeviceMode> {
    match raw(record, Labels::MODE) {
        Some(value) => device_mode(value),
        None => None,
    }
}

/// The warning reasons that the record holds under `WARN`.
pub open spec fn warning_reasons_at(record: Map<Seq<char>, Seq<u8>>) -> Option<Seq<WarningReason>> {
    match raw(record, Labels::WARN) {
        Some(value) => warning_reasons(value),
        None => None,
    }
}

/// The Bluetooth status that the record holds under `BLE`.
pub open spec fn bluetooth_at(record: Map<Seq<char>, Seq<u8>>) -> Option<BluetoothStatus> {
    match raw(record, Labels::BLE) {
        Some(value) => bluetooth_status(value),
        None => None,
    }
}

/// The Bluetooth capability that the record holds under `CAP_BLE`.
pub open spec fn capability_at(record: Map<Seq<char>, Seq<u8>>) -> Option<BluetoothCapBle> {
    match raw(record, Labels::CAP_BLE) {
        Some(value) => bluetooth_capability(value),
        None => None,
    }
}

/// The time that the record holds under `Time`.
pub open spec fn time_at(record: Map<Seq<char>, Seq<u8>>) -> Option<i64> {
    match raw(record, Labels::Time) {
        Some(value) => parse_i64(value),
        None => None,
    }
}

/// Whether `field` is the measurement that `raw` holds: its text, in `unit`.
pub open spec fn measured(field: Option<Quantity>, raw: Option<Seq<u8>>, unit: Unit) -> bool {
    match raw {
        Some(value) => field matches Some(quantity) && quantity.text@ == decode_utf8(value)
            && quantity.unit == unit,
        None => field is None,
    }
}

/// Whether `field` is the text that `raw` holds.
pub open spec fn worded(field: Option<String>, raw: Option<Seq<u8>>) -> bool {
    match raw {
        Some(value) => field matches Some(text) && text@ == decode_utf8(value),
        None => field is None,
    }
}

/// Whether `field` is the list `expected`.
pub open spec fn listed<T>(field: Option<Vec<T>>, expected: Option<Seq<T>>) -> bool {
    match field {
        Some(list) => expected == Some(list@),
        None => expected is None,
    }
}

/// Whether `field` is the one byte that `raw` holds.
pub open spec fn single_byte(field: Option<u8>, raw: Option<Seq<u8>>) -> bool {
    match raw {
        Some(value) => field == Some(value[0]),
        None => field is None,
    }
}

/// The entries for the labels that are not known, in the order of `order`:
/// for each such label the label, a colon, a space and the text of its value.
pub open spec fn unknown_entries(order: Seq<Seq<char>>, record: Map<Seq<char>, Seq<u8>>) -> Seq<
    Seq<char>,
>
    decreases order.len(),
{
    if order.len() == 0 {
        Seq::empty()
    } else {
        let before = unknown_entries(order.drop_last(), record);
        let label = order.last();
        if label_of(label) == Labels::Unknown {
            before.push(label + ": "@ + decode_utf8(record[label]))
        } else {
            before
        }
    }
}

/// The texts of a list of strings.
pub open spec fn texts(list: Vec<String>) -> Seq<Seq<char>> {
    list@.map_values(|text: String| text@)
}

/// Whether `field` holds `entries`: nothing where there are none.
pub open spec fn gathered(field: Option<Vec<String>>, entries: Seq<Seq<char>>) -> bool {
    match field {
        Some(list) => entries.len() > 0 && texts(list) == entries,
        None => entries.len() == 0,
    }
}

impl VEDirectData {
    /// Whether this is the typed form of `record`, whose labels came in the
    /// order `order`: each field holds what its label's value decodes to, and
    /// nothing where the record does not hold the label.
    pub open spec fn is_conversion_of(
        &self,
        record: Map<Seq<char>, Seq<u8>>,
        order: Seq<Seq<char>>,
    ) -> bool {
        &&& measured(self.V, raw(record, Labels::V), Unit::MilliVolt)
        &&& measured(self.VS, raw(record, Labels::VS), Unit::MilliVolt)
        &&& measured(self.VM, raw(record, Labels::VM), Unit::MilliVolt)
        &&& measured(self.DM, raw(record, Labels::DM), Unit::One)
        &&& measured(self.VPV, raw(record, Labels::VPV), Unit::MilliVolt)
        &&& measured(self.PPV, raw(record, Labels::PPV), Unit::One)
        &&& measured(self.I, raw(record, Labels::I), Unit::MilliAmpere)
        &&& measured(self.IL, raw(record, Labels::IL), Unit::MilliAmpere)
        &&& self.LOAD == load_at(record)
        &&& measured(self.T, raw(record, Labels::T), Unit::One)
        &&& measured(self.P, raw(record, Labels::P), Unit::One)
        &&& measured(self.CE, raw(record, Labels::CE), Unit::MilliAmpereHour)
        &&& measured(self.SOC, raw(record, Labels::SOC), Unit::One)
        &&& measured(self.TTG, raw(record, Labels::TTG), Unit::Minute)
        &&& self.Alarm == alarm_at(record)
        &&& self.Relay == relay_at(record)
        &&& listed(self.AR, alarm_reasons_at(record))
        &&& listed(self.OR, off_reasons_at(record))
        &&& measured(self.H1, raw(record, Labels::H1), Unit::MilliAmpereHour)
        &&& measured(self.H2, raw(record, Labels::H2), Unit::MilliAmpereHour)
        &&& measured(self.H3, raw(record, Labels::H3), Unit::MilliAmpereHour)
        &&& measured(self.H4, raw(record, Labels::H4), Unit::One)
        &&& measured(self.H5, raw(record, Labels::H5), Unit::One)
        &&& measured(self.H6, raw(record, Labels::H6), Unit::MilliAmpereHour)
        &&& measured(self.H7, raw(record, Labels::H7), Unit::MilliVolt)
        &&& measured(self.H8, raw(record, Labels::H8), Unit::MilliVolt)
        &&& measured(self.H9, raw(record, Labels::H9), Unit::One)
        &&& measured(self.H10, raw(record, Labels::H10), Unit::One)
        &&& measured(self.H11, raw(record, Labels::H11), Unit::One)
        &&& measured(self.H12, raw(record, Labels::H12), Unit::One)
        &&& measured(self.H13, raw(record, Labels::H13), Unit::One)
        &&& measured(self.H14, raw(record, Labels::H14), Unit::One)
        &&& measured(self.H15, raw(record, Labels::H15), Unit::MilliVolt)
        &&& measured(self.H16, raw(record, Labels::H16), Unit::MilliVolt)
        &&& measured(self.H17, raw(record, Labels::H17), Unit::DecaWattHour)
        &&& measured(self.H18, raw(record, Labels::H18), Unit::DecaWattHour)
        &&& measured(self.H19, raw(record, Labels::H19), Unit::DecaWattHour)
        &&& measured(self.H20, raw(record, Labels::H20), Unit::DecaWattHour)
        &&& measured(self.H21, raw(record, Labels::H21), Unit::One)
        &&& measured(self.H22, raw(record, Labels::H22), Unit::DecaWattHour)
        &&& measured(self.H23, raw(record, Labels::H23), Unit::One)
        &&& self.ERR == error_at(record)
        &&& self.CS == state_at(record)
        &&& worded(self.BMV, raw(record, Labels::BMV))
        &&& worded(self.FW, raw(record, Labels::FW))
        &&& worded(self.FWE, raw(record, Labels::FWE))
        &&& worded(self.PID, raw(record, Labels::PID))
        &&& worded(self.SER, raw(record, Labels::SER))
        &&& measured(self.HSDS, raw(record, Labels::HSDS), Unit::One)
        &&& self.MODE == mode_at(record)
        &&& measured(self.AC_OUT_V, raw(record, Labels::AC_OUT_V), Unit::CentiVolt)
        &&& measured(self.AC_OUT_I, raw(record, Labels::AC_OUT_I), Unit::DeciAmpere)
        &&& measured(self.AC_OUT_S, raw(record, Labels::AC_OUT_S), Unit::One)
        &&& listed(self.WARN, warning_reasons_at(record))
        &&& single_byte(self.Calc_sum, raw(record, Labels::Calc_sum))
        &&& single_byte(self.Checksum, raw(record, Labels::Checksum))
        &&& self.BLE == bluetooth_at(record)
        &&& self.CAP_BLE == capability_at(record)
        &&& self.Time == time_at(record)
        &&& gathered(self.Unknown, unknown_entries(order, record))
    }
}

} // verus!
