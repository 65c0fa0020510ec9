//! The record converter.
//!
//! [`convert`] decodes every value of a raw record by the rule of its label.
//! A value that cannot be decoded fails the whole conversion: no field of a
//! typed record is ever left out in silence.

pub mod data;
pub mod labels;
pub mod models;

use self::data::{
    alarm_at, alarm_reasons_at, bluetooth_at, capability_at, convertible, decodable, error_at,
    gathered, listed, load_at, measured, mode_at, off_reasons_at, raw, relay_at, settled,
    convert_quantity, single_byte, state_at, texts, time_at, unknown_entries, warning_reasons_at,
    worded, Quantity, VEDirectData,
};
use self::labels::{label_of, lemma_label_of_name, lemma_name_of_label, Labels, Unit};
use self::models::{
    convert_alarm, convert_alarm_reason, convert_ble, convert_capble, convert_device_mode,
    convert_error_code, convert_load, convert_off_reason, convert_relay,
    convert_state_of_operation, convert_warning_reason, invalid_data, Alarm, AlarmReason,
    BluetoothCapBle, BluetoothStatus, DeviceMode, ErrorCode, Load, OffReason, Relay,
    StateOfOperation, WarningReason,
};
use crate::number::{
    decimal_digits, i64_from_text, lemma_decimal_digits, lemma_decimal_round_trip, parse_i64,
    signed_decimal,
};
use crate::parser::record::VEDirectParse;
use crate::text::{lemma_ascii_is_utf8, text_from_utf8};
use vstd::prelude::*;
use vstd::slice::slice_to_vec;
use vstd::string::StringExecFns;
use vstd::utf8::{decode_utf8, decode_utf8_encode_utf8, encode_utf8, valid_utf8};

verus! {

/// A record with a value that cannot be decoded cannot be converted.
proof fn lemma_not_convertible(record: Map<Seq<char>, Seq<u8>>, label: Labels)
    requires
        label != Labels::Unknown,
        !settled(record, label),
    ensures
        !convertible(record),
{
    lemma_label_of_name(label);
    assert(record.dom().contains(label.name()));
}

/// Whether the value under every known label can be decoded.
spec fn all_settled(record: Map<Seq<char>, Seq<u8>>) -> bool {
    &&& settled(record, Labels::V)
    &&& settled(record, Labels::VS)
    &&& settled(record, Labels::VM)
    &&& settled(record, Labels::DM)
    &&& settled(record, Labels::VPV)
    &&& settled(record, Labels::PPV)
    &&& settled(record, Labels::I)
    &&& settled(record, Labels::IL)
    &&& settled(record, Labels::LOAD)
    &&& settled(record, Labels::T)
    &&& settled(record, Labels::P)
    &&& settled(record, Labels::CE)
    &&& settled(record, Labels::SOC)
    &&& settled(record, Labels::TTG)
    &&& settled(record, Labels::Alarm)
    &&& settled(record, Labels::Relay)
    &&& settled(record, Labels::AR)
    &&& settled(record, Labels::OR)
    &&& settled(record, Labels::H1)
    &&& settled(record, Labels::H2)
    &&& settled(record, Labels::H3)
    &&& settled(record, Labels::H4)
    &&& settled(record, Labels::H5)
    &&& settled(record, Labels::H6)
    &&& settled(record, Labels::H7)
    &&& settled(record, Labels::H8)
    &&& settled(record, Labels::H9)
    &&& settled(record, Labels::H10)
    &&& settled(record, Labels::H11)
    &&& settled(record, Labels::H12)
    &&& settled(record, Labels::H13)
    &&& settled(record, Labels::H14)
    &&& settled(record, Labels::H15)
    &&& settled(record, Labels::H16)
    &&& settled(record, Labels::H17)
    &&& settled(record, Labels::H18)
    &&& settled(record, Labels::H19)
    &&& settled(record, Labels::H20)
    &&& settled(record, Labels::H21)
    &&& settled(record, Labels::H22)
    &&& settled(record, Labels::H23)
    &&& settled(record, Labels::ERR)
    &&& settled(record, Labels::CS)
    &&& settled(record, Labels::BMV)
    &&& settled(record, Labels::FW)
    &&& settled(record, Labels::FWE)
    &&& settled(record, Labels::PID)
    &&& settled(record, Labels::SER)
    &&& settled(record, Labels::HSDS)
    &&& settled(record, Labels::MODE)
    &&& settled(record, Labels::AC_OUT_V)
    &&& settled(record, Labels::AC_OUT_I)
    &&& settled(record, Labels::AC_OUT_S)
    &&& settled(record, Labels::WARN)
    &&& settled(record, Labels::BLE)
    &&& settled(record, Labels::CAP_BLE)
    &&& settled(record, Labels::Checksum)
    &&& settled(record, Labels::Calc_sum)
    &&& settled(record, Labels::Time)
}

/// A record whose values under the known labels can all be decoded, and
/// whose values under other labels are all text, can be converted.
proof fn lemma_convertible(record: Map<Seq<char>, Seq<u8>>)
    requires
        all_settled(record),
        forall|text: Seq<char>| #[trigger]
            record.dom().contains(text) && label_of(text) == Labels::Unknown ==> valid_utf8(
                record[text],
            ),
    ensures
        convertible(record),
{
    assert forall|text: Seq<char>| #[trigger] record.dom().contains(text) implies decodable(
        label_of(text),
        record[text],
    ) by {
        lemma_name_of_label(text);
        if label_of(text) != Labels::Unknown {
            assert(settled(record, label_of(text)));
        }
    }
}

/// The text under a label, where the record holds the label.
fn text_at(record: &VEDirectParse, label: Labels) -> (res: Result<Option<String>, std::io::Error>)
    requires
        label != Labels::Unknown,
    ensures
        match res {
            Ok(Some(text)) => raw(record@, label) matches Some(value) && valid_utf8(value) && text@
                == decode_utf8(value) && encode_utf8(text@) == value,
            Ok(None) => raw(record@, label) is None,
            Err(_) => raw(record@, label) matches Some(value) && !valid_utf8(value),
        },
{
    match record.get(&String::from_str(label.as_str())) {
        Some(value) => {
            proof {
                if valid_utf8(value@) {
                    decode_utf8_encode_utf8(value@);
                }
            }
            match text_from_utf8(slice_to_vec(value.as_slice())) {
                Ok(text) => Ok(Some(text)),
                Err(_) => Err(invalid_data()),
            }
        },
        None => Ok(None),
    }
}

/// The measurement under a label, where the record holds the label.
fn quantity_at(record: &VEDirectParse, label: Labels, unit: Unit) -> (res: Result<
    Option<Quantity>,
    std::io::Error,
>)
    requires
        label.unit() == Some(unit),
    ensures
        match res {
            Ok(field) => measured(field, raw(record@, label), unit) && settled(
                record@,
                label,
            ),
            Err(_) => !convertible(record@),
        },
{
    let decoded = match text_at(record, label) {
        Ok(Some(text)) => convert_quantity(text, unit),
        Ok(None) => {
            return Ok(None);
        },
        Err(error) => Err(error),
    };
    match decoded {
        Ok(quantity) => Ok(Some(quantity)),
        Err(error) => {
            proof {
                lemma_not_convertible(record@, label);
            }
            Err(error)
        },
    }
}

/// The identifier under a label, where the record holds the label.
fn wording_at(record: &VEDirectParse, label: Labels) -> (res: Result<
    Option<String>,
    std::io::Error,
>)
    requires
        label == Labels::BMV || label == Labels::FW || label == Labels::FWE || label == Labels::PID
            || label == Labels::SER,
    ensures
        match res {
            Ok(field) => worded(field, raw(record@, label)) && settled(record@, label),
            Err(_) => !convertible(record@),
        },
{
    match text_at(record, label) {
        Ok(field) => Ok(field),
        Err(error) => {
            proof {
                lemma_not_convertible(record@, label);
            }
            Err(error)
        },
    }
}

/// The raw byte under one of the two checksum labels, where the record holds
/// the label.
fn byte_at(record: &VEDirectParse, label: Labels) -> (res: Result<Option<u8>, std::io::Error>)
    requires
        label == Labels::Checksum || label == Labels::Calc_sum,
    ensures
        match res {
            Ok(field) => single_byte(field, raw(record@, label)) && settled(
                record@,
                label,
            ),
            Err(_) => !convertible(record@),
        },
{
    match record.get(&String::from_str(label.as_str())) {
        Some(value) => {
            if value.len() == 1 {
                Ok(Some(value[0]))
            } else {
                proof {
                    lemma_not_convertible(record@, label);
                }
                Err(invalid_data())
            }
        },
        None => Ok(None),
    }
}

/// The entries for the labels of the record that are not known.
fn unknown_of(record: &VEDirectParse) -> (res: Result<Option<Vec<String>>, std::io::Error>)
    ensures
        match res {
            Ok(field) => gathered(field, unknown_entries(record.labels(), record@))
                && forall|text: Seq<char>| #[trigger]
                record@.dom().contains(text) && label_of(text) == Labels::Unknown ==> valid_utf8(
                    record@[text],
                ),
            Err(_) => !convertible(record@),
        },
{
    let mut entries: Vec<String> = Vec::new();
    let n = record.len();
    let mut i: usize = 0;
    proof {
        assert(record.labels().take(0) =~= Seq::<Seq<char>>::empty());
        assert(texts(entries) =~= Seq::<Seq<char>>::empty());
    }
    while i < n
        invariant
            i <= n,
            n == record.labels().len(),
            texts(entries) == unknown_entries(record.labels().take(i as int), record@),
            forall|j: int|
                0 <= j < i && label_of(#[trigger] record.labels()[j]) == Labels::Unknown
                    ==> valid_utf8(record@[record.labels()[j]]),
        decreases n - i,
    {
        let field = record.field_at(i);
        proof {
            assert(record.labels().take(i + 1).drop_last() =~= record.labels().take(i as int));
        }
        match Labels::of(field.label.as_str()) {
            Labels::Unknown => {
                match text_from_utf8(slice_to_vec(field.value.as_slice())) {
                    Ok(text) => {
                        let entry = field.label.clone().concat(": ").concat(text.as_str());
                        let ghost before = texts(entries);
                        entries.push(entry);
                        assert(texts(entries) =~= before.push(entry@));
                    },
                    Err(_) => {
                        return Err(invalid_data());
                    },
                }
            },
            _ => {},
        }
        i += 1;
    }
    proof {
        assert(record.labels().take(i as int) =~= record.labels());
        record.lemma_labels_are_domain();
        assert forall|text: Seq<char>| #[trigger]
            record@.dom().contains(text) && label_of(text) == Labels::Unknown implies valid_utf8(
            record@[text],
        ) by {
            assert(record.labels().contains(text));
            let j = record.labels().index_of(text);
            assert(0 <= j < record.labels().len() && record.labels()[j] == text);
        }
    }
    if entries.len() > 0 {
        Ok(Some(entries))
    } else {
        Ok(None)
    }
}

/// The time under `Time`, where the record holds the label.
fn time_of(record: &VEDirectParse) -> (res: Result<Option<i64>, std::io::Error>)
    ensures
        match res {
            Ok(field) => field == time_at(record@) && settled(record@, Labels::Time),
            Err(_) => !convertible(record@),
        },
{
    let found = match text_at(record, Labels::Time) {
        Ok(Some(text)) => i64_from_text(text.as_str().as_bytes()),
        Ok(None) => {
            return Ok(None);
        },
        Err(_) => None,
    };
    match found {
        Some(time) => Ok(Some(time)),
        None => {
            proof {
                lemma_not_convertible(record@, Labels::Time);
            }
            Err(invalid_data())
        },
    }
}

/// The state of the load output, where the record holds `LOAD`.
fn load_of(record: &VEDirectParse) -> (res: Result<
    Option<Load>,
    std::io::Error,
>)
    ensures
        match res {
            Ok(field) => {
                &&& field == load_at(record@)
                &&& settled(record@, Labels::LOAD)
            },
            Err(_) => !convertible(record@),
        },
{
    let decoded = match text_at(record, Labels::LOAD) {
        Ok(Some(text)) => convert_load(text),
        Ok(None) => {
            return Ok(None);
        },
        Err(error) => Err(error),
    };
    match decoded {
        Ok(value) => Ok(Some(value)),
        Err(error) => {
            proof {
                lemma_not_convertible(record@, Labels::LOAD);
            }
            Err(error)
        },
    }
}

/// Whether an alarm is active, where the record holds `Alarm`.
fn alarm_of(record: &VEDirectParse) -> (res: Result<
    Option<Alarm>,
    std::io::Error,
>)
    ensures
        match res {
            Ok(field) => {
                &&& field == alarm_at(record@)
                &&& settled(record@, Labels::Alarm)
            },
            Err(_) => !convertible(record@),
        },
{
    let decoded = match text_at(record, Labels::Alarm) {
        Ok(Some(text)) => convert_alarm(text),
        Ok(None) => {
            return Ok(None);
        },
        Err(error) => Err(error),
    };
    match decoded {
        Ok(value) => Ok(Some(value)),
        Err(error) => {
            proof {
                lemma_not_convertible(record@, Labels::Alarm);
            }
            Err(error)
        },
    }
}

/// The state of the relay, where the record holds `Relay`.
fn relay_of(record: &VEDirectParse) -> (res: Result<
    Option<Relay>,
    std::io::Error,
>)
    ensures
        match res {
            Ok(field) => {
                &&& field == relay_at(record@)
                &&& settled(record@, Labels::Relay)
            },
            Err(_) => !convertible(record@),
        },
{
    let decoded = match text_at(record, Labels::Relay) {
        Ok(Some(text)) => convert_relay(text),
        Ok(None) => {
            return Ok(None);
        },
        Err(error) => Err(error),
    };
    match decoded {
        Ok(value) => Ok(Some(value)),
        Err(error) => {
            proof {
                lemma_not_convertible(record@, Labels::Relay);
            }
            Err(error)
        },
    }
}

/// The alarm reasons, where the record holds `AR`.
fn alarm_reasons_of(record: &VEDirectParse) -> (res: Result<
    Option<Vec<AlarmReason>>,
    std::io::Error,
>)
    ensures
        match res {
            Ok(field) => {
                &&& listed(field, alarm_reasons_at(record@))
                &&& settled(record@, Labels::AR)
            },
            Err(_) => !convertible(record@),
        },
{
    let decoded = match text_at(record, Labels::AR) {
        Ok(Some(text)) => convert_alarm_reason(text),
        Ok(None) => {
            return Ok(None);
        },
        Err(error) => Err(error),
    };
    match decoded {
        Ok(value) => Ok(Some(value)),
        Err(error) => {
            proof {
                lemma_not_convertible(record@, Labels::AR);
            }
            Err(error)
        },
    }
}

/// The off reasons, where the record holds `OR`.
fn off_reasons_of(record: &VEDirectParse) -> (res: Result<
    Option<Vec<OffReason>>,
    std::io::Error,
>)
    ensures
        match res {
            Ok(field) => {
                &&& listed(field, off_reasons_at(record@))
                &&& settled(record@, Labels::OR)
            },
            Err(_) => !convertible(record@),
        },
{
    let decoded = match text_at(record, Labels::OR) {
        Ok(Some(text)) => convert_off_reason(text),
        Ok(None) => {
            return Ok(None);
        },
        Err(error) => Err(error),
    };
    match decoded {
        Ok(value) => Ok(Some(value)),
        Err(error) => {
            proof {
                lemma_not_convertible(record@, Labels::OR);
            }
            Err(error)
        },
    }
}

/// The error code, where the record holds `ERR`.
fn error_of(record: &VEDirectParse) -> (res: Result<
    Option<ErrorCode>,
    std::io::Error,
>)
    ensures
        match res {
            Ok(field) => {
                &&& field == error_at(record@)
                &&& settled(record@, Labels::ERR)
            },
            Err(_) => !convertible(record@),
        },
{
    let decoded = match text_at(record, Labels::ERR) {
        Ok(Some(text)) => convert_error_code(text),
        Ok(None) => {
            return Ok(None);
        },
        Err(error) => Err(error),
    };
    match decoded {
        Ok(value) => Ok(Some(value)),
        Err(error) => {
            proof {
                lemma_not_convertible(record@, Labels::ERR);
            }
            Err(error)
        },
    }
}

/// The state of operation, where the record holds `CS`.
fn state_of(record: &VEDirectParse) -> (res: Result<
    Option<StateOfOperation>,
    std::io::Error,
>)
    ensures
        match res {
            Ok(field) => {
                &&& field == state_at(record@)
                &&& settled(record@, Labels::CS)
            },
            Err(_) => !convertible(record@),
        },
{
    let decoded = match text_at(record, Labels::CS) {
        Ok(Some(text)) => convert_state_of_operation(text),
        Ok(None) => {
            return Ok(None);
        },
        Err(error) => Err(error),
    };
    match decoded {
        Ok(value) => Ok(Some(value)),
        Err(error) => {
            proof {
                lemma_not_convertible(record@, Labels::CS);
            }
            Err(error)
        },
    }
}

/// The device mode, where the record holds `MODE`.
fn mode_of(record: &VEDirectParse) -> (res: Result<
    Option<DeviceMode>,
    std::io::Error,
>)
    ensures
        match res {
            Ok(field) => {
                &&& field == mode_at(record@)
                &&& settled(record@, Labels::MODE)
            },
            Err(_) => !convertible(record@),
        },
{
    let decoded = match text_at(record, Labels::MODE) {
        Ok(Some(text)) => convert_device_mode(text),
        Ok(None) => {
            return Ok(None);
        },
        Err(error) => Err(error),
    };
    match decoded {
        Ok(value) => Ok(Some(value)),
        Err(error) => {
            proof {
                lemma_not_convertible(record@, Labels::MODE);
            }
            Err(error)
        },
    }
}

/// The warning reasons, where the record holds `WARN`.
fn warning_reasons_of(record: &VEDirectParse) -> (res: Result<
    Option<Vec<WarningReason>>,
    std::io::Error,
>)
    ensures
        match res {
            Ok(field) => {
                &&& listed(field, warning_reasons_at(record@))
                &&& settled(record@, Labels::WARN)
            },
            Err(_) => !convertible(record@),
        },
{
    let decoded = match text_at(record, Labels::WARN) {
        Ok(Some(text)) => convert_warning_reason(text),
        Ok(None) => {
            return Ok(None);
        },
        Err(error) => Err(error),
    };
    match decoded {
        Ok(value) => Ok(Some(value)),
        Err(error) => {
            proof {
                lemma_not_convertible(record@, Labels::WARN);
            }
            Err(error)
        },
    }
}

/// The Bluetooth status, where the record holds `BLE`.
fn bluetooth_of(record: &VEDirectParse) -> (res: Result<
    Option<BluetoothStatus>,
    std::io::Error,
>)
    ensures
        match res {
            Ok(field) => {
                &&& field == bluetooth_at(record@)
                &&& settled(record@, Labels::BLE)
            },
            Err(_) => !convertible(record@),
        },
{
    let decoded = match text_at(record, Labels::BLE) {
        Ok(Some(text)) => convert_ble(text),
        Ok(None) => {
            return Ok(None);
        },
        Err(error) => Err(error),
    };
    match decoded {
        Ok(value) => Ok(Some(value)),
        Err(error) => {
            proof {
                lemma_not_convertible(record@, Labels::BLE);
            }
            Err(error)
        },
    }
}

/// The Bluetooth capability, where the record holds `CAP_BLE`.
fn capability_of(record: &VEDirectParse) -> (res: Result<
    Option<BluetoothCapBle>,
    std::io::Error,
>)
    ensures
        match res {
            Ok(field) => {
                &&& field == capability_at(record@)
                &&& settled(record@, Labels::CAP_BLE)
            },
            Err(_) => !convertible(record@),
        },
{
    let decoded = match text_at(record, Labels::CAP_BLE) {
        Ok(Some(text)) => convert_capble(text),
        Ok(None) => {
            return Ok(None);
        },
        Err(error) => Err(error),
    };
    match decoded {
        Ok(value) => Ok(Some(value)),
        Err(error) => {
            proof {
                lemma_not_convertible(record@, Labels::CAP_BLE);
            }
            Err(error)
        },
    }
}

/// The time that the reassembler writes under `Time` is a value that the
/// converter decodes, and it decodes to the same time.
pub proof fn lemma_time_is_read_back(now: i64)
    ensures
        decodable(Labels::Time, signed_decimal(now as int)),
        parse_i64(signed_decimal(now as int)) == Some(now),
{
    let text = signed_decimal(now as int);
    lemma_decimal_round_trip(now);
    let magnitude = if now < 0 {
        (-now) as nat
    } else {
        now as nat
    };
    lemma_decimal_digits(magnitude);
    assert forall|i: int| 0 <= i < text.len() implies text[i] < 128 by {
        if now < 0 && i > 0 {
            assert(text[i] == decimal_digits(magnitude)[i - 1]);
        }
    }
    lemma_ascii_is_utf8(text);
}

/// Converts a raw record into the typed record. Every value is decoded by
/// the rule of its label; labels that are not known are gathered, with their
/// values as text, under `Unknown`. The conversion fails if and only if some
/// value of the record cannot be decoded.
pub fn convert(map: VEDirectParse) -> (res: Result<VEDirectData, std::io::Error>)
    ensures
        res is Ok <==> convertible(map@),
        res matches Ok(data) ==> data.is_conversion_of(map@, map.labels()),
{
    let record = &map;
    let data = VEDirectData {
        V: quantity_at(record, Labels::V, Unit::MilliVolt)?,
        VS: quantity_at(record, Labels::VS, Unit::MilliVolt)?,
        VM: quantity_at(record, Labels::VM, Unit::MilliVolt)?,
        DM: quantity_at(record, Labels::DM, Unit::One)?,
        VPV: quantity_at(record, Labels::VPV, Unit::MilliVolt)?,
        PPV: quantity_at(record, Labels::PPV, Unit::One)?,
        I: quantity_at(record, Labels::I, Unit::MilliAmpere)?,
        IL: quantity_at(record, Labels::IL, Unit::MilliAmpere)?,
        LOAD: load_of(record)?,
        T: quantity_at(record, Labels::T, Unit::One)?,
        P: quantity_at(record, Labels::P, Unit::One)?,
        CE: quantity_at(record, Labels::CE, Unit::MilliAmpereHour)?,
        SOC: quantity_at(record, Labels::SOC, Unit::One)?,
        TTG: quantity_at(record, Labels::TTG, Unit::Minute)?,
        Alarm: alarm_of(record)?,
        Relay: relay_of(record)?,
        AR: alarm_reasons_of(record)?,
        OR: off_reasons_of(record)?,
        H1: quantity_at(record, Labels::H1, Unit::MilliAmpereHour)?,
        H2: quantity_at(record, Labels::H2, Unit::MilliAmpereHour)?,
        H3: quantity_at(record, Labels::H3, Unit::MilliAmpereHour)?,
        H4: quantity_at(record, Labels::H4, Unit::One)?,
        H5: quantity_at(record, Labels::H5, Unit::One)?,
        H6: quantity_at(record, Labels::H6, Unit::MilliAmpereHour)?,
        H7: quantity_at(record, Labels::H7, Unit::MilliVolt)?,
        H8: quantity_at(record, Labels::H8, Unit::MilliVolt)?,
        H9: quantity_at(record, Labels::H9, Unit::One)?,
        H10: quantity_at(record, Labels::H10, Unit::One)?,
        H11: quantity_at(record, Labels::H11, Unit::One)?,
        H12: quantity_at(record, Labels::H12, Unit::One)?,
        H13: quantity_at(record, Labels::H13, Unit::One)?,
        H14: quantity_at(record, Labels::H14, Unit::One)?,
        H15: quantity_at(record, Labels::H15, Unit::MilliVolt)?,
        H16: quantity_at(record, Labels::H16, Unit::MilliVolt)?,
        H17: quantity_at(record, Labels::H17, Unit::DecaWattHour)?,
        H18: quantity_at(record, Labels::H18, Unit::DecaWattHour)?,
        H19: quantity_at(record, Labels::H19, Unit::DecaWattHour)?,
        H20: quantity_at(record, Labels::H20, Unit::DecaWattHour)?,
        H21: quantity_at(record, Labels::H21, Unit::One)?,
        H22: quantity_at(record, Labels::H22, Unit::DecaWattHour)?,
        H23: quantity_at(record, Labels::H23, Unit::One)?,
        ERR: error_of(record)?,
        CS: state_of(record)?,
        BMV: wording_at(record, Labels::BMV)?,
        FW: wording_at(record, Labels::FW)?,
        FWE: wording_at(record, Labels::FWE)?,
        PID: wording_at(record, Labels::PID)?,
        SER: wording_at(record, Labels::SER)?,
        HSDS: quantity_at(record, Labels::HSDS, Unit::One)?,
        MODE: mode_of(record)?,
        AC_OUT_V: quantity_at(record, Labels::AC_OUT_V, Unit::CentiVolt)?,
        AC_OUT_I: quantity_at(record, Labels::AC_OUT_I, Unit::DeciAmpere)?,
        AC_OUT_S: quantity_at(record, Labels::AC_OUT_S, Unit::One)?,
        WARN: warning_reasons_of(record)?,
        Calc_sum: byte_at(record, Labels::Calc_sum)?,
        Checksum: byte_at(record, Labels::Checksum)?,
        BLE: bluetooth_of(record)?,
        CAP_BLE: capability_of(record)?,
        Time: time_of(record)?,
        Unknown: unknown_of(record)?,
    };
    proof {
        lemma_convertible(map@);
    }
    Ok(data)
}

} // verus!
