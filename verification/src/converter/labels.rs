//! The labels of the protocol, and what each one's value is.

use crate::text::text_eq;
use vstd::prelude::*;

verus! {

/// The device-native unit in which a measurement arrives.
#[derive(PartialEq, Eq, Structural, Debug, Clone, Copy)]
pub enum Unit {
    /// Thousandths of a volt.
    MilliVolt,
    /// Hundredths of a volt.
    CentiVolt,
    /// Thousandths of an ampere.
    MilliAmpere,
    /// Tenths of an ampere.
    DeciAmpere,
    /// Thousandths of an ampere hour.
    MilliAmpereHour,
    /// Tens of watt hours.
    DecaWattHour,
    /// Thousands of watt hours.
    KiloWattHour,
    /// Minutes.
    Minute,
    /// The unit in which the value is used as it comes.
    One,
}

impl Unit {
    /// The factor that takes a number in this unit to volts, amperes, ampere
    /// hours, watt hours or seconds, as a multiplier and a divisor.
    pub open spec fn scale(self) -> (u32, u32) {
        match self {
            Unit::MilliVolt => (1, 1000),
            Unit::CentiVolt => (1, 100),
            Unit::MilliAmpere => (1, 1000),
            Unit::DeciAmpere => (1, 10),
            Unit::MilliAmpereHour => (1, 1000),
            Unit::DecaWattHour => (10, 1),
            Unit::KiloWattHour => (1000, 1),
            Unit::Minute => (60, 1),
            Unit::One => (1, 1),
        }
    }

    /// See [`scale`](Self::scale). One of the two numbers is always 1, and
    /// neither is zero.
    pub fn factor(&self) -> (by: (u32, u32))
        ensures
            by == self.scale(),
            by.0 >= 1 && by.1 >= 1,
            by.0 == 1 || by.1 == 1,
    {
        match self {
            Unit::MilliVolt => (1, 1000),
            Unit::CentiVolt => (1, 100),
            Unit::MilliAmpere => (1, 1000),
            Unit::DeciAmpere => (1, 10),
            Unit::MilliAmpereHour => (1, 1000),
            Unit::DecaWattHour => (10, 1),
            Unit::KiloWattHour => (1000, 1),
            Unit::Minute => (60, 1),
            Unit::One => (1, 1),
        }
    }
}

/// The labels that a frame may hold, and `Unknown` for every other label.
#[allow(non_camel_case_types)]
#[derive(PartialEq, Eq, Structural, Debug, Clone, Copy)]
pub enum Labels {
    /// Main (battery) voltage, in mV.
    V,
    /// Auxiliary (starter) voltage, in mV.
    VS,
    /// Mid-point voltage of the battery bank, in mV.
    VM,
    /// Mid-point deviation of the battery bank, in permille.
    DM,
    /// Panel voltage, in mV.
    VPV,
    /// Panel power, in W.
    PPV,
    /// Battery current, in mA.
    I,
    /// Load current, in mA.
    IL,
    /// Load output state.
    LOAD,
    /// Battery temperature, in degrees Celsius.
    T,
    /// Instantaneous power, in W.
    P,
    /// Consumed amp hours, in mAh.
    CE,
    /// State of charge, in permille.
    SOC,
    /// Time to go, in minutes.
    TTG,
    /// Alarm condition active.
    Alarm,
    /// Relay state.
    Relay,
    /// Alarm reason.
    AR,
    /// Off reason.
    OR,
    /// Depth of the deepest discharge, in mAh.
    H1,
    /// Depth of the last discharge, in mAh.
    H2,
    /// Depth of the average discharge, in mAh.
    H3,
    /// Number of charge cycles.
    H4,
    /// Number of full discharges.
    H5,
    /// Cumulative amp hours drawn, in mAh.
    H6,
    /// Minimum main (battery) voltage, in mV.
    H7,
    /// Maximum main (battery) voltage, in mV.
    H8,
    /// Number of seconds since the last full charge.
    H9,
    /// Number of automatic synchronizations.
    H10,
    /// Number of low main voltage alarms.
    H11,
    /// Number of high main voltage alarms.
    H12,
    /// Number of low auxiliary voltage alarms.
    H13,
    /// Number of high auxiliary voltage alarms.
    H14,
    /// Minimum auxiliary (battery) voltage, in mV.
    H15,
    /// Maximum auxiliary (battery) voltage, in mV.
    H16,
    /// Amount of discharged energy, in 0.01 kWh.
    H17,
    /// Amount of charged energy, in 0.01 kWh.
    H18,
    /// Yield total (user resettable counter), in 0.01 kWh.
    H19,
    /// Yield today, in 0.01 kWh.
    H20,
    /// Maximum power today, in W.
    H21,
    /// Yield yesterday, in 0.01 kWh.
    H22,
    /// Maximum power yesterday, in W.
    H23,
    /// Error code.
    ERR,
    /// State of operation.
    CS,
    /// Model description (deprecated).
    BMV,
    /// Firmware version.
    FW,
    /// Firmware version.
    FWE,
    /// Product ID.
    PID,
    /// Serial number.
    SER,
    /// Day sequence number (0..364).
    HSDS,
    /// Device mode.
    MODE,
    /// AC output voltage, in 0.01 V.
    AC_OUT_V,
    /// AC output current, in 0.1 A.
    AC_OUT_I,
    /// AC output power.
    AC_OUT_S,
    /// Warning reason.
    WARN,
    /// Bluetooth status.
    BLE,
    /// Bluetooth capabilities.
    CAP_BLE,
    /// Checksum from the frame.
    Checksum,
    /// Checksum computed by the reassembler.
    Calc_sum,
    /// Every label that is none of the others.
    Unknown,
    /// Time at which the frame was completed.
    Time,
}

impl Labels {
    /// The label as it stands on the wire.
    pub open spec fn name(self) -> Seq<char> {
        match self {
            Labels::V => "V"@,
            Labels::VS => "VS"@,
            Labels::VM => "VM"@,
            Labels::DM => "DM"@,
            Labels::VPV => "VPV"@,
            Labels::PPV => "PPV"@,
            Labels::I => "I"@,
            Labels::IL => "IL"@,
            Labels::LOAD => "LOAD"@,
            Labels::T => "T"@,
            Labels::P => "P"@,
            Labels::CE => "CE"@,
            Labels::SOC => "SOC"@,
            Labels::TTG => "TTG"@,
            Labels::Alarm => "Alarm"@,
            Labels::Relay => "Relay"@,
            Labels::AR => "AR"@,
            Labels::OR => "OR"@,
            Labels::H1 => "H1"@,
            Labels::H2 => "H2"@,
            Labels::H3 => "H3"@,
            Labels::H4 => "H4"@,
            Labels::H5 => "H5"@,
            Labels::H6 => "H6"@,
            Labels::H7 => "H7"@,
            Labels::H8 => "H8"@,
            Labels::H9 => "H9"@,
            Labels::H10 => "H10"@,
            Labels::H11 => "H11"@,
            Labels::H12 => "H12"@,
            Labels::H13 => "H13"@,
            Labels::H14 => "H14"@,
            Labels::H15 => "H15"@,
            Labels::H16 => "H16"@,
            Labels::H17 => "H17"@,
            Labels::H18 => "H18"@,
            Labels::H19 => "H19"@,
            Labels::H20 => "H20"@,
            Labels::H21 => "H21"@,
            Labels::H22 => "H22"@,
            Labels::H23 => "H23"@,
            Labels::ERR => "ERR"@,
            Labels::CS => "CS"@,
            Labels::BMV => "BMV"@,
            Labels::FW => "FW"@,
            Labels::FWE => "FWE"@,
            Labels::PID => "PID"@,
            Labels::SER => "SER#"@,
            Labels::HSDS => "HSDS"@,
            Labels::MODE => "MODE"@,
            Labels::AC_OUT_V => "AC_OUT_V"@,
            Labels::AC_OUT_I => "AC_OUT_I"@,
            Labels::AC_OUT_S => "AC_OUT_S"@,
            Labels::WARN => "WARN"@,
            Labels::BLE => "BLE"@,
            Labels::CAP_BLE => "CAP_BLE"@,
            Labels::Checksum => "Checksum"@,
            Labels::Calc_sum => "Calc_sum"@,
            Labels::Unknown => "Unknown"@,
            Labels::Time => "Time"@,
        }
    }

    /// The unit of the measurement under this label; `None` where the value
    /// is no measurement.
    pub open spec fn unit(self) -> Option<Unit> {
        match self {
            Labels::V => Some(Unit::MilliVolt),
            Labels::VS => Some(Unit::MilliVolt),
            Labels::VM => Some(Unit::MilliVolt),
            Labels::DM => Some(Unit::One),
            Labels::VPV => Some(Unit::MilliVolt),
            Labels::PPV => Some(Unit::One),
            Labels::I => Some(Unit::MilliAmpere),
            Labels::IL => Some(Unit::MilliAmpere),
            Labels::T => Some(Unit::One),
            Labels::P => Some(Unit::One),
            Labels::CE => Some(Unit::MilliAmpereHour),
            Labels::SOC => Some(Unit::One),
            Labels::TTG => Some(Unit::Minute),
            Labels::H1 => Some(Unit::MilliAmpereHour),
            Labels::H2 => Some(Unit::MilliAmpereHour),
            Labels::H3 => Some(Unit::MilliAmpereHour),
            Labels::H4 => Some(Unit::One),
            Labels::H5 => Some(Unit::One),
            Labels::H6 => Some(Unit::MilliAmpereHour),
            Labels::H7 => Some(Unit::MilliVolt),
            Labels::H8 => Some(Unit::MilliVolt),
            Labels::H9 => Some(Unit::One),
            Labels::H10 => Some(Unit::One),
            Labels::H11 => Some(Unit::One),
            Labels::H12 => Some(Unit::One),
            Labels::H13 => Some(Unit::One),
            Labels::H14 => Some(Unit::One),
            Labels::H15 => Some(Unit::MilliVolt),
            Labels::H16 => Some(Unit::MilliVolt),
            Labels::H17 => Some(Unit::DecaWattHour),
            Labels::H18 => Some(Unit::DecaWattHour),
            Labels::H19 => Some(Unit::DecaWattHour),
            Labels::H20 => Some(Unit::DecaWattHour),
            Labels::H21 => Some(Unit::One),
            Labels::H22 => Some(Unit::DecaWattHour),
            Labels::H23 => Some(Unit::One),
            Labels::HSDS => Some(Unit::One),
            Labels::AC_OUT_V => Some(Unit::CentiVolt),
            Labels::AC_OUT_I => Some(Unit::DeciAmpere),
            Labels::AC_OUT_S => Some(Unit::One),
            _ => None,
        }
    }

    /// See [`name`](Self::name).
    pub fn as_str(&self) -> (name: &'static str)
        ensures
            name@ == self.name(),
    {
        match self {
            Labels::V => "V",
            Labels::VS => "VS",
            Labels::VM => "VM",
            Labels::DM => "DM",
            Labels::VPV => "VPV",
            Labels::PPV => "PPV",
            Labels::I => "I",
            Labels::IL => "IL",
            Labels::LOAD => "LOAD",
            Labels::T => "T",
            Labels::P => "P",
            Labels::CE => "CE",
            Labels::SOC => "SOC",
            Labels::TTG => "TTG",
            Labels::Alarm => "Alarm",
            Labels::Relay => "Relay",
            Labels::AR => "AR",
            Labels::OR => "OR",
            Labels::H1 => "H1",
            Labels::H2 => "H2",
            Labels::H3 => "H3",
            Labels::H4 => "H4",
            Labels::H5 => "H5",
            Labels::H6 => "H6",
            Labels::H7 => "H7",
            Labels::H8 => "H8",
            Labels::H9 => "H9",
            Labels::H10 => "H10",
            Labels::H11 => "H11",
            Labels::H12 => "H12",
            Labels::H13 => "H13",
            Labels::H14 => "H14",
            Labels::H15 => "H15",
            Labels::H16 => "H16",
            Labels::H17 => "H17",
            Labels::H18 => "H18",
            Labels::H19 => "H19",
            Labels::H20 => "H20",
            Labels::H21 => "H21",
            Labels::H22 => "H22",
            Labels::H23 => "H23",
            Labels::ERR => "ERR",
            Labels::CS => "CS",
            Labels::BMV => "BMV",
            Labels::FW => "FW",
            Labels::FWE => "FWE",
            Labels::PID => "PID",
            Labels::SER => "SER#",
            Labels::HSDS => "HSDS",
            Labels::MODE => "MODE",
            Labels::AC_OUT_V => "AC_OUT_V",
            Labels::AC_OUT_I => "AC_OUT_I",
            Labels::AC_OUT_S => "AC_OUT_S",
            Labels::WARN => "WARN",
            Labels::BLE => "BLE",
            Labels::CAP_BLE => "CAP_BLE",
            Labels::Checksum => "Checksum",
            Labels::Calc_sum => "Calc_sum",
            Labels::Unknown => "Unknown",
            Labels::Time => "Time",
        }
    }

    /// See [`unit`](Self::unit).
    pub fn measured_in(&self) -> (unit: Option<Unit>)
        ensures
            unit == self.unit(),
    {
        match self {
            Labels::V => Some(Unit::MilliVolt),
            Labels::VS => Some(Unit::MilliVolt),
            Labels::VM => Some(Unit::MilliVolt),
            Labels::DM => Some(Unit::One),
            Labels::VPV => Some(Unit::MilliVolt),
            Labels::PPV => Some(Unit::One),
            Labels::I => Some(Unit::MilliAmpere),
            Labels::IL => Some(Unit::MilliAmpere),
            Labels::T => Some(Unit::One),
            Labels::P => Some(Unit::One),
            Labels::CE => Some(Unit::MilliAmpereHour),
            Labels::SOC => Some(Unit::One),
            Labels::TTG => Some(Unit::Minute),
            Labels::H1 => Some(Unit::MilliAmpereHour),
            Labels::H2 => Some(Unit::MilliAmpereHour),
            Labels::H3 => Some(Unit::MilliAmpereHour),
            Labels::H4 => Some(Unit::One),
            Labels::H5 => Some(Unit::One),
            Labels::H6 => Some(Unit::MilliAmpereHour),
            Labels::H7 => Some(Unit::MilliVolt),
            Labels::H8 => Some(Unit::MilliVolt),
            Labels::H9 => Some(Unit::One),
            Labels::H10 => Some(Unit::One),
            Labels::H11 => Some(Unit::One),
            Labels::H12 => Some(Unit::One),
            Labels::H13 => Some(Unit::One),
            Labels::H14 => Some(Unit::One),
            Labels::H15 => Some(Unit::MilliVolt),
            Labels::H16 => Some(Unit::MilliVolt),
            Labels::H17 => Some(Unit::DecaWattHour),
            Labels::H18 => Some(Unit::DecaWattHour),
            Labels::H19 => Some(Unit::DecaWattHour),
            Labels::H20 => Some(Unit::DecaWattHour),
            Labels::H21 => Some(Unit::One),
            Labels::H22 => Some(Unit::DecaWattHour),
            Labels::H23 => Some(Unit::One),
            Labels::HSDS => Some(Unit::One),
            Labels::AC_OUT_V => Some(Unit::CentiVolt),
            Labels::AC_OUT_I => Some(Unit::DeciAmpere),
            Labels::AC_OUT_S => Some(Unit::One),
            _ => None,
        }
    }

    /// See [`label_of`].
    pub fn of(text: &str) -> (label: Labels)
        ensures
            label == label_of(text@),
    {
        if text_eq(text, "V") {
            Labels::V
        } else if text_eq(text, "VS") {
            Labels::VS
        } else if text_eq(text, "VM") {
            Labels::VM
        } else if text_eq(text, "DM") {
            Labels::DM
        } else if text_eq(text, "VPV") {
            Labels::VPV
        } else if text_eq(text, "PPV") {
            Labels::PPV
        } else if text_eq(text, "I") {
            Labels::I
        } else if text_eq(text, "IL") {
            Labels::IL
        } else if text_eq(text, "LOAD") {
            Labels::LOAD
        } else if text_eq(text, "T") {
            Labels::T
        } else if text_eq(text, "P") {
            Labels::P
        } else if text_eq(text, "CE") {
            Labels::CE
        } else if text_eq(text, "SOC") {
            Labels::SOC
        } else if text_eq(text, "TTG") {
            Labels::TTG
        } else if text_eq(text, "Alarm") {
            Labels::Alarm
        } else if text_eq(text, "Relay") {
            Labels::Relay
        } else if text_eq(text, "AR") {
            Labels::AR
        } else if text_eq(text, "OR") {
            Labels::OR
        } else if text_eq(text, "H1") {
            Labels::H1
        } else if text_eq(text, "H2") {
            Labels::H2
        } else if text_eq(text, "H3") {
            Labels::H3
        } else if text_eq(text, "H4") {
            Labels::H4
        } else if text_eq(text, "H5") {
            Labels::H5
        } else if text_eq(text, "H6") {
            Labels::H6
        } else if text_eq(text, "H7") {
            Labels::H7
        } else if text_eq(text, "H8") {
            Labels::H8
        } else if text_eq(text, "H9") {
            Labels::H9
        } else if text_eq(text, "H10") {
            Labels::H10
        } else if text_eq(text, "H11") {
            Labels::H11
        } else if text_eq(text, "H12") {
            Labels::H12
        } else if text_eq(text, "H13") {
            Labels::H13
        } else if text_eq(text, "H14") {
            Labels::H14
        } else if text_eq(text, "H15") {
            Labels::H15
        } else if text_eq(text, "H16") {
            Labels::H16
        } else if text_eq(text, "H17") {
            Labels::H17
        } else if text_eq(text, "H18") {
            Labels::H18
        } else if text_eq(text, "H19") {
            Labels::H19
        } else if text_eq(text, "H20") {
            Labels::H20
        } else if text_eq(text, "H21") {
            Labels::H21
        } else if text_eq(text, "H22") {
            Labels::H22
        } else if text_eq(text, "H23") {
            Labels::H23
        } else if text_eq(text, "ERR") {
            Labels::ERR
        } else if text_eq(text, "CS") {
            Labels::CS
        } else if text_eq(text, "BMV") {
            Labels::BMV
        } else if text_eq(text, "FW") {
            Labels::FW
        } else if text_eq(text, "FWE") {
            Labels::FWE
        } else if text_eq(text, "PID") {
            Labels::PID
        } else if text_eq(text, "SER#") {
            Labels::SER
        } else if text_eq(text, "HSDS") {
            Labels::HSDS
        } else if text_eq(text, "MODE") {
            Labels::MODE
        } else if text_eq(text, "AC_OUT_V") {
            Labels::AC_OUT_V
        } else if text_eq(text, "AC_OUT_I") {
            Labels::AC_OUT_I
        } else if text_eq(text, "AC_OUT_S") {
            Labels::AC_OUT_S
        } else if text_eq(text, "WARN") {
            Labels::WARN
        } else if text_eq(text, "BLE") {
            Labels::BLE
        } else if text_eq(text, "CAP_BLE") {
            Labels::CAP_BLE
        } else if text_eq(text, "Checksum") {
            Labels::Checksum
        } else if text_eq(text, "Calc_sum") {
            Labels::Calc_sum
        } else if text_eq(text, "Time") {
            Labels::Time
        } else {
            Labels::Unknown
        }
    }
}

/// The label that a text is: the one with that name, and `Unknown` where no
/// label has it. The names tell upper and lower case apart.
pub open spec fn label_of(text: Seq<char>) -> Labels {
    if text == "V"@ {
        Labels::V
    } else if text == "VS"@ {
        Labels::VS
    } else if text == "VM"@ {
        Labels::VM
    } else if text == "DM"@ {
        Labels::DM
    } else if text == "VPV"@ {
        Labels::VPV
    } else if text == "PPV"@ {
        Labels::PPV
    } else if text == "I"@ {
        Labels::I
    } else if text == "IL"@ {
        Labels::IL
    } else if text == "LOAD"@ {
        Labels::LOAD
    } else if text == "T"@ {
        Labels::T
    } else if text == "P"@ {
        Labels::P
    } else if text == "CE"@ {
        Labels::CE
    } else if text == "SOC"@ {
        Labels::SOC
    } else if text == "TTG"@ {
        Labels::TTG
    } else if text == "Alarm"@ {
        Labels::Alarm
    } else if text == "Relay"@ {
        Labels::Relay
    } else if text == "AR"@ {
        Labels::AR
    } else if text == "OR"@ {
        Labels::OR
    } else if text == "H1"@ {
        Labels::H1
    } else if text == "H2"@ {
        Labels::H2
    } else if text == "H3"@ {
        Labels::H3
    } else if text == "H4"@ {
        Labels::H4
    } else if text == "H5"@ {
        Labels::H5
    } else if text == "H6"@ {
        Labels::H6
    } else if text == "H7"@ {
        Labels::H7
    } else if text == "H8"@ {
        Labels::H8
    } else if text == "H9"@ {
        Labels::H9
    } else if text == "H10"@ {
        Labels::H10
    } else if text == "H11"@ {
        Labels::H11
    } else if text == "H12"@ {
        Labels::H12
    } else if text == "H13"@ {
        Labels::H13
    } else if text == "H14"@ {
        Labels::H14
    } else if text == "H15"@ {
        Labels::H15
    } else if text == "H16"@ {
        Labels::H16
    } else if text == "H17"@ {
        Labels::H17
    } else if text == "H18"@ {
        Labels::H18
    } else if text == "H19"@ {
        Labels::H19
    } else if text == "H20"@ {
        Labels::H20
    } else if text == "H21"@ {
        Labels::H21
    } else if text == "H22"@ {
        Labels::H22
    } else if text == "H23"@ {
        Labels::H23
    } else if text == "ERR"@ {
        Labels::ERR
    } else if text == "CS"@ {
        Labels::CS
    } else if text == "BMV"@ {
        Labels::BMV
    } else if text == "FW"@ {
        Labels::FW
    } else if text == "FWE"@ {
        Labels::FWE
    } else if text == "PID"@ {
        Labels::PID
    } else if text == "SER#"@ {
        Labels::SER
    } else if text == "HSDS"@ {
        Labels::HSDS
    } else if text == "MODE"@ {
        Labels::MODE
    } else if text == "AC_OUT_V"@ {
        Labels::AC_OUT_V
    } else if text == "AC_OUT_I"@ {
        Labels::AC_OUT_I
    } else if text == "AC_OUT_S"@ {
        Labels::AC_OUT_S
    } else if text == "WARN"@ {
        Labels::WARN
    } else if text == "BLE"@ {
        Labels::BLE
    } else if text == "CAP_BLE"@ {
        Labels::CAP_BLE
    } else if text == "Checksum"@ {
        Labels::Checksum
    } else if text == "Calc_sum"@ {
        Labels::Calc_sum
    } else if text == "Time"@ {
        Labels::Time
    } else {
        Labels::Unknown
    }
}

/// A text that is a label other than `Unknown` is the name of that label.
pub proof fn lemma_name_of_label(text: Seq<char>)
    ensures
        label_of(text) != Labels::Unknown ==> label_of(text).name() == text,
{
}

/// No two labels share a name: the name of a label other than `Unknown` is
/// that label and no other.
pub proof fn lemma_label_of_name(label: Labels)
    ensures
        label != Labels::Unknown ==> label_of(label.name()) == label,
{
    // Each name is spelled out, so that names of one length are told apart
    // by a letter.
    reveal_strlit("V");
    assert("V"@.len() == 1 && "V"@[0] == 'V');
    reveal_strlit("VS");
    assert("VS"@.len() == 2 && "VS"@[0] == 'V' && "VS"@[1] == 'S');
    reveal_strlit("VM");
    assert("VM"@.len() == 2 && "VM"@[0] == 'V' && "VM"@[1] == 'M');
    reveal_strlit("DM");
    assert("DM"@.len() == 2 && "DM"@[0] == 'D' && "DM"@[1] == 'M');
    reveal_strlit("VPV");
    assert("VPV"@.len() == 3 && "VPV"@[0] == 'V' && "VPV"@[1] == 'P' && "VPV"@[2] == 'V');
    reveal_strlit("PPV");
    assert("PPV"@.len() == 3 && "PPV"@[0] == 'P' && "PPV"@[1] == 'P' && "PPV"@[2] == 'V');
    reveal_strlit("I");
    assert("I"@.len() == 1 && "I"@[0] == 'I');
    reveal_strlit("IL");
    assert("IL"@.len() == 2 && "IL"@[0] == 'I' && "IL"@[1] == 'L');
    reveal_strlit("LOAD");
    assert("LOAD"@.len() == 4 && "LOAD"@[0] == 'L' && "LOAD"@[1] == 'O' && "LOAD"@[2] == 'A'
        && "LOAD"@[3] == 'D');
    reveal_strlit("T");
    assert("T"@.len() == 1 && "T"@[0] == 'T');
    reveal_strlit("P");
    assert("P"@.len() == 1 && "P"@[0] == 'P');
    reveal_strlit("CE");
    assert("CE"@.len() == 2 && "CE"@[0] == 'C' && "CE"@[1] == 'E');
    reveal_strlit("SOC");
    assert("SOC"@.len() == 3 && "SOC"@[0] == 'S' && "SOC"@[1] == 'O' && "SOC"@[2] == 'C');
    reveal_strlit("TTG");
    assert("TTG"@.len() == 3 && "TTG"@[0] == 'T' && "TTG"@[1] == 'T' && "TTG"@[2] == 'G');
    reveal_strlit("Alarm");
    assert("Alarm"@.len() == 5 && "Alarm"@[0] == 'A' && "Alarm"@[1] == 'l' && "Alarm"@[2] == 'a'
        && "Alarm"@[3] == 'r' && "Alarm"@[4] == 'm');
    reveal_strlit("Relay");
    assert("Relay"@.len() == 5 && "Relay"@[0] == 'R' && "Relay"@[1] == 'e' && "Relay"@[2] == 'l'
        && "Relay"@[3] == 'a' && "Relay"@[4] == 'y');
    reveal_strlit("AR");
    assert("AR"@.len() == 2 && "AR"@[0] == 'A' && "AR"@[1] == 'R');
    reveal_strlit("OR");
    assert("OR"@.len() == 2 && "OR"@[0] == 'O' && "OR"@[1] == 'R');
    reveal_strlit("H1");
    assert("H1"@.len() == 2 && "H1"@[0] == 'H' && "H1"@[1] == '1');
    reveal_strlit("H2");
    assert("H2"@.len() == 2 && "H2"@[0] == 'H' && "H2"@[1] == '2');
    reveal_strlit("H3");
    assert("H3"@.len() == 2 && "H3"@[0] == 'H' && "H3"@[1] == '3');
    reveal_strlit("H4");
    assert("H4"@.len() == 2 && "H4"@[0] == 'H' && "H4"@[1] == '4');
    reveal_strlit("H5");
    assert("H5"@.len() == 2 && "H5"@[0] == 'H' && "H5"@[1] == '5');
    reveal_strlit("H6");
    assert("H6"@.len() == 2 && "H6"@[0] == 'H' && "H6"@[1] == '6');
    reveal_strlit("H7");
    assert("H7"@.len() == 2 && "H7"@[0] == 'H' && "H7"@[1] == '7');
    reveal_strlit("H8");
    assert("H8"@.len() == 2 && "H8"@[0] == 'H' && "H8"@[1] == '8');
    reveal_strlit("H9");
    assert("H9"@.len() == 2 && "H9"@[0] == 'H' && "H9"@[1] == '9');
    reveal_strlit("H10");
    assert("H10"@.len() == 3 && "H10"@[0] == 'H' && "H10"@[1] == '1' && "H10"@[2] == '0');
    reveal_strlit("H11");
    assert("H11"@.len() == 3 && "H11"@[0] == 'H' && "H11"@[1] == '1' && "H11"@[2] == '1');
    reveal_strlit("H12");
    assert("H12"@.len() == 3 && "H12"@[0] == 'H' && "H12"@[1] == '1' && "H12"@[2] == '2');
    reveal_strlit("H13");
    assert("H13"@.len() == 3 && "H13"@[0] == 'H' && "H13"@[1] == '1' && "H13"@[2] == '3');
    reveal_strlit("H14");
    assert("H14"@.len() == 3 && "H14"@[0] == 'H' && "H14"@[1] == '1' && "H14"@[2] == '4');
    reveal_strlit("H15");
    assert("H15"@.len() == 3 && "H15"@[0] == 'H' && "H15"@[1] == '1' && "H15"@[2] == '5');
    reveal_strlit("H16");
    assert("H16"@.len() == 3 && "H16"@[0] == 'H' && "H16"@[1] == '1' && "H16"@[2] == '6');
    reveal_strlit("H17");
    assert("H17"@.len() == 3 && "H17"@[0] == 'H' && "H17"@[1] == '1' && "H17"@[2] == '7');
    reveal_strlit("H18");
    assert("H18"@.len() == 3 && "H18"@[0] == 'H' && "H18"@[1] == '1' && "H18"@[2] == '8');
    reveal_strlit("H19");
    assert("H19"@.len() == 3 && "H19"@[0] == 'H' && "H19"@[1] == '1' && "H19"@[2] == '9');
    reveal_strlit("H20");
    assert("H20"@.len() == 3 && "H20"@[0] == 'H' && "H20"@[1] == '2' && "H20"@[2] == '0');
    reveal_strlit("H21");
    assert("H21"@.len() == 3 && "H21"@[0] == 'H' && "H21"@[1] == '2' && "H21"@[2] == '1');
    reveal_strlit("H22");
    assert("H22"@.len() == 3 && "H22"@[0] == 'H' && "H22"@[1] == '2' && "H22"@[2] == '2');
    reveal_strlit("H23");
    assert("H23"@.len() == 3 && "H23"@[0] == 'H' && "H23"@[1] == '2' && "H23"@[2] == '3');
    reveal_strlit("ERR");
    assert("ERR"@.len() == 3 && "ERR"@[0] == 'E' && "ERR"@[1] == 'R' && "ERR"@[2] == 'R');
    reveal_strlit("CS");
    assert("CS"@.len() == 2 && "CS"@[0] == 'C' && "CS"@[1] == 'S');
    reveal_strlit("BMV");
    assert("BMV"@.len() == 3 && "BMV"@[0] == 'B' && "BMV"@[1] == 'M' && "BMV"@[2] == 'V');
    reveal_strlit("FW");
    assert("FW"@.len() == 2 && "FW"@[0] == 'F' && "FW"@[1] == 'W');
    reveal_strlit("FWE");
    assert("FWE"@.len() == 3 && "FWE"@[0] == 'F' && "FWE"@[1] == 'W' && "FWE"@[2] == 'E');
    reveal_strlit("PID");
    assert("PID"@.len() == 3 && "PID"@[0] == 'P' && "PID"@[1] == 'I' && "PID"@[2] == 'D');
    reveal_strlit("SER#");
    assert("SER#"@.len() == 4 && "SER#"@[0] == 'S' && "SER#"@[1] == 'E' && "SER#"@[2] == 'R'
        && "SER#"@[3] == '#');
    reveal_strlit("HSDS");
    assert("HSDS"@.len() == 4 && "HSDS"@[0] == 'H' && "HSDS"@[1] == 'S' && "HSDS"@[2] == 'D'
        && "HSDS"@[3] == 'S');
    reveal_strlit("MODE");
    assert("MODE"@.len() == 4 && "MODE"@[0] == 'M' && "MODE"@[1] == 'O' && "MODE"@[2] == 'D'
        && "MODE"@[3] == 'E');
    reveal_strlit("AC_OUT_V");
    assert("AC_OUT_V"@.len() == 8 && "AC_OUT_V"@[0] == 'A' && "AC_OUT_V"@[1] == 'C'
        && "AC_OUT_V"@[2] == '_' && "AC_OUT_V"@[3] == 'O' && "AC_OUT_V"@[4] == 'U'
        && "AC_OUT_V"@[5] == 'T' && "AC_OUT_V"@[6] == '_' && "AC_OUT_V"@[7] == 'V');
    reveal_strlit("AC_OUT_I");
    assert("AC_OUT_I"@.len() == 8 && "AC_OUT_I"@[0] == 'A' && "AC_OUT_I"@[1] == 'C'
        && "AC_OUT_I"@[2] == '_' && "AC_OUT_I"@[3] == 'O' && "AC_OUT_I"@[4] == 'U'
        && "AC_OUT_I"@[5] == 'T' && "AC_OUT_I"@[6] == '_' && "AC_OUT_I"@[7] == 'I');
    reveal_strlit("AC_OUT_S");
    assert("AC_OUT_S"@.len() == 8 && "AC_OUT_S"@[0] == 'A' && "AC_OUT_S"@[1] == 'C'
        && "AC_OUT_S"@[2] == '_' && "AC_OUT_S"@[3] == 'O' && "AC_OUT_S"@[4] == 'U'
        && "AC_OUT_S"@[5] == 'T' && "AC_OUT_S"@[6] == '_' && "AC_OUT_S"@[7] == 'S');
    reveal_strlit("WARN");
    assert("WARN"@.len() == 4 && "WARN"@[0] == 'W' && "WARN"@[1] == 'A' && "WARN"@[2] == 'R'
        && "WARN"@[3] == 'N');
    reveal_strlit("BLE");
    assert("BLE"@.len() == 3 && "BLE"@[0] == 'B' && "BLE"@[1] == 'L' && "BLE"@[2] == 'E');
    reveal_strlit("CAP_BLE");
    assert("CAP_BLE"@.len() == 7 && "CAP_BLE"@[0] == 'C' && "CAP_BLE"@[1] == 'A'
        && "CAP_BLE"@[2] == 'P' && "CAP_BLE"@[3] == '_' && "CAP_BLE"@[4] == 'B'
        && "CAP_BLE"@[5] == 'L' && "CAP_BLE"@[6] == 'E');
    reveal_strlit("Checksum");
    assert("Checksum"@.len() == 8 && "Checksum"@[0] == 'C' && "Checksum"@[1] == 'h'
        && "Checksum"@[2] == 'e' && "Checksum"@[3] == 'c' && "Checksum"@[4] == 'k'
        && "Checksum"@[5] == 's' && "Checksum"@[6] == 'u' && "Checksum"@[7] == 'm');
    reveal_strlit("Calc_sum");
    assert("Calc_sum"@.len() == 8 && "Calc_sum"@[0] == 'C' && "Calc_sum"@[1] == 'a'
        && "Calc_sum"@[2] == 'l' && "Calc_sum"@[3] == 'c' && "Calc_sum"@[4] == '_'
        && "Calc_sum"@[5] == 's' && "Calc_sum"@[6] == 'u' && "Calc_sum"@[7] == 'm');
    reveal_strlit("Time");
    assert("Time"@.len() == 4 && "Time"@[0] == 'T' && "Time"@[1] == 'i' && "Time"@[2] == 'm'
        && "Time"@[3] == 'e');
}

} // verus!
