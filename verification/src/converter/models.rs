//! The typed vocabulary of the protocol and the decoders of single fields.
//!
//! Each decoder takes the text of a raw value and gives the typed value, or
//! fails where the text does not fit the field. What a decoder gives is
//! stated by a spec function over the bytes of the text.

use crate::number::{parse_hex, parse_usize, usize_from_hex, usize_from_text};
use crate::text::{eq_ignore_case, spells};
use vstd::prelude::*;
use vstd::utf8::encode_utf8;

verus! {

/// The error type of the standard library's I/O, which every decoder
/// returns. Its values are carried through and never looked into.
#[verifier::external_type_specification]
#[verifier::external_body]
pub struct ExIoError(std::io::Error);

/// Makes the error of every failed decoding, by `std::io::Error::from` of
/// `ErrorKind::InvalidData`. Nothing is stated of the value.
#[verifier::external_body]
pub(crate) fn invalid_data() -> std::io::Error {
    std::io::Error::from(std::io::ErrorKind::InvalidData)
}

/// Whether `res` gives `expected`: the value where there is one, and a
/// failure where there is none.
pub open spec fn decoded<T>(res: Result<T, std::io::Error>, expected: Option<T>) -> bool {
    match res {
        Ok(value) => expected == Some(value),
        Err(_) => expected is None,
    }
}

/// As [`decoded`], for a list.
pub open spec fn decoded_list<T>(
    res: Result<Vec<T>, std::io::Error>,
    expected: Option<Seq<T>>,
) -> bool {
    match res {
        Ok(list) => expected == Some(list@),
        Err(_) => expected is None,
    }
}


/// The state of operation of a charger.
#[derive(PartialEq, Eq, Structural, Debug, Clone, Copy)]
pub enum StateOfOperation {
    Off,
    LowPower,
    Fault,
    Bulk,
    Absorption,
    Float,
    Storage,
    Equalize,
    Inverting,
    PowerSupply,
    StartingUp,
    RepeatedAbsorption,
    AutoEqualize,
    BatterySafe,
    ExternalControl,
}

impl Default for StateOfOperation {
    fn default() -> (value: StateOfOperation)
        ensures
            value == StateOfOperation::Off,
    {
        StateOfOperation::Off
    }
}

impl StateOfOperation {
    /// The number that stands for the variant on the wire.
    pub open spec fn code(self) -> usize {
        match self {
            StateOfOperation::Off => 0,
            StateOfOperation::LowPower => 1,
            StateOfOperation::Fault => 2,
            StateOfOperation::Bulk => 3,
            StateOfOperation::Absorption => 4,
            StateOfOperation::Float => 5,
            StateOfOperation::Storage => 6,
            StateOfOperation::Equalize => 7,
            StateOfOperation::Inverting => 9,
            StateOfOperation::PowerSupply => 11,
            StateOfOperation::StartingUp => 245,
            StateOfOperation::RepeatedAbsorption => 246,
            StateOfOperation::AutoEqualize => 247,
            StateOfOperation::BatterySafe => 248,
            StateOfOperation::ExternalControl => 252,
        }
    }

    /// The variant that `code` stands for, if it stands for one.
    pub open spec fn of_code(code: usize) -> Option<StateOfOperation> {
        if code == 0 {
            Some(StateOfOperation::Off)
        } else if code == 1 {
            Some(StateOfOperation::LowPower)
        } else if code == 2 {
            Some(StateOfOperation::Fault)
        } else if code == 3 {
            Some(StateOfOperation::Bulk)
        } else if code == 4 {
            Some(StateOfOperation::Absorption)
        } else if code == 5 {
            Some(StateOfOperation::Float)
        } else if code == 6 {
            Some(StateOfOperation::Storage)
        } else if code == 7 {
            Some(StateOfOperation::Equalize)
        } else if code == 9 {
            Some(StateOfOperation::Inverting)
        } else if code == 11 {
            Some(StateOfOperation::PowerSupply)
        } else if code == 245 {
            Some(StateOfOperation::StartingUp)
        } else if code == 246 {
            Some(StateOfOperation::RepeatedAbsorption)
        } else if code == 247 {
            Some(StateOfOperation::AutoEqualize)
        } else if code == 248 {
            Some(StateOfOperation::BatterySafe)
        } else if code == 252 {
            Some(StateOfOperation::ExternalControl)
        } else {
            None
        }
    }

    /// Each variant is the one that its own code stands for, and no other code
    /// stands for it.
    pub proof fn lemma_code_round_trip(self)
        ensures
            StateOfOperation::of_code(self.code()) == Some(self),
            forall|code: usize|
                StateOfOperation::of_code(code) == Some(self) ==> code == self.code(),
    {
    }

    /// See [`code`](Self::code).
    pub fn repr(&self) -> (code: usize)
        ensures
            code == self.code(),
    {
        match self {
            StateOfOperation::Off => 0,
            StateOfOperation::LowPower => 1,
            StateOfOperation::Fault => 2,
            StateOfOperation::Bulk => 3,
            StateOfOperation::Absorption => 4,
            StateOfOperation::Float => 5,
            StateOfOperation::Storage => 6,
            StateOfOperation::Equalize => 7,
            StateOfOperation::Inverting => 9,
            StateOfOperation::PowerSupply => 11,
            StateOfOperation::StartingUp => 245,
            StateOfOperation::RepeatedAbsorption => 246,
            StateOfOperation::AutoEqualize => 247,
            StateOfOperation::BatterySafe => 248,
            StateOfOperation::ExternalControl => 252,
        }
    }

    /// See [`of_code`](Self::of_code).
    pub fn from_repr(code: usize) -> (found: Option<StateOfOperation>)
        ensures
            found == StateOfOperation::of_code(code),
    {
        if code == 0 {
            Some(StateOfOperation::Off)
        } else if code == 1 {
            Some(StateOfOperation::LowPower)
        } else if code == 2 {
            Some(StateOfOperation::Fault)
        } else if code == 3 {
            Some(StateOfOperation::Bulk)
        } else if code == 4 {
            Some(StateOfOperation::Absorption)
        } else if code == 5 {
            Some(StateOfOperation::Float)
        } else if code == 6 {
            Some(StateOfOperation::Storage)
        } else if code == 7 {
            Some(StateOfOperation::Equalize)
        } else if code == 9 {
            Some(StateOfOperation::Inverting)
        } else if code == 11 {
            Some(StateOfOperation::PowerSupply)
        } else if code == 245 {
            Some(StateOfOperation::StartingUp)
        } else if code == 246 {
            Some(StateOfOperation::RepeatedAbsorption)
        } else if code == 247 {
            Some(StateOfOperation::AutoEqualize)
        } else if code == 248 {
            Some(StateOfOperation::BatterySafe)
        } else if code == 252 {
            Some(StateOfOperation::ExternalControl)
        } else {
            None
        }
    }
}

/// The error that a device reports.
#[derive(PartialEq, Eq, Structural, Debug, Clone, Copy)]
pub enum ErrorCode {
    Nil,
    BatteryVoltageTooHigh,
    ChargerTemperatureTooHigh,
    ChargerOverCurrent,
    ChargerCurrentReversed,
    BulkTimeLimitExceeded,
    CurrentSensorIssue,
    TerminalsOverheated,
    ConverterIssue,
    InputVoltageTooHigh,
    InputCurrentTooHigh,
    InputShutdownBatVoltage,
    InputShutdownCurrentFlow,
    LostComWithDevices,
    SynchronisedChargingIssue,
    BMSConnectionLost,
    NetworkMisconfigured,
    FactoryCalibrationDataLost,
    InvalidFirmware,
    UserSettingsInvalid,
}

impl Default for ErrorCode {
    fn default() -> (value: ErrorCode)
        ensures
            value == ErrorCode::Nil,
    {
        ErrorCode::Nil
    }
}

impl ErrorCode {
    /// The number that stands for the variant on the wire.
    pub open spec fn code(self) -> usize {
        match self {
            ErrorCode::Nil => 0,
            ErrorCode::BatteryVoltageTooHigh => 2,
            ErrorCode::ChargerTemperatureTooHigh => 17,
            ErrorCode::ChargerOverCurrent => 18,
            ErrorCode::ChargerCurrentReversed => 19,
            ErrorCode::BulkTimeLimitExceeded => 20,
            ErrorCode::CurrentSensorIssue => 21,
            ErrorCode::TerminalsOverheated => 26,
            ErrorCode::ConverterIssue => 28,
            ErrorCode::InputVoltageTooHigh => 33,
            ErrorCode::InputCurrentTooHigh => 34,
            ErrorCode::InputShutdownBatVoltage => 38,
            ErrorCode::InputShutdownCurrentFlow => 39,
            ErrorCode::LostComWithDevices => 65,
            ErrorCode::SynchronisedChargingIssue => 66,
            ErrorCode::BMSConnectionLost => 67,
            ErrorCode::NetworkMisconfigured => 68,
            ErrorCode::FactoryCalibrationDataLost => 116,
            ErrorCode::InvalidFirmware => 117,
            ErrorCode::UserSettingsInvalid => 119,
        }
    }

    /// The variant that `code` stands for, if it stands for one.
    pub open spec fn of_code(code: usize) -> Option<ErrorCode> {
        if code == 0 {
            Some(ErrorCode::Nil)
        } else if code == 2 {
            Some(ErrorCode::BatteryVoltageTooHigh)
        } else if code == 17 {
            Some(ErrorCode::ChargerTemperatureTooHigh)
        } else if code == 18 {
            Some(ErrorCode::ChargerOverCurrent)
        } else if code == 19 {
            Some(ErrorCode::ChargerCurrentReversed)
        } else if code == 20 {
            Some(ErrorCode::BulkTimeLimitExceeded)
        } else if code == 21 {
            Some(ErrorCode::CurrentSensorIssue)
        } else if code == 26 {
            Some(ErrorCode::TerminalsOverheated)
        } else if code == 28 {
            Some(ErrorCode::ConverterIssue)
        } else if code == 33 {
            Some(ErrorCode::InputVoltageTooHigh)
        } else if code == 34 {
            Some(ErrorCode::InputCurrentTooHigh)
        } else if code == 38 {
            Some(ErrorCode::InputShutdownBatVoltage)
        } else if code == 39 {
            Some(ErrorCode::InputShutdownCurrentFlow)
        } else if code == 65 {
            Some(ErrorCode::LostComWithDevices)
        } else if code == 66 {
            Some(ErrorCode::SynchronisedChargingIssue)
        } else if code == 67 {
            Some(ErrorCode::BMSConnectionLost)
        } else if code == 68 {
            Some(ErrorCode::NetworkMisconfigured)
        } else if code == 116 {
            Some(ErrorCode::FactoryCalibrationDataLost)
        } else if code == 117 {
            Some(ErrorCode::InvalidFirmware)
        } else if code == 119 {
            Some(ErrorCode::UserSettingsInvalid)
        } else {
            None
        }
    }

    /// Each variant is the one that its own code stands for, and no other code
    /// stands for it.
    pub proof fn lemma_code_round_trip(self)
        ensures
            ErrorCode::of_code(self.code()) == Some(self),
            forall|code: usize|
                ErrorCode::of_code(code) == Some(self) ==> code == self.code(),
    {
    }

    /// See [`code`](Self::code).
    pub fn repr(&self) -> (code: usize)
        ensures
            code == self.code(),
    {
        match self {
            ErrorCode::Nil => 0,
            ErrorCode::BatteryVoltageTooHigh => 2,
            ErrorCode::ChargerTemperatureTooHigh => 17,
            ErrorCode::ChargerOverCurrent => 18,
            ErrorCode::ChargerCurrentReversed => 19,
            ErrorCode::BulkTimeLimitExceeded => 20,
            ErrorCode::CurrentSensorIssue => 21,
            ErrorCode::TerminalsOverheated => 26,
            ErrorCode::ConverterIssue => 28,
            ErrorCode::InputVoltageTooHigh => 33,
            ErrorCode::InputCurrentTooHigh => 34,
            ErrorCode::InputShutdownBatVoltage => 38,
            ErrorCode::InputShutdownCurrentFlow => 39,
            ErrorCode::LostComWithDevices => 65,
            ErrorCode::SynchronisedChargingIssue => 66,
            ErrorCode::BMSConnectionLost => 67,
            ErrorCode::NetworkMisconfigured => 68,
            ErrorCode::FactoryCalibrationDataLost => 116,
            ErrorCode::InvalidFirmware => 117,
            ErrorCode::UserSettingsInvalid => 119,
        }
    }

    /// See [`of_code`](Self::of_code).
    pub fn from_repr(code: usize) -> (found: Option<ErrorCode>)
        ensures
            found == ErrorCode::of_code(code),
    {
        if code == 0 {
            Some(ErrorCode::Nil)
        } else if code == 2 {
            Some(ErrorCode::BatteryVoltageTooHigh)
        } else if code == 17 {
            Some(ErrorCode::ChargerTemperatureTooHigh)
        } else if code == 18 {
            Some(ErrorCode::ChargerOverCurrent)
        } else if code == 19 {
            Some(ErrorCode::ChargerCurrentReversed)
        } else if code == 20 {
            Some(ErrorCode::BulkTimeLimitExceeded)
        } else if code == 21 {
            Some(ErrorCode::CurrentSensorIssue)
        } else if code == 26 {
            Some(ErrorCode::TerminalsOverheated)
        } else if code == 28 {
            Some(ErrorCode::ConverterIssue)
        } else if code == 33 {
            Some(ErrorCode::InputVoltageTooHigh)
        } else if code == 34 {
            Some(ErrorCode::InputCurrentTooHigh)
        } else if code == 38 {
            Some(ErrorCode::InputShutdownBatVoltage)
        } else if code == 39 {
            Some(ErrorCode::InputShutdownCurrentFlow)
        } else if code == 65 {
            Some(ErrorCode::LostComWithDevices)
        } else if code == 66 {
            Some(ErrorCode::SynchronisedChargingIssue)
        } else if code == 67 {
            Some(ErrorCode::BMSConnectionLost)
        } else if code == 68 {
            Some(ErrorCode::NetworkMisconfigured)
        } else if code == 116 {
            Some(ErrorCode::FactoryCalibrationDataLost)
        } else if code == 117 {
            Some(ErrorCode::InvalidFirmware)
        } else if code == 119 {
            Some(ErrorCode::UserSettingsInvalid)
        } else {
            None
        }
    }
}

/// A reason for which a device is off. Each is one bit of the encoded number.
#[derive(PartialEq, Eq, Structural, Debug, Clone, Copy)]
pub enum OffReason {
    Nil,
    NoInputPower,
    SwitchedOffPowerSwitch,
    SwitchedOffDMR,
    RemoteInput,
    ProtectionActive,
    Paygo,
    BMS,
    EngineShutdownDetection,
    AnalysingInputVoltage,
}

impl Default for OffReason {
    fn default() -> (value: OffReason)
        ensures
            value == OffReason::Nil,
    {
        OffReason::Nil
    }
}

impl OffReason {
    /// The bit that stands for the flag in an encoded number; zero for `Nil`.
    pub open spec fn code(self) -> usize {
        match self {
            OffReason::Nil => 0,
            OffReason::NoInputPower => 1,
            OffReason::SwitchedOffPowerSwitch => 2,
            OffReason::SwitchedOffDMR => 4,
            OffReason::RemoteInput => 8,
            OffReason::ProtectionActive => 16,
            OffReason::Paygo => 32,
            OffReason::BMS => 64,
            OffReason::EngineShutdownDetection => 128,
            OffReason::AnalysingInputVoltage => 256,
        }
    }

    /// The variant that `code` stands for, if it stands for one.
    pub open spec fn of_code(code: usize) -> Option<OffReason> {
        if code == 0 {
            Some(OffReason::Nil)
        } else if code == 1 {
            Some(OffReason::NoInputPower)
        } else if code == 2 {
            Some(OffReason::SwitchedOffPowerSwitch)
        } else if code == 4 {
            Some(OffReason::SwitchedOffDMR)
        } else if code == 8 {
            Some(OffReason::RemoteInput)
        } else if code == 16 {
            Some(OffReason::ProtectionActive)
        } else if code == 32 {
            Some(OffReason::Paygo)
        } else if code == 64 {
            Some(OffReason::BMS)
        } else if code == 128 {
            Some(OffReason::EngineShutdownDetection)
        } else if code == 256 {
            Some(OffReason::AnalysingInputVoltage)
        } else {
            None
        }
    }

    /// Each variant is the one that its own code stands for, and no other code
    /// stands for it.
    pub proof fn lemma_code_round_trip(self)
        ensures
            OffReason::of_code(self.code()) == Some(self),
            forall|code: usize|
                OffReason::of_code(code) == Some(self) ==> code == self.code(),
    {
    }

    /// See [`code`](Self::code).
    pub fn repr(&self) -> (code: usize)
        ensures
            code == self.code(),
    {
        match self {
            OffReason::Nil => 0,
            OffReason::NoInputPower => 1,
            OffReason::SwitchedOffPowerSwitch => 2,
            OffReason::SwitchedOffDMR => 4,
            OffReason::RemoteInput => 8,
            OffReason::ProtectionActive => 16,
            OffReason::Paygo => 32,
            OffReason::BMS => 64,
            OffReason::EngineShutdownDetection => 128,
            OffReason::AnalysingInputVoltage => 256,
        }
    }

    /// See [`of_code`](Self::of_code).
    pub fn from_repr(code: usize) -> (found: Option<OffReason>)
        ensures
            found == OffReason::of_code(code),
    {
        if code == 0 {
            Some(OffReason::Nil)
        } else if code == 1 {
            Some(OffReason::NoInputPower)
        } else if code == 2 {
            Some(OffReason::SwitchedOffPowerSwitch)
        } else if code == 4 {
            Some(OffReason::SwitchedOffDMR)
        } else if code == 8 {
            Some(OffReason::RemoteInput)
        } else if code == 16 {
            Some(OffReason::ProtectionActive)
        } else if code == 32 {
            Some(OffReason::Paygo)
        } else if code == 64 {
            Some(OffReason::BMS)
        } else if code == 128 {
            Some(OffReason::EngineShutdownDetection)
        } else if code == 256 {
            Some(OffReason::AnalysingInputVoltage)
        } else {
            None
        }
    }

    /// The vocabulary in the order of its declaration.
    pub open spec fn all() -> Seq<OffReason> {
        seq![
            OffReason::Nil,
            OffReason::NoInputPower,
            OffReason::SwitchedOffPowerSwitch,
            OffReason::SwitchedOffDMR,
            OffReason::RemoteInput,
            OffReason::ProtectionActive,
            OffReason::Paygo,
            OffReason::BMS,
            OffReason::EngineShutdownDetection,
            OffReason::AnalysingInputVoltage,
        ]
    }

    /// Whether the bit of a flag is set in `value`, as a predicate on flags.
    pub open spec fn set_in(value: usize) -> spec_fn(OffReason) -> bool {
        |flag: OffReason| value & flag.code() > 0
    }

    /// The flags whose bits are set in `value`, in the order of the
    /// vocabulary.
    pub open spec fn flags_of(value: usize) -> Seq<OffReason> {
        OffReason::all().filter(OffReason::set_in(value))
    }

    /// What an encoded number decodes to: `Nil` alone for zero, else the
    /// flags whose bits are set, and nothing where no known bit is set.
    pub open spec fn decode(value: usize) -> Option<Seq<OffReason>> {
        if value == 0 {
            Some(seq![OffReason::Nil])
        } else if OffReason::flags_of(value).len() > 0 {
            Some(OffReason::flags_of(value))
        } else {
            None
        }
    }

    /// A number decodes to nothing if and only if it is not zero and none of
    /// its set bits is the bit of a flag.
    pub proof fn lemma_decode_fails(value: usize)
        ensures
            OffReason::decode(value) is None <==> value != 0 && forall|flag: OffReason|
                #[trigger] OffReason::all().contains(flag) ==> value & flag.code() == 0,
    {
        let all = OffReason::all();
        let set = OffReason::set_in(value);
        let found = OffReason::flags_of(value);
        if found.len() > 0 {
            assert(found.contains(found[0]));
            all.lemma_filter_contains_rev(set, found[0]);
        } else {
            assert forall|flag: OffReason| #[trigger] all.contains(flag) implies value
                & flag.code() == 0 by {
                let i = all.index_of(flag);
                if set(all[i]) {
                    all.lemma_filter_contains(set, i);
                }
            }
        }
    }

    /// See [`all`](Self::all).
    pub fn vocabulary() -> (all: Vec<OffReason>)
        ensures
            all@ == OffReason::all(),
    {
        let mut all: Vec<OffReason> = Vec::new();
        all.push(OffReason::Nil);
        all.push(OffReason::NoInputPower);
        all.push(OffReason::SwitchedOffPowerSwitch);
        all.push(OffReason::SwitchedOffDMR);
        all.push(OffReason::RemoteInput);
        all.push(OffReason::ProtectionActive);
        all.push(OffReason::Paygo);
        all.push(OffReason::BMS);
        all.push(OffReason::EngineShutdownDetection);
        all.push(OffReason::AnalysingInputVoltage);
        assert(all@ =~= OffReason::all());
        all
    }

    /// See [`decode`](Self::decode).
    pub fn from_bits(value: usize) -> (found: Option<Vec<OffReason>>)
        ensures
            match found {
                Some(list) => OffReason::decode(value) == Some(list@),
                None => OffReason::decode(value) is None,
            },
    {
        let mut list: Vec<OffReason> = Vec::new();
        if value == 0 {
            list.push(OffReason::Nil);
            assert(list@ =~= seq![OffReason::Nil]);
            return Some(list);
        }
        let all = OffReason::vocabulary();
        let mut i: usize = 0;
        proof {
            assert(all@.take(0) =~= Seq::<OffReason>::empty());
            Seq::<OffReason>::empty().lemma_filter_len(OffReason::set_in(value));
        }
        while i < all.len()
            invariant
                i <= all@.len(),
                all@ == OffReason::all(),
                list@ == all@.take(i as int).filter(OffReason::set_in(value)),
            decreases all@.len() - i,
        {
            let flag = all[i];
            proof {
                assert(all@.take(i + 1) =~= all@.take(i as int).push(flag));
                all@.take(i as int).lemma_filter_push(flag, OffReason::set_in(value));
            }
            if value & flag.repr() > 0 {
                list.push(flag);
            }
            i += 1;
        }
        proof {
            assert(all@.take(i as int) =~= all@);
        }
        if list.len() > 0 {
            Some(list)
        } else {
            None
        }
    }
}

/// A reason for an alarm. Each is one bit of the encoded number.
#[derive(PartialEq, Eq, Structural, Debug, Clone, Copy)]
pub enum AlarmReason {
    Nil,
    LowVoltage,
    HighVoltage,
    LowSOC,
    LowStarterVoltage,
    HighStarterVoltage,
    LowTemperature,
    HighTemperature,
    MidVoltage,
    Overload,
    DCripple,
    LowVACout,
    HighVACout,
}

impl Default for AlarmReason {
    fn default() -> (value: AlarmReason)
        ensures
            value == AlarmReason::Nil,
    {
        AlarmReason::Nil
    }
}

impl AlarmReason {
    /// The bit that stands for the flag in an encoded number; zero for `Nil`.
    pub open spec fn code(self) -> usize {
        match self {
            AlarmReason::Nil => 0,
            AlarmReason::LowVoltage => 1,
            AlarmReason::HighVoltage => 2,
            AlarmReason::LowSOC => 4,
            AlarmReason::LowStarterVoltage => 8,
            AlarmReason::HighStarterVoltage => 16,
            AlarmReason::LowTemperature => 32,
            AlarmReason::HighTemperature => 64,
            AlarmReason::MidVoltage => 128,
            AlarmReason::Overload => 256,
            AlarmReason::DCripple => 512,
            AlarmReason::LowVACout => 1024,
            AlarmReason::HighVACout => 2048,
        }
    }

    /// The variant that `code` stands for, if it stands for one.
    pub open spec fn of_code(code: usize) -> Option<AlarmReason> {
        if code == 0 {
            Some(AlarmReason::Nil)
        } else if code == 1 {
            Some(AlarmReason::LowVoltage)
        } else if code == 2 {
            Some(AlarmReason::HighVoltage)
        } else if code == 4 {
            Some(AlarmReason::LowSOC)
        } else if code == 8 {
            Some(AlarmReason::LowStarterVoltage)
        } else if code == 16 {
            Some(AlarmReason::HighStarterVoltage)
        } else if code == 32 {
            Some(AlarmReason::LowTemperature)
        } else if code == 64 {
            Some(AlarmReason::HighTemperature)
        } else if code == 128 {
            Some(AlarmReason::MidVoltage)
        } else if code == 256 {
            Some(AlarmReason::Overload)
        } else if code == 512 {
            Some(AlarmReason::DCripple)
        } else if code == 1024 {
            Some(AlarmReason::LowVACout)
        } else if code == 2048 {
            Some(AlarmReason::HighVACout)
        } else {
            None
        }
    }

    /// Each variant is the one that its own code stands for, and no other code
    /// stands for it.
    pub proof fn lemma_code_round_trip(self)
        ensures
            AlarmReason::of_code(self.code()) == Some(self),
            forall|code: usize|
                AlarmReason::of_code(code) == Some(self) ==> code == self.code(),
    {
    }

    /// See [`code`](Self::code).
    pub fn repr(&self) -> (code: usize)
        ensures
            code == self.code(),
    {
        match self {
            AlarmReason::Nil => 0,
            AlarmReason::LowVoltage => 1,
            AlarmReason::HighVoltage => 2,
            AlarmReason::LowSOC => 4,
            AlarmReason::LowStarterVoltage => 8,
            AlarmReason::HighStarterVoltage => 16,
            AlarmReason::LowTemperature => 32,
            AlarmReason::HighTemperature => 64,
            AlarmReason::MidVoltage => 128,
            AlarmReason::Overload => 256,
            AlarmReason::DCripple => 512,
            AlarmReason::LowVACout => 1024,
            AlarmReason::HighVACout => 2048,
        }
    }

    /// See [`of_code`](Self::of_code).
    pub fn from_repr(code: usize) -> (found: Option<AlarmReason>)
        ensures
            found == AlarmReason::of_code(code),
    {
        if code == 0 {
            Some(AlarmReason::Nil)
        } else if code == 1 {
            Some(AlarmReason::LowVoltage)
        } else if code == 2 {
            Some(AlarmReason::HighVoltage)
        } else if code == 4 {
            Some(AlarmReason::LowSOC)
        } else if code == 8 {
            Some(AlarmReason::LowStarterVoltage)
        } else if code == 16 {
            Some(AlarmReason::HighStarterVoltage)
        } else if code == 32 {
            Some(AlarmReason::LowTemperature)
        } else if code == 64 {
            Some(AlarmReason::HighTemperature)
        } else if code == 128 {
            Some(AlarmReason::MidVoltage)
        } else if code == 256 {
            Some(AlarmReason::Overload)
        } else if code == 512 {
            Some(AlarmReason::DCripple)
        } else if code == 1024 {
            Some(AlarmReason::LowVACout)
        } else if code == 2048 {
            Some(AlarmReason::HighVACout)
        } else {
            None
        }
    }

    /// The vocabulary in the order of its declaration.
    pub open spec fn all() -> Seq<AlarmReason> {
        seq![
            AlarmReason::Nil,
            AlarmReason::LowVoltage,
            AlarmReason::HighVoltage,
            AlarmReason::LowSOC,
            AlarmReason::LowStarterVoltage,
            AlarmReason::HighStarterVoltage,
            AlarmReason::LowTemperature,
            AlarmReason::HighTemperature,
            AlarmReason::MidVoltage,
            AlarmReason::Overload,
            AlarmReason::DCripple,
            AlarmReason::LowVACout,
            AlarmReason::HighVACout,
        ]
    }

    /// Whether the bit of a flag is set in `value`, as a predicate on flags.
    pub open spec fn set_in(value: usize) -> spec_fn(AlarmReason) -> bool {
        |flag: AlarmReason| value & flag.code() > 0
    }

    /// The flags whose bits are set in `value`, in the order of the
    /// vocabulary.
    pub open spec fn flags_of(value: usize) -> Seq<AlarmReason> {
        AlarmReason::all().filter(AlarmReason::set_in(value))
    }

    /// What an encoded number decodes to: `Nil` alone for zero, else the
    /// flags whose bits are set, and nothing where no known bit is set.
    pub open spec fn decode(value: usize) -> Option<Seq<AlarmReason>> {
        if value == 0 {
            Some(seq![AlarmReason::Nil])
        } else if AlarmReason::flags_of(value).len() > 0 {
            Some(AlarmReason::flags_of(value))
        } else {
            None
        }
    }

    /// A number decodes to nothing if and only if it is not zero and none of
    /// its set bits is the bit of a flag.
    pub proof fn lemma_decode_fails(value: usize)
        ensures
            AlarmReason::decode(value) is None <==> value != 0 && forall|flag: AlarmReason|
                #[trigger] AlarmReason::all().contains(flag) ==> value & flag.code() == 0,
    {
        let all = AlarmReason::all();
        let set = AlarmReason::set_in(value);
        let found = AlarmReason::flags_of(value);
        if found.len() > 0 {
            assert(found.contains(found[0]));
            all.lemma_filter_contains_rev(set, found[0]);
        } else {
            assert forall|flag: AlarmReason| #[trigger] all.contains(flag) implies value
                & flag.code() == 0 by {
                let i = all.index_of(flag);
                if set(all[i]) {
                    all.lemma_filter_contains(set, i);
                }
            }
        }
    }

    /// See [`all`](Self::all).
    pub fn vocabulary() -> (all: Vec<AlarmReason>)
        ensures
            all@ == AlarmReason::all(),
    {
        let mut all: Vec<AlarmReason> = Vec::new();
        all.push(AlarmReason::Nil);
        all.push(AlarmReason::LowVoltage);
        all.push(AlarmReason::HighVoltage);
        all.push(AlarmReason::LowSOC);
        all.push(AlarmReason::LowStarterVoltage);
        all.push(AlarmReason::HighStarterVoltage);
        all.push(AlarmReason::LowTemperature);
        all.push(AlarmReason::HighTemperature);
        all.push(AlarmReason::MidVoltage);
        all.push(AlarmReason::Overload);
        all.push(AlarmReason::DCripple);
        all.push(AlarmReason::LowVACout);
        all.push(AlarmReason::HighVACout);
        assert(all@ =~= AlarmReason::all());
        all
    }

    /// See [`decode`](Self::decode).
    pub fn from_bits(value: usize) -> (found: Option<Vec<AlarmReason>>)
        ensures
            match found {
                Some(list) => AlarmReason::decode(value) == Some(list@),
                None => AlarmReason::decode(value) is None,
            },
    {
        let mut list: Vec<AlarmReason> = Vec::new();
        if value == 0 {
            list.push(AlarmReason::Nil);
            assert(list@ =~= seq![AlarmReason::Nil]);
            return Some(list);
        }
        let all = AlarmReason::vocabulary();
        let mut i: usize = 0;
        proof {
            assert(all@.take(0) =~= Seq::<AlarmReason>::empty());
            Seq::<AlarmReason>::empty().lemma_filter_len(AlarmReason::set_in(value));
        }
        while i < all.len()
            invariant
                i <= all@.len(),
                all@ == AlarmReason::all(),
                list@ == all@.take(i as int).filter(AlarmReason::set_in(value)),
            decreases all@.len() - i,
        {
            let flag = all[i];
            proof {
                assert(all@.take(i + 1) =~= all@.take(i as int).push(flag));
                all@.take(i as int).lemma_filter_push(flag, AlarmReason::set_in(value));
            }
            if value & flag.repr() > 0 {
                list.push(flag);
            }
            i += 1;
        }
        proof {
            assert(all@.take(i as int) =~= all@);
        }
        if list.len() > 0 {
            Some(list)
        } else {
            None
        }
    }
}

/// A reason for a warning. Each is one bit of the encoded number.
#[derive(PartialEq, Eq, Structural, Debug, Clone, Copy)]
pub enum WarningReason {
    Nil,
    LowVoltage,
    HighVoltage,
    LowSOC,
    LowStarterVoltage,
    HighStarterVoltage,
    LowTemperature,
    HighTemperature,
    MidVoltage,
    Overload,
    DCripple,
    LowVACout,
    HighVACout,
}

impl Default for WarningReason {
    fn default() -> (value: WarningReason)
        ensures
            value == WarningReason::Nil,
    {
        WarningReason::Nil
    }
}

impl WarningReason {
    /// The bit that stands for the flag in an encoded number; zero for `Nil`.
    pub open spec fn code(self) -> usize {
        match self {
            WarningReason::Nil => 0,
            WarningReason::LowVoltage => 1,
            WarningReason::HighVoltage => 2,
            WarningReason::LowSOC => 4,
            WarningReason::LowStarterVoltage => 8,
            WarningReason::HighStarterVoltage => 16,
            WarningReason::LowTemperature => 32,
            WarningReason::HighTemperature => 64,
            WarningReason::MidVoltage => 128,
            WarningReason::Overload => 256,
            WarningReason::DCripple => 512,
            WarningReason::LowVACout => 1024,
            WarningReason::HighVACout => 2048,
        }
    }

    /// The variant that `code` stands for, if it stands for one.
    pub open spec fn of_code(code: usize) -> Option<WarningReason> {
        if code == 0 {
            Some(WarningReason::Nil)
        } else if code == 1 {
            Some(WarningReason::LowVoltage)
        } else if code == 2 {
            Some(WarningReason::HighVoltage)
        } else if code == 4 {
            Some(WarningReason::LowSOC)
        } else if code == 8 {
            Some(WarningReason::LowStarterVoltage)
        } else if code == 16 {
            Some(WarningReason::HighStarterVoltage)
        } else if code == 32 {
            Some(WarningReason::LowTemperature)
        } else if code == 64 {
            Some(WarningReason::HighTemperature)
        } else if code == 128 {
            Some(WarningReason::MidVoltage)
        } else if code == 256 {
            Some(WarningReason::Overload)
        } else if code == 512 {
            Some(WarningReason::DCripple)
        } else if code == 1024 {
            Some(WarningReason::LowVACout)
        } else if code == 2048 {
            Some(WarningReason::HighVACout)
        } else {
            None
        }
    }

    /// Each variant is the one that its own code stands for, and no other code
    /// stands for it.
    pub proof fn lemma_code_round_trip(self)
        ensures
            WarningReason::of_code(self.code()) == Some(self),
            forall|code: usize|
                WarningReason::of_code(code) == Some(self) ==> code == self.code(),
    {
    }

    /// See [`code`](Self::code).
    pub fn repr(&self) -> (code: usize)
        ensures
            code == self.code(),
    {
        match self {
            WarningReason::Nil => 0,
            WarningReason::LowVoltage => 1,
            WarningReason::HighVoltage => 2,
            WarningReason::LowSOC => 4,
            WarningReason::LowStarterVoltage => 8,
            WarningReason::HighStarterVoltage => 16,
            WarningReason::LowTemperature => 32,
            WarningReason::HighTemperature => 64,
            WarningReason::MidVoltage => 128,
            WarningReason::Overload => 256,
            WarningReason::DCripple => 512,
            WarningReason::LowVACout => 1024,
            WarningReason::HighVACout => 2048,
        }
    }

    /// See [`of_code`](Self::of_code).
    pub fn from_repr(code: usize) -> (found: Option<WarningReason>)
        ensures
            found == WarningReason::of_code(code),
    {
        if code == 0 {
            Some(WarningReason::Nil)
        } else if code == 1 {
            Some(WarningReason::LowVoltage)
        } else if code == 2 {
            Some(WarningReason::HighVoltage)
        } else if code == 4 {
            Some(WarningReason::LowSOC)
        } else if code == 8 {
            Some(WarningReason::LowStarterVoltage)
        } else if code == 16 {
            Some(WarningReason::HighStarterVoltage)
        } else if code == 32 {
            Some(WarningReason::LowTemperature)
        } else if code == 64 {
            Some(WarningReason::HighTemperature)
        } else if code == 128 {
            Some(WarningReason::MidVoltage)
        } else if code == 256 {
            Some(WarningReason::Overload)
        } else if code == 512 {
            Some(WarningReason::DCripple)
        } else if code == 1024 {
            Some(WarningReason::LowVACout)
        } else if code == 2048 {
            Some(WarningReason::HighVACout)
        } else {
            None
        }
    }

    /// The vocabulary in the order of its declaration.
    pub open spec fn all() -> Seq<WarningReason> {
        seq![
            WarningReason::Nil,
            WarningReason::LowVoltage,
            WarningReason::HighVoltage,
            WarningReason::LowSOC,
            WarningReason::LowStarterVoltage,
            WarningReason::HighStarterVoltage,
            WarningReason::LowTemperature,
            WarningReason::HighTemperature,
            WarningReason::MidVoltage,
            WarningReason::Overload,
            WarningReason::DCripple,
            WarningReason::LowVACout,
            WarningReason::HighVACout,
        ]
    }

    /// Whether the bit of a flag is set in `value`, as a predicate on flags.
    pub open spec fn set_in(value: usize) -> spec_fn(WarningReason) -> bool {
        |flag: WarningReason| value & flag.code() > 0
    }

    /// The flags whose bits are set in `value`, in the order of the
    /// vocabulary.
    pub open spec fn flags_of(value: usize) -> Seq<WarningReason> {
        WarningReason::all().filter(WarningReason::set_in(value))
    }

    /// What an encoded number decodes to: `Nil` alone for zero, else the
    /// flags whose bits are set, and nothing where no known bit is set.
    pub open spec fn decode(value: usize) -> Option<Seq<WarningReason>> {
        if value == 0 {
            Some(seq![WarningReason::Nil])
        } else if WarningReason::flags_of(value).len() > 0 {
            Some(WarningReason::flags_of(value))
        } else {
            None
        }
    }

    /// A number decodes to nothing if and only if it is not zero and none of
    /// its set bits is the bit of a flag.
    pub proof fn lemma_decode_fails(value: usize)
        ensures
            WarningReason::decode(value) is None <==> value != 0 && forall|flag: WarningReason|
                #[trigger] WarningReason::all().contains(flag) ==> value & flag.code() == 0,
    {
        let all = WarningReason::all();
        let set = WarningReason::set_in(value);
        let found = WarningReason::flags_of(value);
        if found.len() > 0 {
            assert(found.contains(found[0]));
            all.lemma_filter_contains_rev(set, found[0]);
        } else {
            assert forall|flag: WarningReason| #[trigger] all.contains(flag) implies value
                & flag.code() == 0 by {
                let i = all.index_of(flag);
                if set(all[i]) {
                    all.lemma_filter_contains(set, i);
                }
            }
        }
    }

    /// See [`all`](Self::all).
    pub fn vocabulary() -> (all: Vec<WarningReason>)
        ensures
            all@ == WarningReason::all(),
    {
        let mut all: Vec<WarningReason> = Vec::new();
        all.push(WarningReason::Nil);
        all.push(WarningReason::LowVoltage);
        all.push(WarningReason::HighVoltage);
        all.push(WarningReason::LowSOC);
        all.push(WarningReason::LowStarterVoltage);
        all.push(WarningReason::HighStarterVoltage);
        all.push(WarningReason::LowTemperature);
        all.push(WarningReason::HighTemperature);
        all.push(WarningReason::MidVoltage);
        all.push(WarningReason::Overload);
        all.push(WarningReason::DCripple);
        all.push(WarningReason::LowVACout);
        all.push(WarningReason::HighVACout);
        assert(all@ =~= WarningReason::all());
        all
    }

    /// See [`decode`](Self::decode).
    pub fn from_bits(value: usize) -> (found: Option<Vec<WarningReason>>)
        ensures
            match found {
                Some(list) => WarningReason::decode(value) == Some(list@),
                None => WarningReason::decode(value) is None,
            },
    {
        let mut list: Vec<WarningReason> = Vec::new();
        if value == 0 {
            list.push(WarningReason::Nil);
            assert(list@ =~= seq![WarningReason::Nil]);
            return Some(list);
        }
        let all = WarningReason::vocabulary();
        let mut i: usize = 0;
        proof {
            assert(all@.take(0) =~= Seq::<WarningReason>::empty());
            Seq::<WarningReason>::empty().lemma_filter_len(WarningReason::set_in(value));
        }
        while i < all.len()
            invariant
                i <= all@.len(),
                all@ == WarningReason::all(),
                list@ == all@.take(i as int).filter(WarningReason::set_in(value)),
            decreases all@.len() - i,
        {
            let flag = all[i];
            proof {
                assert(all@.take(i + 1) =~= all@.take(i as int).push(flag));
                all@.take(i as int).lemma_filter_push(flag, WarningReason::set_in(value));
            }
            if value & flag.repr() > 0 {
                list.push(flag);
            }
            i += 1;
        }
        proof {
            assert(all@.take(i as int) =~= all@);
        }
        if list.len() > 0 {
            Some(list)
        } else {
            None
        }
    }
}

/// The mode of an inverter.
#[allow(non_camel_case_types)]
#[derive(PartialEq, Eq, Structural, Debug, Clone, Copy)]
pub enum DeviceMode {
    Nil,
    VE_REG_MODE_INVERTER,
    VE_REG_MODE_OFF,
    VE_REG_MODE_ECO,
}

impl Default for DeviceMode {
    fn default() -> (value: DeviceMode)
        ensures
            value == DeviceMode::Nil,
    {
        DeviceMode::Nil
    }
}

impl DeviceMode {
    /// The number that stands for the variant on the wire.
    pub open spec fn code(self) -> usize {
        match self {
            DeviceMode::Nil => 0,
            DeviceMode::VE_REG_MODE_INVERTER => 2,
            DeviceMode::VE_REG_MODE_OFF => 4,
            DeviceMode::VE_REG_MODE_ECO => 5,
        }
    }

    /// The variant that `code` stands for, if it stands for one.
    pub open spec fn of_code(code: usize) -> Option<DeviceMode> {
        if code == 0 {
            Some(DeviceMode::Nil)
        } else if code == 2 {
            Some(DeviceMode::VE_REG_MODE_INVERTER)
        } else if code == 4 {
            Some(DeviceMode::VE_REG_MODE_OFF)
        } else if code == 5 {
            Some(DeviceMode::VE_REG_MODE_ECO)
        } else {
            None
        }
    }

    /// Each variant is the one that its own code stands for, and no other code
    /// stands for it.
    pub proof fn lemma_code_round_trip(self)
        ensures
            DeviceMode::of_code(self.code()) == Some(self),
            forall|code: usize|
                DeviceMode::of_code(code) == Some(self) ==> code == self.code(),
    {
    }

    /// See [`code`](Self::code).
    pub fn repr(&self) -> (code: usize)
        ensures
            code == self.code(),
    {
        match self {
            DeviceMode::Nil => 0,
            DeviceMode::VE_REG_MODE_INVERTER => 2,
            DeviceMode::VE_REG_MODE_OFF => 4,
            DeviceMode::VE_REG_MODE_ECO => 5,
        }
    }

    /// See [`of_code`](Self::of_code).
    pub fn from_repr(code: usize) -> (found: Option<DeviceMode>)
        ensures
            found == DeviceMode::of_code(code),
    {
        if code == 0 {
            Some(DeviceMode::Nil)
        } else if code == 2 {
            Some(DeviceMode::VE_REG_MODE_INVERTER)
        } else if code == 4 {
            Some(DeviceMode::VE_REG_MODE_OFF)
        } else if code == 5 {
            Some(DeviceMode::VE_REG_MODE_ECO)
        } else {
            None
        }
    }
}

/// Whether Bluetooth is on.
#[derive(PartialEq, Eq, Structural, Debug, Clone, Copy)]
pub enum BluetoothStatus {
    Off,
    On,
}

impl Default for BluetoothStatus {
    fn default() -> (value: BluetoothStatus)
        ensures
            value == BluetoothStatus::Off,
    {
        BluetoothStatus::Off
    }
}

impl BluetoothStatus {
    /// The number that stands for the variant on the wire.
    pub open spec fn code(self) -> usize {
        match self {
            BluetoothStatus::Off => 0,
            BluetoothStatus::On => 1,
        }
    }

    /// The variant that `code` stands for, if it stands for one.
    pub open spec fn of_code(code: usize) -> Option<BluetoothStatus> {
        if code == 0 {
            Some(BluetoothStatus::Off)
        } else if code == 1 {
            Some(BluetoothStatus::On)
        } else {
            None
        }
    }

    /// Each variant is the one that its own code stands for, and no other code
    /// stands for it.
    pub proof fn lemma_code_round_trip(self)
        ensures
            BluetoothStatus::of_code(self.code()) == Some(self),
            forall|code: usize|
                BluetoothStatus::of_code(code) == Some(self) ==> code == self.code(),
    {
    }

    /// See [`code`](Self::code).
    pub fn repr(&self) -> (code: usize)
        ensures
            code == self.code(),
    {
        match self {
            BluetoothStatus::Off => 0,
            BluetoothStatus::On => 1,
        }
    }

    /// See [`of_code`](Self::of_code).
    pub fn from_repr(code: usize) -> (found: Option<BluetoothStatus>)
        ensures
            found == BluetoothStatus::of_code(code),
    {
        if code == 0 {
            Some(BluetoothStatus::Off)
        } else if code == 1 {
            Some(BluetoothStatus::On)
        } else {
            None
        }
    }
}

/// What a device can do about Bluetooth.
#[allow(non_camel_case_types)]
#[derive(PartialEq, Eq, Structural, Debug, Clone, Copy)]
pub enum BluetoothCapBle {
    Nil,
    BLE_Supports_Switching_Off,
    BLE_Switching_Off_Is_Permanent,
}

impl Default for BluetoothCapBle {
    fn default() -> (value: BluetoothCapBle)
        ensures
            value == BluetoothCapBle::Nil,
    {
        BluetoothCapBle::Nil
    }
}

impl BluetoothCapBle {
    /// The number that stands for the variant on the wire.
    pub open spec fn code(self) -> usize {
        match self {
            BluetoothCapBle::Nil => 0,
            BluetoothCapBle::BLE_Supports_Switching_Off => 1,
            BluetoothCapBle::BLE_Switching_Off_Is_Permanent => 2,
        }
    }

    /// The variant that `code` stands for, if it stands for one.
    pub open spec fn of_code(code: usize) -> Option<BluetoothCapBle> {
        if code == 0 {
            Some(BluetoothCapBle::Nil)
        } else if code == 1 {
            Some(BluetoothCapBle::BLE_Supports_Switching_Off)
        } else if code == 2 {
            Some(BluetoothCapBle::BLE_Switching_Off_Is_Permanent)
        } else {
            None
        }
    }

    /// Each variant is the one that its own code stands for, and no other code
    /// stands for it.
    pub proof fn lemma_code_round_trip(self)
        ensures
            BluetoothCapBle::of_code(self.code()) == Some(self),
            forall|code: usize|
                BluetoothCapBle::of_code(code) == Some(self) ==> code == self.code(),
    {
    }

    /// See [`code`](Self::code).
    pub fn repr(&self) -> (code: usize)
        ensures
            code == self.code(),
    {
        match self {
            BluetoothCapBle::Nil => 0,
            BluetoothCapBle::BLE_Supports_Switching_Off => 1,
            BluetoothCapBle::BLE_Switching_Off_Is_Permanent => 2,
        }
    }

    /// See [`of_code`](Self::of_code).
    pub fn from_repr(code: usize) -> (found: Option<BluetoothCapBle>)
        ensures
            found == BluetoothCapBle::of_code(code),
    {
        if code == 0 {
            Some(BluetoothCapBle::Nil)
        } else if code == 1 {
            Some(BluetoothCapBle::BLE_Supports_Switching_Off)
        } else if code == 2 {
            Some(BluetoothCapBle::BLE_Switching_Off_Is_Permanent)
        } else {
            None
        }
    }
}

/// The state of the load output.
#[derive(PartialEq, Eq, Structural, Debug, Clone, Copy)]
pub enum Load {
    Off,
    On,
}

impl Default for Load {
    fn default() -> (value: Load)
        ensures
            value == Load::Off,
    {
        Load::Off
    }
}

impl Load {
    /// The number that stands for the variant on the wire.
    pub open spec fn code(self) -> usize {
        match self {
            Load::Off => 0,
            Load::On => 1,
        }
    }

    /// The variant that `code` stands for, if it stands for one.
    pub open spec fn of_code(code: usize) -> Option<Load> {
        if code == 0 {
            Some(Load::Off)
        } else if code == 1 {
            Some(Load::On)
        } else {
            None
        }
    }

    /// Each variant is the one that its own code stands for, and no other code
    /// stands for it.
    pub proof fn lemma_code_round_trip(self)
        ensures
            Load::of_code(self.code()) == Some(self),
            forall|code: usize|
                Load::of_code(code) == Some(self) ==> code == self.code(),
    {
    }

    /// See [`code`](Self::code).
    pub fn repr(&self) -> (code: usize)
        ensures
            code == self.code(),
    {
        match self {
            Load::Off => 0,
            Load::On => 1,
        }
    }

    /// See [`of_code`](Self::of_code).
    pub fn from_repr(code: usize) -> (found: Option<Load>)
        ensures
            found == Load::of_code(code),
    {
        if code == 0 {
            Some(Load::Off)
        } else if code == 1 {
            Some(Load::On)
        } else {
            None
        }
    }
}

/// Whether an alarm is active.
#[derive(PartialEq, Eq, Structural, Debug, Clone, Copy)]
pub enum Alarm {
    Off,
    On,
}

impl Default for Alarm {
    fn default() -> (value: Alarm)
        ensures
            value == Alarm::Off,
    {
        Alarm::Off
    }
}

impl Alarm {
    /// The number that stands for the variant on the wire.
    pub open spec fn code(self) -> usize {
        match self {
            Alarm::Off => 0,
            Alarm::On => 1,
        }
    }

    /// The variant that `code` stands for, if it stands for one.
    pub open spec fn of_code(code: usize) -> Option<Alarm> {
        if code == 0 {
            Some(Alarm::Off)
        } else if code == 1 {
            Some(Alarm::On)
        } else {
            None
        }
    }

    /// Each variant is the one that its own code stands for, and no other code
    /// stands for it.
    pub proof fn lemma_code_round_trip(self)
        ensures
            Alarm::of_code(self.code()) == Some(self),
            forall|code: usize|
                Alarm::of_code(code) == Some(self) ==> code == self.code(),
    {
    }

    /// See [`code`](Self::code).
    pub fn repr(&self) -> (code: usize)
        ensures
            code == self.code(),
    {
        match self {
            Alarm::Off => 0,
            Alarm::On => 1,
        }
    }

    /// See [`of_code`](Self::of_code).
    pub fn from_repr(code: usize) -> (found: Option<Alarm>)
        ensures
            found == Alarm::of_code(code),
    {
        if code == 0 {
            Some(Alarm::Off)
        } else if code == 1 {
            Some(Alarm::On)
        } else {
            None
        }
    }
}

/// The state of the relay.
#[derive(PartialEq, Eq, Structural, Debug, Clone, Copy)]
pub enum Relay {
    Off,
    On,
}

impl Default for Relay {
    fn default() -> (value: Relay)
        ensures
            value == Relay::Off,
    {
        Relay::Off
    }
}

impl Relay {
    /// The number that stands for the variant on the wire.
    pub open spec fn code(self) -> usize {
        match self {
            Relay::Off => 0,
            Relay::On => 1,
        }
    }

    /// The variant that `code` stands for, if it stands for one.
    pub open spec fn of_code(code: usize) -> Option<Relay> {
        if code == 0 {
            Some(Relay::Off)
        } else if code == 1 {
            Some(Relay::On)
        } else {
            None
        }
    }

    /// Each variant is the one that its own code stands for, and no other code
    /// stands for it.
    pub proof fn lemma_code_round_trip(self)
        ensures
            Relay::of_code(self.code()) == Some(self),
            forall|code: usize|
                Relay::of_code(code) == Some(self) ==> code == self.code(),
    {
    }

    /// See [`code`](Self::code).
    pub fn repr(&self) -> (code: usize)
        ensures
            code == self.code(),
    {
        match self {
            Relay::Off => 0,
            Relay::On => 1,
        }
    }

    /// See [`of_code`](Self::of_code).
    pub fn from_repr(code: usize) -> (found: Option<Relay>)
        ensures
            found == Relay::of_code(code),
    {
        if code == 0 {
            Some(Relay::Off)
        } else if code == 1 {
            Some(Relay::On)
        } else {
            None
        }
    }
}

/// The state of operation that a decimal text stands for.
pub open spec fn state_of_operation(text: Seq<u8>) -> Option<StateOfOperation> {
    match parse_usize(text, 10) {
        Some(code) => StateOfOperation::of_code(code),
        None => None,
    }
}

/// The error code that a decimal text stands for.
pub open spec fn error_code(text: Seq<u8>) -> Option<ErrorCode> {
    match parse_usize(text, 10) {
        Some(code) => ErrorCode::of_code(code),
        None => None,
    }
}

/// The device mode that a decimal text stands for.
pub open spec fn device_mode(text: Seq<u8>) -> Option<DeviceMode> {
    match parse_usize(text, 10) {
        Some(code) => DeviceMode::of_code(code),
        None => None,
    }
}

/// The alarm reasons that a decimal text stands for.
pub open spec fn alarm_reasons(text: Seq<u8>) -> Option<Seq<AlarmReason>> {
    match parse_usize(text, 10) {
        Some(value) => AlarmReason::decode(value),
        None => None,
    }
}

/// The warning reasons that a decimal text stands for.
pub open spec fn warning_reasons(text: Seq<u8>) -> Option<Seq<WarningReason>> {
    match parse_usize(text, 10) {
        Some(value) => WarningReason::decode(value),
        None => None,
    }
}

/// The off reasons that a hexadecimal text stands for.
pub open spec fn off_reasons(text: Seq<u8>) -> Option<Seq<OffReason>> {
    match parse_hex(text) {
        Some(value) => OffReason::decode(value),
        None => None,
    }
}

/// The Bluetooth status that a hexadecimal text stands for.
pub open spec fn bluetooth_status(text: Seq<u8>) -> Option<BluetoothStatus> {
    match parse_hex(text) {
        Some(code) => BluetoothStatus::of_code(code),
        None => None,
    }
}

/// The Bluetooth capability that a hexadecimal text stands for.
pub open spec fn bluetooth_capability(text: Seq<u8>) -> Option<BluetoothCapBle> {
    match parse_hex(text) {
        Some(code) => BluetoothCapBle::of_code(code),
        None => None,
    }
}

/// What the words `on` and `off` stand for, in letters of either case:
/// `true` and `false`.
pub open spec fn switch(text: Seq<u8>) -> Option<bool> {
    if spells(text, encode_utf8("on"@)) {
        Some(true)
    } else if spells(text, encode_utf8("off"@)) {
        Some(false)
    } else {
        None
    }
}

/// The state of the load output that a word stands for.
pub open spec fn load(text: Seq<u8>) -> Option<Load> {
    match switch(text) {
        Some(on) => Some(if on { Load::On } else { Load::Off }),
        None => None,
    }
}

/// The state of the alarm that a word stands for.
pub open spec fn alarm(text: Seq<u8>) -> Option<Alarm> {
    match switch(text) {
        Some(on) => Some(if on { Alarm::On } else { Alarm::Off }),
        None => None,
    }
}

/// The state of the relay that a word stands for.
pub open spec fn relay(text: Seq<u8>) -> Option<Relay> {
    match switch(text) {
        Some(on) => Some(if on { Relay::On } else { Relay::Off }),
        None => None,
    }
}

/// Hands the value on as it is.
pub fn convert_none<T>(val: T) -> (res: Result<T, std::io::Error>)
    ensures
        res == Ok::<T, std::io::Error>(val),
{
    Ok(val)
}

/// Reads `on` or `off`, in letters of either case.
fn convert_switch(field: &str) -> (res: Result<bool, std::io::Error>)
    ensures
        decoded(res, switch(encode_utf8(field@))),
{
    if eq_ignore_case(field, "on") {
        Ok(true)
    } else if eq_ignore_case(field, "off") {
        Ok(false)
    } else {
        Err(invalid_data())
    }
}


/// Decodes the state of operation: a decimal number that is the code of a state.
pub fn convert_state_of_operation(field: String) -> (res: Result<StateOfOperation, std::io::Error>)
    ensures
        decoded(res, state_of_operation(encode_utf8(field@))),
{
    match usize_from_text(field.as_str().as_bytes(), 10) {
        Some(code) => match StateOfOperation::from_repr(code) {
            Some(value) => Ok(value),
            None => Err(invalid_data()),
        },
        None => Err(invalid_data()),
    }
}

/// Decodes the error code: a decimal number that is the code of an error.
pub fn convert_error_code(field: String) -> (res: Result<ErrorCode, std::io::Error>)
    ensures
        decoded(res, error_code(encode_utf8(field@))),
{
    match usize_from_text(field.as_str().as_bytes(), 10) {
        Some(code) => match ErrorCode::from_repr(code) {
            Some(value) => Ok(value),
            None => Err(invalid_data()),
        },
        None => Err(invalid_data()),
    }
}

/// Decodes the alarm reasons: a decimal number whose set bits are reasons.
pub fn convert_alarm_reason(field: String) -> (res: Result<Vec<AlarmReason>, std::io::Error>)
    ensures
        decoded_list(res, alarm_reasons(encode_utf8(field@))),
{
    match usize_from_text(field.as_str().as_bytes(), 10) {
        Some(value) => match AlarmReason::from_bits(value) {
            Some(list) => Ok(list),
            None => Err(invalid_data()),
        },
        None => Err(invalid_data()),
    }
}

/// Decodes the warning reasons: a decimal number whose set bits are reasons.
pub fn convert_warning_reason(field: String) -> (res: Result<Vec<WarningReason>, std::io::Error>)
    ensures
        decoded_list(res, warning_reasons(encode_utf8(field@))),
{
    match usize_from_text(field.as_str().as_bytes(), 10) {
        Some(value) => match WarningReason::from_bits(value) {
            Some(list) => Ok(list),
            None => Err(invalid_data()),
        },
        None => Err(invalid_data()),
    }
}

/// Decodes the device mode: a decimal number that is the code of a mode.
pub fn convert_device_mode(field: String) -> (res: Result<DeviceMode, std::io::Error>)
    ensures
        decoded(res, device_mode(encode_utf8(field@))),
{
    match usize_from_text(field.as_str().as_bytes(), 10) {
        Some(code) => match DeviceMode::from_repr(code) {
            Some(value) => Ok(value),
            None => Err(invalid_data()),
        },
        None => Err(invalid_data()),
    }
}

/// Decodes the off reasons: a hexadecimal number, with or without `0x` in front,
/// whose set bits are reasons.
pub fn convert_off_reason(field: String) -> (res: Result<Vec<OffReason>, std::io::Error>)
    ensures
        decoded_list(res, off_reasons(encode_utf8(field@))),
{
    match usize_from_hex(field.as_str().as_bytes()) {
        Some(value) => match OffReason::from_bits(value) {
            Some(list) => Ok(list),
            None => Err(invalid_data()),
        },
        None => Err(invalid_data()),
    }
}

/// Decodes the Bluetooth status: a hexadecimal number, with or without `0x` in
/// front, that is the code of a status.
pub fn convert_ble(field: String) -> (res: Result<BluetoothStatus, std::io::Error>)
    ensures
        decoded(res, bluetooth_status(encode_utf8(field@))),
{
    match usize_from_hex(field.as_str().as_bytes()) {
        Some(code) => match BluetoothStatus::from_repr(code) {
            Some(value) => Ok(value),
            None => Err(invalid_data()),
        },
        None => Err(invalid_data()),
    }
}

/// Decodes the Bluetooth capability: a hexadecimal number, with or without `0x`
/// in front, that is the code of a capability.
pub fn convert_capble(field: String) -> (res: Result<BluetoothCapBle, std::io::Error>)
    ensures
        decoded(res, bluetooth_capability(encode_utf8(field@))),
{
    match usize_from_hex(field.as_str().as_bytes()) {
        Some(code) => match BluetoothCapBle::from_repr(code) {
            Some(value) => Ok(value),
            None => Err(invalid_data()),
        },
        None => Err(invalid_data()),
    }
}

/// Decodes whether the alarm is active: `on` or `off`, in letters of either case.
pub fn convert_alarm(field: String) -> (res: Result<Alarm, std::io::Error>)
    ensures
        decoded(res, alarm(encode_utf8(field@))),
{
    match convert_switch(field.as_str()) {
        Ok(on) => Ok(if on {
            Alarm::On
        } else {
            Alarm::Off
        }),
        Err(error) => Err(error),
    }
}

/// Decodes the state of the relay: `on` or `off`, in letters of either case.
pub fn convert_relay(field: String) -> (res: Result<Relay, std::io::Error>)
    ensures
        decoded(res, relay(encode_utf8(field@))),
{
    match convert_switch(field.as_str()) {
        Ok(on) => Ok(if on {
            Relay::On
        } else {
            Relay::Off
        }),
        Err(error) => Err(error),
    }
}

/// Decodes the state of the load output: `on` or `off`, in letters of either
/// case.
pub fn convert_load(field: String) -> (res: Result<Load, std::io::Error>)
    ensures
        decoded(res, load(encode_utf8(field@))),
{
    match convert_switch(field.as_str()) {
        Ok(on) => Ok(if on {
            Load::On
        } else {
            Load::Off
        }),
        Err(error) => Err(error),
    }
}

} // verus!
