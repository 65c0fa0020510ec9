//! Decoder for the VE.Direct text protocol.
//!
//! A [`Parser`] reassembles frames from a byte stream that arrives in chunks
//! of any size; [`convert`] turns a completed frame into a typed record. The
//! contracts are stated over the models in [`parser::frame`] and over the
//! spec functions next to each decoder.

mod clock;
pub mod converter;
pub mod number;
pub mod parser;
pub mod text;

pub use self::converter::convert;
pub use self::converter::data::{convert_quantity, Quantity, VEDirectData};
pub use self::converter::labels::{Labels, Unit};
pub use self::converter::models::{
    convert_alarm, convert_alarm_reason, convert_ble, convert_capble, convert_device_mode,
    convert_error_code, convert_load, convert_none, convert_off_reason, convert_relay,
    convert_state_of_operation, convert_warning_reason, Alarm, AlarmReason, BluetoothCapBle,
    BluetoothStatus, DeviceMode, ErrorCode, Load, OffReason, Relay, StateOfOperation,
    WarningReason,
};
pub use self::parser::models::{VEError, VEField, A, COLON, CR, LF, TAB};
pub use self::parser::record::VEDirectParse;
pub use self::parser::Parser;
