//! The vocabulary of the wire format.

use vstd::prelude::*;

verus! {

/// One field of a frame: its label and its raw value.
#[derive(Debug, Clone)]
pub struct VEField {
    pub label: String,
    pub value: Vec<u8>,
}

/// Carriage return, the first byte of a field's anchor.
pub const CR: u8 = 13;

/// Line feed, the second byte of a field's anchor.
pub const LF: u8 = 10;

/// The byte between a label and its value.
pub const TAB: u8 = 9;

/// First byte of a hex message.
pub const COLON: u8 = 58;

/// Second byte of a hex message.
pub const A: u8 = 65;

/// What the reassembler reports instead of a record.
#[derive(PartialEq, Eq, Debug, Clone)]
pub enum VEError {
    /// The frame is malformed; the text says how.
    Parse(String),
    /// The bytes of a hex message could not be read. Hex messages are passed
    /// over unread, so the reassembler never reports this.
    HexBytes,
    /// The input so far is the beginning of a frame.
    NeedMoreData,
    /// A code that no vocabulary knows. The reassembler never reports this.
    UnknownCode,
}

} // verus!
