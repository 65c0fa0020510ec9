//! The wire format as a mathematical model.
//!
//! A frame is a run of fields, each `CR LF label TAB value`. A value ends
//! before the next `CR`; the value of the `Checksum` field is the one byte
//! after the `TAB`, be it a `CR` itself, and that field ends the frame. Hex messages, which begin
//! with `:A` and end before the next `CR`, may stand wherever a field could
//! start and are passed over. Everything here is a spec function over byte
//! sequences; the [`Parser`](super::Parser) is verified against it.

use super::models::{A, COLON, CR, LF, TAB};
use crate::text::utf8_error_text;
use vstd::prelude::*;
use vstd::utf8::{decode_utf8, valid_utf8};

verus! {

/// Index of the first `byte` in `s` at or after `from`; the length of `s`
/// where there is none.
pub open spec fn find_byte(s: Seq<u8>, from: int, byte: u8) -> int
    decreases s.len() - from,
{
    if from < 0 || from >= s.len() {
        s.len() as int
    } else if s[from] == byte {
        from
    } else {
        find_byte(s, from + 1, byte)
    }
}

/// The sum of the bytes of `s`.
pub open spec fn byte_sum(s: Seq<u8>) -> int
    decreases s.len(),
{
    if s.len() == 0 {
        0
    } else {
        byte_sum(s.drop_last()) + s.last() as int
    }
}

/// The checksum `sum` after the bytes of `s` were folded into it.
pub open spec fn fold_sum(sum: u8, s: Seq<u8>) -> u8 {
    ((sum as int + byte_sum(s)) % 256) as u8
}

/// The bytes that a field takes on the wire.
pub open spec fn wire_bytes(label: Seq<u8>, value: Seq<u8>) -> Seq<u8> {
    seq![CR, LF] + label + seq![TAB] + value
}

/// The label of the field that ends a frame.
pub open spec fn checksum_label() -> Seq<char> {
    "Checksum"@
}

/// The label under which a completed record holds the computed checksum.
pub open spec fn calc_sum_label() -> Seq<char> {
    "Calc_sum"@
}

/// The label under which a completed record holds the time of completion.
pub open spec fn time_label() -> Seq<char> {
    "Time"@
}

/// What is reported where a field should start and no anchor stands.
pub open spec fn illegal_start() -> Seq<char> {
    "Illegal field start"@
}

/// What is reported of a label that is not UTF-8.
pub open spec fn invalid_label(label: Seq<u8>) -> Seq<char> {
    "label string was invalid "@ + utf8_error_text(label)
}

/// What stands at one place of the input.
pub enum Step {
    /// A hex message, which ends before `next`.
    Skip { next: int },
    /// A field, which ends before `next`. The label is given as it stood on
    /// the wire.
    Field { label: Seq<u8>, value: Seq<u8>, next: int },
    /// The beginning of something whose end has not arrived.
    NeedMore,
    /// Nothing that the format allows.
    Malformed { reason: Seq<char> },
}

/// Whether a hex message begins at `pos`.
pub open spec fn hex_at(d: Seq<u8>, pos: int) -> bool {
    0 <= pos && pos + 1 < d.len() && d[pos] == COLON && d[pos + 1] == A
}

/// Whether a field anchor followed by a hex message begins at `pos`.
pub open spec fn anchored_hex_at(d: Seq<u8>, pos: int) -> bool {
    &&& 0 <= pos
    &&& pos + 3 < d.len()
    &&& d[pos] == CR
    &&& d[pos + 1] == LF
    &&& d[pos + 2] == COLON
    &&& d[pos + 3] == A
}

/// The field that begins at `pos`. The value of the `Checksum` field is the
/// byte after the `TAB`, whatever byte it is. Under any other label an empty
/// value, a `CR` right after the `TAB`, reads as the single byte zero and
/// leaves that `CR` in place.
pub open spec fn field_at(d: Seq<u8>, pos: int) -> Step {
    if pos < 0 || pos + 1 >= d.len() {
        Step::NeedMore
    } else if d[pos] != CR || d[pos + 1] != LF {
        Step::Malformed { reason: illegal_start() }
    } else {
        let tab = find_byte(d, pos + 2, TAB);
        let label = d.subrange(pos + 2, tab);
        if tab >= d.len() {
            Step::NeedMore
        } else if !valid_utf8(label) {
            Step::Malformed { reason: invalid_label(label) }
        } else if tab + 1 >= d.len() {
            Step::NeedMore
        } else if decode_utf8(label) == checksum_label() {
            Step::Field { label, value: seq![d[tab + 1]], next: tab + 2 }
        } else if d[tab + 1] == CR {
            Step::Field { label, value: seq![0u8], next: tab + 1 }
        } else {
            let end = find_byte(d, tab + 1, CR);
            if end >= d.len() {
                Step::NeedMore
            } else {
                Step::Field { label, value: d.subrange(tab + 1, end), next: end }
            }
        }
    }
}

/// What stands at `pos`: a hex message, bare or behind an anchor, or else a
/// field.
pub open spec fn step(d: Seq<u8>, pos: int) -> Step {
    if hex_at(d, pos) {
        let end = find_byte(d, pos, CR);
        if end < d.len() {
            Step::Skip { next: end }
        } else {
            Step::NeedMore
        }
    } else if anchored_hex_at(d, pos) {
        let end = find_byte(d, pos + 2, CR);
        if end < d.len() {
            Step::Skip { next: end }
        } else {
            Step::NeedMore
        }
    } else {
        field_at(d, pos)
    }
}

/// How a scan of the input ends.
pub enum Scan {
    /// A `Checksum` field was read: the record, and where the frame ends.
    Complete { record: Map<Seq<char>, Seq<u8>>, next: int },
    /// The input ends within what begins at `from`; `fields` and `sum` are
    /// what was gathered before that place.
    NeedMore { from: int, fields: Map<Seq<char>, Seq<u8>>, sum: u8 },
    /// The input is malformed.
    Malformed { reason: Seq<char> },
}

/// Reads `d` from `pos` on, with `fields` and `sum` gathered so far, until a
/// frame is complete, the input ends or something malformed stands in the
/// way. Each field goes into the mapping under its label and its wire bytes
/// go into the checksum; the completed record also holds the checksum under
/// `Calc_sum`.
pub open spec fn scan(d: Seq<u8>, pos: int, fields: Map<Seq<char>, Seq<u8>>, sum: u8) -> Scan
    decreases d.len() - pos,
{
    match step(d, pos) {
        Step::Skip { next } => {
            if pos < next <= d.len() {
                scan(d, next, fields, sum)
            } else {
                Scan::NeedMore { from: pos, fields, sum }
            }
        },
        Step::Field { label, value, next } => {
            let fields = fields.insert(decode_utf8(label), value);
            let sum = fold_sum(sum, wire_bytes(label, value));
            if decode_utf8(label) == checksum_label() {
                Scan::Complete { record: fields.insert(calc_sum_label(), seq![sum]), next }
            } else if pos < next <= d.len() {
                scan(d, next, fields, sum)
            } else {
                Scan::NeedMore { from: pos, fields, sum }
            }
        },
        Step::NeedMore => Scan::NeedMore { from: pos, fields, sum },
        Step::Malformed { reason } => Scan::Malformed { reason },
    }
}

/// The wire bytes of the fields that a scan from `pos` reads, up to and with
/// the `Checksum` field; hex messages are left out.
pub open spec fn frame_bytes(d: Seq<u8>, pos: int) -> Seq<u8>
    decreases d.len() - pos,
{
    match step(d, pos) {
        Step::Skip { next } => {
            if pos < next <= d.len() {
                frame_bytes(d, next)
            } else {
                Seq::empty()
            }
        },
        Step::Field { label, value, next } => {
            if decode_utf8(label) == checksum_label() {
                wire_bytes(label, value)
            } else if pos < next <= d.len() {
                wire_bytes(label, value) + frame_bytes(d, next)
            } else {
                Seq::empty()
            }
        },
        _ => Seq::empty(),
    }
}

/// Whether a scan from `pos` comes to stand at `target` before a frame is
/// complete: `target` is then a place where a field could start.
pub open spec fn reaches(d: Seq<u8>, pos: int, target: int) -> bool
    decreases d.len() - pos,
{
    if pos == target {
        true
    } else if pos > target {
        false
    } else {
        match step(d, pos) {
            Step::Skip { next } => pos < next <= d.len() && reaches(d, next, target),
            Step::Field { label, value, next } => decode_utf8(label) != checksum_label() && pos
                < next <= d.len() && reaches(d, next, target),
            _ => false,
        }
    }
}

/// Whether `m` is a hex message behind a field anchor: `CR LF : A` and then
/// bytes other than `CR`.
pub open spec fn is_hex_message(m: Seq<u8>) -> bool {
    &&& m.len() >= 4
    &&& m[0] == CR
    &&& m[1] == LF
    &&& m[2] == COLON
    &&& m[3] == A
    &&& forall|i: int| 1 <= i < m.len() ==> m[i] != CR
}

/// The state of a reassembler between two calls.
#[verifier::ext_equal]
pub struct Reassembler {
    /// No anchor was seen yet: what comes before the first `CR` is dropped.
    pub awaiting: bool,
    /// The input that was received and not yet consumed.
    pub buffer: Seq<u8>,
    /// The fields of the frame in progress.
    pub fields: Map<Seq<char>, Seq<u8>>,
    /// The checksum over the fields of the frame in progress.
    pub sum: u8,
}

/// What one call gives back.
#[verifier::ext_equal]
pub enum Outcome {
    /// A frame was completed.
    Record(Map<Seq<char>, Seq<u8>>),
    /// The input ended within a frame.
    NeedMoreData,
    /// The input was malformed.
    Malformed(Seq<char>),
}

/// The state in which a reassembler starts, and to which it returns after
/// malformed input.
pub open spec fn initial() -> Reassembler {
    Reassembler { awaiting: true, buffer: Seq::empty(), fields: Map::empty(), sum: 0 }
}

/// The input to scan once `chunk` has arrived, or `None` while the first
/// anchor is awaited and `chunk` holds no `CR`.
pub open spec fn intake(s: Reassembler, chunk: Seq<u8>) -> Option<Seq<u8>> {
    if s.awaiting {
        let at = find_byte(chunk, 0, CR);
        if at < chunk.len() {
            Some(s.buffer + chunk.skip(at))
        } else {
            None
        }
    } else {
        Some(s.buffer + chunk)
    }
}

/// The state and the outcome of a call whose scan of `input` ended with
/// `end`: what was consumed is dropped from the input, and after malformed
/// input nothing is kept.
pub open spec fn settle(input: Seq<u8>, end: Scan) -> (Reassembler, Outcome) {
    match end {
        Scan::Complete { record, next } => (
            Reassembler { awaiting: false, buffer: input.skip(next), fields: Map::empty(), sum: 0 },
            Outcome::Record(record),
        ),
        Scan::NeedMore { from, fields, sum } => (
            Reassembler { awaiting: false, buffer: input.skip(from), fields, sum },
            Outcome::NeedMoreData,
        ),
        Scan::Malformed { reason } => (initial(), Outcome::Malformed(reason)),
    }
}

/// One call of the reassembler: the state after it, and its outcome.
pub open spec fn reassemble(s: Reassembler, chunk: Seq<u8>) -> (Reassembler, Outcome) {
    match intake(s, chunk) {
        None => (s, Outcome::NeedMoreData),
        Some(input) => settle(input, scan(input, 0, s.fields, s.sum)),
    }
}

/// The outcome of feeding `chunks` one after another, up to the first call
/// that does not ask for more data.
pub open spec fn reassemble_all(s: Reassembler, chunks: Seq<Seq<u8>>) -> Outcome
    decreases chunks.len(),
{
    if chunks.len() == 0 {
        Outcome::NeedMoreData
    } else {
        let (after, outcome) = reassemble(s, chunks[0]);
        if outcome is NeedMoreData && chunks.len() > 1 {
            reassemble_all(after, chunks.drop_first())
        } else {
            outcome
        }
    }
}

} // verus!
