//! The frame reassembler.
//!
//! A [`Parser`] takes the bytes of a serial line in chunks of any size and
//! gives back one raw record for each completed frame. What it does is the
//! model of [`frame`]; what holds of that model is proved in [`laws`], and
//! of the frames that a device sends in [`wellformed`].

pub mod frame;
pub mod laws;
pub mod models;
pub mod record;
pub mod wellformed;

use self::frame::{
    byte_sum, field_at, find_byte, fold_sum, initial, intake, reassemble, scan, step, time_label,
    wire_bytes, Outcome, Reassembler, Step,
};
use self::laws::{lemma_byte_sum_concat, lemma_step_bounds};
use self::models::{VEError, VEField, A, COLON, CR, LF, TAB};
use self::record::VEDirectParse;
use crate::clock::epoch_seconds;
use crate::number::{decimal_text, signed_decimal};
use crate::text::{text_eq, text_from_utf8};
use vstd::prelude::*;
use vstd::slice::{slice_subrange, slice_to_vec};
use vstd::string::StringExecFns;
use vstd::utf8::{decode_utf8, decode_utf8_encode_utf8};

verus! {

/// The place of the first `byte` in `data` at or after `from`, or the length
/// of `data` where there is none.
pub fn position(data: &[u8], from: usize, byte: u8) -> (at: usize)
    ensures
        at == find_byte(data@, from as int, byte),
        at <= data@.len(),
        from <= data@.len() ==> from <= at,
{
    if from >= data.len() {
        return data.len();
    }
    let mut i: usize = from;
    while i < data.len()
        invariant
            from <= i <= data@.len(),
            find_byte(data@, from as int, byte) == find_byte(data@, i as int, byte),
        decreases data@.len() - i,
    {
        if data[i] == byte {
            return i;
        }
        i += 1;
    }
    i
}

/// Folds the bytes of `bytes` into the checksum `sum`.
pub fn fold_bytes(sum: u8, bytes: &[u8]) -> (folded: u8)
    ensures
        folded == fold_sum(sum, bytes@),
{
    let mut folded: u8 = sum;
    let mut i: usize = 0;
    while i < bytes.len()
        invariant
            i <= bytes@.len(),
            folded == fold_sum(sum, bytes@.take(i as int)),
        decreases bytes@.len() - i,
    {
        proof {
            assert(bytes@.take(i + 1).drop_last() =~= bytes@.take(i as int));
        }
        folded = ((folded as u16 + bytes[i] as u16) % 256) as u8;
        i += 1;
    }
    proof {
        assert(bytes@.take(i as int) =~= bytes@);
    }
    folded
}

/// Folds one byte into the checksum `sum`.
pub fn fold_byte(sum: u8, byte: u8) -> (folded: u8)
    ensures
        folded == fold_sum(sum, seq![byte]),
{
    proof {
        assert(seq![byte].drop_last() =~= Seq::<u8>::empty());
        assert(byte_sum(Seq::<u8>::empty()) == 0);
        assert(seq![byte].last() == byte);
        assert(byte_sum(seq![byte]) == byte as int);
    }
    ((sum as u16 + byte as u16) % 256) as u8
}

/// The record with the time of its completion added: `now`, the seconds
/// since the epoch, in decimal digits under `Time`.
pub fn stamp(record: VEDirectParse, now: i64) -> (stamped: VEDirectParse)
    ensures
        stamped@ == record@.insert(time_label(), signed_decimal(now as int)),
{
    let mut stamped = record;
    stamped.insert(String::from_str("Time"), decimal_text(now));
    stamped
}

/// A reassembler of frames. It owns the input that it has not consumed yet
/// and the fields of the frame in progress.
pub struct Parser {
    first_parse: bool,
    parse_buf: Vec<u8>,
    fields: VEDirectParse,
    sum: u8,
}

impl View for Parser {
    type V = Reassembler;

    closed spec fn view(&self) -> Reassembler {
        Reassembler {
            awaiting: self.first_parse,
            buffer: self.parse_buf@,
            fields: self.fields@,
            sum: self.sum,
        }
    }
}

impl Default for Parser {
    fn default() -> (parser: Parser)
        ensures
            parser@ == initial(),
    {
        Parser::new()
    }
}

impl Parser {
    /// A reassembler that has seen no input.
    pub fn new() -> (parser: Parser)
        ensures
            parser@ == initial(),
    {
        Parser { first_parse: true, parse_buf: Vec::new(), fields: VEDirectParse::new(), sum: 0 }
    }

    /// Reads the field that begins at `read_pos` of `data`: the field and the
    /// place where it ends, or why there is none.
    pub fn parse_field(data: &[u8], read_pos: usize) -> (res: Result<(VEField, usize), VEError>)
        ensures
            field_at(data@, read_pos as int) is NeedMore ==> res matches Err(
                VEError::NeedMoreData,
            ),
            field_at(data@, read_pos as int) matches Step::Malformed { reason } ==> res matches Err(
                VEError::Parse(message),
            ) && message@ == reason,
            field_at(data@, read_pos as int) matches Step::Field { label, value, next } ==> res
                matches Ok((field, end)) && field.label@ == decode_utf8(label) && field.value@
                == value && end == next,
    {
        let len = data.len();
        if read_pos >= len || len - read_pos < 2 {
            return Err(VEError::NeedMoreData);
        }
        if data[read_pos] != CR || data[read_pos + 1] != LF {
            return Err(VEError::Parse(String::from_str("Illegal field start")));
        }
        let tab = position(data, read_pos + 2, TAB);
        if tab >= len {
            return Err(VEError::NeedMoreData);
        }
        let label = match text_from_utf8(slice_to_vec(slice_subrange(data, read_pos + 2, tab))) {
            Ok(label) => label,
            Err(why) => {
                let message = String::from_str("label string was invalid ").concat(why.as_str());
                return Err(VEError::Parse(message));
            },
        };
        let start = tab + 1;
        if start >= len {
            return Err(VEError::NeedMoreData);
        }
        if text_eq(label.as_str(), "Checksum") {
            let mut value: Vec<u8> = Vec::new();
            value.push(data[start]);
            assert(value@ =~= seq![data@[start as int]]);
            return Ok((VEField { label, value }, start + 1));
        }
        if data[start] == CR {
            let mut value: Vec<u8> = Vec::new();
            value.push(0);
            assert(value@ =~= seq![0u8]);
            return Ok((VEField { label, value }, start));
        }
        let end = position(data, start, CR);
        if end >= len {
            return Err(VEError::NeedMoreData);
        }
        Ok((VEField { label, value: slice_to_vec(slice_subrange(data, start, end)) }, end))
    }

    /// Drops the input before `from`.
    fn retain_from(&mut self, from: usize)
        requires
            from <= old(self)@.buffer.len(),
        ensures
            final(self)@ == (Reassembler {
                buffer: old(self)@.buffer.skip(from as int),
                ..old(self)@
            }),
    {
        let rest = self.parse_buf.split_off(from);
        self.parse_buf = rest;
        assert(self.parse_buf@ =~= old(self).parse_buf@.skip(from as int));
    }

    /// Goes back to the state of a new reassembler.
    fn reset(&mut self)
        ensures
            final(self)@ == initial(),
    {
        self.parse_buf.clear();
        self.fields = VEDirectParse::new();
        self.sum = 0;
        self.first_parse = true;
    }

    /// One call of the reassembler, without the time of completion.
    fn feed(&mut self, data: &[u8]) -> (res: Result<VEDirectParse, VEError>)
        ensures
            final(self)@ == reassemble(old(self)@, data@).0,
            match reassemble(old(self)@, data@).1 {
                Outcome::Record(record) => res matches Ok(found) && found@ == record,
                Outcome::NeedMoreData => res matches Err(VEError::NeedMoreData),
                Outcome::Malformed(reason) => res matches Err(VEError::Parse(message)) && message@
                    == reason,
            },
    {
        if self.first_parse {
            let at = position(data, 0, CR);
            if at >= data.len() {
                return Err(VEError::NeedMoreData);
            }
            self.parse_buf.extend_from_slice(slice_subrange(data, at, data.len()));
            self.first_parse = false;
            assert(self.parse_buf@ =~= old(self)@.buffer + data@.skip(at as int));
        } else {
            self.parse_buf.extend_from_slice(data);
        }
        let ghost input = self.parse_buf@;
        assert(Some(input) == intake(old(self)@, data@));
        let mut cp: usize = 0;
        loop
            invariant
                cp <= input.len(),
                self.parse_buf@ == input,
                !self.first_parse,
                scan(input, cp as int, self.fields@, self.sum) == scan(
                    input,
                    0,
                    old(self)@.fields,
                    old(self)@.sum,
                ),
                Some(input) == intake(old(self)@, data@),
            decreases input.len() - cp,
        {
            let len = self.parse_buf.len();
            proof {
                lemma_step_bounds(input, cp as int);
            }
            if len - cp >= 2 && self.parse_buf[cp] == COLON && self.parse_buf[cp + 1] == A {
                let end = position(self.parse_buf.as_slice(), cp, CR);
                if end >= len {
                    self.retain_from(cp);
                    return Err(VEError::NeedMoreData);
                }
                cp = end;
            } else if len - cp >= 4 && self.parse_buf[cp] == CR && self.parse_buf[cp + 1] == LF
                && self.parse_buf[cp + 2] == COLON && self.parse_buf[cp + 3] == A {
                let end = position(self.parse_buf.as_slice(), cp + 2, CR);
                if end >= len {
                    self.retain_from(cp);
                    return Err(VEError::NeedMoreData);
                }
                cp = end;
            } else {
                match Self::parse_field(self.parse_buf.as_slice(), cp) {
                    Ok((field, next)) => {
                        let ghost wire = step(input, cp as int)->label;
                        proof {
                            decode_utf8_encode_utf8(wire);
                        }
                        let complete = text_eq(field.label.as_str(), "Checksum");
                        let mut sum = fold_byte(fold_byte(self.sum, CR), LF);
                        sum = fold_bytes(sum, field.label.as_str().as_bytes());
                        sum = fold_byte(sum, TAB);
                        sum = fold_bytes(sum, field.value.as_slice());
                        proof {
                            lemma_fold_sum_wire(self.sum, wire, field.value@);
                        }
                        self.sum = sum;
                        self.fields.insert(field.label, field.value);
                        cp = next;
                        if complete {
                            let mut calc: Vec<u8> = Vec::new();
                            calc.push(sum);
                            assert(calc@ =~= seq![sum]);
                            self.fields.insert(String::from_str("Calc_sum"), calc);
                            let mut record = VEDirectParse::new();
                            core::mem::swap(&mut self.fields, &mut record);
                            self.sum = 0;
                            self.retain_from(cp);
                            return Ok(record);
                        }
                    },
                    Err(VEError::Parse(message)) => {
                        self.reset();
                        return Err(VEError::Parse(message));
                    },
                    Err(_) => {
                        self.retain_from(cp);
                        return Err(VEError::NeedMoreData);
                    },
                }
            }
        }
    }

    /// Takes the next chunk of the stream, as [`parse_slice`](Self::parse_slice)
    /// does, with `now` for the time at which a frame is completed.
    pub fn parse_slice_at(&mut self, data: &[u8], now: i64) -> (res: Result<
        VEDirectParse,
        VEError,
    >)
        ensures
            final(self)@ == reassemble(old(self)@, data@).0,
            match reassemble(old(self)@, data@).1 {
                Outcome::Record(record) => res matches Ok(found) && found@ == record.insert(
                    time_label(),
                    signed_decimal(now as int),
                ),
                Outcome::NeedMoreData => res matches Err(VEError::NeedMoreData),
                Outcome::Malformed(reason) => res matches Err(VEError::Parse(message)) && message@
                    == reason,
            },
    {
        match self.feed(data) {
            Ok(record) => Ok(stamp(record, now)),
            Err(error) => Err(error),
        }
    }

    /// Takes the next chunk of the stream. A completed frame comes back as
    /// its raw record, with the checksum that was computed under `Calc_sum`
    /// and the seconds since the epoch, read from the clock at that moment,
    /// under `Time`. While the frame is incomplete the answer is
    /// `NeedMoreData` and the input is kept; malformed input is answered with
    /// `Parse`, and everything kept so far is dropped.
    pub fn parse_slice(&mut self, data: &[u8]) -> (res: Result<VEDirectParse, VEError>)
        ensures
            final(self)@ == reassemble(old(self)@, data@).0,
            match reassemble(old(self)@, data@).1 {
                Outcome::Record(record) => res matches Ok(found) && exists|now: i64|
                    found@ == record.insert(time_label(), #[trigger] signed_decimal(now as int)),
                Outcome::NeedMoreData => res matches Err(VEError::NeedMoreData),
                Outcome::Malformed(reason) => res matches Err(VEError::Parse(message)) && message@
                    == reason,
            },
    {
        match self.feed(data) {
            Ok(record) => {
                let now = epoch_seconds();
                Ok(stamp(record, now))
            },
            Err(error) => Err(error),
        }
    }
}

/// Folding the anchor, the label, the `TAB` and the value one after another
/// is folding the wire bytes of the field.
proof fn lemma_fold_sum_wire(sum: u8, label: Seq<u8>, value: Seq<u8>)
    ensures
        fold_sum(
            fold_sum(fold_sum(fold_sum(fold_sum(sum, seq![CR]), seq![LF]), label), seq![TAB]),
            value,
        ) == fold_sum(sum, wire_bytes(label, value)),
{
    lemma_byte_sum_concat(seq![CR], seq![LF]);
    assert(seq![CR] + seq![LF] =~= seq![CR, LF]);
    lemma_byte_sum_concat(seq![CR, LF], label);
    lemma_byte_sum_concat(seq![CR, LF] + label, seq![TAB]);
    lemma_byte_sum_concat(seq![CR, LF] + label + seq![TAB], value);
}

} // verus!
