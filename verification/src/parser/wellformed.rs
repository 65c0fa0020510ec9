//! Frames as a device sends them, and what the reassembler makes of them.
//!
//! A well-formed frame is a run of fields with a `Checksum` field at its end
//! and nowhere else. Of such frames the laws of [`laws`](super::laws) can be
//! said without a word about places in the input: the frame is read whole,
//! its `Calc_sum` is the sum of its bytes, chunk boundaries do not matter,
//! and a hex message before any of its fields leaves no trace.

use super::frame::{
    anchored_hex_at, byte_sum, calc_sum_label, checksum_label, field_at, fold_sum, frame_bytes,
    hex_at, initial, intake, is_hex_message, reaches, reassemble, scan, step, wire_bytes, Outcome,
    Reassembler, Scan, Step,
};
use super::laws::{
    lemma_byte_sum_concat, lemma_find_byte_is, lemma_hex_message_in_first_chunk,
    lemma_outcome_settled, lemma_scan_extended, lemma_scan_moved, lemma_split_chunk,
    lemma_step_bounds, lemma_step_moved, moved,
};
use super::models::{A, COLON, CR, LF, TAB};
use vstd::prelude::*;
use vstd::utf8::{decode_utf8, decode_utf8_encode_utf8, is_ascii_chars_encode_utf8, valid_utf8};

verus! {

/// A field as it stands on the wire.
pub struct WireField {
    pub label: Seq<u8>,
    pub value: Seq<u8>,
}

/// Whether `label` can be the label of a field: text without a `TAB`, which
/// does not begin like a hex message.
pub open spec fn is_label(label: Seq<u8>) -> bool {
    &&& valid_utf8(label)
    &&& forall|i: int| 0 <= i < label.len() ==> label[i] != TAB
    &&& !(label.len() >= 2 && label[0] == COLON && label[1] == A)
}

/// Whether `field` is a field other than `Checksum`, with a value of one
/// byte or more and no `CR` in it.
pub open spec fn is_plain_field(field: WireField) -> bool {
    &&& is_label(field.label)
    &&& decode_utf8(field.label) != checksum_label()
    &&& field.value.len() > 0
    &&& forall|i: int| 0 <= i < field.value.len() ==> field.value[i] != CR
}

/// Whether `field` is a `Checksum` field: its value is one byte, any byte.
pub open spec fn is_checksum_field(field: WireField) -> bool {
    &&& valid_utf8(field.label)
    &&& decode_utf8(field.label) == checksum_label()
    &&& field.value.len() == 1
}

/// Whether `fields` are the fields of one frame: a `Checksum` field at the
/// end, and fields other than `Checksum` before it.
pub open spec fn is_frame(fields: Seq<WireField>) -> bool {
    &&& fields.len() > 0
    &&& is_checksum_field(fields.last())
    &&& forall|i: int| 0 <= i < fields.len() - 1 ==> is_plain_field(#[trigger] fields[i])
}

/// The bytes of the fields on the wire, one field after another.
pub open spec fn frame_of(fields: Seq<WireField>) -> Seq<u8>
    decreases fields.len(),
{
    if fields.len() == 0 {
        Seq::empty()
    } else {
        wire_bytes(fields[0].label, fields[0].value) + frame_of(fields.drop_first())
    }
}

/// The mapping `into` with the fields put into it one after another, each
/// under its label; a later field replaces an earlier one of its label.
pub open spec fn gathered(fields: Seq<WireField>, into: Map<Seq<char>, Seq<u8>>) -> Map<
    Seq<char>,
    Seq<u8>,
>
    decreases fields.len(),
{
    if fields.len() == 0 {
        into
    } else {
        gathered(fields.drop_first(), into.insert(decode_utf8(fields[0].label), fields[0].value))
    }
}

/// The record of a frame: its fields by label, and the sum of its bytes under
/// `Calc_sum`.
pub open spec fn record_of(fields: Seq<WireField>) -> Map<Seq<char>, Seq<u8>> {
    gathered(fields, Map::empty()).insert(calc_sum_label(), seq![fold_sum(0, frame_of(fields))])
}

/// The state of a reassembler after the chunks were fed to it one after
/// another.
pub open spec fn fed(s: Reassembler, chunks: Seq<Seq<u8>>) -> Reassembler
    decreases chunks.len(),
{
    if chunks.len() == 0 {
        s
    } else {
        reassemble(fed(s, chunks.drop_last()), chunks.last()).0
    }
}

/// The state of a reassembler that has read a frame to its end.
pub open spec fn between_frames() -> Reassembler {
    Reassembler { awaiting: false, buffer: Seq::empty(), fields: Map::empty(), sum: 0 }
}

/// The bytes of the label `Checksum`.
proof fn lemma_checksum_label_bytes(label: Seq<u8>)
    requires
        valid_utf8(label),
        decode_utf8(label) == checksum_label(),
    ensures
        label.len() == 8,
        label[0] == 67,
        forall|i: int| 0 <= i < label.len() ==> label[i] != TAB,
{
    decode_utf8_encode_utf8(label);
    reveal_strlit("Checksum");
    let text = "Checksum"@;
    assert(text.len() == 8 && text[0] == 'C' && text[1] == 'h' && text[2] == 'e' && text[3] == 'c'
        && text[4] == 'k' && text[5] == 's' && text[6] == 'u' && text[7] == 'm');
    is_ascii_chars_encode_utf8(text);
}

/// The places of the bytes of a field on the wire.
proof fn lemma_wire_layout(label: Seq<u8>, value: Seq<u8>, after: Seq<u8>)
    ensures
        wire_bytes(label, value).len() == label.len() + value.len() + 3,
        (wire_bytes(label, value) + after)[0] == CR,
        (wire_bytes(label, value) + after)[1] == LF,
        (wire_bytes(label, value) + after)[2 + label.len() as int] == TAB,
        forall|i: int|
            0 <= i < label.len() ==> #[trigger] (wire_bytes(label, value) + after)[2 + i]
                == label[i],
        forall|i: int|
            0 <= i < value.len() ==> #[trigger] (wire_bytes(label, value) + after)[3
                + label.len() as int + i] == value[i],
        forall|i: int|
            0 <= i < after.len() ==> #[trigger] (wire_bytes(label, value) + after)[3
                + label.len() as int + value.len() as int + i] == after[i],
{
}

/// A field of a frame is read as it was written: a field other than
/// `Checksum` where an anchor follows it, and a `Checksum` field whatever
/// follows.
proof fn lemma_step_reads_field(field: WireField, after: Seq<u8>)
    requires
        is_checksum_field(field) || (is_plain_field(field) && after.len() > 0 && after[0] == CR),
    ensures
        step(wire_bytes(field.label, field.value) + after, 0) == (Step::Field {
            label: field.label,
            value: field.value,
            next: wire_bytes(field.label, field.value).len() as int,
        }),
{
    let label = field.label;
    let value = field.value;
    let d = wire_bytes(label, value) + after;
    let tab: int = 2 + label.len() as int;
    lemma_wire_layout(label, value, after);
    if is_checksum_field(field) {
        lemma_checksum_label_bytes(label);
    }
    assert(!hex_at(d, 0));
    assert(!anchored_hex_at(d, 0)) by {
        if label.len() >= 2 {
            assert(d[2] == label[0] && d[3] == label[1]);
        } else if label.len() == 1 {
            assert(d[3] == TAB);
        } else {
            assert(d[2] == TAB);
        }
    }
    assert forall|i: int| 2 <= i < tab implies d[i] != TAB by {
        assert(d[2 + (i - 2)] == label[i - 2]);
    }
    lemma_find_byte_is(d, 2, TAB, tab);
    assert(d.subrange(2, tab) =~= label);
    assert(d[tab + 1] == value[0]) by {
        assert(d[3 + label.len() as int + 0] == value[0]);
    }
    if is_checksum_field(field) {
        assert(seq![d[tab + 1]] =~= value);
    } else {
        let end: int = tab + 1 + value.len() as int;
        assert forall|i: int| tab + 1 <= i < end implies d[i] != CR by {
            assert(d[3 + label.len() as int + (i - tab - 1)] == value[i - tab - 1]);
        }
        assert(d[end] == CR) by {
            assert(d[3 + label.len() as int + value.len() as int + 0] == after[0]);
        }
        lemma_find_byte_is(d, tab + 1, CR, end);
        assert(d.subrange(tab + 1, end) =~= value);
    }
    assert(step(d, 0) == field_at(d, 0));
}

/// A frame begins with a `CR`, and so does what is left of it before each
/// of its fields.
proof fn lemma_frame_begins_with_anchor(fields: Seq<WireField>)
    requires
        fields.len() > 0,
    ensures
        frame_of(fields).len() >= 3,
        frame_of(fields)[0] == CR,
{
    lemma_wire_layout(fields[0].label, fields[0].value, frame_of(fields.drop_first()));
}

/// What follows the first field of a frame of several fields is a frame.
proof fn lemma_rest_is_frame(fields: Seq<WireField>)
    requires
        is_frame(fields),
        fields.len() > 1,
    ensures
        is_frame(fields.drop_first()),
        is_plain_field(fields[0]),
{
    let rest = fields.drop_first();
    assert(rest.last() == fields.last());
    assert forall|i: int| 0 <= i < rest.len() - 1 implies is_plain_field(#[trigger] rest[i]) by {
        assert(rest[i] == fields[i + 1]);
    }
}

/// The frame of fields put together is the frames put together.
proof fn lemma_frame_of_concat(a: Seq<WireField>, b: Seq<WireField>)
    ensures
        frame_of(a + b) == frame_of(a) + frame_of(b),
    decreases a.len(),
{
    if a.len() == 0 {
        assert(a + b =~= b);
        assert(frame_of(a) + frame_of(b) =~= frame_of(b));
    } else {
        assert((a + b).drop_first() =~= a.drop_first() + b);
        lemma_frame_of_concat(a.drop_first(), b);
        assert(frame_of(a + b) =~= frame_of(a) + frame_of(b));
    }
}

/// Folding two runs of bytes one after the other is folding them as one.
proof fn lemma_fold_sum_concat(sum: u8, a: Seq<u8>, b: Seq<u8>)
    ensures
        fold_sum(fold_sum(sum, a), b) == fold_sum(sum, a + b),
{
    lemma_byte_sum_concat(a, b);
}

/// The wire bytes that a scan reads do not depend on what stands before the
/// place it starts from.
proof fn lemma_frame_bytes_moved(head: Seq<u8>, d: Seq<u8>, pos: int)
    requires
        0 <= pos,
    ensures
        frame_bytes(head + d, head.len() + pos) == frame_bytes(d, pos),
    decreases d.len() - pos,
{
    lemma_step_moved(head, d, pos);
    lemma_step_bounds(d, pos);
    match step(d, pos) {
        Step::Skip { next } => {
            lemma_frame_bytes_moved(head, d, next);
        },
        Step::Field { label, value, next } => {
            if decode_utf8(label) != checksum_label() {
                lemma_frame_bytes_moved(head, d, next);
            }
        },
        _ => {},
    }
}

/// Whether a scan reaches a place does not depend on what stands before the
/// place it starts from.
proof fn lemma_reaches_moved(head: Seq<u8>, d: Seq<u8>, pos: int, target: int)
    requires
        0 <= pos,
    ensures
        reaches(head + d, head.len() + pos, head.len() + target) == reaches(d, pos, target),
    decreases d.len() - pos,
{
    lemma_step_moved(head, d, pos);
    lemma_step_bounds(d, pos);
    if pos < target {
        match step(d, pos) {
            Step::Skip { next } => {
                lemma_reaches_moved(head, d, next, target);
            },
            Step::Field { label, value, next } => {
                if decode_utf8(label) != checksum_label() {
                    lemma_reaches_moved(head, d, next, target);
                }
            },
            _ => {},
        }
    }
}

/// A scan that begins at a field other than `Checksum`, with an anchor
/// behind it, reads the field and goes on behind it.
proof fn lemma_scan_reads_plain_field(
    field: WireField,
    after: Seq<u8>,
    into: Map<Seq<char>, Seq<u8>>,
    sum: u8,
)
    requires
        is_plain_field(field),
        after.len() > 0,
        after[0] == CR,
    ensures
        scan(wire_bytes(field.label, field.value) + after, 0, into, sum) == moved(
            scan(
                after,
                0,
                into.insert(decode_utf8(field.label), field.value),
                fold_sum(sum, wire_bytes(field.label, field.value)),
            ),
            wire_bytes(field.label, field.value).len() as int,
        ),
        frame_bytes(wire_bytes(field.label, field.value) + after, 0) == wire_bytes(
            field.label,
            field.value,
        ) + frame_bytes(after, 0),
{
    let wire = wire_bytes(field.label, field.value);
    let held = into.insert(decode_utf8(field.label), field.value);
    let folded = fold_sum(sum, wire);
    lemma_step_reads_field(field, after);
    assert(0 < wire.len() <= (wire + after).len());
    assert(scan(wire + after, 0, into, sum) == scan(wire + after, wire.len() as int, held, folded));
    lemma_scan_moved(wire, after, 0, held, folded);
    assert(frame_bytes(wire + after, 0) == wire + frame_bytes(wire + after, wire.len() as int));
    lemma_frame_bytes_moved(wire, after, 0);
}

/// A scan that begins at a `Checksum` field completes the record.
proof fn lemma_scan_reads_checksum_field(
    field: WireField,
    into: Map<Seq<char>, Seq<u8>>,
    sum: u8,
)
    requires
        is_checksum_field(field),
    ensures
        scan(wire_bytes(field.label, field.value), 0, into, sum) == (Scan::Complete {
            record: into.insert(decode_utf8(field.label), field.value).insert(
                calc_sum_label(),
                seq![fold_sum(sum, wire_bytes(field.label, field.value))],
            ),
            next: wire_bytes(field.label, field.value).len() as int,
        }),
        frame_bytes(wire_bytes(field.label, field.value), 0) == wire_bytes(
            field.label,
            field.value,
        ),
{
    let wire = wire_bytes(field.label, field.value);
    lemma_step_reads_field(field, Seq::empty());
    assert(wire + Seq::<u8>::empty() =~= wire);
}

/// A scan of a frame reads it to its end: the fields are gathered, every
/// byte of the frame is folded into the checksum, and the wire bytes that
/// were read are the frame.
pub proof fn lemma_scan_reads_frame(
    fields: Seq<WireField>,
    into: Map<Seq<char>, Seq<u8>>,
    sum: u8,
)
    requires
        is_frame(fields),
    ensures
        scan(frame_of(fields), 0, into, sum) == (Scan::Complete {
            record: gathered(fields, into).insert(
                calc_sum_label(),
                seq![fold_sum(sum, frame_of(fields))],
            ),
            next: frame_of(fields).len() as int,
        }),
        frame_bytes(frame_of(fields), 0) == frame_of(fields),
    decreases fields.len(),
{
    let first = fields[0];
    let rest = fields.drop_first();
    let wire = wire_bytes(first.label, first.value);
    let held = into.insert(decode_utf8(first.label), first.value);
    if fields.len() == 1 {
        assert(frame_of(rest) =~= Seq::<u8>::empty());
        assert(frame_of(fields) =~= wire);
        assert(gathered(rest, held) == held);
        lemma_scan_reads_checksum_field(first, into, sum);
    } else {
        let folded = fold_sum(sum, wire);
        lemma_rest_is_frame(fields);
        lemma_frame_begins_with_anchor(rest);
        lemma_scan_reads_plain_field(first, frame_of(rest), into, sum);
        lemma_scan_reads_frame(rest, held, folded);
        lemma_fold_sum_concat(sum, wire, frame_of(rest));
        assert(gathered(fields, into) == gathered(rest, held));
    }
}

/// A scan of a frame comes to stand before each of its fields.
pub proof fn lemma_scan_reaches_field(fields: Seq<WireField>, i: int)
    requires
        is_frame(fields),
        0 <= i < fields.len(),
    ensures
        frame_of(fields) == frame_of(fields.take(i)) + frame_of(fields.skip(i)),
        reaches(frame_of(fields), 0, frame_of(fields.take(i)).len() as int),
    decreases fields.len(),
{
    assert(fields.take(i) + fields.skip(i) =~= fields);
    lemma_frame_of_concat(fields.take(i), fields.skip(i));
    if i > 0 {
        let first = fields[0];
        let rest = fields.drop_first();
        let wire = wire_bytes(first.label, first.value);
        lemma_rest_is_frame(fields);
        lemma_frame_begins_with_anchor(rest);
        lemma_step_reads_field(first, frame_of(rest));
        lemma_wire_layout(first.label, first.value, frame_of(rest));
        lemma_scan_reaches_field(rest, i - 1);
        assert(fields.take(i).drop_first() =~= rest.take(i - 1));
        assert(fields.take(i)[0] == first);
        lemma_reaches_moved(wire, frame_of(rest), 0, frame_of(rest.take(i - 1)).len() as int);
    } else {
        assert(frame_of(fields.take(0)) =~= Seq::<u8>::empty());
    }
}

/// The last field is the last to be put into the mapping.
proof fn lemma_gathered_last(fields: Seq<WireField>, into: Map<Seq<char>, Seq<u8>>)
    requires
        fields.len() > 0,
    ensures
        gathered(fields, into) == gathered(fields.drop_last(), into).insert(
            decode_utf8(fields.last().label),
            fields.last().value,
        ),
    decreases fields.len(),
{
    let held = into.insert(decode_utf8(fields[0].label), fields[0].value);
    if fields.len() > 1 {
        let rest = fields.drop_first();
        lemma_gathered_last(rest, held);
        assert(rest.last() == fields.last());
        assert(rest.drop_last() =~= fields.drop_last().drop_first());
        assert(fields.drop_last()[0] == fields[0]);
        assert(gathered(fields.drop_last(), into) == gathered(rest.drop_last(), held));
    } else {
        assert(gathered(fields.drop_first(), held) == held);
        assert(gathered(fields.drop_last(), into) == into);
    }
}

/// A reassembler that has seen no input reads a frame whole: the call gives
/// the record of the frame, whether or not the checksum that the frame
/// brought is the one that was computed, and nothing is kept for the next
/// call. Under `Checksum` the record holds the byte that the frame brought;
/// under `Calc_sum` it holds the sum, modulo 256, of all the bytes of the
/// frame, those of the `Checksum` field among them.
pub proof fn lemma_frame_is_read_whole(fields: Seq<WireField>)
    requires
        is_frame(fields),
    ensures
        reassemble(initial(), frame_of(fields)) == (
            between_frames(),
            Outcome::Record(record_of(fields)),
        ),
        record_of(fields)[calc_sum_label()] == seq![(byte_sum(frame_of(fields)) % 256) as u8],
        record_of(fields)[checksum_label()] == fields.last().value,
{
    let frame = frame_of(fields);
    lemma_frame_begins_with_anchor(fields);
    lemma_find_byte_is(frame, 0, CR, 0);
    assert(Seq::<u8>::empty() + frame.skip(0) =~= frame);
    lemma_scan_reads_frame(fields, Map::empty(), 0);
    assert(frame.skip(frame.len() as int) =~= Seq::<u8>::empty());
    lemma_gathered_last(fields, Map::empty());
    reveal_strlit("Checksum");
    reveal_strlit("Calc_sum");
    assert("Checksum"@[1] == 'h' && "Calc_sum"@[1] == 'a');
}

/// A part of a frame that ends before the frame does leaves the reassembler
/// asking for more.
proof fn lemma_part_needs_more(fields: Seq<WireField>, part: Seq<u8>, rest: Seq<u8>)
    requires
        is_frame(fields),
        part + rest == frame_of(fields),
        rest.len() > 0,
    ensures
        reassemble(initial(), part).1 is NeedMoreData,
{
    lemma_frame_is_read_whole(fields);
    if !(reassemble(initial(), part).1 is NeedMoreData) {
        lemma_outcome_settled(initial(), part, rest);
        lemma_frame_begins_with_anchor(fields);
        let input = intake(initial(), part)->0;
        assert(part.len() > 0);
        assert(part[0] == frame_of(fields)[0]);
        lemma_find_byte_is(part, 0, CR, 0);
        assert(input =~= part);
        lemma_scan_extended(part, rest, 0, Map::empty(), 0);
        lemma_scan_reads_frame(fields, Map::empty(), 0);
    }
}

/// The chunks fed so far, put together, and the chunk that comes next are
/// the chunks fed after it, put together.
proof fn lemma_flatten_take(chunks: Seq<Seq<u8>>, k: int)
    requires
        0 <= k < chunks.len(),
    ensures
        chunks.take(k + 1).flatten() == chunks.take(k).flatten() + chunks[k],
        chunks.flatten() == chunks.take(k + 1).flatten() + chunks.skip(k + 1).flatten(),
{
    assert(chunks.take(k + 1) =~= chunks.take(k).push(chunks[k]));
    chunks.take(k).lemma_flatten_push(chunks[k]);
    assert(chunks.take(k + 1) + chunks.skip(k + 1) =~= chunks);
    vstd::seq_lib::lemma_flatten_concat(chunks.take(k + 1), chunks.skip(k + 1));
}

/// While the chunks fed so far end before the frame does, the reassembler
/// is where one call with all of them would have left it.
proof fn lemma_fed_part(fields: Seq<WireField>, chunks: Seq<Seq<u8>>, k: int)
    requires
        is_frame(fields),
        chunks.flatten() == frame_of(fields),
        0 <= k <= chunks.len(),
        chunks.take(k).flatten().len() < frame_of(fields).len(),
    ensures
        fed(initial(), chunks.take(k)) == reassemble(initial(), chunks.take(k).flatten()).0,
        reassemble(initial(), chunks.take(k).flatten()).1 is NeedMoreData,
    decreases k,
{
    let part = chunks.take(k).flatten();
    if k == 0 {
        assert(chunks.take(0) =~= Seq::<Seq<u8>>::empty());
        assert(part =~= Seq::<u8>::empty());
    } else {
        lemma_flatten_take(chunks, k - 1);
        let before = chunks.take(k - 1).flatten();
        lemma_fed_part(fields, chunks, k - 1);
        assert(chunks.take(k).drop_last() =~= chunks.take(k - 1));
        assert(chunks.take(k).last() == chunks[k - 1]);
        lemma_split_chunk(initial(), before, chunks[k - 1]);
        if k < chunks.len() {
            lemma_flatten_take(chunks, k);
            assert(chunks.flatten() =~= part + (chunks[k] + chunks.skip(k + 1).flatten()));
            lemma_part_needs_more(fields, part, chunks[k] + chunks.skip(k + 1).flatten());
        } else {
            assert(chunks.take(k) =~= chunks);
        }
    }
}

/// Chunk boundaries do not matter to a frame: however the frame is cut into
/// chunks, empty ones among them, and fed to a reassembler that has seen no
/// input, every call before the one that brings the last byte of the frame
/// asks for more data, and that call gives the record, and leaves the state,
/// that one call with the whole frame gives.
pub proof fn lemma_frame_in_chunks(fields: Seq<WireField>, chunks: Seq<Seq<u8>>, k: int)
    requires
        is_frame(fields),
        chunks.flatten() == frame_of(fields),
        0 <= k < chunks.len(),
        chunks.take(k).flatten().len() < frame_of(fields).len(),
    ensures
        chunks.take(k + 1).flatten().len() < frame_of(fields).len() ==> reassemble(
            fed(initial(), chunks.take(k)),
            chunks[k],
        ).1 is NeedMoreData,
        chunks.take(k + 1).flatten().len() == frame_of(fields).len() ==> reassemble(
            fed(initial(), chunks.take(k)),
            chunks[k],
        ) == (between_frames(), Outcome::Record(record_of(fields))),
{
    let frame = frame_of(fields);
    let before = chunks.take(k).flatten();
    let upto = chunks.take(k + 1).flatten();
    lemma_fed_part(fields, chunks, k);
    lemma_flatten_take(chunks, k);
    lemma_split_chunk(initial(), before, chunks[k]);
    if upto.len() < frame.len() {
        lemma_fed_part(fields, chunks, k + 1);
    } else {
        assert(chunks.skip(k + 1).flatten().len() == 0);
        assert(upto =~= frame);
        lemma_frame_is_read_whole(fields);
    }
}

/// A hex message before any field of a frame leaves no trace: the frame
/// with the message gives the record of the frame without it, whatever the
/// length of the message. No byte of the message is in a value or in the
/// checksum.
pub proof fn lemma_hex_message_in_frame(fields: Seq<WireField>, i: int, message: Seq<u8>)
    requires
        is_frame(fields),
        0 <= i < fields.len(),
        is_hex_message(message),
    ensures
        frame_of(fields) == frame_of(fields.take(i)) + frame_of(fields.skip(i)),
        reassemble(initial(), frame_of(fields.take(i)) + message + frame_of(fields.skip(i))).1
            == Outcome::Record(record_of(fields)),
{
    let head = frame_of(fields.take(i));
    let tail = frame_of(fields.skip(i));
    lemma_scan_reaches_field(fields, i);
    lemma_frame_begins_with_anchor(fields.skip(i));
    lemma_frame_begins_with_anchor(fields);
    lemma_hex_message_in_first_chunk(head, message, tail);
    lemma_frame_is_read_whole(fields);
}

} // verus!
