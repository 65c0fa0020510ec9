//! What holds of the wire format: however the stream is cut into chunks the
//! records are the same, hex messages leave no trace, and the computed
//! checksum is the sum of the wire bytes of the fields.

use super::frame::{
    anchored_hex_at, byte_sum, calc_sum_label, checksum_label, field_at, find_byte, fold_sum,
    frame_bytes, hex_at, initial, intake, is_hex_message, reaches, reassemble, reassemble_all,
    scan, settle, step, wire_bytes, Outcome, Reassembler, Scan, Step,
};
use super::models::{A, COLON, CR, LF, TAB};
use vstd::prelude::*;
use vstd::utf8::{decode_utf8, valid_utf8};

verus! {

/// What `find_byte` finds: nothing before it is the byte, and the byte stands
/// there unless the end was reached.
pub proof fn lemma_find_byte(s: Seq<u8>, from: int, byte: u8)
    requires
        0 <= from <= s.len(),
    ensures
        from <= find_byte(s, from, byte) <= s.len(),
        forall|i: int| from <= i < find_byte(s, from, byte) ==> s[i] != byte,
        find_byte(s, from, byte) < s.len() ==> s[find_byte(s, from, byte)] == byte,
    decreases s.len() - from,
{
    if from < s.len() && s[from] != byte {
        lemma_find_byte(s, from + 1, byte);
    }
}

/// A place with the properties of [`lemma_find_byte`] is what `find_byte`
/// finds.
pub proof fn lemma_find_byte_is(s: Seq<u8>, from: int, byte: u8, at: int)
    requires
        0 <= from <= at <= s.len(),
        forall|i: int| from <= i < at ==> s[i] != byte,
        at < s.len() ==> s[at] == byte,
    ensures
        find_byte(s, from, byte) == at,
    decreases at - from,
{
    if from < at {
        lemma_find_byte_is(s, from + 1, byte, at);
    }
}

/// The byte sum of a concatenation is the sum of the byte sums.
pub proof fn lemma_byte_sum_concat(a: Seq<u8>, b: Seq<u8>)
    ensures
        byte_sum(a + b) == byte_sum(a) + byte_sum(b),
    decreases b.len(),
{
    if b.len() == 0 {
        assert(a + b =~= a);
    } else {
        assert((a + b).drop_last() =~= a + b.drop_last());
        lemma_byte_sum_concat(a, b.drop_last());
    }
}

/// Whatever stands at a place ends behind it and within the input.
pub proof fn lemma_step_bounds(d: Seq<u8>, pos: int)
    requires
        0 <= pos,
    ensures
        step(d, pos) matches Step::Skip { next } ==> pos + 2 <= next < d.len() && d[next] == CR,
        step(d, pos) matches Step::Field { label, value, next } ==> pos + 3 <= next <= d.len()
            && value.len() >= 1,
{
    if hex_at(d, pos) {
        lemma_find_byte(d, pos, CR);
    } else if anchored_hex_at(d, pos) {
        lemma_find_byte(d, pos + 2, CR);
    } else if pos + 1 < d.len() {
        lemma_find_byte(d, pos + 2, TAB);
        let tab = find_byte(d, pos + 2, TAB);
        if tab + 1 < d.len() {
            lemma_find_byte(d, tab + 1, CR);
        }
    }
}

/// The place and the positions of a result moved `by` bytes to the right.
pub open spec fn moved_step(found: Step, by: int) -> Step {
    match found {
        Step::Skip { next } => Step::Skip { next: next + by },
        Step::Field { label, value, next } => Step::Field { label, value, next: next + by },
        Step::NeedMore => Step::NeedMore,
        Step::Malformed { reason } => Step::Malformed { reason },
    }
}

/// The positions of the end of a scan moved `by` bytes to the right.
pub open spec fn moved(end: Scan, by: int) -> Scan {
    match end {
        Scan::Complete { record, next } => Scan::Complete { record, next: next + by },
        Scan::NeedMore { from, fields, sum } => Scan::NeedMore { from: from + by, fields, sum },
        Scan::Malformed { reason } => Scan::Malformed { reason },
    }
}

/// `find_byte` does not look at what stands before the place it starts from.
pub proof fn lemma_find_byte_moved(head: Seq<u8>, d: Seq<u8>, from: int, byte: u8)
    requires
        0 <= from <= d.len(),
    ensures
        find_byte(head + d, head.len() + from, byte) == head.len() + find_byte(d, from, byte),
{
    lemma_find_byte(d, from, byte);
    let at = find_byte(d, from, byte);
    lemma_find_byte_is(head + d, head.len() + from, byte, head.len() + at);
}

/// What was found in the input is found in any input that continues it.
pub proof fn lemma_find_byte_extended(d: Seq<u8>, more: Seq<u8>, from: int, byte: u8)
    requires
        0 <= from <= d.len(),
        find_byte(d, from, byte) < d.len(),
    ensures
        find_byte(d + more, from, byte) == find_byte(d, from, byte),
{
    lemma_find_byte(d, from, byte);
    lemma_find_byte_is(d + more, from, byte, find_byte(d, from, byte));
}

/// What stands at a place, once its end has arrived, is not changed by
/// further input.
pub proof fn lemma_step_extended(d: Seq<u8>, more: Seq<u8>, pos: int)
    requires
        0 <= pos,
        !(step(d, pos) is NeedMore),
    ensures
        step(d + more, pos) == step(d, pos),
{
    let e = d + more;
    if hex_at(d, pos) {
        lemma_find_byte_extended(d, more, pos, CR);
    } else if anchored_hex_at(d, pos) {
        assert(!hex_at(e, pos));
        lemma_find_byte_extended(d, more, pos + 2, CR);
    } else {
        assert(pos + 1 < d.len());
        assert(!hex_at(e, pos));
        if d[pos] == CR && d[pos + 1] == LF {
            lemma_find_byte(d, pos + 2, TAB);
            let tab = find_byte(d, pos + 2, TAB);
            assert(tab < d.len());
            assert(!anchored_hex_at(e, pos)) by {
                if anchored_hex_at(e, pos) {
                    assert(pos + 3 >= d.len());
                    if pos + 2 < d.len() {
                        assert(d[pos + 2] == e[pos + 2]);
                    }
                }
            }
            lemma_find_byte_extended(d, more, pos + 2, TAB);
            assert(e.subrange(pos + 2, tab) =~= d.subrange(pos + 2, tab));
            if tab + 1 < d.len() {
                assert(e[tab + 1] == d[tab + 1]);
                let label = d.subrange(pos + 2, tab);
                if valid_utf8(label) && d[tab + 1] != CR && decode_utf8(label) != checksum_label() {
                    lemma_find_byte(d, tab + 1, CR);
                    lemma_find_byte_extended(d, more, tab + 1, CR);
                    let end = find_byte(d, tab + 1, CR);
                    assert(e.subrange(tab + 1, end) =~= d.subrange(tab + 1, end));
                }
            }
        } else {
            assert(!anchored_hex_at(e, pos));
        }
    }
}

/// What stands at a place does not depend on what stands before it.
pub proof fn lemma_step_moved(head: Seq<u8>, d: Seq<u8>, pos: int)
    requires
        0 <= pos,
    ensures
        step(head + d, head.len() + pos) == moved_step(step(d, pos), head.len() as int),
{
    let e = head + d;
    let by = head.len() as int;
    assert(forall|i: int| 0 <= i < d.len() ==> e[by + i] == d[i]);
    if hex_at(d, pos) {
        lemma_find_byte_moved(head, d, pos, CR);
    } else if anchored_hex_at(d, pos) {
        lemma_find_byte_moved(head, d, pos + 2, CR);
    } else if pos + 1 < d.len() {
        assert(!hex_at(e, by + pos));
        assert(!anchored_hex_at(e, by + pos)) by {
            if pos + 3 < d.len() {
                assert(e[by + pos + 2] == d[pos + 2]);
                assert(e[by + pos + 3] == d[pos + 3]);
            }
        }
        if d[pos] == CR && d[pos + 1] == LF {
            lemma_find_byte(d, pos + 2, TAB);
            lemma_find_byte_moved(head, d, pos + 2, TAB);
            let tab = find_byte(d, pos + 2, TAB);
            assert(e.subrange(by + pos + 2, by + tab) =~= d.subrange(pos + 2, tab));
            if tab + 1 < d.len() {
                lemma_find_byte(d, tab + 1, CR);
                lemma_find_byte_moved(head, d, tab + 1, CR);
                let end = find_byte(d, tab + 1, CR);
                assert(e.subrange(by + tab + 1, by + end) =~= d.subrange(tab + 1, end));
            }
        }
    } else {
        assert(!hex_at(e, by + pos));
        assert(!anchored_hex_at(e, by + pos));
    }
}

/// A scan does not depend on what stands before the place it starts from.
pub proof fn lemma_scan_moved(
    head: Seq<u8>,
    d: Seq<u8>,
    pos: int,
    fields: Map<Seq<char>, Seq<u8>>,
    sum: u8,
)
    requires
        0 <= pos,
    ensures
        scan(head + d, head.len() + pos, fields, sum) == moved(
            scan(d, pos, fields, sum),
            head.len() as int,
        ),
    decreases d.len() - pos,
{
    lemma_step_moved(head, d, pos);
    lemma_step_bounds(d, pos);
    match step(d, pos) {
        Step::Skip { next } => {
            lemma_scan_moved(head, d, next, fields, sum);
        },
        Step::Field { label, value, next } => {
            if decode_utf8(label) != checksum_label() {
                lemma_scan_moved(
                    head,
                    d,
                    next,
                    fields.insert(decode_utf8(label), value),
                    fold_sum(sum, wire_bytes(label, value)),
                );
            }
        },
        _ => {},
    }
}

/// Where a scan ends, and what it has gathered there, once further input
/// arrives: a completed frame and malformed input stay what they are, and a
/// scan that ran out of input goes on from the place where it stopped.
pub proof fn lemma_scan_extended(
    d: Seq<u8>,
    more: Seq<u8>,
    pos: int,
    fields: Map<Seq<char>, Seq<u8>>,
    sum: u8,
)
    requires
        0 <= pos <= d.len(),
    ensures
        match scan(d, pos, fields, sum) {
            Scan::NeedMore { from, fields: kept, sum: folded } => pos <= from <= d.len() && scan(
                d + more,
                pos,
                fields,
                sum,
            ) == scan(d + more, from, kept, folded),
            Scan::Complete { record, next } => 0 <= next <= d.len() && scan(
                d + more,
                pos,
                fields,
                sum,
            ) == scan(d, pos, fields, sum),
            Scan::Malformed { reason } => scan(d + more, pos, fields, sum) == scan(
                d,
                pos,
                fields,
                sum,
            ),
        },
    decreases d.len() - pos,
{
    lemma_step_bounds(d, pos);
    if !(step(d, pos) is NeedMore) {
        lemma_step_extended(d, more, pos);
    }
    match step(d, pos) {
        Step::Skip { next } => {
            lemma_scan_extended(d, more, next, fields, sum);
        },
        Step::Field { label, value, next } => {
            if decode_utf8(label) != checksum_label() {
                lemma_scan_extended(
                    d,
                    more,
                    next,
                    fields.insert(decode_utf8(label), value),
                    fold_sum(sum, wire_bytes(label, value)),
                );
            }
        },
        _ => {},
    }
}

/// A scan that ran out of input, taken up again with the input that was kept
/// and the input that came after, ends as a scan of the whole would.
pub proof fn lemma_scan_resumed(
    d: Seq<u8>,
    more: Seq<u8>,
    fields: Map<Seq<char>, Seq<u8>>,
    sum: u8,
)
    ensures
        scan(d, 0, fields, sum) matches Scan::NeedMore { from, fields: kept, sum: folded } ==> 0
            <= from <= d.len() && scan(d + more, 0, fields, sum) == moved(
            scan(d.skip(from) + more, 0, kept, folded),
            from,
        ),
{
    lemma_scan_extended(d, more, 0, fields, sum);
    if let Scan::NeedMore { from, fields: kept, sum: folded } = scan(d, 0, fields, sum) {
        assert(d.take(from) + (d.skip(from) + more) =~= d + more);
        lemma_scan_moved(d.take(from), d.skip(from) + more, 0, kept, folded);
    }
}

/// While the first anchor is awaited and a chunk holds none, the chunk is
/// dropped whole; the input to scan is otherwise continued by what follows.
proof fn lemma_intake_split(s: Reassembler, a: Seq<u8>, b: Seq<u8>)
    ensures
        intake(s, a) matches Some(input) ==> intake(s, a + b) == Some(input + b),
        intake(s, a) is None ==> intake(s, a + b) == intake(s, b),
{
    if s.awaiting {
        let at = find_byte(a, 0, CR);
        if at < a.len() {
            lemma_find_byte(a, 0, CR);
            lemma_find_byte_extended(a, b, 0, CR);
            assert((a + b).skip(at) =~= a.skip(at) + b);
            assert(s.buffer + (a.skip(at) + b) =~= s.buffer + a.skip(at) + b);
        } else {
            lemma_find_byte(a, 0, CR);
            lemma_find_byte_moved(a, b, 0, CR);
            let found = find_byte(b, 0, CR);
            lemma_find_byte(b, 0, CR);
            lemma_find_byte_is(a + b, 0, CR, a.len() + found);
            if found < b.len() {
                assert((a + b).skip(a.len() + found) =~= b.skip(found));
            }
        }
    } else {
        assert(s.buffer + (a + b) =~= s.buffer + a + b);
    }
}

/// Dropping what was consumed does not depend on how much was dropped
/// before.
proof fn lemma_settle_moved(input: Seq<u8>, more: Seq<u8>, from: int, end: Scan)
    requires
        0 <= from <= input.len(),
        match end {
            Scan::Complete { record, next } => 0 <= next <= input.len() - from + more.len(),
            Scan::NeedMore { from: stop, fields, sum } => 0 <= stop <= input.len() - from
                + more.len(),
            Scan::Malformed { reason } => true,
        },
    ensures
        settle(input + more, moved(end, from)) == settle(input.skip(from) + more, end),
{
    let rest = input.skip(from) + more;
    match end {
        Scan::Complete { record, next } => {
            assert(rest.skip(next) =~= (input + more).skip(next + from));
        },
        Scan::NeedMore { from: stop, fields, sum } => {
            assert(rest.skip(stop) =~= (input + more).skip(stop + from));
        },
        Scan::Malformed { reason } => {},
    }
}

/// Cutting a chunk in two changes nothing: where the first part leaves the
/// reassembler asking for more, the second part takes it to the state and to
/// the outcome that the whole chunk gives.
pub proof fn lemma_split_chunk(s: Reassembler, a: Seq<u8>, b: Seq<u8>)
    requires
        reassemble(s, a).1 is NeedMoreData,
    ensures
        reassemble(reassemble(s, a).0, b) == reassemble(s, a + b),
{
    lemma_intake_split(s, a, b);
    match intake(s, a) {
        None => {},
        Some(input) => {
            lemma_scan_resumed(input, b, s.fields, s.sum);
            match scan(input, 0, s.fields, s.sum) {
                Scan::NeedMore { from, fields, sum } => {
                    let after = reassemble(s, a).0;
                    let rest = input.skip(from) + b;
                    assert(intake(after, b) == Some(rest));
                    let end = scan(rest, 0, fields, sum);
                    lemma_scan_extended(rest, Seq::empty(), 0, fields, sum);
                    lemma_settle_moved(input, b, from, end);
                    assert(reassemble(after, b) == settle(rest, end));
                    assert(reassemble(s, a + b) == settle(input + b, moved(end, from)));
                },
                _ => {},
            }
        },
    }
}

/// A record, once complete, and a rejection, once made, do not depend on
/// what the chunk holds after them.
pub proof fn lemma_outcome_settled(s: Reassembler, a: Seq<u8>, b: Seq<u8>)
    requires
        !(reassemble(s, a).1 is NeedMoreData),
    ensures
        reassemble(s, a + b).1 == reassemble(s, a).1,
{
    lemma_intake_split(s, a, b);
    match intake(s, a) {
        None => {},
        Some(input) => {
            lemma_scan_extended(input, b, 0, s.fields, s.sum);
        },
    }
}

/// Chunk boundaries do not matter: however a stream is cut into chunks,
/// feeding them one after another until a call completes a record or
/// rejects the input gives the outcome of feeding the stream in one call.
pub proof fn lemma_chunking_is_immaterial(s: Reassembler, chunks: Seq<Seq<u8>>)
    requires
        chunks.len() > 0,
    ensures
        reassemble_all(s, chunks) == reassemble(s, chunks.flatten()).1,
    decreases chunks.len(),
{
    let first = chunks[0];
    let rest = chunks.drop_first();
    assert(chunks =~= seq![first] + rest);
    vstd::seq_lib::lemma_flatten_concat(seq![first], rest);
    seq![first].lemma_flatten_one_element();
    assert(chunks.flatten() =~= first + rest.flatten());
    if chunks.len() == 1 {
        assert(rest.flatten() =~= Seq::<u8>::empty());
        assert(first + rest.flatten() =~= first);
    } else if reassemble(s, first).1 is NeedMoreData {
        lemma_chunking_is_immaterial(reassemble(s, first).0, rest);
        lemma_split_chunk(s, first, rest.flatten());
    } else {
        lemma_outcome_settled(s, first, rest.flatten());
    }
}

/// The checksum that a completed record holds under `Calc_sum` is the sum,
/// modulo 256, of the wire bytes (`CR LF label TAB value`) of every field of
/// the frame, the `Checksum` field among them, on top of what was folded
/// before the scan began.
pub proof fn lemma_calc_sum_is_wire_sum(
    d: Seq<u8>,
    pos: int,
    fields: Map<Seq<char>, Seq<u8>>,
    sum: u8,
)
    requires
        0 <= pos,
    ensures
        scan(d, pos, fields, sum) matches Scan::Complete { record, next } ==> record.dom().contains(
            calc_sum_label(),
        ) && record[calc_sum_label()] == seq![fold_sum(sum, frame_bytes(d, pos))],
    decreases d.len() - pos,
{
    lemma_step_bounds(d, pos);
    match step(d, pos) {
        Step::Skip { next } => {
            lemma_calc_sum_is_wire_sum(d, next, fields, sum);
        },
        Step::Field { label, value, next } => {
            if decode_utf8(label) != checksum_label() {
                let folded = fold_sum(sum, wire_bytes(label, value));
                lemma_calc_sum_is_wire_sum(
                    d,
                    next,
                    fields.insert(decode_utf8(label), value),
                    folded,
                );
                lemma_byte_sum_concat(wire_bytes(label, value), frame_bytes(d, next));
            }
        },
        _ => {},
    }
}

/// What stands at a place and ends before `n` is found in the first `n`
/// bytes alone.
proof fn lemma_step_truncated(d: Seq<u8>, n: int, pos: int)
    requires
        0 <= pos,
        n <= d.len(),
        match step(d, pos) {
            Step::Skip { next } => next < n,
            Step::Field { label, value, next } => next < n,
            _ => false,
        },
    ensures
        step(d.take(n), pos) == step(d, pos),
{
    let t = d.take(n);
    lemma_step_bounds(d, pos);
    if hex_at(d, pos) {
        lemma_find_byte(d, pos, CR);
        lemma_find_byte_is(t, pos, CR, find_byte(d, pos, CR));
    } else if anchored_hex_at(d, pos) {
        lemma_find_byte(d, pos + 2, CR);
        lemma_find_byte_is(t, pos + 2, CR, find_byte(d, pos + 2, CR));
    } else {
        assert(step(d, pos) == field_at(d, pos));
        lemma_find_byte(d, pos + 2, TAB);
        let tab = find_byte(d, pos + 2, TAB);
        lemma_find_byte(d, tab + 1, CR);
        lemma_find_byte_is(t, pos + 2, TAB, tab);
        assert(t.subrange(pos + 2, tab) =~= d.subrange(pos + 2, tab));
        if d[tab + 1] != CR && decode_utf8(d.subrange(pos + 2, tab)) != checksum_label() {
            lemma_find_byte(d, tab + 1, CR);
            let end = find_byte(d, tab + 1, CR);
            lemma_find_byte_is(t, tab + 1, CR, end);
            assert(t.subrange(tab + 1, end) =~= d.subrange(tab + 1, end));
        }
    }
}

/// A hex message at the place where the scan stands is passed over.
proof fn lemma_hex_message_skipped(
    head: Seq<u8>,
    message: Seq<u8>,
    tail: Seq<u8>,
    fields: Map<Seq<char>, Seq<u8>>,
    sum: u8,
)
    requires
        is_hex_message(message),
        tail.len() > 0,
        tail[0] == CR,
    ensures
        scan(head + message + tail, head.len() as int, fields, sum) == moved(
            scan(head + tail, head.len() as int, fields, sum),
            message.len() as int,
        ),
{
    let with = head + message + tail;
    let at = head.len() as int;
    assert(anchored_hex_at(with, at)) by {
        assert(with[at] == message[0]);
        assert(with[at + 1] == message[1]);
        assert(with[at + 2] == message[2]);
        assert(with[at + 3] == message[3]);
    }
    assert(!hex_at(with, at));
    assert forall|i: int| at + 2 <= i < at + message.len() implies with[i] != CR by {
        assert(with[i] == message[i - at]);
    }
    assert(with[at + message.len()] == tail[0]);
    lemma_find_byte_is(with, at + 2, CR, at + message.len());
    assert(step(with, at) == Step::Skip { next: at + message.len() });
    assert(scan(with, at, fields, sum) == scan(with, at + message.len(), fields, sum));
    lemma_scan_moved(head + message, tail, 0, fields, sum);
    lemma_scan_moved(head, tail, 0, fields, sum);
}

/// What stands before a hex message, and ends where the message begins or
/// earlier, is read the same with the message and without it.
proof fn lemma_step_before_message(head: Seq<u8>, message: Seq<u8>, tail: Seq<u8>, pos: int)
    requires
        is_hex_message(message),
        tail.len() > 0,
        tail[0] == CR,
        0 <= pos,
        match step(head + tail, pos) {
            Step::Skip { next } => next <= head.len(),
            Step::Field { label, value, next } => next <= head.len(),
            _ => false,
        },
    ensures
        step(head + message + tail, pos) == step(head + tail, pos),
{
    let with = head + message + tail;
    let without = head + tail;
    let n = head.len() as int + 1;
    lemma_step_truncated(without, n, pos);
    assert(with.take(n) =~= without.take(n)) by {
        assert(with[n - 1] == message[0]);
        assert(without[n - 1] == tail[0]);
    }
    lemma_step_extended(with.take(n), with.skip(n), pos);
    assert(with.take(n) + with.skip(n) =~= with);
}

/// A hex message leaves no trace, seen from any place before it.
proof fn lemma_hex_message_passed(
    head: Seq<u8>,
    message: Seq<u8>,
    tail: Seq<u8>,
    pos: int,
    fields: Map<Seq<char>, Seq<u8>>,
    sum: u8,
)
    requires
        is_hex_message(message),
        tail.len() > 0,
        tail[0] == CR,
        0 <= pos <= head.len(),
        reaches(head + tail, pos, head.len() as int),
    ensures
        scan(head + message + tail, pos, fields, sum) == moved(
            scan(head + tail, pos, fields, sum),
            message.len() as int,
        ),
    decreases head.len() - pos,
{
    let with = head + message + tail;
    let without = head + tail;
    let at = head.len() as int;
    if pos == at {
        lemma_hex_message_skipped(head, message, tail, fields, sum);
    } else {
        lemma_step_bounds(without, pos);
        match step(without, pos) {
            Step::Skip { next } => {
                assert(next <= at) by {
                    if next > at {
                        assert(!reaches(without, next, at));
                    }
                }
                lemma_step_before_message(head, message, tail, pos);
                lemma_hex_message_passed(head, message, tail, next, fields, sum);
            },
            Step::Field { label, value, next } => {
                assert(next <= at) by {
                    if next > at {
                        assert(!reaches(without, next, at));
                    }
                }
                lemma_step_before_message(head, message, tail, pos);
                lemma_hex_message_passed(
                    head,
                    message,
                    tail,
                    next,
                    fields.insert(decode_utf8(label), value),
                    fold_sum(sum, wire_bytes(label, value)),
                );
            },
            _ => {},
        }
    }
}

/// A hex message between two fields leaves no trace: the input with the
/// message at a place where a field could start, and the next anchor behind
/// it, is read as the input without the message is. The fields, the
/// checksum and the record are the same; only the places lie further on by
/// the length of the message.
pub proof fn lemma_hex_message_is_transparent(
    head: Seq<u8>,
    message: Seq<u8>,
    tail: Seq<u8>,
    fields: Map<Seq<char>, Seq<u8>>,
    sum: u8,
)
    requires
        is_hex_message(message),
        tail.len() > 0,
        tail[0] == CR,
        reaches(head + tail, 0, head.len() as int),
    ensures
        scan(head + message + tail, 0, fields, sum) == moved(
            scan(head + tail, 0, fields, sum),
            message.len() as int,
        ),
{
    lemma_hex_message_passed(head, message, tail, 0, fields, sum);
}

/// Seen from the reassembler, whatever its state: a chunk with a hex message
/// between two fields has the outcome of the chunk without the message. The
/// place of the message is one that the scan of the input without it comes
/// to stand at; where the first anchor is still awaited, the input begins at
/// the first `CR` of the chunk.
pub proof fn lemma_hex_message_in_chunk(
    s: Reassembler,
    head: Seq<u8>,
    message: Seq<u8>,
    tail: Seq<u8>,
)
    requires
        is_hex_message(message),
        tail.len() > 0,
        tail[0] == CR,
        intake(s, head + tail) matches Some(input) && reaches(
            input,
            0,
            input.len() - tail.len(),
        ),
    ensures
        reassemble(s, head + message + tail).1 == reassemble(s, head + tail).1,
{
    if s.awaiting {
        let at = find_byte(head + tail, 0, CR);
        lemma_find_byte(head + tail, 0, CR);
        assert(at <= head.len()) by {
            assert((head + tail)[head.len() as int] == tail[0]);
        }
        assert(find_byte(head + message + tail, 0, CR) == at) by {
            let with = head + message + tail;
            assert forall|i: int| 0 <= i < at implies with[i] != CR by {
                assert(with[i] == (head + tail)[i]);
            }
            if at < head.len() {
                assert(with[at] == (head + tail)[at]);
            } else {
                assert(with[at] == message[0]);
            }
            lemma_find_byte_is(with, 0, CR, at);
        }
        let kept = s.buffer + head.skip(at);
        assert(s.buffer + (head + message + tail).skip(at) =~= kept + message + tail);
        assert(s.buffer + (head + tail).skip(at) =~= kept + tail);
        lemma_hex_message_is_transparent(kept, message, tail, s.fields, s.sum);
    } else {
        assert(s.buffer + (head + message + tail) =~= (s.buffer + head) + message + tail);
        assert(s.buffer + (head + tail) =~= (s.buffer + head) + tail);
        lemma_hex_message_is_transparent(s.buffer + head, message, tail, s.fields, s.sum);
    }
}

/// For a reassembler that has seen no input and a chunk that begins at its
/// first `CR`: the chunk with a hex message between two fields has the
/// outcome of the chunk without the message.
pub proof fn lemma_hex_message_in_first_chunk(head: Seq<u8>, message: Seq<u8>, tail: Seq<u8>)
    requires
        is_hex_message(message),
        tail.len() > 0,
        tail[0] == CR,
        (head + tail)[0] == CR,
        reaches(head + tail, 0, head.len() as int),
    ensures
        reassemble(initial(), head + message + tail).1 == reassemble(initial(), head + tail).1,
{
    lemma_find_byte_is(head + tail, 0, CR, 0);
    assert(Seq::<u8>::empty() + (head + tail).skip(0) =~= head + tail);
    lemma_hex_message_in_chunk(initial(), head, message, tail);
}

/// Seen from the reassembler: the `Calc_sum` of a record is the sum, modulo
/// 256, of the wire bytes of the fields that the call read, on top of the
/// checksum over the fields that earlier calls read.
pub proof fn lemma_calc_sum_of_record(s: Reassembler, chunk: Seq<u8>)
    ensures
        reassemble(s, chunk).1 matches Outcome::Record(record) ==> intake(s, chunk) matches Some(
            input,
        ) && record.dom().contains(calc_sum_label()) && record[calc_sum_label()] == seq![
            fold_sum(s.sum, frame_bytes(input, 0)),
        ],
{
    match intake(s, chunk) {
        Some(input) => {
            lemma_calc_sum_is_wire_sum(input, 0, s.fields, s.sum);
        },
        None => {},
    }
}

/// A completed record holds the checksum that the frame brought and the
/// checksum that was computed, one byte each.
pub proof fn lemma_record_holds_checksums(
    d: Seq<u8>,
    pos: int,
    fields: Map<Seq<char>, Seq<u8>>,
    sum: u8,
)
    requires
        0 <= pos,
    ensures
        scan(d, pos, fields, sum) matches Scan::Complete { record, next } ==> record.dom().contains(
            checksum_label(),
        ) && record[checksum_label()].len() == 1 && record.dom().contains(calc_sum_label())
            && record[calc_sum_label()].len() == 1,
    decreases d.len() - pos,
{
    lemma_step_bounds(d, pos);
    match step(d, pos) {
        Step::Skip { next } => {
            lemma_record_holds_checksums(d, next, fields, sum);
        },
        Step::Field { label, value, next } => {
            if decode_utf8(label) != checksum_label() {
                lemma_record_holds_checksums(
                    d,
                    next,
                    fields.insert(decode_utf8(label), value),
                    fold_sum(sum, wire_bytes(label, value)),
                );
            } else {
                reveal_strlit("Checksum");
                reveal_strlit("Calc_sum");
                assert("Checksum"@[1] == 'h' && "Calc_sum"@[1] == 'a');
            }
        },
        _ => {},
    }
}

} // verus!
