use vedirect::{Parser, VEDirectParse, VEError};

const FRAME: &str =
    "\r\nPID\t0xA053\r\nFW\t159\r\nSER#\tHQ2132QY2KR\r\nV\t12540\r\nI\t40\r\nCS\t3\r\nLOAD\tON\r\nChecksum\t?";

const LABELS: [&str; 10] =
    ["PID", "FW", "SER#", "V", "I", "CS", "LOAD", "Checksum", "Calc_sum", "Time"];

fn same_record(a: &VEDirectParse, b: &VEDirectParse) {
    assert_eq!(a.len(), b.len());
    for label in LABELS {
        assert_eq!(a.get(&label.to_string()), b.get(&label.to_string()), "{}", label);
    }
}

fn whole(frame: &[u8]) -> VEDirectParse {
    Parser::new().parse_slice_at(frame, 1700000000).expect("the frame is complete")
}

fn byte_sum(bytes: &[u8]) -> u8 {
    let mut sum: u32 = 0;
    for byte in bytes {
        sum = (sum + *byte as u32) % 256;
    }
    sum as u8
}

#[test]
fn a_frame_cut_in_two_gives_the_same_record() {
    let frame = FRAME.as_bytes();
    let expected = whole(frame);
    assert_eq!(expected.len(), 10);
    for cut in 0..=frame.len() {
        let mut parser = Parser::new();
        let first = parser.parse_slice_at(&frame[..cut], 1700000000);
        let record = if cut == frame.len() {
            first.expect("the frame is complete")
        } else {
            assert_eq!(first.unwrap_err(), VEError::NeedMoreData, "cut at {}", cut);
            parser.parse_slice_at(&frame[cut..], 1700000000).expect("the frame is complete")
        };
        same_record(&record, &expected);
    }
}

#[test]
fn a_frame_fed_byte_by_byte_gives_the_same_record() {
    let frame = FRAME.as_bytes();
    let expected = whole(frame);
    let mut parser = Parser::new();
    for i in 0..frame.len() - 1 {
        assert_eq!(
            parser.parse_slice_at(&frame[i..i + 1], 1700000000).unwrap_err(),
            VEError::NeedMoreData
        );
    }
    let record = parser.parse_slice_at(&frame[frame.len() - 1..], 1700000000).unwrap();
    same_record(&record, &expected);
}

#[test]
fn empty_chunks_change_nothing() {
    let frame = FRAME.as_bytes();
    let expected = whole(frame);
    let mut parser = Parser::new();
    assert_eq!(parser.parse_slice_at(&[], 1).unwrap_err(), VEError::NeedMoreData);
    assert_eq!(parser.parse_slice_at(&frame[..20], 1).unwrap_err(), VEError::NeedMoreData);
    assert_eq!(parser.parse_slice_at(&[], 1).unwrap_err(), VEError::NeedMoreData);
    let record = parser.parse_slice_at(&frame[20..], 1700000000).unwrap();
    same_record(&record, &expected);
    assert_eq!(parser.parse_slice_at(&[], 1).unwrap_err(), VEError::NeedMoreData);
}

#[test]
fn a_hex_message_between_two_fields_leaves_no_trace() {
    let expected = whole(FRAME.as_bytes());
    let anchors: Vec<usize> =
        FRAME.as_bytes().iter().enumerate().filter(|(_, b)| **b == 13).map(|(i, _)| i).collect();
    assert_eq!(anchors.len(), 8);
    for message in ["\r\n:A", "\r\n:A243434", "\r\n:A4F1000010000000000AD000000AD000000E508AE05139D04FFFF4A"] {
        for at in &anchors {
            let mut with = FRAME.as_bytes()[..*at].to_vec();
            with.extend_from_slice(message.as_bytes());
            with.extend_from_slice(&FRAME.as_bytes()[*at..]);
            same_record(&whole(&with), &expected);
        }
    }
}

#[test]
fn several_hex_messages_in_a_row_are_passed_over() {
    let with = "\r\nPID\t0xA053\r\n:A1\r\n:A22\r\n:A333\r\nFW\t159\r\nChecksum\t?";
    let without = "\r\nPID\t0xA053\r\nFW\t159\r\nChecksum\t?";
    let a = whole(with.as_bytes());
    let b = whole(without.as_bytes());
    assert_eq!(a.len(), 5);
    same_record(&a, &b);
}

#[test]
fn a_hex_message_after_a_frame_is_passed_over_at_the_next_call() {
    let mut parser = Parser::new();
    let first = parser.parse_slice_at("\r\nV\t1\r\nChecksum\tx:A55AA".as_bytes(), 5).unwrap();
    assert_eq!(first.get(&"V".to_string()).unwrap(), "1".as_bytes());
    assert_eq!(first.get(&"Checksum".to_string()).unwrap(), "x".as_bytes());
    assert_eq!(parser.parse_slice_at("77".as_bytes(), 5).unwrap_err(), VEError::NeedMoreData);
    let second = parser.parse_slice_at("\r\nV\t2\r\nChecksum\ty".as_bytes(), 5).unwrap();
    assert_eq!(second.get(&"V".to_string()).unwrap(), "2".as_bytes());
    assert_eq!(second.get(&"Checksum".to_string()).unwrap(), "y".as_bytes());
}

#[test]
fn calc_sum_is_the_sum_of_the_wire_bytes() {
    let record = whole(FRAME.as_bytes());
    assert_eq!(record.get(&"Calc_sum".to_string()).unwrap(), &vec![byte_sum(FRAME.as_bytes())]);
    assert_eq!(byte_sum(FRAME.as_bytes()), 120);

    let short = "\r\nPID\t0x203\r\nChecksum\t0";
    let record = whole(short.as_bytes());
    assert_eq!(record.get(&"Calc_sum".to_string()).unwrap(), &[189]);
    assert_eq!(byte_sum(short.as_bytes()), 189);
}

#[test]
fn calc_sum_leaves_hex_messages_out() {
    let with = "\r\nPID\t0x203\r\n:A243434\r\nChecksum\t0";
    let record = whole(with.as_bytes());
    assert_eq!(record.get(&"Calc_sum".to_string()).unwrap(), &[189]);
}

#[test]
fn calc_sum_is_carried_over_chunks() {
    let short = "\r\nPID\t0x203\r\nV\t7\r\nChecksum\t0".as_bytes();
    let mut parser = Parser::new();
    assert_eq!(parser.parse_slice_at(&short[..15], 0).unwrap_err(), VEError::NeedMoreData);
    let record = parser.parse_slice_at(&short[15..], 0).unwrap();
    assert_eq!(record.get(&"Calc_sum".to_string()).unwrap(), &vec![byte_sum(short)]);
}

#[test]
fn the_checksum_byte_may_be_any_byte() {
    for byte in 0..=255u8 {
        let mut frame = "\r\nV\t1\r\nChecksum\t".as_bytes().to_vec();
        frame.push(byte);
        let record = whole(&frame);
        assert_eq!(record.get(&"Checksum".to_string()).unwrap(), &vec![byte]);
        assert_eq!(record.get(&"Calc_sum".to_string()).unwrap(), &vec![byte_sum(&frame)]);
    }
}

#[test]
fn the_checksum_is_one_byte_whatever_follows() {
    let mut parser = Parser::new();
    let record =
        parser.parse_slice_at("\r\nV\t1\r\nChecksum\tabc\r\nV\t2\r\nChecksum\td".as_bytes(), 0).unwrap();
    assert_eq!(record.get(&"Checksum".to_string()).unwrap(), "a".as_bytes());
    assert_eq!(record.get(&"Calc_sum".to_string()).unwrap(), &vec![byte_sum(b"\r\nV\t1\r\nChecksum\ta")]);
    match parser.parse_slice_at(&[], 0).unwrap_err() {
        VEError::Parse(message) => assert_eq!(message, "Illegal field start"),
        other => panic!("{:?}", other),
    }
}

#[test]
fn an_empty_value_is_one_zero_byte() {
    let record = whole("\r\nV\t\r\nI\t4\r\nChecksum\t?".as_bytes());
    assert_eq!(record.get(&"V".to_string()).unwrap(), &[0]);
    assert_eq!(record.get(&"I".to_string()).unwrap(), "4".as_bytes());
    assert_eq!(
        record.get(&"Calc_sum".to_string()).unwrap(),
        &vec![byte_sum("\r\nV\t\r\nI\t4\r\nChecksum\t?".as_bytes())]
    );
}

#[test]
fn a_label_that_comes_twice_keeps_its_last_value() {
    let record = whole("\r\nV\t1\r\nI\t4\r\nV\t22\r\nChecksum\t?".as_bytes());
    assert_eq!(record.len(), 5);
    assert_eq!(record.get(&"V".to_string()).unwrap(), "22".as_bytes());
    assert_eq!(
        record.get(&"Calc_sum".to_string()).unwrap(),
        &vec![byte_sum("\r\nV\t1\r\nI\t4\r\nV\t22\r\nChecksum\t?".as_bytes())]
    );
}

#[test]
fn what_comes_before_the_first_anchor_is_dropped() {
    let mut parser = Parser::new();
    assert_eq!(parser.parse_slice_at("12\tgarbage".as_bytes(), 0).unwrap_err(), VEError::NeedMoreData);
    assert_eq!(parser.parse_slice_at("more\t".as_bytes(), 0).unwrap_err(), VEError::NeedMoreData);
    let record = parser.parse_slice_at("40\r\nV\t1\r\nChecksum\t?".as_bytes(), 0).unwrap();
    assert_eq!(record.len(), 4);
    assert_eq!(record.get(&"V".to_string()).unwrap(), "1".as_bytes());
}

#[test]
fn a_missing_anchor_is_malformed_and_drops_everything() {
    let mut parser = Parser::new();
    assert_eq!(parser.parse_slice_at("\r\nOLD\t1\r\nV".as_bytes(), 0).unwrap_err(), VEError::NeedMoreData);
    let error = parser.parse_slice_at("\t5\rXV\t1".as_bytes(), 0).unwrap_err();
    assert_eq!(error, VEError::Parse("Illegal field start".to_string()));

    let record = parser.parse_slice_at("junk\r\nI\t2\r\nChecksum\t?".as_bytes(), 0).unwrap();
    assert_eq!(record.len(), 4);
    assert!(record.get(&"OLD".to_string()).is_none());
    assert!(record.get(&"V".to_string()).is_none());
    assert_eq!(record.get(&"I".to_string()).unwrap(), "2".as_bytes());
    assert_eq!(
        record.get(&"Calc_sum".to_string()).unwrap(),
        &vec![byte_sum("\r\nI\t2\r\nChecksum\t?".as_bytes())]
    );
}

#[test]
fn a_label_that_is_not_text_is_malformed() {
    let mut frame = "\r\n".as_bytes().to_vec();
    frame.extend_from_slice(&[0x56, 0xff, 0x41]);
    frame.extend_from_slice("\t1\r\n".as_bytes());
    let expected = format!(
        "label string was invalid {}",
        String::from_utf8(vec![0x56, 0xff, 0x41]).unwrap_err()
    );
    assert!(expected.len() > "label string was invalid ".len());

    let (field, _) = match Parser::parse_field(&frame, 0) {
        Err(VEError::Parse(message)) => (message, 0),
        other => panic!("{:?}", other.map(|(field, at)| (field.label, at))),
    };
    assert_eq!(field, expected);

    let mut parser = Parser::new();
    assert_eq!(parser.parse_slice_at(&frame, 0).unwrap_err(), VEError::Parse(expected));
    let record = parser.parse_slice_at("\r\nI\t2\r\nChecksum\t?".as_bytes(), 0).unwrap();
    assert_eq!(record.len(), 4);
}

#[test]
fn a_label_of_several_bytes_a_character_is_kept() {
    let record = whole("\r\nÜ\t1\r\nChecksum\t?".as_bytes());
    assert_eq!(record.get(&"Ü".to_string()).unwrap(), "1".as_bytes());
    assert_eq!(
        record.get(&"Calc_sum".to_string()).unwrap(),
        &vec![byte_sum("\r\nÜ\t1\r\nChecksum\t?".as_bytes())]
    );
}

#[test]
fn the_time_is_the_clock_reading_in_decimal() {
    for (now, text) in [
        (0i64, "0"),
        (7, "7"),
        (10, "10"),
        (1700000000, "1700000000"),
        (-1, "-1"),
        (-1200, "-1200"),
        (i64::MAX, "9223372036854775807"),
        (i64::MIN, "-9223372036854775808"),
    ] {
        let record = Parser::new().parse_slice_at("\r\nV\t1\r\nChecksum\t?".as_bytes(), now).unwrap();
        assert_eq!(record.get(&"Time".to_string()).unwrap(), text.as_bytes());
    }
}

#[test]
fn the_time_is_read_from_the_clock() {
    let record = Parser::new().parse_slice("\r\nV\t1\r\nChecksum\t?".as_bytes()).unwrap();
    let text = String::from_utf8(record.get(&"Time".to_string()).unwrap().clone()).unwrap();
    let time = text.parse::<i64>().unwrap();
    assert!(time > 1_600_000_000);
    assert!(time < 100_000_000_000);
}

#[test]
fn a_new_parser_and_a_default_parser_behave_alike() {
    let a = Parser::new().parse_slice_at(FRAME.as_bytes(), 3).unwrap();
    let b = Parser::default().parse_slice_at(FRAME.as_bytes(), 3).unwrap();
    same_record(&a, &b);
}

#[test]
fn parse_field_at_the_edges() {
    let data = "\r\nV\t12\r\nI\t\r\nChecksum\t\r".as_bytes();
    let (field, at) = Parser::parse_field(data, 0).unwrap();
    assert_eq!((field.label.as_str(), field.value.as_slice(), at), ("V", "12".as_bytes(), 6));
    let (field, at) = Parser::parse_field(data, 6).unwrap();
    assert_eq!((field.label.as_str(), field.value.as_slice(), at), ("I", &[0u8][..], 10));
    let (field, at) = Parser::parse_field(data, 10).unwrap();
    assert_eq!((field.label.as_str(), field.value.as_slice(), at), ("Checksum", &[13u8][..], 22));
    let (field, at) = Parser::parse_field("\r\nChecksum\t\r\n".as_bytes(), 0).unwrap();
    assert_eq!((field.label.as_str(), field.value.as_slice(), at), ("Checksum", &[13u8][..], 12));

    assert_eq!(Parser::parse_field(data, data.len()).err().unwrap(), VEError::NeedMoreData);
    assert_eq!(Parser::parse_field(data, data.len() - 1).err().unwrap(), VEError::NeedMoreData);
    assert_eq!(Parser::parse_field(data, usize::MAX).err().unwrap(), VEError::NeedMoreData);
    assert_eq!(Parser::parse_field(&[], 0).err().unwrap(), VEError::NeedMoreData);
    assert_eq!(Parser::parse_field("\r\nV".as_bytes(), 0).err().unwrap(), VEError::NeedMoreData);
    assert_eq!(Parser::parse_field("\r\nV\t".as_bytes(), 0).err().unwrap(), VEError::NeedMoreData);
    assert_eq!(Parser::parse_field("\r\nV\t1".as_bytes(), 0).err().unwrap(), VEError::NeedMoreData);
    assert_eq!(
        Parser::parse_field("\rxV\t1\r".as_bytes(), 0).err().unwrap(),
        VEError::Parse("Illegal field start".to_string())
    );
    let (field, at) = Parser::parse_field("\r\nChecksum\tz".as_bytes(), 0).unwrap();
    assert_eq!((field.label.as_str(), field.value.as_slice(), at), ("Checksum", "z".as_bytes(), 12));
    let (field, at) = Parser::parse_field("\r\n\tz\r".as_bytes(), 0).unwrap();
    assert_eq!((field.label.as_str(), field.value.as_slice(), at), ("", "z".as_bytes(), 4));
}

#[test]
fn a_checksum_that_is_a_carriage_return_ends_the_frame() {
    let mut parser = Parser::new();
    let frame = "\r\nV\t1\r\nChecksum\t\r".as_bytes();
    let record = parser.parse_slice_at(frame, 0).unwrap();
    assert_eq!(record.get(&"Checksum".to_string()).unwrap(), &[13]);
    assert_eq!(record.get(&"Calc_sum".to_string()).unwrap(), &vec![byte_sum(frame)]);
    let next = parser.parse_slice_at("\r\nV\t2\r\nChecksum\t\r".as_bytes(), 0).unwrap();
    assert_eq!(next.get(&"V".to_string()).unwrap(), "2".as_bytes());
    assert_eq!(next.get(&"Checksum".to_string()).unwrap(), &[13]);

    let mut parser = Parser::new();
    assert_eq!(
        parser.parse_slice_at("\r\nV\t1\r\nChecksum\t".as_bytes(), 0).unwrap_err(),
        VEError::NeedMoreData
    );
    let record = parser.parse_slice_at("\r".as_bytes(), 0).unwrap();
    assert_eq!(record.get(&"Checksum".to_string()).unwrap(), &[13]);
}
