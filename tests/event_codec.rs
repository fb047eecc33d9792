use zerofs::error::DecodeError;
use zerofs::event::{Event, Id, Value, FRAME_LEN};

#[test]
fn mod_test_decode_event() {
    let input = vec![0x12, 0x34, 0x01, 0x02, 0x03, 0x04];
    let result = Event::decode(&input).unwrap();

    assert_eq!(Id(0x1234), result.id);
    assert_eq!(Value(0x01020304), result.value);
}

#[test]
fn mod_test_encode_event() {
    let event = Event {
        id: Id(0x1234),
        value: Value(0x01020304),
    };
    let mut output = Vec::<u8>::new();
    let result = event.encode(&mut output).unwrap();

    assert_eq!(6, result);
    assert_eq!(vec![0x12, 0x34, 0x01, 0x02, 0x03, 0x04], output);
}

#[test]
fn encode_negative_value_uses_twos_complement() {
    let event = Event { id: Id(0xfffe), value: Value(-2) };
    let mut output = Vec::<u8>::new();
    assert_eq!(FRAME_LEN, event.encode(&mut output).unwrap());
    assert_eq!(vec![0xff, 0xfe, 0xff, 0xff, 0xff, 0xfe], output);
}

#[test]
fn encode_appends_after_existing_bytes() {
    let event = Event { id: Id(1), value: Value(0x01020304) };
    let mut output = vec![0xaa];
    event.encode(&mut output).unwrap();
    assert_eq!(vec![0xaa, 0x00, 0x01, 0x01, 0x02, 0x03, 0x04], output);
}

#[test]
fn decode_negative_value() {
    let input = vec![0x80, 0x00, 0x80, 0x00, 0x00, 0x00];
    let result = Event::decode(&input).unwrap();
    assert_eq!(Event { id: Id(0x8000), value: Value(i32::MIN) }, result);
}

#[test]
fn decode_ignores_bytes_after_the_frame() {
    let input = vec![0x00, 0x07, 0x00, 0x00, 0x00, 0x2a, 0x99, 0x98];
    let result = Event::decode(&input).unwrap();
    assert_eq!(Event { id: Id(7), value: Value(42) }, result);
}

#[test]
fn decode_fails_on_short_input() {
    for len in 0..6 {
        let input: Vec<u8> = vec![0x01; len];
        assert_eq!(Err(DecodeError::UnexpectedEof), Event::decode(&input));
    }
}

#[test]
fn round_trip_of_extreme_events() {
    let events = vec![
        Event { id: Id(0), value: Value(0) },
        Event { id: Id(u16::MAX), value: Value(i32::MAX) },
        Event { id: Id(0x00ff), value: Value(i32::MIN) },
        Event { id: Id(0x1234), value: Value(-1) },
    ];
    for event in events {
        let mut output = Vec::new();
        assert_eq!(6, event.encode(&mut output).unwrap());
        assert_eq!(6, output.len());
        assert_eq!(Ok(event), Event::decode(&output));
    }
}
