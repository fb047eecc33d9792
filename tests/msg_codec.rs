use zerofs::error::DecodeError;
use zerofs::msg::{Address, Domain, Event, Value, MSG_LEN};

#[test]
fn msg_test_decode_event() {
    let input = vec![0x00, 0x12, 0x34, 0x01, 0x02, 0x03, 0x04];
    let result = Event::decode(&input).unwrap();

    assert_eq!(Domain::Fsuipc, result.domain);
    assert_eq!(Address(0x1234), result.address);
    assert_eq!(Value(0x01020304), result.value);
}

#[test]
fn msg_test_encode_event() {
    let event = Event {
        domain: Domain::Fsuipc,
        address: Address(0x1234),
        value: Value(0x01020304),
    };
    let mut output = Vec::<u8>::new();
    let result = event.encode(&mut output).unwrap();

    assert_eq!(7, result);
    assert_eq!(vec![0x00, 0x12, 0x34, 0x01, 0x02, 0x03, 0x04], output);
}

#[test]
fn msg_encode_lvar_domain() {
    let event = Event { domain: Domain::Lvar, address: Address(0xabcd), value: Value(-1) };
    let mut output = Vec::<u8>::new();
    assert_eq!(MSG_LEN, event.encode(&mut output).unwrap());
    assert_eq!(vec![0x01, 0xab, 0xcd, 0xff, 0xff, 0xff, 0xff], output);
    assert_eq!(Ok(event), Event::decode(&output));
}

#[test]
fn msg_decode_rejects_unknown_domain() {
    let input = vec![0x02, 0x12, 0x34, 0x01, 0x02, 0x03, 0x04];
    assert_eq!(Err(DecodeError::InvalidData), Event::decode(&input));
    let short = vec![0x05];
    assert_eq!(Err(DecodeError::InvalidData), Event::decode(&short));
}

#[test]
fn msg_decode_fails_on_short_input() {
    let empty: Vec<u8> = Vec::new();
    assert_eq!(Err(DecodeError::UnexpectedEof), Event::decode(&empty));
    let input = vec![0x01, 0x12, 0x34, 0x01, 0x02, 0x03];
    assert_eq!(Err(DecodeError::UnexpectedEof), Event::decode(&input));
}

#[test]
fn msg_domain_encode_single_byte() {
    let mut output = Vec::<u8>::new();
    assert_eq!(1, Domain::Lvar.encode(&mut output).unwrap());
    assert_eq!(1, Domain::Fsuipc.encode(&mut output).unwrap());
    assert_eq!(vec![0x01, 0x00], output);
}
