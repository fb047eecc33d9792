//! Domain-tagged messages: a domain byte, a 16-bit address and a 32-bit
//! signed value, framed as seven bytes (multi-byte fields big-endian).

use vstd::prelude::*;
use vstd::slice::slice_subrange;

use crate::endian::{
    i32_be, i32_to_be, lemma_i32_bytes_round_trip, lemma_i32_round_trip,
    lemma_u16_bytes_round_trip, lemma_u16_round_trip, read_i32_be, read_u16_be, u16_be,
    u16_to_be, write_i32_be, write_u16_be,
};
use crate::error::DecodeError;

verus! {

/// Number of bytes in an encoded message.
pub const MSG_LEN: usize = 7;

/// The variable space that an address refers to.
#[derive(Clone, Copy, Debug, PartialEq, Eq, Structural)]
pub enum Domain {
    Fsuipc,
    Lvar,
}

/// Address of a variable inside its domain.
#[derive(Clone, Copy, Debug, PartialEq, Eq, Structural)]
pub struct Address(pub u16);

/// Signed payload of a message.
#[derive(Clone, Copy, Debug, PartialEq, Eq, Structural)]
pub struct Value(pub i32);

/// A value observed at an address of a domain.
#[derive(Clone, Copy, Debug, PartialEq, Eq, Structural)]
pub struct Event {
    pub domain: Domain,
    pub address: Address,
    pub value: Value,
}

/// The byte that stands for `d` on the wire.
pub open spec fn domain_byte(d: Domain) -> u8 {
    match d {
        Domain::Fsuipc => 0,
        Domain::Lvar => 1,
    }
}

/// The domain that byte `b` stands for, if any.
pub open spec fn domain_of(b: u8) -> Option<Domain> {
    if b == 0 {
        Some(Domain::Fsuipc)
    } else if b == 1 {
        Some(Domain::Lvar)
    } else {
        None
    }
}

/// The frame of `e`: domain byte, then address and value, both big-endian.
pub open spec fn frame(e: Event) -> Seq<u8> {
    seq![domain_byte(e.domain)] + u16_to_be(e.address.0) + i32_to_be(e.value.0)
}

/// What decoding `b` gives: the domain byte is checked before the length of
/// the rest.
pub open spec fn parse(b: Seq<u8>) -> Result<Event, DecodeError> {
    if b.len() < 1 {
        Err(DecodeError::UnexpectedEof)
    } else if domain_of(b[0]) is None {
        Err(DecodeError::InvalidData)
    } else if b.len() < 7 {
        Err(DecodeError::UnexpectedEof)
    } else {
        Ok(
            Event {
                domain: domain_of(b[0])->Some_0,
                address: Address(u16_be(b.skip(1)) as u16),
                value: Value(i32_be(b.skip(3)) as i32),
            },
        )
    }
}

impl Domain {
    fn decode(input: &[u8]) -> (r: Result<Domain, DecodeError>)
        ensures
            input@.len() < 1 ==> r == Err::<Domain, DecodeError>(DecodeError::UnexpectedEof),
            input@.len() >= 1 && domain_of(input@[0]) is None ==> r == Err::<Domain, DecodeError>(
                DecodeError::InvalidData,
            ),
            input@.len() >= 1 && domain_of(input@[0]) is Some ==> r == Ok::<Domain, DecodeError>(
                domain_of(input@[0])->Some_0,
            ),
    {
        if input.len() < 1 {
            return Err(DecodeError::UnexpectedEof);
        }
        let i = input[0];
        if i == 0 {
            Ok(Domain::Fsuipc)
        } else if i == 1 {
            Ok(Domain::Lvar)
        } else {
            Err(DecodeError::InvalidData)
        }
    }

    /// Appends the byte of the domain to `output`.
    pub fn encode(&self, output: &mut Vec<u8>) -> (r: std::io::Result<usize>)
        ensures
            r matches Ok(n) && n == 1,
            final(output)@ == old(output)@.push(domain_byte(*self)),
    {
        match self {
            Domain::Fsuipc => output.push(0),
            Domain::Lvar => output.push(1),
        }
        Ok(1)
    }
}

impl Address {
    fn decode(input: &[u8]) -> (r: Result<Address, DecodeError>)
        ensures
            input@.len() < 2 ==> r == Err::<Address, DecodeError>(DecodeError::UnexpectedEof),
            input@.len() >= 2 ==> r == Ok::<Address, DecodeError>(Address(u16_be(input@) as u16)),
    {
        if input.len() < 2 {
            Err(DecodeError::UnexpectedEof)
        } else {
            Ok(Address(read_u16_be(input)))
        }
    }

    /// Appends the two big-endian bytes of the address to `output`.
    pub fn encode(&self, output: &mut Vec<u8>) -> (r: std::io::Result<usize>)
        ensures
            r matches Ok(n) && n == 2,
            final(output)@ == old(output)@ + u16_to_be(self.0),
    {
        match write_u16_be(output, self.0) {
            Ok(()) => Ok(2),
            Err(e) => Err(e),
        }
    }
}

impl Value {
    fn decode(input: &[u8]) -> (r: Result<Value, DecodeError>)
        ensures
            input@.len() < 4 ==> r == Err::<Value, DecodeError>(DecodeError::UnexpectedEof),
            input@.len() >= 4 ==> r == Ok::<Value, DecodeError>(Value(i32_be(input@) as i32)),
    {
        if input.len() < 4 {
            Err(DecodeError::UnexpectedEof)
        } else {
            Ok(Value(read_i32_be(input)))
        }
    }

    /// Appends the four big-endian bytes of the value to `output`.
    pub fn encode(&self, output: &mut Vec<u8>) -> (r: std::io::Result<usize>)
        ensures
            r matches Ok(n) && n == 4,
            final(output)@ == old(output)@ + i32_to_be(self.0),
    {
        match write_i32_be(output, self.0) {
            Ok(()) => Ok(4),
            Err(e) => Err(e),
        }
    }
}

impl Event {
    /// Decodes the message held by the first seven bytes of `input`; bytes
    /// after them are left unread.
    pub fn decode(input: &[u8]) -> (r: Result<Event, DecodeError>)
        ensures
            r == parse(input@),
    {
        let domain = match Domain::decode(input) {
            Ok(domain) => domain,
            Err(e) => return Err(e),
        };
        let rest = slice_subrange(input, 1, input.len());
        let address = match Address::decode(rest) {
            Ok(address) => address,
            Err(e) => return Err(e),
        };
        let rest = slice_subrange(input, 3, input.len());
        let value = match Value::decode(rest) {
            Ok(value) => value,
            Err(e) => return Err(e),
        };
        Ok(Event { domain, address, value })
    }

    /// Appends the seven-byte frame of the message to `output` and returns
    /// the number of bytes written.
    pub fn encode(&self, output: &mut Vec<u8>) -> (r: std::io::Result<usize>)
        ensures
            r matches Ok(n) && n == MSG_LEN,
            final(output)@ == old(output)@ + frame(*self),
    {
        let mut nbytes: usize = 0;
        match self.domain.encode(output) {
            Ok(n) => nbytes = nbytes + n,
            Err(e) => return Err(e),
        }
        match self.address.encode(output) {
            Ok(n) => nbytes = nbytes + n,
            Err(e) => return Err(e),
        }
        match self.value.encode(output) {
            Ok(n) => nbytes = nbytes + n,
            Err(e) => return Err(e),
        }
        assert(output@ =~= old(output)@ + frame(*self));
        Ok(nbytes)
    }
}

/// Every frame is seven bytes long, and decoding the frame of a message
/// gives that message back.
pub proof fn lemma_round_trip(e: Event)
    ensures
        frame(e).len() == MSG_LEN,
        parse(frame(e)) == Ok::<Event, DecodeError>(e),
{
    lemma_u16_round_trip(e.address.0);
    lemma_i32_round_trip(e.value.0);
    let f = frame(e);
    assert(f.skip(3) =~= i32_to_be(e.value.0));
    assert(f.skip(1).take(2) =~= u16_to_be(e.address.0));
    assert(u16_be(f.skip(1)) == u16_be(u16_to_be(e.address.0)));
}

/// Encoding the message that seven bytes decode to gives those bytes back.
pub proof fn lemma_frame_of_parse(b: Seq<u8>)
    requires
        b.len() == MSG_LEN,
        parse(b) is Ok,
    ensures
        frame(parse(b)->Ok_0) == b,
{
    lemma_u16_bytes_round_trip(b.skip(1).take(2));
    lemma_i32_bytes_round_trip(b.skip(3));
    assert(u16_be(b.skip(1).take(2)) == u16_be(b.skip(1)));
    assert(frame(parse(b)->Ok_0) =~= b);
}

} // verus!
