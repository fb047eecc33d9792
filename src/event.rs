//! Wire events: a 16-bit identifier and a 32-bit signed value, framed as six
//! big-endian bytes (identifier first).

use vstd::prelude::*;
use vstd::slice::slice_subrange;

use crate::endian::{
    i32_be, i32_to_be, lemma_i32_bytes_round_trip, lemma_i32_round_trip,
    lemma_u16_bytes_round_trip, lemma_u16_round_trip, read_i32_be, read_u16_be, u16_be,
    u16_to_be, write_i32_be, write_u16_be,
};
use crate::error::DecodeError;

verus! {

/// Number of bytes in an encoded event.
pub const FRAME_LEN: usize = 6;

/// Identifier of the monitored quantity.
#[derive(Clone, Copy, Debug, PartialEq, Eq, Structural)]
pub struct Id(pub u16);

/// Signed payload of an event.
#[derive(Clone, Copy, Debug, PartialEq, Eq, Structural)]
pub struct Value(pub i32);

/// A state change of one monitored quantity.
#[derive(Clone, Copy, Debug, PartialEq, Eq, Structural)]
pub struct Event {
    pub id: Id,
    pub value: Value,
}

/// The frame of `e`: its identifier, then its value, both big-endian.
pub open spec fn frame(e: Event) -> Seq<u8> {
    u16_to_be(e.id.0) + i32_to_be(e.value.0)
}

/// The event that the first six bytes of `b` encode.
pub open spec fn parse(b: Seq<u8>) -> Event
    recommends
        b.len() >= 6,
{
    Event { id: Id(u16_be(b) as u16), value: Value(i32_be(b.skip(2)) as i32) }
}

impl Id {
    fn decode(input: &[u8]) -> (r: Result<Id, DecodeError>)
        ensures
            input@.len() < 2 ==> r == Err::<Id, DecodeError>(DecodeError::UnexpectedEof),
            input@.len() >= 2 ==> r == Ok::<Id, DecodeError>(Id(u16_be(input@) as u16)),
    {
        if input.len() < 2 {
            Err(DecodeError::UnexpectedEof)
        } else {
            Ok(Id(read_u16_be(input)))
        }
    }

    /// Appends the two big-endian bytes of the identifier to `output`.
    pub fn encode(&self, output: &mut Vec<u8>) -> (r: std::io::Result<usize>)
        ensures
            r matches Ok(n) && n == 2,
            final(output)@ == old(output)@ + u16_to_be(self.0),
    {
        match write_u16_be(output, self.0) {
            Ok(()) => Ok(2),
            Err(e) => Err(e),
        }
    }
}

impl Value {
    fn decode(input: &[u8]) -> (r: Result<Value, DecodeError>)
        ensures
            input@.len() < 4 ==> r == Err::<Value, DecodeError>(DecodeError::UnexpectedEof),
            input@.len() >= 4 ==> r == Ok::<Value, DecodeError>(Value(i32_be(input@) as i32)),
    {
        if input.len() < 4 {
            Err(DecodeError::UnexpectedEof)
        } else {
            Ok(Value(read_i32_be(input)))
        }
    }

    /// Appends the four big-endian bytes of the value to `output`.
    pub fn encode(&self, output: &mut Vec<u8>) -> (r: std::io::Result<usize>)
        ensures
            r matches Ok(n) && n == 4,
            final(output)@ == old(output)@ + i32_to_be(self.0),
    {
        match write_i32_be(output, self.0) {
            Ok(()) => Ok(4),
            Err(e) => Err(e),
        }
    }
}

impl Event {
    /// Decodes the event held by the first six bytes of `input`; bytes after
    /// them are left unread.
    pub fn decode(input: &[u8]) -> (r: Result<Event, DecodeError>)
        ensures
            input@.len() < 6 ==> r == Err::<Event, DecodeError>(DecodeError::UnexpectedEof),
            input@.len() >= 6 ==> r == Ok::<Event, DecodeError>(parse(input@)),
    {
        let id = match Id::decode(input) {
            Ok(id) => id,
            Err(e) => return Err(e),
        };
        let rest = slice_subrange(input, 2, input.len());
        let value = match Value::decode(rest) {
            Ok(value) => value,
            Err(e) => return Err(e),
        };
        Ok(Event { id, value })
    }

    /// Appends the six-byte frame of the event to `output` and returns the
    /// number of bytes written.
    pub fn encode(&self, output: &mut Vec<u8>) -> (r: std::io::Result<usize>)
        ensures
            r matches Ok(n) && n == FRAME_LEN,
            final(output)@ == old(output)@ + frame(*self),
    {
        let mut nbytes: usize = 0;
        match self.id.encode(output) {
            Ok(n) => nbytes = nbytes + n,
            Err(e) => return Err(e),
        }
        match self.value.encode(output) {
            Ok(n) => nbytes = nbytes + n,
            Err(e) => return Err(e),
        }
        assert(output@ =~= old(output)@ + frame(*self));
        Ok(nbytes)
    }
}

/// Every frame is six bytes long, and decoding the frame of an event gives
/// that event back.
pub proof fn lemma_round_trip(e: Event)
    ensures
        frame(e).len() == FRAME_LEN,
        parse(frame(e)) == e,
{
    lemma_u16_round_trip(e.id.0);
    lemma_i32_round_trip(e.value.0);
    let f = frame(e);
    assert(f.skip(2) =~= i32_to_be(e.value.0));
    assert(f.take(2) =~= u16_to_be(e.id.0));
    assert(u16_be(f) == u16_be(u16_to_be(e.id.0)));
}

/// Encoding the event that six bytes decode to gives those bytes back.
pub proof fn lemma_frame_of_parse(b: Seq<u8>)
    requires
        b.len() == FRAME_LEN,
    ensures
        frame(parse(b)) == b,
{
    lemma_u16_bytes_round_trip(b.take(2));
    lemma_i32_bytes_round_trip(b.skip(2));
    assert(u16_be(b.take(2)) == u16_be(b));
    assert(frame(parse(b)) =~= b);
}

} // verus!
