//! Big-endian integer layouts, and the byte-order primitives of `byteorder`
//! that the frame codecs use.

use byteorder::{BigEndian, ByteOrder, WriteBytesExt};
use vstd::prelude::*;

verus! {

/// Opaque I/O error of the standard library.
#[verifier::external_type_specification]
#[verifier::external_body]
pub struct ExIoError(std::io::Error);

/// The value of the first two bytes of `b`, most significant first.
pub open spec fn u16_be(b: Seq<u8>) -> int {
    b[0] as int * 256 + b[1] as int
}

/// The value of the first four bytes of `b`, most significant first.
pub open spec fn u32_be(b: Seq<u8>) -> int {
    b[0] as int * 16777216 + b[1] as int * 65536 + b[2] as int * 256 + b[3] as int
}

/// The first four bytes of `b` read as a two's complement 32-bit integer.
pub open spec fn i32_be(b: Seq<u8>) -> int {
    let u = u32_be(b);
    if u < 0x8000_0000 {
        u
    } else {
        u - 0x1_0000_0000
    }
}

/// The two bytes of `n`, most significant first.
pub open spec fn u16_to_be(n: u16) -> Seq<u8> {
    seq![(n / 256) as u8, (n % 256) as u8]
}

/// The four bytes of the two's complement form of `n`, most significant first.
pub open spec fn i32_to_be(n: i32) -> Seq<u8> {
    let u: int = if n >= 0 {
        n as int
    } else {
        n + 0x1_0000_0000
    };
    seq![(u / 16777216) as u8, (u / 65536 % 256) as u8, (u / 256 % 256) as u8, (u % 256) as u8]
}

/// Relies on `byteorder::BigEndian::read_u16`: the first two bytes of `buf`
/// as a big-endian integer (it panics on a shorter slice).
#[verifier::external_body]
pub(crate) fn read_u16_be(buf: &[u8]) -> (r: u16)
    requires
        buf@.len() >= 2,
    ensures
        r as int == u16_be(buf@),
{
    BigEndian::read_u16(buf)
}

/// Relies on `byteorder::BigEndian::read_i32`: the first four bytes of `buf`
/// as a big-endian two's complement integer (it panics on a shorter slice).
#[verifier::external_body]
pub(crate) fn read_i32_be(buf: &[u8]) -> (r: i32)
    requires
        buf@.len() >= 4,
    ensures
        r as int == i32_be(buf@),
{
    BigEndian::read_i32(buf)
}

/// Relies on `byteorder::WriteBytesExt::write_u16::<BigEndian>` on a
/// `Vec<u8>`: the two bytes of `n` are appended, most significant first; a
/// `Vec<u8>` writer accepts every write by appending to itself.
#[verifier::external_body]
pub(crate) fn write_u16_be(output: &mut Vec<u8>, n: u16) -> (r: std::io::Result<()>)
    ensures
        r is Ok,
        final(output)@ == old(output)@ + u16_to_be(n),
{
    output.write_u16::<BigEndian>(n)
}

/// Relies on `byteorder::WriteBytesExt::write_i32::<BigEndian>` on a
/// `Vec<u8>`: the four bytes of `n` are appended, most significant first; a
/// `Vec<u8>` writer accepts every write by appending to itself.
#[verifier::external_body]
pub(crate) fn write_i32_be(output: &mut Vec<u8>, n: i32) -> (r: std::io::Result<()>)
    ensures
        r is Ok,
        final(output)@ == old(output)@ + i32_to_be(n),
{
    output.write_i32::<BigEndian>(n)
}

/// Reading back the bytes of a 16-bit integer gives the integer.
pub proof fn lemma_u16_round_trip(n: u16)
    ensures
        u16_to_be(n).len() == 2,
        u16_be(u16_to_be(n)) == n as int,
{
}

/// Reading back the bytes of a 32-bit integer gives the integer.
pub proof fn lemma_i32_round_trip(n: i32)
    ensures
        i32_to_be(n).len() == 4,
        i32_be(i32_to_be(n)) == n as int,
{
    let u: int = if n >= 0 {
        n as int
    } else {
        n + 0x1_0000_0000
    };
    assert(0 <= u < 0x1_0000_0000);
    assert(u == (u / 16777216) * 16777216 + (u / 65536 % 256) * 65536 + (u / 256 % 256) * 256 + u % 256)
        by (nonlinear_arith)
        requires
            0 <= u < 0x1_0000_0000,
    ;
}

/// Reading two bytes and writing the result back gives the same bytes.
pub proof fn lemma_u16_bytes_round_trip(b: Seq<u8>)
    requires
        b.len() == 2,
    ensures
        u16_to_be(u16_be(b) as u16) == b,
{
    let v = u16_be(b);
    assert(0 <= v < 0x1_0000);
    assert((v / 256) == b[0] as int && v % 256 == b[1] as int) by (nonlinear_arith)
        requires
            v == b[0] as int * 256 + b[1] as int,
            0 <= b[0] < 256,
            0 <= b[1] < 256,
    ;
    assert(u16_to_be(v as u16) =~= b);
}

/// Reading four bytes and writing the result back gives the same bytes.
pub proof fn lemma_i32_bytes_round_trip(b: Seq<u8>)
    requires
        b.len() == 4,
    ensures
        i32_to_be(i32_be(b) as i32) == b,
{
    let u = u32_be(b);
    let (b0, b1, b2, b3) = (b[0] as int, b[1] as int, b[2] as int, b[3] as int);
    assert(u / 16777216 == b0 && u / 65536 % 256 == b1 && u / 256 % 256 == b2 && u % 256 == b3)
        by (nonlinear_arith)
        requires
            u == b0 * 16777216 + b1 * 65536 + b2 * 256 + b3,
            0 <= b0 < 256,
            0 <= b1 < 256,
            0 <= b2 < 256,
            0 <= b3 < 256,
    ;
    assert(i32_to_be(i32_be(b) as i32) =~= b);
}

} // verus!
