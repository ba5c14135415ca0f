//! The framing codec: a frame is a four-byte length in the byte order of
//! the machine, followed by that many payload bytes.
//!
//! The byte order is that of the machine on which the bridge runs, so two
//! ends of a stream agree only if they run on machines of one kind. The
//! contracts speak of it as `endianness()`, and every statement here holds
//! for either order.

use crate::message::{Error, ErrorView};
use vstd::endian::{endianness, Endian};
use vstd::prelude::*;
use vstd::slice::{slice_subrange, slice_to_vec};

verus! {

/// The number of bytes in a length prefix.
pub const PREFIX_LEN: usize = 4;

/// The four bytes that stand for `length` in the given byte order.
pub open spec fn length_bytes(order: Endian, length: nat) -> Seq<u8>
    recommends
        length <= u32::MAX,
{
    let b0 = (length % 256) as u8;
    let b1 = (length / 256 % 256) as u8;
    let b2 = (length / 256 / 256 % 256) as u8;
    let b3 = (length / 256 / 256 / 256 % 256) as u8;
    match order {
        Endian::Little => seq![b0, b1, b2, b3],
        Endian::Big => seq![b3, b2, b1, b0],
    }
}

/// The length that four bytes stand for in the given byte order.
pub open spec fn length_value(order: Endian, bytes: Seq<u8>) -> nat
    recommends
        bytes.len() == 4,
{
    match order {
        Endian::Little => (bytes[0] + 256 * (bytes[1] + 256 * (bytes[2] + 256 * bytes[3]))) as nat,
        Endian::Big => (bytes[3] + 256 * (bytes[2] + 256 * (bytes[1] + 256 * bytes[0]))) as nat,
    }
}

/// The length prefix of a payload of `length` bytes, on this machine.
pub open spec fn prefix(length: nat) -> Seq<u8> {
    length_bytes(endianness(), length)
}

/// The payload length that the first four bytes of `stream` declare, on
/// this machine.
pub open spec fn declared_length(stream: Seq<u8>) -> nat
    recommends
        stream.len() >= 4,
{
    length_value(endianness(), stream.subrange(0, 4))
}

/// The frame that carries `payload`.
pub open spec fn framed(payload: Seq<u8>) -> Seq<u8>
    recommends
        payload.len() <= u32::MAX,
{
    prefix(payload.len()) + payload
}

/// The payload of the frame at the head of `stream`, where the stream holds
/// a whole frame. What follows the frame plays no part.
pub open spec fn unframed(stream: Seq<u8>) -> Option<Seq<u8>> {
    if stream.len() >= 4 && stream.len() - 4 >= declared_length(stream) {
        Some(stream.subrange(4, 4 + declared_length(stream) as int))
    } else {
        None
    }
}

/// Calls `u32::to_ne_bytes`, which gives the memory representation of the
/// number on this machine: its four base-256 digits, least significant
/// first on a little-endian machine, most significant first on a big-endian
/// one.
#[verifier::external_body]
fn to_ne_bytes(length: u32) -> (bytes: [u8; 4])
    ensures
        bytes@ == length_bytes(endianness(), length as nat),
{
    length.to_ne_bytes()
}

/// Calls `u32::from_ne_bytes`, which reads four bytes as the memory
/// representation of a number on this machine: as base-256 digits in the
/// machine's byte order.
#[verifier::external_body]
fn from_ne_bytes(bytes: [u8; 4]) -> (length: u32)
    ensures
        length as nat == length_value(endianness(), bytes@),
{
    u32::from_ne_bytes(bytes)
}

/// Reading back the bytes of a length gives the length, in either order.
pub proof fn lemma_length_round_trip(order: Endian, length: nat)
    requires
        length <= u32::MAX,
    ensures
        length_bytes(order, length).len() == 4,
        length_value(order, length_bytes(order, length)) == length,
{
    let q1 = length / 256;
    let q2 = q1 / 256;
    let q3 = q2 / 256;
    assert(length == length % 256 + 256 * q1);
    assert(q1 == q1 % 256 + 256 * q2);
    assert(q2 == q2 % 256 + 256 * q3);
    assert(q3 < 256);
    assert(q3 % 256 == q3);
}

/// Framing, then reading the frame back, gives the payload: for every
/// payload that a frame can carry and whatever follows the frame in the
/// stream. The first four bytes of the frame are the payload's length in
/// the byte order of the machine.
pub proof fn lemma_frame_round_trip(payload: Seq<u8>, rest: Seq<u8>)
    requires
        payload.len() <= u32::MAX,
    ensures
        unframed(framed(payload) + rest) == Some(payload),
        (framed(payload) + rest).subrange(0, 4) == length_bytes(endianness(), payload.len()),
        declared_length(framed(payload) + rest) == payload.len(),
{
    let stream = framed(payload) + rest;
    lemma_length_round_trip(endianness(), payload.len());
    assert(stream.subrange(0, 4) =~= prefix(payload.len()));
    assert(stream.subrange(4, 4 + payload.len() as int) =~= payload);
}

/// The payload length that a length prefix declares.
///
/// Fails with `Error::Read` where `stream` holds fewer than four bytes, or
/// the length does not fit the machine's size type.
pub fn payload_length(stream: &[u8]) -> (result: Result<usize, Error>)
    ensures
        match result {
            Ok(length) => stream@.len() >= 4 && length == declared_length(stream@),
            Err(error) => error@ == ErrorView::Read && (stream@.len() < 4 || declared_length(
                stream@,
            ) > usize::MAX),
        },
{
    if stream.len() < PREFIX_LEN {
        return Err(Error::Read);
    }
    let raw: [u8; 4] = [stream[0], stream[1], stream[2], stream[3]];
    assert(raw@ =~= stream@.subrange(0, 4));
    let declared: u32 = from_ne_bytes(raw);
    match usize::try_from(declared) {
        Ok(length) => Ok(length),
        Err(_) => Err(Error::Read),
    }
}

/// Reads one frame from the head of `input` and returns its payload.
///
/// Fails with `Error::Read` where `input` ends before the four bytes of the
/// prefix, or before the payload bytes that the prefix declares. Bytes
/// behind the frame are not looked at.
pub fn read_input(input: &[u8]) -> (result: Result<Vec<u8>, Error>)
    ensures
        match result {
            Ok(payload) => unframed(input@) == Some(payload@),
            Err(error) => unframed(input@) is None && error@ == ErrorView::Read,
        },
{
    let length: usize = match payload_length(input) {
        Ok(length) => length,
        Err(_) => {
            return Err(Error::Read);
        },
    };
    if input.len() - PREFIX_LEN < length {
        return Err(Error::Read);
    }
    let payload = slice_subrange(input, PREFIX_LEN, PREFIX_LEN + length);
    Ok(slice_to_vec(payload))
}

/// Builds the frame that carries `payload`: the length prefix, then the
/// payload.
///
/// Fails with `Error::Write` where the payload is longer than a prefix can
/// declare.
pub fn frame(payload: &[u8]) -> (result: Result<Vec<u8>, Error>)
    ensures
        match result {
            Ok(bytes) => payload@.len() <= u32::MAX && bytes@ == framed(payload@),
            Err(error) => payload@.len() > u32::MAX && error@ == ErrorView::Write,
        },
{
    let length: u32 = match u32::try_from(payload.len()) {
        Ok(length) => length,
        Err(_) => {
            return Err(Error::Write);
        },
    };
    let raw: [u8; 4] = to_ne_bytes(length);
    let mut bytes: Vec<u8> = Vec::new();
    bytes.extend_from_slice(raw.as_slice());
    bytes.extend_from_slice(payload);
    assert(bytes@ =~= framed(payload@));
    Ok(bytes)
}

/// Writes `raw_output` to the end of `buffer`.
pub fn write_output(buffer: &mut Vec<u8>, raw_output: &[u8]) -> (result: Result<(), Error>)
    ensures
        result is Ok,
        final(buffer)@ == old(buffer)@ + raw_output@,
{
    buffer.extend_from_slice(raw_output);
    assert(buffer@ =~= old(buffer)@ + raw_output@);
    Ok(())
}

} // verus!
