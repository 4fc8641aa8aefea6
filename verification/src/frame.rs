//! The length-prefixed envelope of the wire.
//!
//! A frame is four bytes that hold the payload's length as a big-endian
//! unsigned integer, followed by the payload: the UTF-8 bytes of a packet's
//! JSON text.

use vstd::prelude::*;
use vstd::slice::slice_subrange;
use vstd::string::StringSliceAdditionalSpecFns;
use vstd::utf8::decode_utf8;
use vstd::utf8::encode_utf8;
use vstd::utf8::encode_utf8_decode_utf8;
use vstd::utf8::encode_utf8_valid_utf8;
use vstd::utf8::valid_utf8;
use crate::json::json_parse;
use crate::json::json_text;
use crate::packet::packet_json;
use crate::packet::parse_packet_text;
use crate::packet::PacketType;
use crate::packet::PacketView;

verus! {

#[verifier::external_type_specification]
#[verifier::external_body]
pub struct ExUtf8Error(core::str::Utf8Error);

/// `core::str::from_utf8`: succeeds exactly on well-formed UTF-8, and the
/// string it gives has the input as its bytes.
pub assume_specification<'a>[ core::str::from_utf8 ](v: &'a [u8]) -> (r: Result<
    &'a str,
    core::str::Utf8Error,
>)
    ensures
        r is Ok <==> valid_utf8(v@),
        r is Ok ==> r->Ok_0.spec_bytes() == v@,
;

/// The number of bytes in a frame's header.
pub const HEADER_LEN: usize = 4;

/// Why bytes could not be framed or read as a frame.
#[derive(Debug, PartialEq, Eq, Clone, Copy)]
pub enum FrameError {
    /// The payload's length does not fit the header.
    TooLong,
    /// The bytes end before the frame does.
    Incomplete,
    /// The payload is not UTF-8.
    NotUtf8,
    /// The payload's text is no packet.
    NotPacket,
}

/// The header that announces a payload of `n` bytes.
pub open spec fn header_bytes(n: u32) -> Seq<u8> {
    seq![
        (n / 0x100_0000) as u8,
        (n / 0x1_0000 % 0x100) as u8,
        (n / 0x100 % 0x100) as u8,
        (n % 0x100) as u8,
    ]
}

/// The length that the first four bytes of `bytes` announce.
pub open spec fn header_value(bytes: Seq<u8>) -> nat
    recommends
        bytes.len() >= HEADER_LEN,
{
    (bytes[0] * 0x100_0000 + bytes[1] * 0x1_0000 + bytes[2] * 0x100 + bytes[3]) as nat
}

/// The frame around a payload.
pub open spec fn frame_of(payload: Seq<u8>) -> Seq<u8>
    recommends
        payload.len() <= u32::MAX,
{
    header_bytes(payload.len() as u32) + payload
}

/// The payload of the frame with which `bytes` begin; `None` where the bytes
/// end before the frame does.
pub open spec fn payload_of(bytes: Seq<u8>) -> Option<Seq<u8>> {
    if bytes.len() < HEADER_LEN {
        None
    } else if bytes.len() - HEADER_LEN < header_value(bytes) {
        None
    } else {
        Some(bytes.subrange(HEADER_LEN as int, HEADER_LEN + header_value(bytes)))
    }
}

/// The packet that a payload writes.
pub open spec fn packet_of_payload(payload: Seq<u8>) -> Result<PacketView, FrameError> {
    if !valid_utf8(payload) {
        Err(FrameError::NotUtf8)
    } else {
        match parse_packet_text(decode_utf8(payload)) {
            Some(p) => Ok(p),
            None => Err(FrameError::NotPacket),
        }
    }
}

/// The packet of the frame with which `bytes` begin.
pub open spec fn packet_of_frame(bytes: Seq<u8>) -> Result<PacketView, FrameError> {
    match payload_of(bytes) {
        Some(payload) => packet_of_payload(payload),
        None => Err(FrameError::Incomplete),
    }
}

/// The payload of a packet: the UTF-8 bytes of its JSON text.
pub open spec fn packet_payload(p: PacketView) -> Seq<u8> {
    encode_utf8(json_text(packet_json(p)))
}

/// A header announces the length it was made from.
pub proof fn lemma_header_round_trip(n: u32)
    ensures
        header_bytes(n).len() == HEADER_LEN,
        header_value(header_bytes(n)) == n,
{
}

/// The payload of a frame is read back from it, whatever follows the frame.
pub proof fn lemma_frame_round_trip(payload: Seq<u8>, rest: Seq<u8>)
    requires
        payload.len() <= u32::MAX,
    ensures
        payload_of(frame_of(payload) + rest) == Some(payload),
{
    let n = payload.len() as u32;
    let bytes = frame_of(payload) + rest;
    lemma_header_round_trip(n);
    assert(bytes[0] == header_bytes(n)[0]);
    assert(bytes[1] == header_bytes(n)[1]);
    assert(bytes[2] == header_bytes(n)[2]);
    assert(bytes[3] == header_bytes(n)[3]);
    assert(header_value(bytes) == n);
    assert(bytes.subrange(HEADER_LEN as int, HEADER_LEN + n) =~= payload);
}

/// Decoding the frame of a packet gives the packet back, wherever
/// `serde_json` reads the packet's JSON text as the value it was written
/// from.
pub proof fn lemma_decode_encode(p: PacketView, rest: Seq<u8>)
    requires
        packet_payload(p).len() <= u32::MAX,
    ensures
        json_parse(json_text(packet_json(p))) == Some(packet_json(p)) ==> packet_of_frame(
            frame_of(packet_payload(p)) + rest,
        ) == Ok::<PacketView, FrameError>(p),
{
    let text = json_text(packet_json(p));
    lemma_frame_round_trip(packet_payload(p), rest);
    encode_utf8_valid_utf8(text);
    encode_utf8_decode_utf8(text);
    crate::codec::lemma_packet_round_trip(p);
}

/// The four header bytes for a payload of `n` bytes.
pub fn write_header(n: u32) -> (header: Vec<u8>)
    ensures
        header@ == header_bytes(n),
{
    let mut header: Vec<u8> = Vec::new();
    header.push((n / 0x100_0000) as u8);
    header.push((n / 0x1_0000 % 0x100) as u8);
    header.push((n / 0x100 % 0x100) as u8);
    header.push((n % 0x100) as u8);
    assert(header@ =~= header_bytes(n));
    header
}

/// The payload length that a header announces.
pub fn read_header(bytes: &[u8]) -> (n: u32)
    requires
        bytes@.len() >= HEADER_LEN,
    ensures
        n == header_value(bytes@),
{
    let b0: u32 = bytes[0] as u32;
    let b1: u32 = bytes[1] as u32;
    let b2: u32 = bytes[2] as u32;
    let b3: u32 = bytes[3] as u32;
    b0 * 0x100_0000 + b1 * 0x1_0000 + b2 * 0x100 + b3
}

/// Puts a payload into a frame. Fails with `TooLong` exactly where the
/// payload's length does not fit in 32 bits.
pub fn frame(payload: &[u8]) -> (r: Result<Vec<u8>, FrameError>)
    ensures
        match r {
            Ok(bytes) => payload@.len() <= u32::MAX && bytes@ == frame_of(payload@),
            Err(e) => payload@.len() > u32::MAX && e == FrameError::TooLong,
        },
{
    let len = payload.len();
    if len > u32::MAX as usize {
        return Err(FrameError::TooLong);
    }
    let mut bytes = write_header(len as u32);
    let mut i: usize = 0;
    while i < len
        invariant
            len == payload@.len(),
            i <= len,
            bytes@ == header_bytes(len as u32) + payload@.subrange(0, i as int),
        decreases len - i,
    {
        bytes.push(payload[i]);
        i += 1;
        assert(bytes@ =~= header_bytes(len as u32) + payload@.subrange(0, i as int));
    }
    assert(payload@.subrange(0, len as int) =~= payload@);
    Ok(bytes)
}

/// The payload of the frame with which `bytes` begin.
pub fn unframe(bytes: &[u8]) -> (r: Option<&[u8]>)
    ensures
        match r {
            Some(payload) => payload_of(bytes@) == Some(payload@),
            None => payload_of(bytes@) is None,
        },
{
    if bytes.len() < HEADER_LEN {
        return None;
    }
    let n = read_header(bytes) as usize;
    if bytes.len() - HEADER_LEN < n {
        return None;
    }
    Some(slice_subrange(bytes, HEADER_LEN, HEADER_LEN + n))
}

/// Reads a payload as a packet. Fails with `NotUtf8` where the payload is
/// not UTF-8, and with `NotPacket` where its text is no packet.
pub fn decode_payload(payload: &[u8]) -> (r: Result<PacketType, FrameError>)
    ensures
        match r {
            Ok(p) => packet_of_payload(payload@) == Ok::<PacketView, FrameError>(p@),
            Err(e) => packet_of_payload(payload@) == Err::<PacketView, FrameError>(e),
        },
{
    match core::str::from_utf8(payload) {
        Ok(text) => {
            proof {
                assert(text@ == decode_utf8(payload@)) by {
                    encode_utf8_decode_utf8(text@);
                }
            }
            match PacketType::from_str(text) {
                Ok(p) => Ok(p),
                Err(_) => Err(FrameError::NotPacket),
            }
        },
        Err(_) => Err(FrameError::NotUtf8),
    }
}

/// Reads the frame with which `bytes` begin as a packet. Fails with
/// `Incomplete` where the bytes end before the frame does, and as
/// [`decode_payload`] does on the frame's payload.
pub fn decode_frame(bytes: &[u8]) -> (r: Result<PacketType, FrameError>)
    ensures
        match r {
            Ok(p) => packet_of_frame(bytes@) == Ok::<PacketView, FrameError>(p@),
            Err(e) => packet_of_frame(bytes@) == Err::<PacketView, FrameError>(e),
        },
{
    match unframe(bytes) {
        Some(payload) => decode_payload(payload),
        None => Err(FrameError::Incomplete),
    }
}

/// The frame of a packet: the bytes that go on the wire for it. Fails with
/// `TooLong` exactly where the packet's JSON text is longer than a header
/// can announce.
pub fn encode_frame(packet: &PacketType) -> (r: Result<Vec<u8>, FrameError>)
    ensures
        match r {
            Ok(bytes) => packet_payload(packet@).len() <= u32::MAX && bytes@ == frame_of(
                packet_payload(packet@),
            ),
            Err(e) => packet_payload(packet@).len() > u32::MAX && e == FrameError::TooLong,
        },
{
    let payload = packet.as_json_bytes();
    frame(payload.as_slice())
}

} // verus!
