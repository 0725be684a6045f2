//! Codecs for the scalar types: integers and booleans as varints, fixed-width
//! four- and eight-byte payloads, and UTF-8 text.
use crate::varint::{
    decode_u64_spec, decode_var_i64, decode_var_u64, encode_var_i64, encode_var_u64,
    lemma_varint_len_u64, required_space_i64, required_space_u64, unzigzag, varint_bytes,
    varint_len, zigzag,
};
use crate::wire::{
    bytes_from_vec, field_len, Error, WireKind, WireType, WireTypeView,
};
use std::string::FromUtf8Error;
use vstd::prelude::*;
use vstd::slice::slice_to_vec;
use vstd::utf8::{decode_utf8, encode_utf8, valid_utf8};

verus! {

/// What reading a varint payload as a 64-bit value gives.
pub open spec fn varint_from_wire_spec(kind: WireKind, bytes: Seq<u8>) -> Result<u64, Error> {
    if kind != WireKind::VarInt {
        Err(Error::UnexpectedWireType)
    } else {
        match decode_u64_spec(bytes) {
            Some((v, _)) => Ok(v),
            None => Err(Error::InvalidVarInt),
        }
    }
}

pub open spec fn u64_from_wire_spec(kind: WireKind, bytes: Seq<u8>) -> Result<u64, Error> {
    varint_from_wire_spec(kind, bytes)
}

pub open spec fn i64_from_wire_spec(kind: WireKind, bytes: Seq<u8>) -> Result<i64, Error> {
    match varint_from_wire_spec(kind, bytes) {
        Ok(v) => Ok(unzigzag(v)),
        Err(e) => Err(e),
    }
}

/// A 32-bit unsigned read keeps the low 32 bits of the 64-bit value.
pub open spec fn u32_from_wire_spec(kind: WireKind, bytes: Seq<u8>) -> Result<u32, Error> {
    match varint_from_wire_spec(kind, bytes) {
        Ok(v) => Ok(v as u32),
        Err(e) => Err(e),
    }
}

/// A 32-bit signed read keeps the low 32 bits of the zigzag-decoded value.
pub open spec fn i32_from_wire_spec(kind: WireKind, bytes: Seq<u8>) -> Result<i32, Error> {
    match i64_from_wire_spec(kind, bytes) {
        Ok(v) => Ok(v as i32),
        Err(e) => Err(e),
    }
}

/// A boolean is read as a 32-bit signed value, and any nonzero value is true.
pub open spec fn bool_from_wire_spec(kind: WireKind, bytes: Seq<u8>) -> Result<bool, Error> {
    match i32_from_wire_spec(kind, bytes) {
        Ok(v) => Ok(v != 0),
        Err(e) => Err(e),
    }
}

/// Text is read from a length-delimited payload that must be valid UTF-8.
pub open spec fn text_from_wire_ok(kind: WireKind, bytes: Seq<u8>) -> bool {
    kind == WireKind::LengthEncoded && valid_utf8(bytes)
}

/// The varint payload of a boolean: one or zero.
pub open spec fn bool_payload(v: bool) -> Seq<u8> {
    varint_bytes(if v { 1 } else { 0 })
}

/// Wraps a varint buffer and its significant length.
fn varint_into_wire(data: [u8; 10], n: usize) -> (r: WireType)
    requires
        n <= 10,
    ensures
        r.wf(),
        r.kind() == WireKind::VarInt,
        r.payload() == data@.take(n as int),
{
    WireType::VarInt(data, n)
}

/// Bytes that the tag takes.
fn tag_space(tag: u32) -> (r: usize)
    ensures
        r == varint_len(tag as nat),
        1 <= r <= 10,
{
    proof {
        lemma_varint_len_u64(tag as u64);
    }
    required_space_u64(tag as u64)
}

/// The varint payload of an unsigned 64-bit value.
pub fn u64_into_wire(v: u64) -> (r: WireType)
    ensures
        r.wf(),
        r.kind() == WireKind::VarInt,
        r.payload() == varint_bytes(v as nat),
{
    proof {
        lemma_varint_len_u64(v);
    }
    let (data, n) = encode_var_u64(v);
    varint_into_wire(data, n)
}

/// Bytes that `v` takes as a field under `tag`.
pub fn u64_size_hint(v: u64, tag: u32) -> (r: usize)
    ensures
        r == field_len(tag, WireKind::VarInt, varint_bytes(v as nat)),
{
    proof {
        lemma_varint_len_u64(v);
    }
    required_space_u64(v) + tag_space(tag)
}

/// Reads an unsigned 64-bit value from a varint payload.
pub fn u64_from_wire(wire: WireTypeView) -> (r: Result<u64, Error>)
    ensures
        r == u64_from_wire_spec(wire.kind(), wire.bytes()),
{
    match wire {
        WireTypeView::VarInt(data) => match decode_var_u64(data) {
            Some((v, _)) => Ok(v),
            None => Err(Error::InvalidVarInt),
        },
        _ => Err(Error::UnexpectedWireType),
    }
}

/// The zigzag varint payload of a signed 64-bit value.
pub fn i64_into_wire(v: i64) -> (r: WireType)
    ensures
        r.wf(),
        r.kind() == WireKind::VarInt,
        r.payload() == varint_bytes(zigzag(v) as nat),
{
    proof {
        lemma_varint_len_u64(zigzag(v));
    }
    let (data, n) = encode_var_i64(v);
    varint_into_wire(data, n)
}

/// Bytes that `v` takes as a field under `tag`.
pub fn i64_size_hint(v: i64, tag: u32) -> (r: usize)
    ensures
        r == field_len(tag, WireKind::VarInt, varint_bytes(zigzag(v) as nat)),
{
    proof {
        lemma_varint_len_u64(zigzag(v));
    }
    required_space_i64(v) + tag_space(tag)
}

/// Reads a signed 64-bit value from a zigzag varint payload.
pub fn i64_from_wire(wire: WireTypeView) -> (r: Result<i64, Error>)
    ensures
        r == i64_from_wire_spec(wire.kind(), wire.bytes()),
{
    match wire {
        WireTypeView::VarInt(data) => match decode_var_i64(data) {
            Some((v, _)) => Ok(v),
            None => Err(Error::InvalidVarInt),
        },
        _ => Err(Error::UnexpectedWireType),
    }
}

/// The varint payload of an unsigned 32-bit value.
pub fn u32_into_wire(v: u32) -> (r: WireType)
    ensures
        r.wf(),
        r.kind() == WireKind::VarInt,
        r.payload() == varint_bytes(v as nat),
{
    u64_into_wire(v as u64)
}

/// Bytes that `v` takes as a field under `tag`.
pub fn u32_size_hint(v: u32, tag: u32) -> (r: usize)
    ensures
        r == field_len(tag, WireKind::VarInt, varint_bytes(v as nat)),
{
    u64_size_hint(v as u64, tag)
}

/// Reads an unsigned 32-bit value from a varint payload.
pub fn u32_from_wire(wire: WireTypeView) -> (r: Result<u32, Error>)
    ensures
        r == u32_from_wire_spec(wire.kind(), wire.bytes()),
{
    match u64_from_wire(wire) {
        Ok(v) => Ok(v as u32),
        Err(e) => Err(e),
    }
}

/// The zigzag varint payload of a signed 32-bit value.
pub fn i32_into_wire(v: i32) -> (r: WireType)
    ensures
        r.wf(),
        r.kind() == WireKind::VarInt,
        r.payload() == varint_bytes(zigzag(v as i64) as nat),
{
    i64_into_wire(v as i64)
}

/// Bytes that `v` takes as a field under `tag`.
pub fn i32_size_hint(v: i32, tag: u32) -> (r: usize)
    ensures
        r == field_len(tag, WireKind::VarInt, varint_bytes(zigzag(v as i64) as nat)),
{
    i64_size_hint(v as i64, tag)
}

/// Reads a signed 32-bit value from a zigzag varint payload.
pub fn i32_from_wire(wire: WireTypeView) -> (r: Result<i32, Error>)
    ensures
        r == i32_from_wire_spec(wire.kind(), wire.bytes()),
{
    match i64_from_wire(wire) {
        Ok(v) => Ok(v as i32),
        Err(e) => Err(e),
    }
}

/// A boolean as the varint one or zero.
pub fn bool_into_wire(v: bool) -> (r: WireType)
    ensures
        r.wf(),
        r.kind() == WireKind::VarInt,
        r.payload() == bool_payload(v),
{
    u64_into_wire(if v { 1u64 } else { 0u64 })
}

/// Bytes that `v` takes as a field under `tag`.
pub fn bool_size_hint(v: bool, tag: u32) -> (r: usize)
    ensures
        r == field_len(tag, WireKind::VarInt, bool_payload(v)),
{
    u64_size_hint(if v { 1u64 } else { 0u64 }, tag)
}

/// Reads a boolean from a varint payload; any nonzero value is true.
pub fn bool_from_wire(wire: WireTypeView) -> (r: Result<bool, Error>)
    ensures
        r == bool_from_wire_spec(wire.kind(), wire.bytes()),
{
    match i32_from_wire(wire) {
        Ok(v) => Ok(v != 0),
        Err(e) => Err(e),
    }
}

/// Four little-endian bytes as a fixed 32-bit payload.
pub fn fixed32_into_wire(bytes: [u8; 4]) -> (r: WireType)
    ensures
        r.wf(),
        r.kind() == WireKind::Fixed32,
        r.payload() == bytes@,
{
    WireType::FixedI32(bytes)
}

/// Bytes that a fixed 32-bit field takes under `tag`.
pub fn fixed32_size_hint(tag: u32) -> (r: usize)
    ensures
        r == varint_len(tag as nat) + 4,
{
    4 + tag_space(tag)
}

/// The four bytes of a fixed 32-bit payload.
pub fn fixed32_from_wire(wire: WireTypeView) -> (r: Result<[u8; 4], Error>)
    requires
        wire.wf(),
    ensures
        match r {
            Ok(a) => wire.kind() == WireKind::Fixed32 && a@ == wire.bytes(),
            Err(e) => wire.kind() != WireKind::Fixed32 && e == Error::UnexpectedWireType,
        },
{
    match wire {
        WireTypeView::FixedI32(data) => {
            let a: [u8; 4] = [data[0], data[1], data[2], data[3]];
            assert(a@ =~= data@);
            Ok(a)
        },
        _ => Err(Error::UnexpectedWireType),
    }
}

/// Eight little-endian bytes as a fixed 64-bit payload.
pub fn fixed64_into_wire(bytes: [u8; 8]) -> (r: WireType)
    ensures
        r.wf(),
        r.kind() == WireKind::Fixed64,
        r.payload() == bytes@,
{
    WireType::FixedI64(bytes)
}

/// Bytes that a fixed 64-bit field takes under `tag`.
pub fn fixed64_size_hint(tag: u32) -> (r: usize)
    ensures
        r == varint_len(tag as nat) + 8,
{
    8 + tag_space(tag)
}

/// The eight bytes of a fixed 64-bit payload.
pub fn fixed64_from_wire(wire: WireTypeView) -> (r: Result<[u8; 8], Error>)
    requires
        wire.wf(),
    ensures
        match r {
            Ok(a) => wire.kind() == WireKind::Fixed64 && a@ == wire.bytes(),
            Err(e) => wire.kind() != WireKind::Fixed64 && e == Error::UnexpectedWireType,
        },
{
    match wire {
        WireTypeView::FixedI64(data) => {
            let a: [u8; 8] = [data[0], data[1], data[2], data[3], data[4], data[5], data[6], data[7]];
            assert(a@ =~= data@);
            Ok(a)
        },
        _ => Err(Error::UnexpectedWireType),
    }
}

/// Relies on `String::from_utf8`: succeeds exactly on valid UTF-8, with the
/// characters that the bytes encode.
#[verifier::external_body]
fn string_from_utf8(v: Vec<u8>) -> (r: Result<String, FromUtf8Error>)
    ensures
        r is Ok <==> valid_utf8(v@),
        r matches Ok(s) ==> s@ == decode_utf8(v@),
{
    String::from_utf8(v)
}

/// Text as a length-delimited payload of its UTF-8 bytes.
pub fn string_into_wire(s: String) -> (r: WireType)
    ensures
        r.wf(),
        r.kind() == WireKind::LengthEncoded,
        r.payload() == encode_utf8(s@),
{
    WireType::LengthEncoded(bytes_from_vec(slice_to_vec(s.as_str().as_bytes())))
}

/// Bytes that `s` takes as a field under `tag`, length prefix included.
pub fn string_size_hint(s: &String, tag: u32) -> (r: usize)
    requires
        encode_utf8(s@).len() + 20 <= usize::MAX,
    ensures
        r == field_len(tag, WireKind::LengthEncoded, encode_utf8(s@)),
{
    let len: usize = s.as_str().len();
    proof {
        lemma_varint_len_u64(len as u64);
    }
    required_space_u64(len as u64) + tag_space(tag) + len
}

/// Reads text from a length-delimited payload that holds valid UTF-8.
pub fn string_from_wire(wire: WireTypeView) -> (r: Result<String, Error>)
    ensures
        match r {
            Ok(s) => text_from_wire_ok(wire.kind(), wire.bytes()) && s@ == decode_utf8(wire.bytes()),
            Err(e) => !text_from_wire_ok(wire.kind(), wire.bytes()) && if wire.kind()
                == WireKind::LengthEncoded {
                e is TextDecoding
            } else {
                e == Error::UnexpectedWireType
            },
        },
{
    match wire {
        WireTypeView::LengthEncoded(data) => match string_from_utf8(slice_to_vec(data)) {
            Ok(s) => Ok(s),
            Err(e) => Err(Error::TextDecoding(e)),
        },
        _ => Err(Error::UnexpectedWireType),
    }
}

} // verus!
