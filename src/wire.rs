//! The four payload shapes of the wire format, owned and borrowed, and the
//! errors of decoding.
use crate::varint::{varint_bytes, varint_len};
use bytes::Bytes;
use std::string::FromUtf8Error;
use vstd::prelude::*;
use vstd::slice::slice_subrange;

verus! {

#[verifier::external_type_specification]
#[verifier::external_body]
pub struct ExBytes(bytes::Bytes);

#[verifier::external_type_specification]
#[verifier::external_body]
pub struct ExFromUtf8Error(std::string::FromUtf8Error);

/// The bytes that a `Bytes` value holds.
pub uninterp spec fn bytes_view(b: Bytes) -> Seq<u8>;

/// Relies on `<Bytes as From<Vec<u8>>>::from`: the vector's bytes are taken over.
#[verifier::external_body]
pub(crate) fn bytes_from_vec(v: Vec<u8>) -> (r: Bytes)
    ensures
        bytes_view(r) == v@,
{
    Bytes::from(v)
}

/// Relies on `Bytes::copy_from_slice`: a copy of the slice's bytes.
#[verifier::external_body]
pub(crate) fn bytes_copy_from_slice(data: &[u8]) -> (r: Bytes)
    ensures
        bytes_view(r) == data@,
{
    Bytes::copy_from_slice(data)
}

/// Relies on `<Bytes as Deref>::deref`: the held bytes as a slice.
#[verifier::external_body]
pub(crate) fn bytes_as_slice(b: &Bytes) -> (r: &[u8])
    ensures
        r@ == bytes_view(*b),
{
    std::ops::Deref::deref(b)
}

/// Which of the four payload shapes a value has.
#[derive(Clone, Copy, Debug, PartialEq, Eq, Structural)]
pub enum WireKind {
    VarInt,
    Fixed32,
    Fixed64,
    LengthEncoded,
}

/// An owned payload, ready to be written after its tag.
#[derive(Debug)]
pub enum WireType {
    /// A buffer holding a base-128 integer and the number of its bytes that count.
    VarInt([u8; 10], usize),
    /// Four little-endian bytes.
    FixedI32([u8; 4]),
    /// Eight little-endian bytes.
    FixedI64([u8; 8]),
    /// Bytes written after a base-128 length prefix.
    LengthEncoded(Bytes),
}

/// A payload read in place from a caller's buffer.
#[derive(Clone, Copy, Debug)]
pub enum WireTypeView<'a> {
    VarInt(&'a [u8]),
    FixedI32(&'a [u8]),
    FixedI64(&'a [u8]),
    LengthEncoded(&'a [u8]),
}

/// Why a payload could not be decoded.
#[derive(Debug)]
pub enum Error {
    /// The payload's shape is not the one the target type is written in.
    UnexpectedWireType,
    /// The base-128 integer is not terminated within ten bytes or within the payload.
    InvalidVarInt,
    /// Length-delimited text that is not valid UTF-8.
    TextDecoding(FromUtf8Error),
}

impl WireType {
    /// The significant length of a varint never exceeds its buffer.
    pub open spec fn wf(&self) -> bool {
        match self {
            WireType::VarInt(_, n) => *n <= 10,
            _ => true,
        }
    }

    pub open spec fn kind(&self) -> WireKind {
        match self {
            WireType::VarInt(..) => WireKind::VarInt,
            WireType::FixedI32(_) => WireKind::Fixed32,
            WireType::FixedI64(_) => WireKind::Fixed64,
            WireType::LengthEncoded(_) => WireKind::LengthEncoded,
        }
    }

    /// The payload's own bytes, without any length prefix.
    pub open spec fn payload(&self) -> Seq<u8> {
        match self {
            WireType::VarInt(data, n) => data@.take(*n as int),
            WireType::FixedI32(data) => data@,
            WireType::FixedI64(data) => data@,
            WireType::LengthEncoded(b) => bytes_view(*b),
        }
    }

    /// The bytes that go on the wire after the tag: the payload, preceded by its
    /// length where it is length-delimited.
    pub open spec fn wire_bytes(&self) -> Seq<u8> {
        match self {
            WireType::LengthEncoded(_) => varint_bytes(self.payload().len()) + self.payload(),
            _ => self.payload(),
        }
    }

    /// A borrowed view of the same payload.
    pub fn as_view(&self) -> (r: WireTypeView<'_>)
        requires
            self.wf(),
        ensures
            r.kind() == self.kind(),
            r.bytes() == self.payload(),
    {
        match self {
            WireType::VarInt(data, n) => {
                let s: &[u8] = data.as_slice();
                WireTypeView::VarInt(slice_subrange(s, 0, *n))
            },
            WireType::FixedI32(data) => WireTypeView::FixedI32(data.as_slice()),
            WireType::FixedI64(data) => WireTypeView::FixedI64(data.as_slice()),
            WireType::LengthEncoded(b) => WireTypeView::LengthEncoded(bytes_as_slice(b)),
        }
    }
}

/// Full field: the tag's base-128 form followed by the payload as written.
pub open spec fn field_bytes(tag: u32, w: WireType) -> Seq<u8> {
    varint_bytes(tag as nat) + w.wire_bytes()
}

/// Number of bytes of a field whose payload has shape `kind` and bytes `payload`:
/// the tag, the length prefix where there is one, and the payload.
pub open spec fn field_len(tag: u32, kind: WireKind, payload: Seq<u8>) -> nat {
    varint_len(tag as nat) + (if kind == WireKind::LengthEncoded {
        varint_len(payload.len())
    } else {
        0
    }) + payload.len()
}

/// A size reckoned with [`field_len`] from a payload's shape and bytes is the
/// number of bytes that the field takes when written.
pub proof fn lemma_field_len(tag: u32, w: WireType)
    ensures
        field_bytes(tag, w).len() == field_len(tag, w.kind(), w.payload()),
{
}

impl<'a> WireTypeView<'a> {
    /// Fixed-width payloads have exactly their width.
    pub open spec fn wf(&self) -> bool {
        match self {
            WireTypeView::FixedI32(d) => d@.len() == 4,
            WireTypeView::FixedI64(d) => d@.len() == 8,
            _ => true,
        }
    }

    pub open spec fn kind(&self) -> WireKind {
        match self {
            WireTypeView::VarInt(_) => WireKind::VarInt,
            WireTypeView::FixedI32(_) => WireKind::Fixed32,
            WireTypeView::FixedI64(_) => WireKind::Fixed64,
            WireTypeView::LengthEncoded(_) => WireKind::LengthEncoded,
        }
    }

    pub open spec fn bytes(&self) -> Seq<u8> {
        match self {
            WireTypeView::VarInt(d) => d@,
            WireTypeView::FixedI32(d) => d@,
            WireTypeView::FixedI64(d) => d@,
            WireTypeView::LengthEncoded(d) => d@,
        }
    }
}

} // verus!
