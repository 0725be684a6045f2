//! Properties that hold across the codecs: what is written reads back, sizes
//! match what is written, and malformed or mismatched payloads are refused.
use crate::nested::{length_delimited_len, message_from_wire_spec, Message};
use crate::scalars::{
    bool_from_wire_spec, bool_payload, i32_from_wire_spec, i64_from_wire_spec,
    text_from_wire_ok, u32_from_wire_spec, u64_from_wire_spec,
};
use crate::varint::{
    decode_u64_spec, lemma_decode_u64_round_trip, lemma_unzigzag_zigzag, varint_bytes,
    varint_len, varint_parse, zigzag,
};
use crate::wire::{field_bytes, field_len, lemma_field_len, Error, WireKind, WireType};
use vstd::prelude::*;
use vstd::utf8::{decode_utf8, encode_utf8, encode_utf8_decode_utf8, encode_utf8_valid_utf8};

verus! {

/// An unsigned 64-bit value reads back from its varint payload.
pub proof fn lemma_round_trip_u64(v: u64)
    ensures
        u64_from_wire_spec(WireKind::VarInt, varint_bytes(v as nat)) == Ok::<u64, Error>(v),
{
    lemma_decode_u64_round_trip(v, Seq::empty());
    assert(varint_bytes(v as nat) + Seq::<u8>::empty() =~= varint_bytes(v as nat));
}

/// A signed 64-bit value, negative ones included, reads back from its zigzag
/// varint payload.
pub proof fn lemma_round_trip_i64(v: i64)
    ensures
        i64_from_wire_spec(WireKind::VarInt, varint_bytes(zigzag(v) as nat)) == Ok::<
            i64,
            Error,
        >(v),
{
    lemma_round_trip_u64(zigzag(v));
    lemma_unzigzag_zigzag(v);
}

/// An unsigned 32-bit value reads back from its varint payload.
pub proof fn lemma_round_trip_u32(v: u32)
    ensures
        u32_from_wire_spec(WireKind::VarInt, varint_bytes(v as nat)) == Ok::<u32, Error>(v),
{
    lemma_round_trip_u64(v as u64);
}

/// A signed 32-bit value, negative ones included, reads back from its zigzag
/// varint payload.
pub proof fn lemma_round_trip_i32(v: i32)
    ensures
        i32_from_wire_spec(WireKind::VarInt, varint_bytes(zigzag(v as i64) as nat)) == Ok::<
            i32,
            Error,
        >(v),
{
    lemma_round_trip_i64(v as i64);
}

/// A boolean reads back from its varint payload.
pub proof fn lemma_round_trip_bool(v: bool)
    ensures
        bool_from_wire_spec(WireKind::VarInt, bool_payload(v)) == Ok::<bool, Error>(v),
{
    let n: u64 = if v { 1 } else { 0 };
    lemma_round_trip_u64(n);
    assert(decode_u64_spec(bool_payload(v)) == Some((n, 1nat)));
}

/// Text, the empty string included, reads back from its UTF-8 payload.
pub proof fn lemma_round_trip_text(s: Seq<char>)
    ensures
        text_from_wire_ok(WireKind::LengthEncoded, encode_utf8(s)),
        decode_utf8(encode_utf8(s)) == s,
{
    encode_utf8_valid_utf8(s);
    encode_utf8_decode_utf8(s);
}

/// The size reckoned from a payload's shape and bytes is the length of the field
/// as written; for a length-delimited payload it is the tag, the length prefix
/// and the payload.
pub proof fn lemma_size_matches_written(tag: u32, w: WireType)
    ensures
        field_bytes(tag, w).len() == field_len(tag, w.kind(), w.payload()),
        w.kind() == WireKind::LengthEncoded ==> field_bytes(tag, w).len()
            == length_delimited_len(tag, w.payload().len()),
{
    lemma_field_len(tag, w);
}

/// Every integer and boolean reader refuses a payload that is not a varint.
pub proof fn lemma_shape_mismatch_rejected(kind: WireKind, bytes: Seq<u8>)
    requires
        kind != WireKind::VarInt,
    ensures
        u64_from_wire_spec(kind, bytes) == Err::<u64, Error>(Error::UnexpectedWireType),
        i64_from_wire_spec(kind, bytes) == Err::<i64, Error>(Error::UnexpectedWireType),
        u32_from_wire_spec(kind, bytes) == Err::<u32, Error>(Error::UnexpectedWireType),
        i32_from_wire_spec(kind, bytes) == Err::<i32, Error>(Error::UnexpectedWireType),
        bool_from_wire_spec(kind, bytes) == Err::<bool, Error>(Error::UnexpectedWireType),
        kind != WireKind::LengthEncoded ==> !text_from_wire_ok(kind, bytes),
{
}

/// Without a terminating byte among the bytes looked at, no value is read.
proof fn lemma_parse_unterminated(s: Seq<u8>, fuel: nat)
    requires
        forall|i: int| 0 <= i < s.len() && i < fuel ==> s[i] >= 128,
    ensures
        varint_parse(s, fuel) is None,
    decreases fuel,
{
    if fuel > 0 && s.len() > 0 {
        assert(s[0] >= 128);
        let t = s.drop_first();
        assert forall|i: int| 0 <= i < t.len() && i < (fuel - 1) as nat implies t[i] >= 128 by {
            assert(t[i] == s[i + 1]);
        }
        lemma_parse_unterminated(t, (fuel - 1) as nat);
    }
}

/// A varint whose first ten bytes all carry the continuation bit, or that ends
/// before a byte without it, is refused by every integer and boolean reader.
pub proof fn lemma_malformed_varint_rejected(bytes: Seq<u8>)
    requires
        forall|i: int| 0 <= i < bytes.len() && i < 10 ==> bytes[i] >= 128,
    ensures
        decode_u64_spec(bytes) is None,
        u64_from_wire_spec(WireKind::VarInt, bytes) == Err::<u64, Error>(Error::InvalidVarInt),
        i64_from_wire_spec(WireKind::VarInt, bytes) == Err::<i64, Error>(Error::InvalidVarInt),
        u32_from_wire_spec(WireKind::VarInt, bytes) == Err::<u32, Error>(Error::InvalidVarInt),
        i32_from_wire_spec(WireKind::VarInt, bytes) == Err::<i32, Error>(Error::InvalidVarInt),
        bool_from_wire_spec(WireKind::VarInt, bytes) == Err::<bool, Error>(Error::InvalidVarInt),
{
    lemma_parse_unterminated(bytes, 10);
}

/// A varint field, of any integer or boolean whose payload is the base-128 form of
/// `v`, takes the tag's bytes plus that form's bytes.
pub proof fn lemma_varint_field_size(tag: u32, v: u64, w: WireType)
    requires
        w.kind() == WireKind::VarInt,
        w.payload() == varint_bytes(v as nat),
    ensures
        field_bytes(tag, w).len() == field_len(tag, WireKind::VarInt, varint_bytes(v as nat)),
        field_bytes(tag, w).len() == varint_len(tag as nat) + varint_len(v as nat),
{
    lemma_field_len(tag, w);
}

/// A fixed 32-bit field takes the tag's bytes plus four.
pub proof fn lemma_fixed32_field_size(tag: u32, bytes: [u8; 4], w: WireType)
    requires
        w.kind() == WireKind::Fixed32,
        w.payload() == bytes@,
    ensures
        field_bytes(tag, w).len() == varint_len(tag as nat) + 4,
{
    lemma_field_len(tag, w);
}

/// A fixed 64-bit field takes the tag's bytes plus eight.
pub proof fn lemma_fixed64_field_size(tag: u32, bytes: [u8; 8], w: WireType)
    requires
        w.kind() == WireKind::Fixed64,
        w.payload() == bytes@,
    ensures
        field_bytes(tag, w).len() == varint_len(tag as nat) + 8,
{
    lemma_field_len(tag, w);
}

/// A composite framed from its own encoding takes, as a field, the tag's bytes,
/// the length prefix and the encoding: the size that `size_hint` reports. An
/// enclosing message that counts its fields so counts nested ones at any depth.
pub proof fn lemma_message_field_size<T: Message>(tag: u32, message: T, w: WireType)
    requires
        w.kind() == WireKind::LengthEncoded,
        w.payload() == message.encoded(),
    ensures
        field_bytes(tag, w).len() == length_delimited_len(tag, message.encoded().len()),
{
    lemma_field_len(tag, w);
}

/// A composite whose own reading of its encoding gives it back reads back from
/// the framed payload, whatever its length.
pub proof fn lemma_message_round_trip<T: Message>(message: T, n: nat)
    requires
        T::decoded(message.encoded()) == Ok::<(T, nat), Error>((message, n)),
    ensures
        message_from_wire_spec::<T>(WireKind::LengthEncoded, message.encoded()) == Ok::<
            T,
            Error,
        >(message),
{
}

} // verus!
