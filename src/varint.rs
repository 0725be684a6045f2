//! Base-128 variable-length integers, as written and read by `integer_encoding`.
use integer_encoding::VarInt;
use vstd::prelude::*;

verus! {

/// The base-128 form of `v`: seven bits per byte, least significant group first,
/// the high bit set on every byte but the last.
pub open spec fn varint_bytes(v: nat) -> Seq<u8>
    decreases v,
{
    if v < 128 {
        seq![v as u8]
    } else {
        seq![(v % 128 + 128) as u8] + varint_bytes(v / 128)
    }
}

/// Number of bytes in the base-128 form of `v`.
pub open spec fn varint_len(v: nat) -> nat {
    varint_bytes(v).len()
}

/// Reads a base-128 integer from the front of `s`, looking at no more than `fuel`
/// bytes: the value (unbounded) and the number of bytes it took.
pub open spec fn varint_parse(s: Seq<u8>, fuel: nat) -> Option<(nat, nat)>
    decreases fuel,
{
    if fuel == 0 || s.len() == 0 {
        None
    } else if s[0] < 128 {
        Some((s[0] as nat, 1))
    } else {
        match varint_parse(s.drop_first(), (fuel - 1) as nat) {
            Some((v, n)) => Some((((s[0] - 128) + 128 * v) as nat, n + 1)),
            None => None,
        }
    }
}

pub open spec fn two_pow_64() -> nat {
    0x1_0000_0000_0000_0000
}

/// What a 64-bit varint read gives: at most ten bytes are looked at, and the value
/// keeps its low 64 bits.
pub open spec fn decode_u64_spec(s: Seq<u8>) -> Option<(u64, nat)> {
    match varint_parse(s, 10) {
        Some((v, n)) => Some(((v % two_pow_64()) as u64, n)),
        None => None,
    }
}

/// Zigzag mapping of signed to unsigned: 0, -1, 1, -2, ... become 0, 1, 2, 3, ...
pub open spec fn zigzag(v: i64) -> u64 {
    if v >= 0 {
        (2 * v) as u64
    } else {
        (-2 * v - 1) as u64
    }
}

/// Inverse of [`zigzag`].
pub open spec fn unzigzag(u: u64) -> i64 {
    if u % 2 == 0 {
        (u / 2) as i64
    } else {
        (-(u / 2) - 1) as i64
    }
}

/// 128 raised to `k`.
pub open spec fn pow128(k: nat) -> nat
    decreases k,
{
    if k == 0 {
        1
    } else {
        128 * pow128((k - 1) as nat)
    }
}

/// A value below 128 to the `k` takes at most `k` bytes.
pub proof fn lemma_varint_len_bound(v: nat, k: nat)
    requires
        k >= 1,
        v < pow128(k),
    ensures
        1 <= varint_len(v) <= k,
    decreases v,
{
    if v >= 128 {
        let k1 = (k - 1) as nat;
        assert(k >= 2) by {
            if k == 1 {
                reveal_with_fuel(pow128, 2);
            }
        }
        assert(v / 128 < pow128(k1)) by (nonlinear_arith)
            requires
                v < 128 * pow128(k1),
        ;
        lemma_varint_len_bound(v / 128, k1);
    }
}

/// Every 64-bit value takes between one and ten bytes.
pub proof fn lemma_varint_len_u64(v: u64)
    ensures
        1 <= varint_len(v as nat) <= 10,
{
    reveal_with_fuel(pow128, 11);
    assert(pow128(10) == 0x40_0000_0000_0000_0000);
    lemma_varint_len_bound(v as nat, 10);
}

/// Reading back the base-128 form of `v`, whatever follows it, gives `v` and the
/// length of that form.
pub proof fn lemma_varint_parse_bytes(v: nat, rest: Seq<u8>, fuel: nat)
    requires
        varint_len(v) <= fuel,
    ensures
        varint_parse(varint_bytes(v) + rest, fuel) == Some((v, varint_len(v))),
    decreases v,
{
    let s = varint_bytes(v) + rest;
    if v < 128 {
        assert(s[0] == v as u8);
    } else {
        let f1 = (fuel - 1) as nat;
        lemma_varint_parse_bytes(v / 128, rest, f1);
        assert(s.drop_first() =~= varint_bytes(v / 128) + rest);
        assert(s[0] == (v % 128 + 128) as u8);
    }
}

/// A 64-bit value survives a write and a read of its base-128 form.
pub proof fn lemma_decode_u64_round_trip(v: u64, rest: Seq<u8>)
    ensures
        decode_u64_spec(varint_bytes(v as nat) + rest) == Some((v, varint_len(v as nat))),
{
    lemma_varint_len_u64(v);
    lemma_varint_parse_bytes(v as nat, rest, 10);
}

/// Zigzag mapping is undone by [`unzigzag`].
pub proof fn lemma_unzigzag_zigzag(v: i64)
    ensures
        unzigzag(zigzag(v)) == v,
{
}

/// Relies on `<u64 as VarInt>::encode_var`: writes the base-128 form of `v` at the
/// start of a ten-byte buffer and returns how many bytes it took.
#[verifier::external_body]
pub(crate) fn encode_var_u64(v: u64) -> (r: ([u8; 10], usize))
    ensures
        r.1 == varint_len(v as nat),
        r.0@.take(r.1 as int) == varint_bytes(v as nat),
{
    let mut data = [0u8; 10];
    let size = v.encode_var(&mut data);
    (data, size)
}

/// Relies on `<i64 as VarInt>::encode_var`: writes the base-128 form of the zigzag
/// mapping of `v` at the start of a ten-byte buffer and returns how many bytes it took.
#[verifier::external_body]
pub(crate) fn encode_var_i64(v: i64) -> (r: ([u8; 10], usize))
    ensures
        r.1 == varint_len(zigzag(v) as nat),
        r.0@.take(r.1 as int) == varint_bytes(zigzag(v) as nat),
{
    let mut data = [0u8; 10];
    let size = v.encode_var(&mut data);
    (data, size)
}

/// Relies on `<u64 as VarInt>::decode_var`: reads a varint from the front of `src`,
/// looking at ten bytes at most, and fails when none of them ends it.
#[verifier::external_body]
pub(crate) fn decode_var_u64(src: &[u8]) -> (r: Option<(u64, usize)>)
    ensures
        match decode_u64_spec(src@) {
            Some((v, n)) => r == Some((v, n as usize)),
            None => r is None,
        },
{
    u64::decode_var(src)
}

/// Relies on `<i64 as VarInt>::decode_var`: the 64-bit read above, mapped back from
/// zigzag form.
#[verifier::external_body]
pub(crate) fn decode_var_i64(src: &[u8]) -> (r: Option<(i64, usize)>)
    ensures
        match decode_u64_spec(src@) {
            Some((v, n)) => r == Some((unzigzag(v), n as usize)),
            None => r is None,
        },
{
    i64::decode_var(src)
}

/// Relies on `<u64 as VarInt>::required_space`: the length of the base-128 form.
#[verifier::external_body]
pub(crate) fn required_space_u64(v: u64) -> (r: usize)
    ensures
        r == varint_len(v as nat),
{
    v.required_space()
}

/// Relies on `<i64 as VarInt>::required_space`: the length of the base-128 form of
/// the zigzag mapping.
#[verifier::external_body]
pub(crate) fn required_space_i64(v: i64) -> (r: usize)
    ensures
        r == varint_len(zigzag(v) as nat),
{
    v.required_space()
}

} // verus!
