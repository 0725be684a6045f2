use integer_encoding::VarInt;
use wire_codec::nested::{frame_written, message_from_wire, message_into_wire, size_hint, Message};
use wire_codec::scalars::{
    bool_from_wire, bool_into_wire, bool_size_hint, fixed32_from_wire, fixed32_into_wire,
    fixed32_size_hint, fixed64_from_wire, fixed64_into_wire, fixed64_size_hint, i32_from_wire,
    i32_into_wire, i32_size_hint, i64_from_wire, i64_into_wire, i64_size_hint, string_from_wire,
    string_into_wire, string_size_hint, u32_from_wire, u32_into_wire, u32_size_hint,
    u64_from_wire, u64_into_wire, u64_size_hint,
};
use wire_codec::wire::{Error, WireType, WireTypeView};

/// The bytes that follow the tag on the wire.
fn wire_bytes(w: &WireType) -> Vec<u8> {
    match w {
        WireType::VarInt(data, n) => data[..*n].to_vec(),
        WireType::FixedI32(data) => data.to_vec(),
        WireType::FixedI64(data) => data.to_vec(),
        WireType::LengthEncoded(b) => {
            let mut out = (b.len() as u64).encode_var_vec();
            out.extend_from_slice(b);
            out
        }
    }
}

fn field_len(tag: u32, w: &WireType) -> usize {
    tag.encode_var_vec().len() + wire_bytes(w).len()
}

fn payload(w: &WireType) -> Vec<u8> {
    match w {
        WireType::VarInt(data, n) => data[..*n].to_vec(),
        WireType::FixedI32(data) => data.to_vec(),
        WireType::FixedI64(data) => data.to_vec(),
        WireType::LengthEncoded(b) => b.to_vec(),
    }
}

#[test]
fn u32_300_under_tag_1() {
    let w = u32_into_wire(300);
    assert_eq!(payload(&w), vec![0xAC, 0x02]);
    assert_eq!(u32_size_hint(300, 1), 3);
    assert_eq!(field_len(1, &w), 3);
}

#[test]
fn u64_round_trips() {
    for v in [0u64, 1, 127, 128, 300, 16_383, 16_384, u32::MAX as u64, u64::MAX] {
        let w = u64_into_wire(v);
        assert!(matches!(w, WireType::VarInt(..)));
        assert_eq!(u64_from_wire(w.as_view()).unwrap(), v);
        assert_eq!(u64_size_hint(v, 5), field_len(5, &w));
    }
    assert_eq!(payload(&u64_into_wire(u64::MAX)).len(), 10);
    assert_eq!(payload(&u64_into_wire(0)), vec![0x00]);
}

#[test]
fn i64_round_trips() {
    for v in [0i64, -1, 1, -64, 64, -65, i64::MIN, i64::MAX] {
        let w = i64_into_wire(v);
        assert_eq!(i64_from_wire(w.as_view()).unwrap(), v);
        assert_eq!(i64_size_hint(v, 200), field_len(200, &w));
    }
    assert_eq!(payload(&i64_into_wire(-1)), vec![0x01]);
    assert_eq!(payload(&i64_into_wire(1)), vec![0x02]);
}

#[test]
fn u32_round_trips() {
    for v in [0u32, 1, 300, u32::MAX] {
        let w = u32_into_wire(v);
        assert_eq!(u32_from_wire(w.as_view()).unwrap(), v);
        assert_eq!(u32_size_hint(v, u32::MAX), field_len(u32::MAX, &w));
    }
}

#[test]
fn i32_round_trips() {
    for v in [0i32, -1, 1, i32::MIN, i32::MAX, -300] {
        let w = i32_into_wire(v);
        assert_eq!(i32_from_wire(w.as_view()).unwrap(), v);
        assert_eq!(i32_size_hint(v, 16), field_len(16, &w));
    }
    assert_eq!(payload(&i32_into_wire(-2)), vec![0x03]);
}

#[test]
fn bool_round_trips() {
    for v in [false, true] {
        let w = bool_into_wire(v);
        assert_eq!(bool_from_wire(w.as_view()).unwrap(), v);
        assert_eq!(bool_size_hint(v, 3), 2);
        assert_eq!(field_len(3, &w), 2);
    }
    assert_eq!(payload(&bool_into_wire(true)), vec![0x01]);
}

#[test]
fn bool_reads_any_nonzero_as_true() {
    assert_eq!(bool_from_wire(WireTypeView::VarInt(&[2])).unwrap(), true);
    assert_eq!(bool_from_wire(WireTypeView::VarInt(&[0])).unwrap(), false);
}

#[test]
fn text_round_trips() {
    for s in ["", "hello", "h\u{e9}llo \u{1F600}", "x"] {
        let w = string_into_wire(s.to_string());
        assert!(matches!(w, WireType::LengthEncoded(_)));
        assert_eq!(payload(&w), s.as_bytes().to_vec());
        assert_eq!(string_from_wire(w.as_view()).unwrap(), s);
        assert_eq!(string_size_hint(&s.to_string(), 9), field_len(9, &string_into_wire(s.to_string())));
    }
    assert_eq!(string_size_hint(&String::new(), 1), 2);
}

#[test]
fn long_text_size_has_two_byte_prefix() {
    let s = "a".repeat(200);
    assert_eq!(string_size_hint(&s, 1), 1 + 2 + 200);
    let w = string_into_wire(s.clone());
    assert_eq!(field_len(1, &w), 203);
    assert_eq!(string_from_wire(w.as_view()).unwrap(), s);
}

#[test]
fn invalid_utf8_is_a_text_error() {
    let r = string_from_wire(WireTypeView::LengthEncoded(&[0x66, 0xFF, 0x6F]));
    assert!(matches!(r, Err(Error::TextDecoding(_))));
}

#[test]
fn fixed64_keeps_float_bits() {
    for v in [0.0f64, -0.0, 1.5, f64::INFINITY, f64::NEG_INFINITY, f64::NAN, f64::MIN_POSITIVE] {
        let w = fixed64_into_wire(v.to_le_bytes());
        let back = f64::from_le_bytes(fixed64_from_wire(w.as_view()).unwrap());
        assert_eq!(back.to_bits(), v.to_bits());
        assert_eq!(field_len(1, &w), 9);
    }
    assert_eq!(fixed64_size_hint(1), 9);
    assert_eq!(fixed64_size_hint(300), 10);
}

#[test]
fn fixed32_keeps_float_bits() {
    for v in [0.0f32, -0.0, 3.25, f32::INFINITY, f32::NAN] {
        let w = fixed32_into_wire(v.to_le_bytes());
        let back = f32::from_le_bytes(fixed32_from_wire(w.as_view()).unwrap());
        assert_eq!(back.to_bits(), v.to_bits());
        assert_eq!(field_len(2, &w), 5);
    }
    assert_eq!(fixed32_size_hint(2), 5);
}

#[test]
fn mismatched_shapes_are_rejected() {
    let data = [1u8, 2, 3, 4, 5, 6, 7, 8];
    assert!(matches!(fixed64_from_wire(WireTypeView::VarInt(&[1])), Err(Error::UnexpectedWireType)));
    assert!(matches!(fixed32_from_wire(WireTypeView::FixedI64(&data)), Err(Error::UnexpectedWireType)));
    assert!(matches!(u64_from_wire(WireTypeView::LengthEncoded(&[1])), Err(Error::UnexpectedWireType)));
    assert!(matches!(i64_from_wire(WireTypeView::FixedI64(&data)), Err(Error::UnexpectedWireType)));
    assert!(matches!(u32_from_wire(WireTypeView::FixedI32(&data[..4])), Err(Error::UnexpectedWireType)));
    assert!(matches!(i32_from_wire(WireTypeView::LengthEncoded(&[])), Err(Error::UnexpectedWireType)));
    assert!(matches!(bool_from_wire(WireTypeView::FixedI32(&data[..4])), Err(Error::UnexpectedWireType)));
    assert!(matches!(string_from_wire(WireTypeView::VarInt(&[1])), Err(Error::UnexpectedWireType)));
    let r: Result<Blob, Error> = message_from_wire(WireTypeView::VarInt(&[1]));
    assert!(matches!(r, Err(Error::UnexpectedWireType)));
}

#[test]
fn unterminated_varints_are_rejected() {
    let ten = [0xFFu8; 10];
    assert!(matches!(u64_from_wire(WireTypeView::VarInt(&ten)), Err(Error::InvalidVarInt)));
    assert!(matches!(i32_from_wire(WireTypeView::VarInt(&ten)), Err(Error::InvalidVarInt)));
    assert!(matches!(bool_from_wire(WireTypeView::VarInt(&ten)), Err(Error::InvalidVarInt)));
    let eleven = [0x80u8, 0x80, 0x80, 0x80, 0x80, 0x80, 0x80, 0x80, 0x80, 0x80, 0x01];
    assert!(matches!(u64_from_wire(WireTypeView::VarInt(&eleven)), Err(Error::InvalidVarInt)));
    assert!(matches!(u32_from_wire(WireTypeView::VarInt(&[0xAC])), Err(Error::InvalidVarInt)));
    assert!(matches!(i64_from_wire(WireTypeView::VarInt(&[])), Err(Error::InvalidVarInt)));
}

#[test]
fn narrow_reads_keep_low_bits() {
    let w = u64_into_wire(0x1_0000_0005);
    assert_eq!(u32_from_wire(w.as_view()).unwrap(), 5);
    let w = u64_into_wire(1u64 << 33);
    assert_eq!(bool_from_wire(w.as_view()).unwrap(), false);
}

#[test]
fn trailing_bytes_after_a_varint_are_ignored() {
    assert_eq!(u64_from_wire(WireTypeView::VarInt(&[0xAC, 0x02, 0x07])).unwrap(), 300);
}

/// Raw bytes, taken whole.
#[derive(Debug, PartialEq)]
struct Blob {
    data: Vec<u8>,
}

impl Message for Blob {
    fn size_hint(&self) -> usize {
        self.data.len()
    }

    fn serialize(&self, buf: &mut [u8]) -> Option<usize> {
        let n = self.data.len();
        if buf.len() < n {
            return None;
        }
        buf[..n].copy_from_slice(&self.data);
        Some(n)
    }

    fn deserialize(data: &[u8]) -> Result<(Self, usize), Error> {
        Ok((Blob { data: data.to_vec() }, data.len()))
    }
}

const ID_TAG: u32 = 8;
const BODY_TAG: u32 = 18;

/// A number and a nested blob.
#[derive(Debug, PartialEq)]
struct Envelope {
    id: u32,
    body: Blob,
}

fn put(buf: &mut [u8], at: &mut usize, bytes: &[u8]) -> Option<()> {
    if buf.len() < *at + bytes.len() {
        return None;
    }
    buf[*at..*at + bytes.len()].copy_from_slice(bytes);
    *at += bytes.len();
    Some(())
}

impl Message for Envelope {
    fn size_hint(&self) -> usize {
        u32_size_hint(self.id, ID_TAG) + size_hint(BODY_TAG, &self.body)
    }

    fn serialize(&self, buf: &mut [u8]) -> Option<usize> {
        let mut at = 0;
        put(buf, &mut at, &payload(&u32_into_wire(ID_TAG)))?;
        put(buf, &mut at, &payload(&u32_into_wire(self.id)))?;
        put(buf, &mut at, &payload(&u32_into_wire(BODY_TAG)))?;
        let body = message_into_wire(&self.body)?;
        put(buf, &mut at, &wire_bytes(&body))?;
        Some(at)
    }

    fn deserialize(data: &[u8]) -> Result<(Self, usize), Error> {
        let mut at = 0;
        let next = |at: &mut usize| -> Result<u64, Error> {
            let (v, n) = u64::decode_var(&data[*at..]).ok_or(Error::InvalidVarInt)?;
            *at += n;
            Ok(v)
        };
        if next(&mut at)? != ID_TAG as u64 {
            return Err(Error::UnexpectedWireType);
        }
        let id = u32_from_wire(WireTypeView::VarInt(&data[at..]))?;
        next(&mut at)?;
        if next(&mut at)? != BODY_TAG as u64 {
            return Err(Error::UnexpectedWireType);
        }
        let len = next(&mut at)? as usize;
        let body: Blob = message_from_wire(WireTypeView::LengthEncoded(&data[at..at + len]))?;
        Ok((Envelope { id, body }, at + len))
    }
}

/// An envelope inside an envelope-like wrapper: three levels in all.
#[derive(Debug, PartialEq)]
struct Outer {
    inner: Envelope,
}

impl Message for Outer {
    fn size_hint(&self) -> usize {
        size_hint(BODY_TAG, &self.inner)
    }

    fn serialize(&self, buf: &mut [u8]) -> Option<usize> {
        let mut at = 0;
        put(buf, &mut at, &payload(&u32_into_wire(BODY_TAG)))?;
        let inner = message_into_wire(&self.inner)?;
        put(buf, &mut at, &wire_bytes(&inner))?;
        Some(at)
    }

    fn deserialize(data: &[u8]) -> Result<(Self, usize), Error> {
        let (tag, n) = u64::decode_var(data).ok_or(Error::InvalidVarInt)?;
        if tag != BODY_TAG as u64 {
            return Err(Error::UnexpectedWireType);
        }
        let (len, m) = u64::decode_var(&data[n..]).ok_or(Error::InvalidVarInt)?;
        let start = n + m;
        let end = start + len as usize;
        let inner: Envelope = message_from_wire(WireTypeView::LengthEncoded(&data[start..end]))?;
        Ok((Outer { inner }, end))
    }
}

#[test]
fn small_nested_message_round_trips() {
    let v = Envelope { id: 300, body: Blob { data: vec![1, 2, 3] } };
    let w = message_into_wire(&v).unwrap();
    assert!(matches!(w, WireType::LengthEncoded(_)));
    assert_eq!(payload(&w).len(), v.size_hint());
    assert_eq!(size_hint(4, &v), field_len(4, &w));
    let back: Envelope = message_from_wire(w.as_view()).unwrap();
    assert_eq!(back, v);
}

#[test]
fn large_nested_message_round_trips() {
    let data: Vec<u8> = (0..2000u32).map(|i| (i % 251) as u8).collect();
    let v = Outer { inner: Envelope { id: 7, body: Blob { data } } };
    let w = message_into_wire(&v).unwrap();
    assert!(payload(&w).len() > 1024);
    assert_eq!(payload(&w).len(), v.size_hint());
    assert_eq!(size_hint(1, &v), field_len(1, &w));
    let back: Outer = message_from_wire(w.as_view()).unwrap();
    assert_eq!(back, v);
}

#[test]
fn nested_size_counts_tag_prefix_and_payload() {
    let b = Blob { data: vec![0; 200] };
    assert_eq!(size_hint(1, &b), 1 + 2 + 200);
    assert_eq!(size_hint(300, &Blob { data: vec![] }), 2 + 1);
}

/// Reports one length and writes another.
struct Drifting;

impl Message for Drifting {
    fn size_hint(&self) -> usize {
        4
    }

    fn serialize(&self, buf: &mut [u8]) -> Option<usize> {
        buf[0] = 9;
        Some(1)
    }

    fn deserialize(_data: &[u8]) -> Result<(Self, usize), Error> {
        Err(Error::InvalidVarInt)
    }
}

#[test]
fn drift_between_size_and_write_is_refused() {
    assert!(message_into_wire(&Drifting).is_none());
    let r: Result<Drifting, Error> = message_from_wire(WireTypeView::LengthEncoded(&[1]));
    assert!(matches!(r, Err(Error::InvalidVarInt)));
}

#[test]
fn frame_written_takes_exactly_the_reported_prefix() {
    let buf = [5u8, 6, 7, 8];
    let w = frame_written(&buf, 3, 3).unwrap();
    assert_eq!(payload(&w), vec![5, 6, 7]);
    assert!(frame_written(&buf, 3, 2).is_none());
    assert!(frame_written(&buf, 5, 5).is_none());
}

/// Two bytes; whatever follows is not its concern.
#[derive(Debug, PartialEq)]
struct Pair([u8; 2]);

impl Message for Pair {
    fn size_hint(&self) -> usize {
        2
    }

    fn serialize(&self, buf: &mut [u8]) -> Option<usize> {
        if buf.len() < 2 {
            return None;
        }
        buf[..2].copy_from_slice(&self.0);
        Some(2)
    }

    fn deserialize(data: &[u8]) -> Result<(Self, usize), Error> {
        if data.len() < 2 {
            return Err(Error::InvalidVarInt);
        }
        Ok((Pair([data[0], data[1]]), 2))
    }
}

#[test]
fn nested_decode_leaves_trailing_bytes_alone() {
    let back: Pair = message_from_wire(WireTypeView::LengthEncoded(&[4, 5, 6, 7])).unwrap();
    assert_eq!(back, Pair([4, 5]));
    let short: Result<Pair, Error> = message_from_wire(WireTypeView::LengthEncoded(&[4]));
    assert!(matches!(short, Err(Error::InvalidVarInt)));
    let w = message_into_wire(&Pair([8, 9])).unwrap();
    assert_eq!(payload(&w), vec![8, 9]);
    assert_eq!(size_hint(1, &Pair([8, 9])), 4);
}
