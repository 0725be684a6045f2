//! Composite values framed as length-delimited payloads, and the size of such a
//! field.
use crate::varint::{lemma_varint_len_u64, required_space_u64, varint_len};
use crate::wire::{
    bytes_copy_from_slice, Error, WireKind, WireType, WireTypeView,
};
use smallvec::SmallVec;
use vstd::prelude::*;
use vstd::slice::slice_subrange;

verus! {

/// A composite value that knows its own encoding. Users implement it; the codecs
/// below rely on its contracts, which an implementation outside Verus must keep
/// by its own care.
pub trait Message: Sized {
    /// The bytes that this value is written as. Verified implementations state
    /// their own; the default, nothing, only fits a value with an empty encoding.
    open spec fn encoded(&self) -> Seq<u8> {
        Seq::empty()
    }

    /// What reading a value from the front of `data` gives: the value and the
    /// number of bytes it took, or why it failed. Verified implementations state
    /// their own; the default refuses every input.
    open spec fn decoded(data: Seq<u8>) -> Result<(Self, nat), Error> {
        Err(Error::InvalidVarInt)
    }

    /// The exact number of bytes that `serialize` writes.
    fn size_hint(&self) -> (r: usize)
        ensures
            r == self.encoded().len(),
            r <= isize::MAX,
    ;

    /// Writes the encoding at the front of `buf`. Returns the number of bytes
    /// written, or `None` where `buf` is too short.
    fn serialize(&self, buf: &mut [u8]) -> (r: Option<usize>)
        ensures
            final(buf)@.len() == old(buf)@.len(),
            r is Some <==> self.encoded().len() <= old(buf)@.len(),
            r matches Some(n) ==> n == self.encoded().len() && final(buf)@.take(n as int)
                == self.encoded(),
    ;

    /// Reads a value from the front of `data`, with the number of bytes it took.
    fn deserialize(data: &[u8]) -> (r: Result<(Self, usize), Error>)
        ensures
            match Self::decoded(data@) {
                Ok((v, n)) => r == Ok::<(Self, usize), Error>((v, n as usize)) && n <= data@.len(),
                Err(e) => r == Err::<(Self, usize), Error>(e),
            },
    ;
}

/// Scratch space for one message encoding: inline up to 1024 bytes, on the heap
/// above that.
#[verifier::external_body]
pub struct ScratchBuffer {
    bytes: SmallVec<[u8; 1024]>,
}

/// The bytes held by a scratch buffer.
pub uninterp spec fn scratch_view(b: ScratchBuffer) -> Seq<u8>;

/// Relies on `SmallVec::from_elem`: `n` zero bytes, held inline up to the
/// inline capacity and on the heap above it.
#[verifier::external_body]
fn scratch_zeroed(n: usize) -> (r: ScratchBuffer)
    ensures
        scratch_view(r) == Seq::new(n as nat, |i: int| 0u8),
{
    ScratchBuffer { bytes: SmallVec::from_elem(0u8, n) }
}

/// Relies on `SmallVec::as_mut_slice`: the held bytes, writable in place.
#[verifier::external_body]
fn scratch_as_mut_slice(b: &mut ScratchBuffer) -> (r: &mut [u8])
    ensures
        r@ == scratch_view(*old(b)),
        final(r)@ == scratch_view(*final(b)),
{
    b.bytes.as_mut_slice()
}

/// Relies on `SmallVec::as_slice`: the held bytes.
#[verifier::external_body]
fn scratch_as_slice(b: &ScratchBuffer) -> (r: &[u8])
    ensures
        r@ == scratch_view(*b),
{
    b.bytes.as_slice()
}

/// Number of bytes of a length-delimited field whose payload is `len` bytes long.
pub open spec fn length_delimited_len(tag: u32, len: nat) -> nat {
    varint_len(tag as nat) + varint_len(len) + len
}

/// Size of a length-delimited field: the tag, the length prefix and the payload.
pub fn length_delimited_size(tag: u32, len: usize) -> (r: usize)
    requires
        len <= isize::MAX,
    ensures
        r == length_delimited_len(tag, len as nat),
{
    proof {
        lemma_varint_len_u64(tag as u64);
        lemma_varint_len_u64(len as u64);
    }
    required_space_u64(tag as u64) + required_space_u64(len as u64) + len
}

/// Size of the field that `message` takes under `tag`: the tag, the length
/// prefix and the message's own encoding.
pub fn size_hint<T: Message>(tag: u32, message: &T) -> (r: usize)
    ensures
        r == length_delimited_len(tag, message.encoded().len()),
{
    let len = message.size_hint();
    length_delimited_size(tag, len)
}

/// Frames the first `written` bytes of `buf` as a length-delimited payload, where
/// exactly the `reported` length was written and the buffer holds it.
pub fn frame_written(buf: &[u8], reported: usize, written: usize) -> (r: Option<WireType>)
    ensures
        r is Some <==> (written == reported && reported <= buf@.len()),
        r matches Some(w) ==> w.wf() && w.kind() == WireKind::LengthEncoded && w.payload()
            == buf@.take(written as int),
{
    if written != reported || reported > buf.len() {
        None
    } else {
        let prefix = slice_subrange(buf, 0, written);
        Some(WireType::LengthEncoded(bytes_copy_from_slice(prefix)))
    }
}

/// Encodes a composite as a length-delimited payload. The message writes itself
/// into a zeroed scratch buffer of the length it reports, and the payload is what
/// it wrote. An implementation that breaks its contract, writing another length
/// than it reported, gets `None` instead of a short or padded payload.
pub fn message_into_wire<T: Message>(message: &T) -> (r: Option<WireType>)
    ensures
        r matches Some(w) && w.wf() && w.kind() == WireKind::LengthEncoded && w.payload()
            == message.encoded(),
{
    let size = message.size_hint();
    let mut buffer = scratch_zeroed(size);
    let outcome = message.serialize(scratch_as_mut_slice(&mut buffer));
    match outcome {
        Some(written) => frame_written(scratch_as_slice(&buffer), size, written),
        None => None,
    }
}

/// What decoding a composite from a payload gives: the message's own reading of
/// the whole payload, without the count of bytes it took.
pub open spec fn message_from_wire_spec<T: Message>(kind: WireKind, bytes: Seq<u8>) -> Result<
    T,
    Error,
> {
    if kind != WireKind::LengthEncoded {
        Err(Error::UnexpectedWireType)
    } else {
        match T::decoded(bytes) {
            Ok((v, _)) => Ok(v),
            Err(e) => Err(e),
        }
    }
}

/// Decodes a composite from a length-delimited payload. The whole payload goes to
/// the message's own reading; trailing bytes that it does not take are left alone,
/// and its error comes back unchanged.
pub fn message_from_wire<T: Message>(wire: WireTypeView) -> (r: Result<T, Error>)
    ensures
        r == message_from_wire_spec::<T>(wire.kind(), wire.bytes()),
{
    match wire {
        WireTypeView::LengthEncoded(data) => match T::deserialize(data) {
            Ok((value, _)) => Ok(value),
            Err(e) => Err(e),
        },
        _ => Err(Error::UnexpectedWireType),
    }
}


} // verus!
