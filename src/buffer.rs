use vstd::prelude::*;

verus! {

/// `bytes::Bytes`, the shared immutable buffer in which encoded frames are handed out.
#[verifier::external_type_specification]
#[verifier::external_body]
pub struct ExBytes(bytes::Bytes);

/// The bytes held by a `bytes::Bytes` buffer.
pub uninterp spec fn bytes_view(b: bytes::Bytes) -> Seq<u8>;

/// Relies on `impl From<Vec<u8>> for bytes::Bytes`: the buffer takes over the
/// vector and holds exactly its bytes, in order.
#[verifier::external_body]
pub(crate) fn freeze(v: Vec<u8>) -> (r: bytes::Bytes)
    ensures
        bytes_view(r) == v@,
{
    bytes::Bytes::from(v)
}

/// `bytes::BytesMut`, the growable buffer in which frames are written.
#[verifier::external_type_specification]
#[verifier::external_body]
pub struct ExBytesMut(bytes::BytesMut);

/// The bytes written so far into a `bytes::BytesMut` buffer.
pub uninterp spec fn bytes_mut_view(b: bytes::BytesMut) -> Seq<u8>;

/// Relies on `bytes::BytesMut::new`: the new buffer is empty.
#[verifier::external_body]
pub(crate) fn new_buffer() -> (r: bytes::BytesMut)
    ensures
        bytes_mut_view(r) == Seq::<u8>::empty(),
{
    bytes::BytesMut::new()
}

/// Relies on `bytes::BytesMut::extend_from_slice`: the slice's bytes are
/// appended after those already written, in order.
#[verifier::external_body]
pub(crate) fn append(out: &mut bytes::BytesMut, src: &[u8])
    ensures
        bytes_mut_view(*final(out)) == bytes_mut_view(*old(out)) + src@,
{
    out.extend_from_slice(src)
}

/// Relies on `bytes::BytesMut::freeze`: the frozen buffer holds the bytes
/// written, in order.
#[verifier::external_body]
pub(crate) fn freeze_buffer(b: bytes::BytesMut) -> (r: bytes::Bytes)
    ensures
        bytes_view(r) == bytes_mut_view(b),
{
    b.freeze()
}

/// Appends one byte.
pub fn put_u8(out: &mut bytes::BytesMut, byte: u8)
    ensures
        bytes_mut_view(*final(out)) == bytes_mut_view(*old(out)).push(byte),
{
    let one: [u8; 1] = [byte];
    append(out, &one);
    assert(one@ =~= seq![byte]);
}

} // verus!
