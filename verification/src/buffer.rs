use vstd::prelude::*;

verus! {

#[verifier::external_type_specification]
#[verifier::external_body]
pub struct ExBytesMut(bytes::BytesMut);

#[verifier::external_type_specification]
#[verifier::external_body]
pub struct ExBytes(bytes::Bytes);

/// The bytes that a `bytes::BytesMut` buffer holds, in order.
pub uninterp spec fn bytes_mut_view(b: bytes::BytesMut) -> Seq<u8>;

/// The bytes that a frozen `bytes::Bytes` buffer holds, in order.
pub uninterp spec fn bytes_view(b: bytes::Bytes) -> Seq<u8>;

/// Relies on `bytes::BytesMut::new`: creates a buffer of length 0.
#[verifier::external_body]
pub fn bytes_mut_new() -> (b: bytes::BytesMut)
    ensures
        bytes_mut_view(b) == Seq::<u8>::empty(),
{
    bytes::BytesMut::new()
}

/// Relies on `bytes::BytesMut::extend_from_slice`: appends the slice.
#[verifier::external_body]
pub fn bytes_mut_extend(b: &mut bytes::BytesMut, data: &[u8])
    ensures
        bytes_mut_view(*final(b)) == bytes_mut_view(*old(b)) + data@,
{
    b.extend_from_slice(data);
}

/// Relies on `bytes::BufMut::put_slice` for `BytesMut`: appends the slice
/// (its body forwards to `extend_from_slice`).
#[verifier::external_body]
pub fn bytes_mut_put_slice(b: &mut bytes::BytesMut, data: &[u8])
    ensures
        bytes_mut_view(*final(b)) == bytes_mut_view(*old(b)) + data@,
{
    bytes::BufMut::put_slice(b, data);
}

/// Relies on `bytes::BytesMut::len`: the number of bytes contained.
#[verifier::external_body]
pub fn bytes_mut_len(b: &bytes::BytesMut) -> (n: usize)
    ensures
        n == bytes_mut_view(*b).len(),
{
    b.len()
}

/// Relies on `bytes::BytesMut::reserve`: capacity only, contents untouched.
/// Reserving documents a panic when the new capacity overflows, so the
/// requested total must fit the machine's address range.
#[verifier::external_body]
pub fn bytes_mut_reserve(b: &mut bytes::BytesMut, additional: usize)
    requires
        bytes_mut_view(*old(b)).len() + additional <= usize::MAX,
    ensures
        bytes_mut_view(*final(b)) == bytes_mut_view(*old(b)),
{
    b.reserve(additional);
}

/// Reserves capacity for `additional` more bytes where the total fits the
/// machine's address range, and leaves the buffer alone otherwise; the
/// contents stay as they are either way.
pub fn bytes_mut_reserve_checked(b: &mut bytes::BytesMut, additional: usize)
    ensures
        bytes_mut_view(*final(b)) == bytes_mut_view(*old(b)),
{
    let len = bytes_mut_len(b);
    if additional <= usize::MAX - len {
        bytes_mut_reserve(b, additional);
    }
}

/// Relies on `bytes::BytesMut::freeze`: converts without changing contents.
#[verifier::external_body]
pub fn bytes_mut_freeze(b: bytes::BytesMut) -> (r: bytes::Bytes)
    ensures
        bytes_view(r) == bytes_mut_view(b),
{
    b.freeze()
}

/// Copies the contents of a frozen buffer into a plain vector.
pub fn bytes_to_vec(b: &bytes::Bytes) -> (v: Vec<u8>)
    ensures
        v@ == bytes_view(*b),
{
    vstd::slice::slice_to_vec(bytes_as_slice(b))
}

/// Relies on `<bytes::Bytes as AsRef<[u8]>>::as_ref`: exposes the contents.
#[verifier::external_body]
pub fn bytes_as_slice(b: &bytes::Bytes) -> (s: &[u8])
    ensures
        s@ == bytes_view(*b),
{
    b.as_ref()
}

} // verus!
