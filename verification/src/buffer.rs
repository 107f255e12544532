//! The byte buffers that binary properties hold. A buffer is a value of
//! `bytes::Bytes`; what the library knows of it is the byte string it holds.

use bytes::Bytes;
use vstd::prelude::*;

verus! {

/// `bytes::Bytes`, made known as a type whose inside is not looked into.
#[verifier::external_type_specification]
#[verifier::external_body]
pub struct ExBytes(bytes::Bytes);

/// The byte string that a buffer holds.
pub uninterp spec fn bytes_contents(buffer: Bytes) -> Seq<u8>;

/// `Bytes::from` on a `Vec<u8>`: the buffer that takes the vector over. It
/// holds the vector's bytes, in their order.
#[verifier::external_body]
pub(crate) fn bytes_from_vec(data: Vec<u8>) -> (buffer: Bytes)
    ensures
        bytes_contents(buffer) == data@,
{
    Bytes::from(data)
}

/// `Clone::clone` of `Bytes`: a second handle on the same bytes.
pub assume_specification[ <Bytes as Clone>::clone ](buffer: &Bytes) -> (copy: Bytes)
    ensures
        bytes_contents(copy) == bytes_contents(*buffer),
;

/// `Bytes::as_ref`: the buffer's bytes as a slice, in their order.
#[verifier::external_body]
pub(crate) fn bytes_as_slice(buffer: &Bytes) -> (data: &[u8])
    ensures
        data@ == bytes_contents(*buffer),
{
    buffer.as_ref()
}

} // verus!
