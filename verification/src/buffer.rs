//! Trusted declarations for `bytes::Bytes`, the immutable reference-counted
//! byte buffer that binary payloads travel in.
//!
//! The buffer type itself is opaque to the verifier; `bytes_view` names its
//! contents, and each wrapper states what the called `bytes` function does to
//! those contents, as that crate's source shows.

use vstd::prelude::*;

verus! {

/// `bytes::Bytes`, declared so that its values can run through verified code.
#[verifier::external_type_specification]
#[verifier::external_body]
pub struct ExBytes(bytes::Bytes);

/// The byte contents of a `bytes::Bytes` buffer.
pub uninterp spec fn bytes_view(b: bytes::Bytes) -> Seq<u8>;

/// Relies on `<Bytes as From<Vec<u8>>>::from`: the buffer takes over exactly
/// the vector's bytes.
#[verifier::external_body]
pub fn bytes_from_vec(v: Vec<u8>) -> (b: bytes::Bytes)
    ensures
        bytes_view(b) == v@,
{
    bytes::Bytes::from(v)
}

/// Relies on `Bytes::copy_from_slice`: the new buffer holds a copy of the
/// slice's bytes.
#[verifier::external_body]
pub fn bytes_copy_from_slice(s: &[u8]) -> (b: bytes::Bytes)
    ensures
        bytes_view(b) == s@,
{
    bytes::Bytes::copy_from_slice(s)
}

/// Relies on `Bytes::from_static`: the buffer is backed by the given static
/// slice, without copying.
#[verifier::external_body]
pub fn bytes_from_static(s: &'static [u8]) -> (b: bytes::Bytes)
    ensures
        bytes_view(b) == s@,
{
    bytes::Bytes::from_static(s)
}

/// Relies on `<Bytes as AsRef<[u8]>>::as_ref`: a slice of the buffer's bytes.
#[verifier::external_body]
pub fn bytes_as_slice(b: &bytes::Bytes) -> (s: &[u8])
    ensures
        s@ == bytes_view(*b),
{
    b.as_ref()
}

/// Relies on `Bytes::len`: the number of bytes in the buffer.
#[verifier::external_body]
pub fn bytes_len(b: &bytes::Bytes) -> (n: usize)
    ensures
        n == bytes_view(*b).len(),
{
    b.len()
}

} // verus!
