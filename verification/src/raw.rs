//! Raw serialized cache data, held in `bytes::Bytes`.

use vstd::prelude::*;

verus! {

/// Raw byte data used for serialized cache values.
pub type Raw = bytes::Bytes;

#[verifier::external_type_specification]
#[verifier::external_body]
pub struct ExBytes(bytes::Bytes);

/// The bytes a `Bytes` value holds: the slice that `Bytes::as_ref` returns.
pub uninterp spec fn bytes_contents(b: bytes::Bytes) -> Seq<u8>;

/// Calls `Bytes::from(Vec<u8>)`: a `Bytes` holding the vector's bytes.
#[verifier::external_body]
pub fn raw_from_vec(v: Vec<u8>) -> (r: Raw)
    ensures
        bytes_contents(r) == v@,
{
    bytes::Bytes::from(v)
}

/// Calls `Bytes::as_ref` and copies the slice into a vector.
#[verifier::external_body]
pub fn raw_to_vec(b: &Raw) -> (r: Vec<u8>)
    ensures
        r@ == bytes_contents(*b),
{
    let slice: &[u8] = b.as_ref();
    slice.to_vec()
}

/// Calls `Bytes::len`: "the number of bytes contained in this `Bytes`".
#[verifier::external_body]
pub fn raw_len(b: &Raw) -> (r: usize)
    ensures
        r == bytes_contents(*b).len(),
{
    b.len()
}

} // verus!
