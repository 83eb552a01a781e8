//! The message digest that the protocol keys its fields with.

use vstd::prelude::*;

verus! {

/// The MD5 digest of a byte string.
pub uninterp spec fn md5_of(data: Seq<u8>) -> Seq<u8>;

/// The digest of `data` as its sixteen bytes.
pub open spec fn md5_block(data: Seq<u8>) -> Seq<u8> {
    Seq::new(16, |i: int| md5_of(data)[i])
}

/// Relies on `md5::compute`: the MD5 digest of the input bytes, always sixteen
/// bytes long (`md5::Digest` wraps a `[u8; 16]`).
#[verifier::external_body]
fn md5_compute(data: &[u8]) -> (r: Vec<u8>)
    ensures
        r@ == md5_of(data@),
        r@.len() == 16,
{
    md5::compute(data).0.to_vec()
}

/// The sixteen-byte digest of `data`.
pub fn md5(data: &[u8]) -> (r: Vec<u8>)
    ensures
        r@ == md5_block(data@),
        r@ == md5_of(data@),
{
    let r = md5_compute(data);
    assert(r@ =~= md5_block(data@));
    r
}

} // verus!
