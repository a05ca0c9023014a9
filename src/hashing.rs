//! The digest and the integer encoding that the registry relies on.

use vstd::prelude::*;

verus! {

/// The SHA-256 digest of `data`.
pub uninterp spec fn sha256_of(data: Seq<u8>) -> Seq<u8>;

/// Relies on `sp_io::hashing::sha2_256`: a 32-byte SHA-256 digest that
/// depends on the input bytes alone.
#[verifier::external_body]
pub(crate) fn sha2_256(data: &[u8]) -> (r: Vec<u8>)
    ensures
        r@ == sha256_of(data@),
        r@.len() == 32,
{
    sp_io::hashing::sha2_256(data).to_vec()
}

/// The four bytes of `x`, least significant first.
pub open spec fn le_bytes(x: u32) -> Seq<u8> {
    seq![
        (x % 256) as u8,
        ((x / 256) % 256) as u8,
        ((x / 65536) % 256) as u8,
        ((x / 16777216) % 256) as u8,
    ]
}

/// Relies on `parity_scale_codec::Encode` for `u32`: the value's bytes,
/// least significant first.
#[verifier::external_body]
pub(crate) fn encode_u32(x: u32) -> (r: Vec<u8>)
    ensures
        r@ == le_bytes(x),
{
    parity_scale_codec::Encode::encode(&x)
}

} // verus!
