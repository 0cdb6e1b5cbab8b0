//! The hashing and randomness that session tokens are made of.
use vstd::prelude::*;
use crate::text::hex_lower;
use sha2::Digest;
use rand::RngCore;

verus! {

/// The SHA-256 digest of a byte string.
pub uninterp spec fn sha256(data: Seq<u8>) -> Seq<u8>;

/// `sha2::Sha256::digest`: the result is the digest of `data`, 32 bytes long.
#[verifier::external_body]
pub(crate) fn sha256_digest(data: &[u8]) -> (res: Vec<u8>)
    ensures
        res@ == sha256(data@),
        res@.len() == 32,
{
    sha2::Sha256::digest(data).to_vec()
}

/// Fills 32 bytes from `rand::rng()` (`RngCore::fill_bytes`). Nothing is
/// promised of the bytes but their number.
#[verifier::external_body]
pub(crate) fn random_key_bytes() -> (res: Vec<u8>)
    ensures
        res@.len() == 32,
{
    let mut key_bytes = [0u8; 32];
    rand::rng().fill_bytes(&mut key_bytes);
    key_bytes.to_vec()
}

/// The text stored in place of a raw token: the lowercase hexadecimal
/// SHA-256 digest of the token's UTF-8 bytes.
pub open spec fn token_hash(raw: Seq<char>) -> Seq<char> {
    hex_lower(sha256(vstd::utf8::encode_utf8(raw)))
}

/// A token as handed to users: 64 lowercase hexadecimal digits of 32 bytes.
pub open spec fn is_raw_token(t: Seq<char>) -> bool {
    exists|b: Seq<u8>| b.len() == 32 && t == #[trigger] hex_lower(b)
}

} // verus!
