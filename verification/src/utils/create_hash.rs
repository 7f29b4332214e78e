use vstd::prelude::*;
use sha2::Digest;
use crate::encoding::{hex_encode, hex_lower};

verus! {

/// The SHA-224 digest of the UTF-8 bytes of `text`.
pub uninterp spec fn sha224_of(text: Seq<char>) -> Seq<u8>;

/// `sha2::Sha224::digest` on the UTF-8 bytes of `text`: the crate's SHA-224 digest,
/// which is 28 bytes long. Nothing more of the digest is stated.
#[verifier::external_body]
fn sha224_digest(text: &str) -> (digest: Vec<u8>)
    ensures
        digest@ == sha224_of(text@),
        digest@.len() == 28,
{
    sha2::Sha224::digest(text).to_vec()
}

/// The stored form of a secret code: its SHA-224 digest in lower-case hexadecimal.
pub open spec fn hash_text_of(value: Seq<char>) -> Seq<char> {
    hex_lower(sha224_of(value))
}

/// Hashes `value` with SHA-224 and writes the digest in lower-case hexadecimal.
pub fn execute(value: &str) -> (hash: String)
    ensures
        hash@ == hash_text_of(value@),
        hash@.len() == 56,
{
    let digest = sha224_digest(value);
    hex_encode(digest.as_slice())
}

} // verus!
