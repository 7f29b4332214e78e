use vstd::prelude::*;
use vstd::string::*;
use crate::encoding::{hex_encode, hex_lower};

verus! {

/// The MD5 digest of the UTF-8 bytes of `text`.
pub uninterp spec fn md5_of(text: Seq<char>) -> Seq<u8>;

/// `md5::compute` on the UTF-8 bytes of `text`: the crate's MD5 digest, 16 bytes long.
/// Nothing more of the digest is stated.
#[verifier::external_body]
fn md5_digest(text: &str) -> (digest: Vec<u8>)
    ensures
        digest@ == md5_of(text@),
        digest@.len() == 16,
{
    md5::compute(text.as_bytes()).0.to_vec()
}

/// The Gravatar URL of an email address: the MD5 of the address in lower-case
/// hexadecimal, asking Gravatar for a 404 when it has no picture.
pub open spec fn avatar_url_of(email: Seq<char>) -> Seq<char> {
    "https://www.gravatar.com/avatar/"@ + hex_lower(md5_of(email)) + "?d=404"@
}

/// The avatar URL that a new customer gets for `email`.
pub fn execute(email: &str) -> (url: String)
    ensures
        url@ == avatar_url_of(email@),
{
    let digest = md5_digest(email);
    let hex = hex_encode(digest.as_slice());
    String::from_str("https://www.gravatar.com/avatar/").concat(hex.as_str()).concat("?d=404")
}

} // verus!
