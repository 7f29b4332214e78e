use vstd::prelude::*;
use vstd::string::*;
use base64::Engine;
use rand::TryRng;

verus! {

/// The character that stands for the six-bit value `v` in the URL-safe base64
/// alphabet (`A`-`Z`, `a`-`z`, `0`-`9`, `-`, `_`).
pub open spec fn base64_url_char(v: int) -> char {
    if v < 26 {
        (65 + v) as char
    } else if v < 52 {
        (97 + v - 26) as char
    } else if v < 62 {
        (48 + v - 52) as char
    } else if v == 62 {
        '-'
    } else {
        '_'
    }
}

/// The `k`-th byte, or zero past the end.
pub open spec fn byte_or_zero(bytes: Seq<u8>, k: int) -> int {
    if 0 <= k < bytes.len() {
        bytes[k] as int
    } else {
        0
    }
}

/// The `i`-th six-bit group of the bytes read as one big-endian bit string,
/// padded with zero bits at the end.
pub open spec fn sextet(bytes: Seq<u8>, i: int) -> int {
    let q = i / 4;
    let b0 = byte_or_zero(bytes, 3 * q);
    let b1 = byte_or_zero(bytes, 3 * q + 1);
    let b2 = byte_or_zero(bytes, 3 * q + 2);
    if i % 4 == 0 {
        b0 / 4
    } else if i % 4 == 1 {
        (b0 % 4) * 16 + b1 / 16
    } else if i % 4 == 2 {
        (b1 % 16) * 4 + b2 / 64
    } else {
        b2 % 64
    }
}

/// Unpadded URL-safe base64 (RFC 4648, section 5) of a byte string:
/// one character per started group of six bits.
pub open spec fn base64_url_no_pad(bytes: Seq<u8>) -> Seq<char> {
    Seq::new(((8 * bytes.len() + 5) / 6) as nat, |i: int| base64_url_char(sextet(bytes, i)))
}

/// `base64::engine::general_purpose::URL_SAFE_NO_PAD.encode`: the bytes in URL-safe
/// base64 without padding, as RFC 4648 defines it.
#[verifier::external_body]
fn encode_base64_url(bytes: &[u8]) -> (text: String)
    ensures
        text@ == base64_url_no_pad(bytes@),
{
    base64::engine::general_purpose::URL_SAFE_NO_PAD.encode(bytes)
}

/// The number of random bytes behind a client secret.
pub const SECRET_BYTES: usize = 32;

/// `rand::rngs::SysRng.try_fill_bytes` on a buffer of `len` bytes: bytes from the
/// operating system's generator, or `None` where the system failed to give them.
/// Nothing is stated of the bytes' values.
#[verifier::external_body]
fn system_random_bytes(len: usize) -> (bytes: Option<Vec<u8>>)
    ensures
        bytes matches Some(b) ==> b@.len() == len,
{
    let mut buffer = vec![0u8; len];
    match rand::rngs::SysRng.try_fill_bytes(&mut buffer) {
        Ok(()) => Some(buffer),
        Err(_) => None,
    }
}

/// The client secret made of `prefix` and the given random bytes in URL-safe base64.
pub open spec fn client_secret_of(prefix: Seq<char>, random: Seq<u8>) -> Seq<char> {
    prefix + base64_url_no_pad(random)
}

/// The client secret with `prefix` for the given random bytes.
pub fn from_random_bytes(prefix: &str, random: &[u8]) -> (secret: String)
    ensures
        secret@ == client_secret_of(prefix@, random@),
{
    String::from_str(prefix).concat(encode_base64_url(random).as_str())
}

/// A new client secret: `prefix` followed by 32 bytes from the operating system's
/// generator in URL-safe base64, or `None` where the system gave no random bytes.
pub fn execute(prefix: &str) -> (secret: Option<String>)
    ensures
        secret matches Some(s) ==> exists|random: Seq<u8>|
            random.len() == SECRET_BYTES && s@ == #[trigger] client_secret_of(prefix@, random),
{
    match system_random_bytes(SECRET_BYTES) {
        Some(random) => Some(from_random_bytes(prefix, random.as_slice())),
        None => None,
    }
}

} // verus!
