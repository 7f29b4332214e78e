//! Text encodings that the library's messages and secrets are made of:
//! lower-case hexadecimal and the hyphenated form of a UUID.
use vstd::prelude::*;
use vstd::arithmetic::power::pow;

verus! {

/// The lower-case hexadecimal digit for a value in `0..16`.
pub open spec fn hex_digit(n: int) -> char
    recommends
        0 <= n < 16,
{
    if n < 10 {
        (48 + n) as char
    } else {
        (87 + n) as char
    }
}

/// Lower-case hexadecimal text of a byte string: two digits per byte,
/// the high nibble first.
pub open spec fn hex_lower(bytes: Seq<u8>) -> Seq<char> {
    Seq::new(
        2 * bytes.len(),
        |i: int|
            if i % 2 == 0 {
                hex_digit(bytes[i / 2] as int / 16)
            } else {
                hex_digit(bytes[i / 2] as int % 16)
            },
    )
}

/// The `k`-th of the 32 hexadecimal digits of a 128-bit value, most significant first.
pub open spec fn nibble_of(value: u128, k: int) -> int {
    (value as int / pow(16, (31 - k) as nat)) % 16
}

/// The 32 lower-case hexadecimal digits of a 128-bit value, most significant first.
pub open spec fn hex_of_u128(value: u128) -> Seq<char> {
    Seq::new(32, |k: int| hex_digit(nibble_of(value, k)))
}

/// The hyphenated lower-case text of the UUID whose big-endian value is `value`,
/// in groups of 8, 4, 4, 4 and 12 digits.
pub open spec fn uuid_text_of(value: u128) -> Seq<char> {
    let h = hex_of_u128(value);
    h.subrange(0, 8) + seq!['-'] + h.subrange(8, 12) + seq!['-'] + h.subrange(12, 16) + seq!['-']
        + h.subrange(16, 20) + seq!['-'] + h.subrange(20, 32)
}

/// `hex::encode`: the bytes as lower-case hexadecimal text, two digits per byte,
/// high nibble first (the crate's table is `0123456789abcdef`).
#[verifier::external_body]
pub(crate) fn hex_encode(bytes: &[u8]) -> (text: String)
    ensures
        text@ == hex_lower(bytes@),
{
    hex::encode(bytes)
}

/// `uuid::Uuid::from_u128` followed by its `Display`: the UUID with big-endian value
/// `value`, written hyphenated in lower case.
#[verifier::external_body]
pub(crate) fn uuid_text(value: u128) -> (text: String)
    ensures
        text@ == uuid_text_of(value),
{
    uuid::Uuid::from_u128(value).to_string()
}

/// `String::from_iter` over characters: the string made of `chars` in order.
#[verifier::external_body]
pub(crate) fn string_from_chars(chars: &Vec<char>) -> (text: String)
    ensures
        text@ == chars@,
{
    chars.iter().collect::<String>()
}

} // verus!
