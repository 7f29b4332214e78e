use vstd::prelude::*;
use rand::{RngExt, SeedableRng};
use crate::encoding::string_from_chars;

verus! {

/// The characters a login code is drawn from.
pub open spec fn code_alphabet() -> Seq<char> {
    "ABCDEFGHIJKLMNOPQRSTUVWXYZ0123456789"@
}

/// The number of characters in a login code.
pub const CODE_LENGTH: usize = 10;

/// The number of characters in the alphabet.
pub const ALPHABET_LENGTH: usize = 36;

#[verifier::external_type_specification]
#[verifier::external_body]
pub struct ExStdRng(rand::rngs::StdRng);

/// `rand::rngs::StdRng::try_from_rng(&mut SysRng)`: a generator seeded from the
/// operating system's random source, or `None` where the system gave no seed (the
/// call's `Err`). Nothing is stated of the seed.
#[verifier::external_body]
fn seeded_rng() -> (rng: Option<rand::rngs::StdRng>) {
    match rand::rngs::StdRng::try_from_rng(&mut rand::rngs::SysRng) {
        Ok(rng) => Some(rng),
        Err(_) => None,
    }
}

/// `rng.random_range(0..bound)`: a number drawn from the generator, below `bound`.
/// The crate panics on an empty range, hence `bound > 0`. Which number is drawn, and
/// how the generator's state moves on, is not stated.
#[verifier::external_body]
fn random_below(rng: &mut rand::rngs::StdRng, bound: usize) -> (value: usize)
    requires
        bound > 0,
    ensures
        value < bound,
{
    rng.random_range(0..bound)
}

/// A code made of `CODE_LENGTH` characters of the alphabet.
pub open spec fn is_code(code: Seq<char>) -> bool {
    &&& code.len() == CODE_LENGTH
    &&& forall|i: int| 0 <= i < code.len() ==> code_alphabet().contains(#[trigger] code[i])
}

/// Draws that pick a code: `CODE_LENGTH` positions in the alphabet.
pub open spec fn are_code_draws(draws: Seq<usize>) -> bool {
    &&& draws.len() == CODE_LENGTH
    &&& forall|i: int| 0 <= i < draws.len() ==> #[trigger] draws[i] < ALPHABET_LENGTH
}

/// The code the draws pick: the alphabet's character at each drawn position.
pub open spec fn code_of_draws(draws: Seq<usize>) -> Seq<char> {
    Seq::new(draws.len(), |i: int| code_alphabet()[draws[i] as int])
}

/// The code whose characters are the alphabet's characters at the drawn positions.
pub fn code_from_draws(draws: &Vec<usize>) -> (code: String)
    requires
        are_code_draws(draws@),
    ensures
        code@ == code_of_draws(draws@),
        is_code(code@),
{
    let alphabet = "ABCDEFGHIJKLMNOPQRSTUVWXYZ0123456789";
    proof {
        reveal_strlit("ABCDEFGHIJKLMNOPQRSTUVWXYZ0123456789");
    }
    let mut chars: Vec<char> = Vec::new();
    let mut i: usize = 0;
    while i < draws.len()
        invariant
            i <= draws@.len(),
            are_code_draws(draws@),
            chars@.len() == i,
            alphabet@ == code_alphabet(),
            alphabet@.len() == ALPHABET_LENGTH,
            forall|j: int| 0 <= j < i ==> #[trigger] chars@[j] == code_alphabet()[draws@[j] as int],
        decreases draws@.len() - i,
    {
        let k = draws[i];
        let c = alphabet.get_char(k);
        chars.push(c);
        i = i + 1;
    }
    let code = string_from_chars(&chars);
    assert(code@ =~= code_of_draws(draws@));
    assert forall|j: int| 0 <= j < code@.len() implies code_alphabet().contains(#[trigger] code@[j]) by {
        assert(code_alphabet()[draws@[j] as int] == code@[j]);
    }
    code
}

/// Draws a random login code: ten upper-case letters or digits, each drawn uniformly
/// from a generator that the operating system seeds; `None` where the system gave no
/// seed.
pub fn execute() -> (code: Option<String>)
    ensures
        code matches Some(c) ==> is_code(c@) && exists|draws: Seq<usize>|
            are_code_draws(draws) && c@ == #[trigger] code_of_draws(draws),
{
    let mut rng = match seeded_rng() {
        Some(rng) => rng,
        None => return None,
    };
    let mut draws: Vec<usize> = Vec::new();
    let mut i: usize = 0;
    while i < CODE_LENGTH
        invariant
            i <= CODE_LENGTH,
            draws@.len() == i,
            forall|j: int| 0 <= j < i ==> #[trigger] draws@[j] < ALPHABET_LENGTH,
        decreases CODE_LENGTH - i,
    {
        let k = random_below(&mut rng, ALPHABET_LENGTH);
        draws.push(k);
        i = i + 1;
    }
    let code = code_from_draws(&draws);
    Some(code)
}

} // verus!
