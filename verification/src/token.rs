//! Confirmation tokens: their shape and their generation.
use crate::text::{char_is_alnum, is_alnum_char, str_to_chars};
use rand::distributions::Alphanumeric;
use rand::{thread_rng, Rng};
use vstd::prelude::*;

verus! {

/// A well-formed confirmation token: exactly 25 characters, all drawn from
/// the ASCII alphanumeric alphabet.
pub open spec fn token_wf(s: Seq<char>) -> bool {
    s.len() == 25 && forall|k: int| 0 <= k < s.len() ==> is_alnum_char(#[trigger] s[k])
}

/// Shape check applied before any lookup: a token of the wrong length or with
/// a character outside the alphanumeric alphabet is rejected.
pub fn validate_token_format(token: &str) -> (r: bool)
    ensures
        r == token_wf(token@),
{
    let chars = str_to_chars(token);
    if chars.len() != 25 {
        return false;
    }
    let mut i: usize = 0;
    while i < chars.len()
        invariant
            i <= chars@.len(),
            chars@ == token@,
            forall|k: int| 0 <= k < i ==> is_alnum_char(#[trigger] token@[k]),
        decreases chars@.len() - i,
    {
        if !char_is_alnum(chars[i]) {
            return false;
        }
        i = i + 1;
    }
    true
}

/// Relies on `rand`'s `Alphanumeric` distribution, which yields only the 62
/// ASCII letters and digits; 25 samples are taken, so the result is a
/// well-formed token. Nothing else is assumed of the randomness.
#[verifier::external_body]
pub(crate) fn generate_subscription_token() -> (r: String)
    ensures
        token_wf(r@),
{
    let mut rng = thread_rng();
    std::iter::repeat_with(|| rng.sample(Alphanumeric)).map(char::from).take(25).collect()
}

} // verus!
