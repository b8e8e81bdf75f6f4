//! Random alphanumeric string generation.

use rand::Rng;
use vstd::prelude::*;

verus! {

/// A character of the 62-symbol alphanumeric alphabet: 26 lowercase letters,
/// 26 uppercase letters and 10 digits.
pub open spec fn spec_is_alphanumeric(c: char) -> bool {
    ('a' <= c && c <= 'z') || ('A' <= c && c <= 'Z') || ('0' <= c && c <= '9')
}

/// Relies on rand's `Alphanumeric` distribution: each sample is one byte drawn
/// uniformly from the 62 alphanumeric ASCII symbols, using the thread-local
/// generator seeded from the process-wide entropy source. Nothing beyond
/// membership in the alphabet holds of any one outcome.
#[verifier::external_body]
fn random_alphanumeric_char() -> (c: char)
    ensures
        spec_is_alphanumeric(c),
{
    char::from(rand::thread_rng().sample(rand::distributions::Alphanumeric))
}

/// Relies on `String::push`: it appends the given character to the end of the
/// string.
#[verifier::external_body]
fn push_char(s: &mut String, c: char)
    ensures
        final(s)@ == old(s)@.push(c),
{
    s.push(c);
}

/// Generates random alphanumeric strings.
pub struct StringGenerator;

impl StringGenerator {
    /// Generates a random alphanumeric string of exactly `length` characters,
    /// each drawn from the 62-symbol alphabet. Defined for every length,
    /// including zero, which yields the empty string.
    pub fn generate_string(length: usize) -> (r: String)
        ensures
            r@.len() == length,
            forall|i: int| 0 <= i < r@.len() ==> spec_is_alphanumeric(#[trigger] r@[i]),
    {
        let mut s = String::new();
        let mut i: usize = 0;
        while i < length
            invariant
                i <= length,
                s@.len() == i,
                forall|j: int| 0 <= j < s@.len() ==> spec_is_alphanumeric(#[trigger] s@[j]),
            decreases length - i,
        {
            let c = random_alphanumeric_char();
            push_char(&mut s, c);
            i = i + 1;
        }
        s
    }
}

} // verus!
