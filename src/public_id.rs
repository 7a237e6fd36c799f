use vstd::prelude::*;

use rand::Rng;

verus! {

/// ASCII letters (either case) and decimal digits.
pub open spec fn is_alphanumeric(c: char) -> bool {
    ('A' <= c && c <= 'Z') || ('a' <= c && c <= 'z') || ('0' <= c && c <= '9')
}

/// Relies on rand's `Alphanumeric` distribution, sampled from the thread-local
/// generator: every draw is one byte of `A-Z`, `a-z` or `0-9`.
#[verifier::external_body]
fn draw_alphanumeric() -> (c: char)
    ensures
        is_alphanumeric(c),
{
    char::from(rand::thread_rng().sample(rand::distributions::Alphanumeric))
}

/// Relies on `String::push`: appends one character at the end.
#[verifier::external_body]
fn push_char(s: &mut String, c: char)
    ensures
        final(s)@ == old(s)@.push(c),
{
    s.push(c)
}

/// A fresh random public identifier of exactly `length` alphanumeric characters.
pub fn generate_public_id(length: usize) -> (r: String)
    ensures
        r@.len() == length,
        forall|i: int| 0 <= i < r@.len() ==> is_alphanumeric(#[trigger] r@[i]),
{
    let mut id = String::new();
    let mut n: usize = 0;
    while n < length
        invariant
            n <= length,
            id@.len() == n,
            forall|i: int| 0 <= i < id@.len() ==> is_alphanumeric(#[trigger] id@[i]),
        decreases length - n,
    {
        let c = draw_alphanumeric();
        push_char(&mut id, c);
        n = n + 1;
    }
    id
}

} // verus!
