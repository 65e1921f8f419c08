//! Short human-facing identifiers shared by clients, bookings, invoices and
//! invoice items.

use rand::Rng;
use vstd::prelude::*;

verus! {

/// Number of characters in an identifier.
pub const ID_LEN: usize = 6;

/// Number of characters an identifier may be drawn from.
pub const ALPHABET_LEN: u8 = 62;

/// A character of the identifier alphabet `[A-Za-z0-9]`.
pub open spec fn is_id_char(c: char) -> bool {
    ('A' <= c && c <= 'Z') || ('a' <= c && c <= 'z') || ('0' <= c && c <= '9')
}

/// A well-formed identifier: exactly six alphabet characters.
pub open spec fn valid_id(s: Seq<char>) -> bool {
    s.len() == ID_LEN && forall|i: int| 0 <= i < s.len() ==> is_id_char(#[trigger] s[i])
}

/// The alphabet in order: upper case, then lower case, then digits.
pub open spec fn alphabet_char(i: int) -> char {
    if i < 26 {
        (65 + i) as char
    } else if i < 52 {
        (97 + (i - 26)) as char
    } else {
        (48 + (i - 52)) as char
    }
}

/// The `i`-th character of the alphabet.
pub fn id_char(i: u8) -> (c: char)
    requires
        i < ALPHABET_LEN,
    ensures
        c == alphabet_char(i as int),
        is_id_char(c),
{
    if i < 26 {
        (65u8 + i) as char
    } else if i < 52 {
        (97u8 + (i - 26)) as char
    } else {
        (48u8 + (i - 52)) as char
    }
}

/// Relies on rand's `Rng::random_range` over the thread-local generator: a
/// value drawn from `0..bound`, which panics only on an empty range.
#[verifier::external_body]
fn random_below(bound: u8) -> (r: u8)
    requires
        bound > 0,
    ensures
        r < bound,
{
    rand::rng().random_range(0..bound)
}

/// Relies on std's `String::push`: appends one character.
#[verifier::external_body]
pub(crate) fn push_char(s: &mut String, c: char)
    ensures
        final(s)@ == old(s)@.push(c),
{
    s.push(c)
}

/// Draws a fresh random identifier, each character uniformly from the alphabet.
pub fn generate_id() -> (id: String)
    ensures
        valid_id(id@),
{
    let mut id = String::new();
    let mut n: usize = 0;
    while n < ID_LEN
        invariant
            n <= ID_LEN,
            id@.len() == n,
            forall|i: int| 0 <= i < id@.len() ==> is_id_char(#[trigger] id@[i]),
        decreases ID_LEN - n,
    {
        let k = random_below(ALPHABET_LEN);
        let c = id_char(k);
        push_char(&mut id, c);
        n = n + 1;
    }
    id
}

/// One step of allocating an identifier: the candidate is taken when no
/// record uses it, and otherwise a fresh one is drawn to be checked next.
#[derive(Clone, Debug)]
pub enum IdStep {
    /// The candidate is free: use it.
    Allocated(String),
    /// The candidate is in use: check this fresh one instead.
    Redraw(String),
}

/// Decides on a candidate identifier from whether some client, booking,
/// invoice or invoice line already uses it.
pub fn allocation_step(candidate: String, in_use: bool) -> (r: IdStep)
    ensures
        !in_use ==> r == IdStep::Allocated(candidate),
        in_use ==> (r matches IdStep::Redraw(next) && valid_id(next@)),
{
    if in_use {
        IdStep::Redraw(generate_id())
    } else {
        IdStep::Allocated(candidate)
    }
}

} // verus!
