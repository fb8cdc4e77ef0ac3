//! Random short identifiers over the alphabet `[A-Za-z0-9]`.

use vstd::prelude::*;

verus! {

/// Number of characters in every generated identifier.
pub const SHORT_ID_LENGTH: usize = 6;

/// `c` is an ASCII letter (either case) or an ASCII digit.
pub open spec fn is_alphanumeric(c: char) -> bool {
    ||| ('A' <= c && c <= 'Z')
    ||| ('a' <= c && c <= 'z')
    ||| ('0' <= c && c <= '9')
}

/// `s` has the shape of a generated identifier: exactly
/// `SHORT_ID_LENGTH` characters, each alphanumeric.
pub open spec fn is_short_id(s: Seq<char>) -> bool {
    &&& s.len() == SHORT_ID_LENGTH
    &&& forall|i: int| 0 <= i < s.len() ==> is_alphanumeric(#[trigger] s[i])
}

/// Relies on `rand::distr::Alphanumeric` sampled with `rand::rng()`: the
/// sample is one byte of the charset `A-Z a-z 0-9`, drawn uniformly by
/// rejection. The thread-local generator panics only when the operating
/// system cannot seed it.
#[verifier::external_body]
fn draw_alphanumeric() -> (b: u8)
    ensures
        is_alphanumeric(b as char),
{
    rand::Rng::sample(&mut rand::rng(), rand::distr::Alphanumeric)
}

/// Relies on `String::push`: appends one character at the end.
#[verifier::external_body]
fn push_char(s: &mut String, c: char)
    ensures
        final(s)@ == old(s)@.push(c),
{
    s.push(c)
}

/// The identifier made of the drawn bytes `draws`: one character per
/// draw, in draw order.
pub fn short_id_from_draws(draws: &Vec<u8>) -> (id: String)
    requires
        draws@.len() == SHORT_ID_LENGTH,
        forall|i: int| 0 <= i < draws@.len() ==> is_alphanumeric(#[trigger] draws@[i] as char),
    ensures
        id@ == draws@.map_values(|b: u8| b as char),
        is_short_id(id@),
{
    let mut id = String::new();
    let mut n: usize = 0;
    while n < draws.len()
        invariant
            n <= draws@.len(),
            id@ == draws@.subrange(0, n as int).map_values(|b: u8| b as char),
        decreases draws@.len() - n,
    {
        push_char(&mut id, draws[n] as char);
        assert(draws@.subrange(0, n + 1) == draws@.subrange(0, n as int).push(draws@[n as int]));
        n = n + 1;
    }
    assert(draws@.subrange(0, n as int) == draws@);
    id
}

/// Draws a fresh identifier: `SHORT_ID_LENGTH` independent alphanumeric
/// bytes, turned into characters by `short_id_from_draws`. Identifiers
/// already in use are not consulted, so two draws may collide.
pub fn generate_short_id() -> (id: String)
    ensures
        is_short_id(id@),
{
    let mut draws: Vec<u8> = Vec::new();
    let mut n: usize = 0;
    while n < SHORT_ID_LENGTH
        invariant
            n <= SHORT_ID_LENGTH,
            draws@.len() == n,
            forall|i: int| 0 <= i < draws@.len() ==> is_alphanumeric(#[trigger] draws@[i] as char),
        decreases SHORT_ID_LENGTH - n,
    {
        draws.push(draw_alphanumeric());
        n = n + 1;
    }
    short_id_from_draws(&draws)
}

} // verus!
