//! Random material for the flow: code verifiers and state tokens.
use vstd::prelude::*;
use crate::errors::AuthError;

verus! {

#[verifier::external_type_specification]
#[verifier::external_body]
pub struct ExThreadRng(rand::rngs::ThreadRng);

/// Relies on `rand::thread_rng`: hands out the thread-local generator.
#[verifier::external_body]
fn new_rng() -> rand::rngs::ThreadRng {
    rand::thread_rng()
}

/// Relies on rand's `Rng::gen_range` over `0..bound`: a value below the
/// bound. The one panic case, an empty range, is excluded here; nothing
/// more is claimed of a random draw.
#[verifier::external_body]
fn rng_below(rng: &mut rand::rngs::ThreadRng, bound: usize) -> (r: usize)
    requires
        bound > 0,
    ensures
        r < bound,
{
    rand::Rng::gen_range(rng, 0..bound)
}

/// Relies on `String`'s `FromIterator<char>`: the string holding
/// exactly the given characters in order.
#[verifier::external_body]
fn string_from_chars(cs: &Vec<char>) -> (r: String)
    ensures
        r@ == cs@,
{
    cs.iter().collect()
}

/// The alphanumeric characters, in the order of the drawing table.
pub open spec fn alphanumeric_chars() -> Seq<char> {
    seq![
        'A', 'B', 'C', 'D', 'E', 'F', 'G', 'H', 'I', 'J', 'K', 'L', 'M', 'N', 'O', 'P',
        'Q', 'R', 'S', 'T', 'U', 'V', 'W', 'X', 'Y', 'Z', 'a', 'b', 'c', 'd', 'e', 'f',
        'g', 'h', 'i', 'j', 'k', 'l', 'm', 'n', 'o', 'p', 'q', 'r', 's', 't', 'u', 'v',
        'w', 'x', 'y', 'z', '0', '1', '2', '3', '4', '5', '6', '7', '8', '9',
    ]
}

/// The unreserved URL characters admitted in a code verifier:
/// letters, digits, '-', '.', '_' and '~'.
pub open spec fn unreserved_chars() -> Seq<char> {
    alphanumeric_chars() + seq!['-', '.', '_', '~']
}

/// Every character of the string lies in the unreserved set.
pub open spec fn all_unreserved(s: Seq<char>) -> bool {
    forall|i: int| 0 <= i < s.len() ==> unreserved_chars().contains(#[trigger] s[i])
}

fn alphanumeric_table() -> (r: Vec<char>)
    ensures
        r@ == alphanumeric_chars(),
{
    let mut t: Vec<char> = Vec::new();
    t.push('A'); t.push('B'); t.push('C'); t.push('D'); t.push('E'); t.push('F');
    t.push('G'); t.push('H'); t.push('I'); t.push('J'); t.push('K'); t.push('L');
    t.push('M'); t.push('N'); t.push('O'); t.push('P'); t.push('Q'); t.push('R');
    t.push('S'); t.push('T'); t.push('U'); t.push('V'); t.push('W'); t.push('X');
    t.push('Y'); t.push('Z'); t.push('a'); t.push('b'); t.push('c'); t.push('d');
    t.push('e'); t.push('f'); t.push('g'); t.push('h'); t.push('i'); t.push('j');
    t.push('k'); t.push('l'); t.push('m'); t.push('n'); t.push('o'); t.push('p');
    t.push('q'); t.push('r'); t.push('s'); t.push('t'); t.push('u'); t.push('v');
    t.push('w'); t.push('x'); t.push('y'); t.push('z'); t.push('0'); t.push('1');
    t.push('2'); t.push('3'); t.push('4'); t.push('5'); t.push('6'); t.push('7');
    t.push('8'); t.push('9');
    proof {
        assert(t@ =~= alphanumeric_chars());
    }
    t
}

fn unreserved_table() -> (r: Vec<char>)
    ensures
        r@ == unreserved_chars(),
{
    let mut t = alphanumeric_table();
    t.push('-'); t.push('.'); t.push('_'); t.push('~');
    proof {
        assert(t@ =~= unreserved_chars());
    }
    t
}

/// Draws `length` characters at random from the given table.
fn random_chars_from(table: &Vec<char>, length: usize) -> (r: Vec<char>)
    requires
        table.len() > 0,
    ensures
        r@.len() == length,
        forall|i: int| 0 <= i < length ==> table@.contains(#[trigger] r@[i]),
{
    let mut rng = new_rng();
    let mut out: Vec<char> = Vec::new();
    let mut i: usize = 0;
    while i < length
        invariant
            table.len() > 0,
            i <= length,
            out@.len() == i,
            forall|k: int| 0 <= k < i ==> table@.contains(#[trigger] out@[k]),
        decreases length - i,
    {
        let j = rng_below(&mut rng, table.len());
        out.push(table[j]);
        i = i + 1;
    }
    out
}

/// Draws a random alphanumeric string of the given length, as a
/// character vector.
pub fn generate_random_string(length: usize) -> (r: Vec<char>)
    ensures
        r@.len() == length,
        forall|i: int| 0 <= i < length ==> alphanumeric_chars().contains(#[trigger] r@[i]),
{
    let table = alphanumeric_table();
    random_chars_from(&table, length)
}

/// Generates a code verifier of the given length, drawn from the
/// unreserved character set. Lengths outside the PKCE bounds of
/// 43..=128 are rejected with `InvalidLength`.
pub fn generate_code_verifier(length: usize) -> (r: Result<String, AuthError>)
    ensures
        r is Ok <==> 43 <= length <= 128,
        r matches Ok(s) ==> s@.len() == length && all_unreserved(s@),
        r matches Err(e) ==> e == AuthError::InvalidLength,
{
    if length < 43 || length > 128 {
        return Err(AuthError::InvalidLength);
    }
    let table = unreserved_table();
    let cs = random_chars_from(&table, length);
    Ok(string_from_chars(&cs))
}

/// The number of characters in a state token.
pub const STATE_TOKEN_LEN: usize = 32;

/// Draws a fresh state token: 32 characters from the unreserved set.
pub fn generate_state_token() -> (r: String)
    ensures
        r@.len() == STATE_TOKEN_LEN,
        all_unreserved(r@),
{
    let table = unreserved_table();
    let cs = random_chars_from(&table, STATE_TOKEN_LEN);
    string_from_chars(&cs)
}

} // verus!
