//! An exact model of application/x-www-form-urlencoded serialization,
//! and the one call into serde_urlencoded that produces it.
use vstd::prelude::*;
use vstd::utf8::encode_utf8;

verus! {

/// The bytes the form-urlencoded serializer passes through unchanged:
/// ASCII alphanumerics and '*', '-', '.', '_'.
pub open spec fn form_safe_byte(b: u8) -> bool {
    (97 <= b && b <= 122)  // 'a'..='z'
    || (65 <= b && b <= 90)  // 'A'..='Z'
    || (48 <= b && b <= 57)  // '0'..='9'
    || b == 42 || b == 45 || b == 46 || b == 95  // '*' '-' '.' '_'
}

/// The sixteen uppercase hexadecimal digits.
pub open spec fn hex_upper() -> Seq<char> {
    seq!['0', '1', '2', '3', '4', '5', '6', '7', '8', '9', 'A', 'B', 'C', 'D', 'E', 'F']
}

/// One byte, form-urlencoded: space becomes '+', safe bytes stand as
/// they are, every other byte is percent-encoded with uppercase hex.
pub open spec fn form_encode_byte(b: u8) -> Seq<char> {
    if b == 32 {  // space
        seq!['+']
    } else if form_safe_byte(b) {
        seq![b as char]
    } else {
        seq!['%', hex_upper()[b as int / 16], hex_upper()[b as int % 16]]
    }
}

/// A byte string, form-urlencoded byte by byte.
pub open spec fn form_encode_bytes(bs: Seq<u8>) -> Seq<char>
    decreases bs.len(),
{
    if bs.len() == 0 {
        Seq::<char>::empty()
    } else {
        form_encode_byte(bs[0]) + form_encode_bytes(bs.skip(1))
    }
}

/// A string, form-urlencoded: its UTF-8 bytes, each encoded.
pub open spec fn form_encode_str(s: Seq<char>) -> Seq<char> {
    form_encode_bytes(encode_utf8(s))
}

/// `name=value` pairs, each side encoded, joined by '&'.
pub open spec fn form_urlencoded_of(pairs: Seq<(Seq<char>, Seq<char>)>) -> Seq<char>
    decreases pairs.len(),
{
    if pairs.len() == 0 {
        Seq::<char>::empty()
    } else {
        let head = form_encode_str(pairs[0].0) + seq!['='] + form_encode_str(pairs[0].1);
        if pairs.len() == 1 {
            head
        } else {
            head + seq!['&'] + form_urlencoded_of(pairs.skip(1))
        }
    }
}

/// The views of a vector of string pairs.
pub open spec fn pairs_view(pairs: Seq<(String, String)>) -> Seq<(Seq<char>, Seq<char>)> {
    pairs.map_values(|p: (String, String)| (p.0@, p.1@))
}

/// Relies on `serde_urlencoded::to_string` over a vector of string
/// pairs: the whatwg application/x-www-form-urlencoded serializer —
/// each side percent-encoded byte-wise over UTF-8 with uppercase hex,
/// space as '+', '=' between name and value, pairs joined by '&'.
/// Serialization of string pairs cannot fail.
#[verifier::external_body]
pub(crate) fn urlencode_pairs(pairs: &Vec<(String, String)>) -> (r: String)
    ensures
        r@ == form_urlencoded_of(pairs_view(pairs@)),
{
    match serde_urlencoded::to_string(pairs) {
        Ok(s) => s,
        Err(_) => String::new(),
    }
}

} // verus!
