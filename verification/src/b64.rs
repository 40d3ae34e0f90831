//! Exact models of base64 encoding, in the two variants the flow uses:
//! URL-safe without padding (code challenges) and standard with padding
//! (HTTP Basic credentials).
use vstd::prelude::*;

verus! {

/// The URL-safe base64 alphabet, 64 characters.
pub open spec fn b64_alphabet_url() -> Seq<char> {
    seq![
        'A', 'B', 'C', 'D', 'E', 'F', 'G', 'H', 'I', 'J', 'K', 'L', 'M', 'N', 'O', 'P',
        'Q', 'R', 'S', 'T', 'U', 'V', 'W', 'X', 'Y', 'Z', 'a', 'b', 'c', 'd', 'e', 'f',
        'g', 'h', 'i', 'j', 'k', 'l', 'm', 'n', 'o', 'p', 'q', 'r', 's', 't', 'u', 'v',
        'w', 'x', 'y', 'z', '0', '1', '2', '3', '4', '5', '6', '7', '8', '9', '-', '_',
    ]
}

/// The standard base64 alphabet, 64 characters.
pub open spec fn b64_alphabet_std() -> Seq<char> {
    seq![
        'A', 'B', 'C', 'D', 'E', 'F', 'G', 'H', 'I', 'J', 'K', 'L', 'M', 'N', 'O', 'P',
        'Q', 'R', 'S', 'T', 'U', 'V', 'W', 'X', 'Y', 'Z', 'a', 'b', 'c', 'd', 'e', 'f',
        'g', 'h', 'i', 'j', 'k', 'l', 'm', 'n', 'o', 'p', 'q', 'r', 's', 't', 'u', 'v',
        'w', 'x', 'y', 'z', '0', '1', '2', '3', '4', '5', '6', '7', '8', '9', '+', '/',
    ]
}

/// The input bytes cut into 6-bit groups, most significant bits first,
/// with the last group zero-padded on the right.
pub open spec fn b64_groups(bytes: Seq<u8>) -> Seq<int>
    decreases bytes.len(),
{
    if bytes.len() == 0 {
        Seq::<int>::empty()
    } else if bytes.len() == 1 {
        let b0 = bytes[0] as int;
        seq![b0 / 4, (b0 % 4) * 16]
    } else if bytes.len() == 2 {
        let b0 = bytes[0] as int;
        let b1 = bytes[1] as int;
        seq![b0 / 4, (b0 % 4) * 16 + b1 / 16, (b1 % 16) * 4]
    } else {
        let b0 = bytes[0] as int;
        let b1 = bytes[1] as int;
        let b2 = bytes[2] as int;
        seq![b0 / 4, (b0 % 4) * 16 + b1 / 16, (b1 % 16) * 4 + b2 / 64, b2 % 64]
            + b64_groups(bytes.skip(3))
    }
}

/// base64url without padding: each 6-bit group through the URL-safe alphabet.
pub open spec fn b64url_nopad_of(bytes: Seq<u8>) -> Seq<char> {
    b64_groups(bytes).map_values(|g: int| b64_alphabet_url()[g])
}

/// Standard base64 with `=` padding to a multiple of four characters.
pub open spec fn b64std_pad_of(bytes: Seq<u8>) -> Seq<char> {
    let body = b64_groups(bytes).map_values(|g: int| b64_alphabet_std()[g]);
    if bytes.len() % 3 == 1 {
        body + seq!['=', '=']
    } else if bytes.len() % 3 == 2 {
        body + seq!['=']
    } else {
        body
    }
}

/// The 6-bit groups are in range and there are ceil(4n/3) of them.
pub proof fn lemma_b64_groups_props(bytes: Seq<u8>)
    ensures
        b64_groups(bytes).len() == (4 * bytes.len() + 2) / 3,
        forall|i: int|
            0 <= i < b64_groups(bytes).len() ==> 0 <= #[trigger] b64_groups(bytes)[i] < 64,
    decreases bytes.len(),
{
    if bytes.len() >= 3 {
        lemma_b64_groups_props(bytes.skip(3));
    }
}

/// Every character of the URL-safe encoding comes from the URL-safe
/// alphabet, and the encoding of n bytes has ceil(4n/3) characters,
/// which is never 1 more than a multiple of 4: the output is always
/// valid unpadded base64url.
pub proof fn lemma_b64url_nopad_shape(bytes: Seq<u8>)
    ensures
        b64url_nopad_of(bytes).len() == (4 * bytes.len() + 2) / 3,
        b64url_nopad_of(bytes).len() % 4 != 1,
        forall|i: int|
            0 <= i < b64url_nopad_of(bytes).len() ==> b64_alphabet_url().contains(
                #[trigger] b64url_nopad_of(bytes)[i],
            ),
{
    lemma_b64_groups_props(bytes);
    assert(b64url_nopad_of(bytes).len() % 4 != 1) by {
        let n = bytes.len() as int;
        assert((4 * n + 2) / 3 % 4 != 1) by (nonlinear_arith);
    };
    assert forall|i: int| 0 <= i < b64url_nopad_of(bytes).len() implies b64_alphabet_url().contains(
        b64url_nopad_of(bytes)[i],
    ) by {
        let g = b64_groups(bytes)[i];
        assert(b64url_nopad_of(bytes)[i] == b64_alphabet_url()[g]);
    };
}

} // verus!
