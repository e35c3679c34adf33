//! Base64 encoding, through the `base64` crate.
use vstd::prelude::*;

verus! {

/// The character of a six-bit value in the standard base64 alphabet.
pub open spec fn b64_char(v: int) -> char {
    if v < 26 {
        (65 + v) as char
    } else if v < 52 {
        (97 + (v - 26)) as char
    } else if v < 62 {
        (48 + (v - 52)) as char
    } else if v == 62 {
        '+'
    } else {
        '/'
    }
}

/// Standard base64 (RFC 4648, section 4) with `=` padding: each group of three bytes
/// becomes four characters; a final group of one or two bytes is padded.
pub open spec fn base64_standard(d: Seq<u8>) -> Seq<char>
    decreases d.len(),
{
    if d.len() == 0 {
        Seq::empty()
    } else if d.len() == 1 {
        seq![b64_char((d[0] / 4) as int), b64_char((d[0] % 4) * 16), '=', '=']
    } else if d.len() == 2 {
        seq![b64_char((d[0] / 4) as int), b64_char((d[0] % 4) * 16 + d[1] / 16), b64_char((d[1] % 16) * 4), '=']
    } else {
        seq![
            b64_char((d[0] / 4) as int),
            b64_char((d[0] % 4) * 16 + d[1] / 16),
            b64_char((d[1] % 16) * 4 + d[2] / 64),
            b64_char((d[2] % 64) as int),
        ] + base64_standard(d.subrange(3, d.len() as int))
    }
}

/// Encodes bytes in standard base64 with padding.
/// Trusted: `base64::Engine::encode` of `base64::engine::general_purpose::STANDARD`, the
/// RFC 4648 standard alphabet with canonical padding, stated as `base64_standard`.
#[verifier::external_body]
pub(crate) fn base64_encode(data: &[u8]) -> (r: String)
    ensures
        r@ == base64_standard(data@),
{
    base64::Engine::encode(&base64::engine::general_purpose::STANDARD, data)
}

/// The encoded text is four characters for every started group of three bytes.
pub proof fn law_base64_length(d: Seq<u8>)
    ensures
        base64_standard(d).len() == 4 * ((d.len() + 2) / 3),
    decreases d.len(),
{
    if d.len() >= 3 {
        law_base64_length(d.subrange(3, d.len() as int));
    }
}

} // verus!
