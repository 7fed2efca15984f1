//! Base64 encoding of audio, through the `base64` crate.
use base64::Engine;
use vstd::prelude::*;

verus! {

/// The character of the standard Base64 alphabet (RFC 4648, table 1) for `v < 64`.
pub open spec fn base64_digit(v: nat) -> char {
    if v < 26 {
        (65 + v) as char
    } else if v < 52 {
        (97 + (v - 26)) as char
    } else if v < 62 {
        (48 + (v - 52)) as char
    } else if v == 62 {
        '+'
    } else {
        '/'
    }
}

/// Standard Base64 with `=` padding (RFC 4648, section 4): every three bytes become four
/// characters; a final group of one or two bytes is padded.
pub open spec fn base64_standard(data: Seq<u8>) -> Seq<char>
    decreases data.len(),
{
    if data.len() == 0 {
        Seq::empty()
    } else if data.len() == 1 {
        let b0 = data[0] as nat;
        seq![base64_digit(b0 / 4), base64_digit((b0 % 4) * 16), '=', '=']
    } else if data.len() == 2 {
        let b0 = data[0] as nat;
        let b1 = data[1] as nat;
        seq![
            base64_digit(b0 / 4),
            base64_digit((b0 % 4) * 16 + b1 / 16),
            base64_digit((b1 % 16) * 4),
            '=',
        ]
    } else {
        let b0 = data[0] as nat;
        let b1 = data[1] as nat;
        let b2 = data[2] as nat;
        seq![
            base64_digit(b0 / 4),
            base64_digit((b0 % 4) * 16 + b1 / 16),
            base64_digit((b1 % 16) * 4 + b2 / 64),
            base64_digit(b2 % 64),
        ] + base64_standard(data.skip(3))
    }
}

/// Calls `base64::engine::general_purpose::STANDARD.encode`, the standard alphabet with
/// padding, whose output is the RFC 4648 encoding of the input.
#[verifier::external_body]
pub(crate) fn base64_encode(data: &[u8]) -> (s: String)
    ensures
        s@ == base64_standard(data@),
{
    base64::engine::general_purpose::STANDARD.encode(data)
}

} // verus!
