use base64::Engine;
use vstd::prelude::*;

use crate::error::ApiError;

verus! {

/// Whether `c` belongs to the Bitcoin base58 alphabet: the digits `1`-`9`,
/// the upper-case letters without `I` and `O`, and the lower-case letters
/// without `l`.
pub open spec fn is_b58_char(c: char) -> bool {
    let u = c as u32;
    (49 <= u && u <= 57) || (65 <= u && u <= 90 && u != 73 && u != 79) || (97 <= u && u <= 122
        && u != 108)
}

/// Whether every character of `s` belongs to the base58 alphabet; exactly the
/// strings on which base58 decoding succeeds.
pub open spec fn b58_str_ok(s: Seq<char>) -> bool {
    forall|i: int| 0 <= i < s.len() ==> is_b58_char(s[i])
}

/// The base58 text of a byte sequence.
pub uninterp spec fn b58_of(b: Seq<u8>) -> Seq<char>;

/// The bytes that a well-formed base58 string decodes to.
pub uninterp spec fn b58_bytes_of(s: Seq<char>) -> Seq<u8>;

/// The standard (padded, non-URL) base64 text of a byte sequence.
pub uninterp spec fn b64_of(b: Seq<u8>) -> Seq<char>;

/// Relies on `bs58::encode` with its default (Bitcoin) alphabet: the output
/// text depends on the input bytes alone, holds only alphabet characters,
/// decodes back to the input (the encoding round-trips), and is non-empty
/// whenever the input is (every input byte yields at least one character).
#[verifier::external_body]
fn bs58_encode(b: &Vec<u8>) -> (r: String)
    ensures
        r@ == b58_of(b@),
        b58_str_ok(r@),
        b58_bytes_of(r@) == b@,
        b@.len() > 0 ==> r@.len() > 0,
{
    bs58::encode(b.as_slice()).into_string()
}

/// Relies on `bs58::decode` with its default (Bitcoin) alphabet: decoding
/// succeeds exactly when every character is in the alphabet, and the decoded
/// bytes depend on the input text alone.
#[verifier::external_body]
fn bs58_decode(s: &str) -> (r: Option<Vec<u8>>)
    ensures
        r is Some <==> b58_str_ok(s@),
        r matches Some(v) ==> v@ == b58_bytes_of(s@),
{
    bs58::decode(s).into_vec().ok()
}

/// Relies on `base64`'s standard engine (padded, non-URL alphabet): the
/// output text depends on the input bytes alone.
#[verifier::external_body]
fn b64_encode(b: &Vec<u8>) -> (r: String)
    ensures
        r@ == b64_of(b@),
{
    base64::engine::general_purpose::STANDARD.encode(b.as_slice())
}

/// Encodes bytes as base58 text; decoding the result gives the bytes back,
/// and a non-empty input gives non-empty text.
pub fn encode_base58(b: &Vec<u8>) -> (r: String)
    ensures
        r@ == b58_of(b@),
        b58_str_ok(r@),
        b58_bytes_of(r@) == b@,
        b@.len() > 0 ==> r@.len() > 0,
{
    bs58_encode(b)
}

/// Decodes base58 text, rejecting any character outside the alphabet.
pub fn decode_base58(s: &str) -> (r: Result<Vec<u8>, ApiError>)
    ensures
        b58_str_ok(s@) ==> (r matches Ok(v) && v@ == b58_bytes_of(s@)),
        !b58_str_ok(s@) ==> r == Err::<Vec<u8>, ApiError>(ApiError::InvalidEncoding),
{
    match bs58_decode(s) {
        Some(v) => Ok(v),
        None => Err(ApiError::InvalidEncoding),
    }
}

/// Encodes bytes as standard base64 text with padding.
pub fn encode_base64(b: &Vec<u8>) -> (r: String)
    ensures
        r@ == b64_of(b@),
{
    b64_encode(b)
}

} // verus!
