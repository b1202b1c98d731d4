//! Text encodings: base58 (Bitcoin alphabet) for keys and addresses, standard
//! padded base64 for signatures and instruction payloads.
use vstd::prelude::*;

verus! {

/// A character of the Bitcoin base58 alphabet (no `0`, `O`, `I` or `l`).
pub open spec fn is_b58_char(c: char) -> bool {
    ('1' <= c && c <= '9') || ('A' <= c && c <= 'H') || ('J' <= c && c <= 'N') || ('P' <= c
        && c <= 'Z') || ('a' <= c && c <= 'k') || ('m' <= c && c <= 'z')
}

/// Every character of `s` belongs to the base58 alphabet.
pub open spec fn is_b58_text(s: Seq<char>) -> bool {
    forall|i: int| 0 <= i < s.len() ==> is_b58_char(#[trigger] s[i])
}

/// The base58 text of a byte string.
pub uninterp spec fn b58_encode_of(b: Seq<u8>) -> Seq<char>;

/// The bytes that a base58 text stands for.
pub uninterp spec fn b58_decode_of(s: Seq<char>) -> Seq<u8>;

/// The padded standard base64 text of a byte string.
pub uninterp spec fn b64_encode_of(b: Seq<u8>) -> Seq<char>;

/// The bytes that a standard base64 text stands for, if it is well formed.
pub uninterp spec fn b64_decode_of(s: Seq<char>) -> Option<Seq<u8>>;

/// Relies on `bs58::encode(..).into_string()`: its output uses only the
/// alphabet, and `bs58::decode` turns it back into the input bytes.
#[verifier::external_body]
pub(crate) fn b58_encode(b: &[u8]) -> (r: String)
    ensures
        r@ == b58_encode_of(b@),
        is_b58_text(r@),
        b58_decode_of(r@) == b@,
{
    solana_sdk::bs58::encode(b).into_string()
}

/// Relies on `bs58::decode(..).into_vec()`: it fails exactly when a character
/// lies outside the alphabet (the output buffer is grown to the input length,
/// which always suffices).
#[verifier::external_body]
pub(crate) fn b58_decode(s: &str) -> (r: Option<Vec<u8>>)
    ensures
        r is Some <==> is_b58_text(s@),
        r is Some ==> r->Some_0@ == b58_decode_of(s@),
{
    solana_sdk::bs58::decode(s).into_vec().ok()
}

/// Relies on `base64::Engine::encode` with `general_purpose::STANDARD`: the
/// same engine decodes its output back into the input bytes.
#[verifier::external_body]
pub(crate) fn b64_encode(b: &[u8]) -> (r: String)
    ensures
        r@ == b64_encode_of(b@),
        b64_decode_of(r@) == Some(b@),
{
    base64::Engine::encode(&base64::engine::general_purpose::STANDARD, b)
}

/// Relies on `base64::Engine::decode` with `general_purpose::STANDARD`.
#[verifier::external_body]
pub(crate) fn b64_decode(s: &str) -> (r: Option<Vec<u8>>)
    ensures
        match r {
            Some(v) => b64_decode_of(s@) == Some(v@),
            None => b64_decode_of(s@) is None,
        },
{
    base64::Engine::decode(&base64::engine::general_purpose::STANDARD, s).ok()
}

} // verus!
