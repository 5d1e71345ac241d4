use base64::Engine;
use vstd::prelude::*;

verus! {

/// The number of bytes in an X25519 public key.
pub const KEY_LENGTH: usize = 32;

/// The error of `base64`'s decoder, carried and never looked into.
#[verifier::external_type_specification]
#[verifier::external_body]
pub struct ExDecodeError(base64::DecodeError);

/// The bytes that `text` stands for in base64 with the standard alphabet and
/// canonical padding, or `None` where `text` is no such encoding.
pub uninterp spec fn base64_decoded(text: Seq<char>) -> Option<Seq<u8>>;

/// `base64::Engine::decode` of the engine `base64::engine::general_purpose::STANDARD`.
///
/// Trusted: the call's outcome depends on `text` alone, and `base64_decoded`
/// is the name of that outcome: the decoded bytes where the call succeeds,
/// `None` where it reports an error.
#[verifier::external_body]
fn decode_standard(text: &str) -> (r: Result<Vec<u8>, base64::DecodeError>)
    ensures
        match r {
            Ok(bytes) => base64_decoded(text@) == Some(bytes@),
            Err(_) => base64_decoded(text@) is None,
        },
{
    base64::engine::general_purpose::STANDARD.decode(text)
}

/// Whether a decoding is that of a key: there are bytes, and 32 of them.
pub open spec fn is_key(decoded: Option<Seq<u8>>) -> bool {
    decoded matches Some(bytes) && bytes.len() == KEY_LENGTH
}

/// Whether `text` is the base64 encoding of a 32-byte key.
pub open spec fn well_formed_key(text: Seq<char>) -> bool {
    is_key(base64_decoded(text))
}

/// Decodes `text` from base64.
pub fn decode_key(text: &str) -> (r: Option<Vec<u8>>)
    ensures
        r.deep_view() == base64_decoded(text@),
{
    match decode_standard(text) {
        Ok(bytes) => Some(bytes),
        Err(_) => None,
    }
}

/// Tests the shape of a decoded key.
pub fn decoded_is_key(decoded: &Option<Vec<u8>>) -> (r: bool)
    ensures
        r == is_key(decoded.deep_view()),
{
    match decoded {
        Some(bytes) => bytes.len() == KEY_LENGTH,
        None => false,
    }
}

} // verus!
