//! The token that carries a listing cursor to a client and back: the
//! cursor's JSON, base64-encoded with the standard alphabet and padding.

use vstd::prelude::*;

use base64::Engine as _;

verus! {

/// The bytes that the standard base64 text `text` decodes to, or `None`
/// where it is not valid standard base64.
pub uninterp spec fn base64_decoded(text: Seq<char>) -> Option<Seq<u8>>;

/// The standard base64 text, with padding, of `bytes`.
pub uninterp spec fn base64_encoded(bytes: Seq<u8>) -> Seq<char>;

/// `base64::engine::general_purpose::STANDARD.decode`.
#[verifier::external_body]
fn decode_standard_base64(text: &str) -> (r: Option<Vec<u8>>)
    ensures
        match r {
            Some(bytes) => base64_decoded(text@) == Some(bytes@),
            None => base64_decoded(text@) is None,
        },
{
    base64::engine::general_purpose::STANDARD.decode(text).ok()
}

/// `base64::engine::general_purpose::STANDARD.encode`: the standard base64
/// text of `bytes`, which decodes back to `bytes`.
#[verifier::external_body]
fn encode_standard_base64(bytes: &[u8]) -> (r: String)
    ensures
        r@ == base64_encoded(bytes@),
        base64_decoded(r@) == Some(bytes@),
{
    base64::engine::general_purpose::STANDARD.encode(bytes)
}

/// A cursor token that is not base64.
#[derive(Clone, Debug)]
pub struct InvalidCursorToken {
    pub token: String,
}

/// The cursor JSON that `token` carries; a token that is not standard base64
/// is refused.
pub fn cursor_json_of_token(token: &str) -> (r: Result<Vec<u8>, InvalidCursorToken>)
    ensures
        match r {
            Ok(json) => base64_decoded(token@) == Some(json@),
            Err(e) => base64_decoded(token@) is None && e.token@ == token@,
        },
{
    match decode_standard_base64(token) {
        Some(json) => Ok(json),
        None => Err(InvalidCursorToken { token: token.to_string() }),
    }
}

/// The token that carries the cursor JSON `json`; reading the token gives
/// that JSON back.
pub fn token_of_cursor_json(json: &[u8]) -> (token: String)
    ensures
        token@ == base64_encoded(json@),
        base64_decoded(token@) == Some(json@),
{
    encode_standard_base64(json)
}

} // verus!
