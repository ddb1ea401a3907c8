//! The credential header sent with the handshake.

use vstd::prelude::*;
use vstd::utf8::encode_utf8;

verus! {

/// The standard base64 encoding (with padding) of some bytes.
pub uninterp spec fn base64_of(bytes: Seq<u8>) -> Seq<char>;

/// Relies on `base64::Engine::encode` with the `STANDARD` engine: the
/// standard alphabet with padding. It panics only when the encoded length
/// overflows `usize`, which no slice (at most `isize::MAX` bytes) reaches.
#[verifier::external_body]
fn base64_standard(bytes: &[u8]) -> (r: String)
    ensures
        r@ == base64_of(bytes@),
{
    base64::Engine::encode(&base64::engine::general_purpose::STANDARD, bytes)
}

/// The scheme token that starts the header value.
pub open spec fn basic_scheme() -> Seq<char> {
    "Basic "@
}

/// The `Authorization` header value for a login already base64-encoded.
pub fn basic_header(encoded: &str) -> (r: String)
    ensures
        r@ == basic_scheme() + encoded@,
{
    let mut r = String::from_str("Basic ");
    r.append(encoded);
    r
}

/// The `Authorization` header value for `login:secret`: the scheme token
/// followed by the base64 encoding of the text's UTF-8 bytes.
pub fn auth_header_for(api_login: &str) -> (r: String)
    ensures
        r@ == basic_scheme() + base64_of(encode_utf8(api_login@)),
{
    let encoded = base64_standard(api_login.as_bytes());
    basic_header(encoded.as_str())
}

} // verus!
