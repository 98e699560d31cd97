use vstd::prelude::*;
use vstd::utf8::encode_utf8;
use crate::value::{assoc, keys_unique, put_entry};

verus! {

/// What is written to the socket: a status code, header fields and the body bytes.
pub struct WireResponse {
    pub status: u16,
    /// Header fields by (lower-case) name, no name twice.
    pub headers: Vec<(String, String)>,
    pub body: Vec<u8>,
}

/// The header fields of a list of entries, as a mapping from name to text.
pub open spec fn header_text(h: Seq<(String, String)>) -> Map<Seq<char>, Seq<char>> {
    Map::new(|k: Seq<char>| assoc(h).dom().contains(k), |k: Seq<char>| assoc(h)[k]@)
}

/// A wire response as plain values: status, header fields, body bytes.
pub type WireModel = (u16, Map<Seq<char>, Seq<char>>, Seq<u8>);

impl WireResponse {
    pub open spec fn wf(&self) -> bool {
        keys_unique(self.headers@)
    }

    pub open spec fn model(&self) -> WireModel {
        (self.status, header_text(self.headers@), self.body@)
    }
}

pub open spec fn error_prefix() -> Seq<char> {
    "internal server error: "@
}

/// The response that stands in for any failure: status 500, a plain-text
/// content type, and the reason after a fixed prefix.
pub open spec fn fallback(reason: Seq<char>) -> WireModel {
    (
        500,
        Map::empty().insert("content-type"@, "text/plain"@),
        encode_utf8(error_prefix() + reason),
    )
}

/// A character that HTTP allows in a header name (a token character).
pub open spec fn is_token_char(c: char) -> bool {
    ||| ('a' <= c && c <= 'z')
    ||| ('A' <= c && c <= 'Z')
    ||| ('0' <= c && c <= '9')
    ||| c == '!' || c == '#' || c == '$' || c == '%' || c == '&' || c == '\''
    ||| c == '*' || c == '+' || c == '-' || c == '.' || c == '^' || c == '_'
    ||| c == '`' || c == '|' || c == '~'
}

pub open spec fn valid_header_name(s: Seq<char>) -> bool {
    &&& 1 <= s.len() <= 65535
    &&& forall|i: int| 0 <= i < s.len() ==> is_token_char(#[trigger] s[i])
}

pub open spec fn lower_char(c: char) -> char {
    if 'A' <= c && c <= 'Z' {
        ((c as u32) + 32) as char
    } else {
        c
    }
}

/// ASCII letters put in lower case, every other character kept.
pub open spec fn lower_ascii(s: Seq<char>) -> Seq<char> {
    s.map_values(|c: char| lower_char(c))
}

/// A character that HTTP allows in a header value: no control character but tab.
pub open spec fn is_value_char(c: char) -> bool {
    ((c as u32) >= 32 && (c as u32) != 127) || c == '\t'
}

pub open spec fn valid_header_value(s: Seq<char>) -> bool {
    forall|i: int| 0 <= i < s.len() ==> is_value_char(#[trigger] s[i])
}

/// The content type that the extension of a path suggests.
pub uninterp spec fn mime_type_of(path: Seq<char>) -> Seq<char>;

/// Relies on `http::StatusCode::from_u16`, which accepts exactly 100 to 999.
#[verifier::external_body]
pub(crate) fn status_code_valid(n: u16) -> (r: bool)
    ensures
        r == (100 <= n && n <= 999),
{
    axum::http::StatusCode::from_u16(n).is_ok()
}

/// Relies on `HeaderName::try_from(&str)`: a name of 1 to 65535 token
/// characters is accepted, and held in lower case.
#[verifier::external_body]
pub(crate) fn header_name_of(name: &str) -> (r: Option<String>)
    ensures
        r.is_some() == valid_header_name(name@),
        r.is_some() ==> r->0@ == lower_ascii(name@),
{
    axum::http::HeaderName::try_from(name).ok().map(|h| h.as_str().to_string())
}

/// Relies on `HeaderValue::from_str`: it refuses a control character other than tab.
#[verifier::external_body]
pub(crate) fn header_value_valid(v: &str) -> (r: bool)
    ensures
        r == valid_header_value(v@),
{
    axum::http::HeaderValue::from_str(v).is_ok()
}

/// Relies on `mime_guess::from_path(..).first_or_octet_stream()`: the guess
/// depends on the path alone.
#[verifier::external_body]
pub(crate) fn guess_mime(path: &str) -> (r: String)
    ensures
        r@ == mime_type_of(path@),
{
    mime_guess::from_path(path).first_or_octet_stream().to_string()
}

/// The 500 response for `reason`.
pub fn internal_server_error_response(reason: &str) -> (r: WireResponse)
    ensures
        r.wf(),
        r.model() == fallback(reason@),
{
    let mut headers: Vec<(String, String)> = Vec::new();
    put_entry(&mut headers, String::from_str("content-type"), String::from_str("text/plain"));
    let text = String::from_str("internal server error: ").concat(reason);
    let r = WireResponse { status: 500, headers, body: text.as_str().as_bytes_vec() };
    assert(header_text(r.headers@) =~= fallback(reason@).1);
    r
}

} // verus!
