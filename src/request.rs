use vstd::prelude::*;
use vstd::utf8::{valid_utf8, decode_utf8};
use crate::value::{Value, assoc, keys_unique, put_entry};

verus! {

/// What became of a request's body.
pub enum BodyRead {
    /// The body was not read: only a `POST` request has its body read.
    Skipped,
    /// Reading the body failed.
    Failed,
    Bytes(Vec<u8>),
}

/// The text that a byte sequence reads as, each ill-formed part replaced by
/// the replacement character.
pub uninterp spec fn lossy_text_of(b: Seq<u8>) -> Seq<char>;

/// Relies on `String::from_utf8_lossy`: it keeps well-formed UTF-8 as it is.
#[verifier::external_body]
fn lossy_text(b: &Vec<u8>) -> (r: String)
    ensures
        r@ == lossy_text_of(b@),
        valid_utf8(b@) ==> r@ == decode_utf8(b@),
{
    String::from_utf8_lossy(b.as_slice()).to_string()
}

/// Relies on `String::from_utf8`: it accepts well-formed UTF-8 alone.
#[verifier::external_body]
fn utf8_text(b: Vec<u8>) -> (r: Option<String>)
    ensures
        r.is_some() == valid_utf8(b@),
        r.is_some() ==> r->0@ == decode_utf8(b@),
{
    String::from_utf8(b).ok()
}

/// The received header fields as a mapping from name to text; a later field
/// overrides an earlier one of the same name.
pub open spec fn received_headers(h: Seq<(String, Vec<u8>)>) -> Map<Seq<char>, Seq<char>>
    decreases h.len(),
{
    if h.len() == 0 {
        Map::empty()
    } else {
        received_headers(h.drop_last()).insert(h.last().0@, lossy_text_of(h.last().1@))
    }
}

/// Every entry of `m` is a string, with the text that `t` gives for its key.
pub open spec fn holds_texts(m: Map<Seq<char>, Value>, t: Map<Seq<char>, Seq<char>>) -> bool {
    &&& m.dom() == t.dom()
    &&& forall|k: Seq<char>| #[trigger] m.dom().contains(k) ==> (m[k] is Str && m[k]->Str_0@ == t[k])
}

pub open spec fn is_post(method: Seq<char>) -> bool {
    method == "POST"@
}

/// The body that a request hands to the handler: present for `POST` alone.
pub open spec fn body_ok(method: Seq<char>, body: BodyRead) -> bool {
    is_post(method) ==> (body matches BodyRead::Bytes(b) && valid_utf8(b@))
}

/// The type name with which a decoded request is annotated.
pub open spec fn request_tag() -> Seq<char> {
    "http/Request"@
}

/// The request value that the handler receives: a mapping annotated with the
/// request type, holding `uri`, `headers`, `method` and, for `POST` alone, `body`.
pub open spec fn is_request_value(
    v: Value,
    method: String,
    uri: String,
    headers: Seq<(String, Vec<u8>)>,
    body: BodyRead,
) -> bool {
    &&& v matches Value::Typed(tag, inner)
    &&& tag@ == request_tag()
    &&& *inner matches Value::Mapping(e)
    &&& keys_unique(e@)
    &&& assoc(e@).dom() =~= if is_post(method@) {
        set!["uri"@, "headers"@, "method"@, "body"@]
    } else {
        set!["uri"@, "headers"@, "method"@]
    }
    &&& assoc(e@)["uri"@] == Value::Str(uri)
    &&& assoc(e@)["method"@] == Value::Str(method)
    &&& assoc(e@)["headers"@] matches Value::Mapping(h)
    &&& keys_unique(h@)
    &&& holds_texts(assoc(h@), received_headers(headers))
    &&& is_post(method@) ==> (body matches BodyRead::Bytes(b) && assoc(e@)["body"@] is Str
        && assoc(e@)["body"@]->Str_0@ == decode_utf8(b@))
}

/// Only a `POST` request has its body read.
pub fn needs_body(method: &String) -> (r: bool)
    ensures
        r == is_post(method@),
{
    *method == String::from_str("POST")
}

/// The request value for the handler, built from what was received; the body
/// is read for `POST` alone, and must then be well-formed UTF-8.
pub fn decode_request(method: String, uri: String, headers: &Vec<(String, Vec<u8>)>, body: BodyRead) -> (r: Result<Value, String>)
    ensures
        r is Ok <==> body_ok(method@, body),
        r matches Ok(v) ==> is_request_value(v, method, uri, headers@, body),
        r matches Err(reason) ==> reason@ == "invalid request body"@,
{
    let ghost method0 = method;
    let ghost uri0 = uri;
    let ghost body0 = body;
    let mut map: Vec<(String, Value)> = Vec::new();
    assert(assoc(map@) =~= Map::empty());
    put_entry(&mut map, String::from_str("uri"), Value::Str(uri));
    let ghost m1 = assoc(map@);
    assert(m1 == Map::<Seq<char>, Value>::empty().insert("uri"@, Value::Str(uri0)));

    let mut hs: Vec<(String, Value)> = Vec::new();
    let n = headers.len();
    let mut i: usize = 0;
    assert(assoc(hs@) =~= Map::empty());
    assert(headers@.subrange(0, 0) =~= Seq::<(String, Vec<u8>)>::empty());
    while i < n
        invariant
            n == headers.len(),
            i <= n,
            keys_unique(hs@),
            holds_texts(assoc(hs@), received_headers(headers@.subrange(0, i as int))),
        decreases n - i,
    {
        let ghost before = hs@;
        let text = lossy_text(&headers[i].1);
        let name = headers[i].0.clone();
        put_entry(&mut hs, name, Value::Str(text));
        assert(headers@.subrange(0, i + 1).drop_last() =~= headers@.subrange(0, i as int));
        assert(received_headers(headers@.subrange(0, i + 1)) =~= received_headers(
            headers@.subrange(0, i as int),
        ).insert(headers@[i as int].0@, lossy_text_of(headers@[i as int].1@)));
        assert(assoc(hs@).dom() =~= received_headers(headers@.subrange(0, i + 1)).dom());
        i = i + 1;
    }
    assert(headers@.subrange(0, n as int) =~= headers@);
    let ghost hs0 = hs;
    put_entry(&mut map, String::from_str("headers"), Value::Mapping(hs));
    let ghost m2 = assoc(map@);
    assert(m2 == m1.insert("headers"@, Value::Mapping(hs0)));
    proof {
        reveal_strlit("uri");
        reveal_strlit("headers");
        reveal_strlit("method");
        reveal_strlit("body");
        assert("uri"@.len() == 3 && "body"@.len() == 4 && "method"@.len() == 6 && "headers"@.len() == 7);
        assert("uri"@ != "headers"@);
        assert("uri"@ != "method"@);
        assert("uri"@ != "body"@);
        assert("headers"@ != "method"@);
        assert("headers"@ != "body"@);
        assert("body"@ != "method"@);
    }

    if needs_body(&method) {
        let bytes = match body {
            BodyRead::Bytes(b) => b,
            _ => {
                return Err(String::from_str("invalid request body"));
            },
        };
        let text = match utf8_text(bytes) {
            Some(t) => t,
            None => {
                return Err(String::from_str("invalid request body"));
            },
        };
        let ghost tv = text;
        put_entry(&mut map, String::from_str("body"), Value::Str(text));
        assert(assoc(map@) == m2.insert("body"@, Value::Str(tv)));
    }
    put_entry(&mut map, String::from_str("method"), Value::Str(method));
    let ghost m = assoc(map@);
    assert(m["uri"@] == Value::Str(uri0));
    assert(m["headers"@] == Value::Mapping(hs0));
    Ok(Value::Typed(String::from_str("http/Request"), Box::new(Value::Mapping(map))))
}

} // verus!
