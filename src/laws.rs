use vstd::prelude::*;
use vstd::utf8::encode_utf8;
use crate::value::{Value, unpacked, text_of, int_of, assoc};
use crate::wire::{fallback, lower_ascii, mime_type_of};
use crate::request::{BodyRead, is_request_value, request_tag};
use crate::response::{lemma_headers_err_stays, entry_ok, headers_spec, status_ok, response_spec, respond, invalid_header_reason};
use crate::server::{static_root, static_spec, outcome_spec};

verus! {

/// The header fields of entries that are all fit to send, a later entry
/// overriding one of the same name.
pub open spec fn header_fields(e: Seq<(String, Value)>) -> Map<Seq<char>, Seq<char>>
    decreases e.len(),
{
    if e.len() == 0 {
        Map::empty()
    } else {
        header_fields(e.drop_last()).insert(lower_ascii(e.last().0@), text_of(e.last().1)->0)
    }
}

proof fn lemma_headers_all_ok(e: Seq<(String, Value)>)
    requires
        forall|i: int| 0 <= i < e.len() ==> entry_ok(#[trigger] e[i].0@, e[i].1),
    ensures
        headers_spec(e) == Ok::<Map<Seq<char>, Seq<char>>, Seq<char>>(header_fields(e)),
    decreases e.len(),
{
    if e.len() > 0 {
        let d = e.drop_last();
        assert forall|i: int| 0 <= i < d.len() implies entry_ok(#[trigger] d[i].0@, d[i].1) by {
            assert(d[i] == e[i]);
        }
        lemma_headers_all_ok(d);
        assert(entry_ok(e[e.len() - 1].0@, e[e.len() - 1].1));
    }
}

/// A decoded request is annotated with the request type, always holds `uri`
/// and `method`, and holds `body` exactly when the method is `POST`.
pub proof fn law_request_shape(
    v: Value,
    method: String,
    uri: String,
    headers: Seq<(String, Vec<u8>)>,
    body: BodyRead,
)
    requires
        is_request_value(v, method, uri, headers, body),
    ensures
        v matches Value::Typed(tag, inner) && tag@ == request_tag() && (*inner matches Value::Mapping(e) && ({
            let m = assoc(e@);
            &&& m.dom().contains("uri"@)
            &&& m.dom().contains("method"@)
            &&& (m.dom().contains("body"@) <==> method@ == "POST"@)
        })),
{
    reveal_strlit("uri");
    reveal_strlit("method");
    reveal_strlit("headers");
    reveal_strlit("body");
    assert("body"@.len() == 4 && "uri"@.len() == 3 && "method"@.len() == 6 && "headers"@.len() == 7);
}

/// A return value `[status, headers, body]` with a valid status code, header
/// entries that are all fit to send and a text body is sent as it is: that
/// status, those header fields, and the UTF-8 bytes of the body.
pub proof fn law_well_formed_response(items: Vec<Value>, entries: Vec<(String, Value)>)
    requires
        items@.len() >= 3,
        int_of(items@[0]) is Some,
        status_ok(int_of(items@[0])->0),
        unpacked(items@[1]) == Value::Mapping(entries),
        forall|i: int| 0 <= i < entries@.len() ==> entry_ok(#[trigger] entries@[i].0@, entries@[i].1),
        text_of(items@[2]) is Some,
    ensures
        respond(Value::Array(items)) == (
            int_of(items@[0])->0 as u16,
            header_fields(entries@),
            encode_utf8(text_of(items@[2])->0),
        ),
{
    lemma_headers_all_ok(entries@);
}

/// A return value that does not describe a response gets status 500, a
/// plain-text content type, and the body `internal server error: ` followed by
/// the reason of the stage that failed.
pub proof fn law_malformed_response(v: Value)
    requires
        response_spec(v) is Err,
    ensures
        respond(v).0 == 500,
        respond(v).1 == Map::<Seq<char>, Seq<char>>::empty().insert("content-type"@, "text/plain"@),
        respond(v).2 == encode_utf8("internal server error: "@ + response_spec(v)->Err_0),
        !(unpacked(v) is Array) && !(unpacked(v) is Error) ==> response_spec(v)->Err_0 == "invalid response"@,
        unpacked(v) matches Value::Array(t) && t@.len() == 0 ==> response_spec(v)->Err_0 == "missing status-code"@,
        unpacked(v) matches Value::Array(t) && t@.len() >= 1 && int_of(t@[0]) is None
            ==> response_spec(v)->Err_0 == "invalid status-code"@,
        unpacked(v) matches Value::Array(t) && t@.len() >= 1 && int_of(t@[0]) is Some && !status_ok(int_of(t@[0])->0)
            ==> response_spec(v)->Err_0 == "invalid status-code"@,
        unpacked(v) matches Value::Array(t) && t@.len() == 1 && int_of(t@[0]) is Some && status_ok(int_of(t@[0])->0)
            ==> response_spec(v)->Err_0 == "missing headers"@,
        unpacked(v) matches Value::Array(t) && t@.len() >= 2 && int_of(t@[0]) is Some && status_ok(int_of(t@[0])->0)
            && !(unpacked(t@[1]) is Mapping) ==> response_spec(v)->Err_0 == "invalid headers"@,
{
}

/// A header entry that cannot be sent, after entries that can, fails the whole
/// response with a reason naming that entry's key.
pub proof fn law_invalid_header(items: Vec<Value>, entries: Vec<(String, Value)>, j: int)
    requires
        items@.len() >= 2,
        int_of(items@[0]) is Some,
        status_ok(int_of(items@[0])->0),
        unpacked(items@[1]) == Value::Mapping(entries),
        0 <= j < entries@.len(),
        forall|i: int| 0 <= i < j ==> entry_ok(#[trigger] entries@[i].0@, entries@[i].1),
        !entry_ok(entries@[j].0@, entries@[j].1),
    ensures
        respond(Value::Array(items)) == fallback(invalid_header_reason(entries@[j].0@)),
{
    let e = entries@;
    let p = e.subrange(0, j);
    assert forall|i: int| 0 <= i < p.len() implies entry_ok(#[trigger] p[i].0@, p[i].1) by {
        assert(p[i] == e[i]);
    }
    lemma_headers_all_ok(p);
    assert(e.subrange(0, j + 1).drop_last() =~= p);
    lemma_headers_err_stays(e, j + 1);
}

/// An error raised by the handler is answered with the 500 fallback, with the
/// error's text as the reason.
pub proof fn law_handler_error(error: String)
    ensures
        outcome_spec(Err(error)) == fallback(error@),
{
}

/// A static file that could be read is sent with status 302 and the content
/// type that its path suggests; one that could not is answered with 404 and
/// `File not found`.
pub proof fn law_static_file(path: Seq<char>, contents: Option<Vec<u8>>)
    ensures
        contents matches Some(b) ==> static_spec(static_root() + path, contents) == (
            302u16,
            Map::<Seq<char>, Seq<char>>::empty().insert("content-type"@, mime_type_of(static_root() + path)),
            b@,
        ),
        contents is None ==> static_spec(static_root() + path, contents) == (
            404u16,
            Map::<Seq<char>, Seq<char>>::empty(),
            encode_utf8("File not found"@),
        ),
{
}

} // verus!
