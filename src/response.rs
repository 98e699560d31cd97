use vstd::prelude::*;
use vstd::utf8::encode_utf8;
use crate::value::{Value, unpacked, text_of, int_of, keys_unique, put_entry};
use crate::wire::{
    WireResponse, WireModel, fallback, header_text, valid_header_name, valid_header_value,
    lower_ascii, status_code_valid, header_name_of, header_value_valid,
    internal_server_error_response,
};

verus! {

/// The reason given for a header entry that cannot be sent.
pub open spec fn invalid_header_reason(name: Seq<char>) -> Seq<char> {
    "invalid header `"@ + name + "`"@
}

/// A header entry whose value is text, and whose name and text HTTP accepts.
pub open spec fn entry_ok(name: Seq<char>, v: Value) -> bool {
    &&& text_of(v).is_some()
    &&& valid_header_name(name)
    &&& valid_header_value(text_of(v)->0)
}

/// The header fields of the entries, taken in order, where a later entry
/// overrides one of the same name; or the reason naming the first bad entry.
pub open spec fn headers_spec(e: Seq<(String, Value)>) -> Result<Map<Seq<char>, Seq<char>>, Seq<char>>
    decreases e.len(),
{
    if e.len() == 0 {
        Ok(Map::empty())
    } else {
        match headers_spec(e.drop_last()) {
            Err(reason) => Err(reason),
            Ok(m) => {
                let name = e.last().0@;
                let v = e.last().1;
                if entry_ok(name, v) {
                    Ok(m.insert(lower_ascii(name), text_of(v)->0))
                } else {
                    Err(invalid_header_reason(name))
                }
            },
        }
    }
}

/// Once a prefix of the entries fails, the whole fails with the same reason.
pub proof fn lemma_headers_err_stays(e: Seq<(String, Value)>, j: int)
    requires
        0 <= j <= e.len(),
        headers_spec(e.subrange(0, j)) is Err,
    ensures
        headers_spec(e) == headers_spec(e.subrange(0, j)),
    decreases e.len() - j,
{
    if j == e.len() {
        assert(e.subrange(0, j) =~= e);
    } else {
        assert(e.subrange(0, j + 1).drop_last() =~= e.subrange(0, j));
        lemma_headers_err_stays(e, j + 1);
    }
}

/// A status code that the handler may give: an HTTP status, 100 to 599.
pub open spec fn status_ok(n: i64) -> bool {
    100 <= n <= 599
}

/// What the handler's return value means on the wire, or the reason why it
/// cannot be sent. The value is read as `[status-code, headers, body]`; an
/// error value of the interpreter gives its own text as the reason.
pub open spec fn response_spec(v: Value) -> Result<WireModel, Seq<char>> {
    match unpacked(v) {
        Value::Error(msg) => Err(msg@),
        Value::Array(items) => {
            let t = items@;
            if t.len() < 1 {
                Err("missing status-code"@)
            } else if !(int_of(t[0]) is Some && status_ok(int_of(t[0])->0)) {
                Err("invalid status-code"@)
            } else if t.len() < 2 {
                Err("missing headers"@)
            } else if !(unpacked(t[1]) is Mapping) {
                Err("invalid headers"@)
            } else {
                match headers_spec(unpacked(t[1])->Mapping_0@) {
                    Err(reason) => Err(reason),
                    Ok(h) => {
                        if t.len() < 3 {
                            Err("missing body"@)
                        } else if text_of(t[2]) is None {
                            Err("invalid body"@)
                        } else {
                            Ok((int_of(t[0])->0 as u16, h, encode_utf8(text_of(t[2])->0)))
                        }
                    },
                }
            }
        },
        _ => Err("invalid response"@),
    }
}

/// The wire response for the handler's return value: the response it
/// describes, or the 500 fallback with the reason.
pub open spec fn respond(v: Value) -> WireModel {
    match response_spec(v) {
        Ok(w) => w,
        Err(reason) => fallback(reason),
    }
}

/// The value with one type annotation taken off.
pub fn unpack(v: &Value) -> (r: &Value)
    ensures
        *r == unpacked(*v),
{
    match v {
        Value::Typed(_, inner) => inner,
        _ => v,
    }
}

/// The text of a value that can stand for a string.
pub fn as_text(v: &Value) -> (r: Option<&String>)
    ensures
        r.is_some() == text_of(*v).is_some(),
        r.is_some() ==> r->0@ == text_of(*v)->0,
{
    match unpack(v) {
        Value::Str(s) => Some(s),
        Value::Symbol(s) => Some(s),
        _ => None,
    }
}

/// The integer that a value holds.
pub fn as_int(v: &Value) -> (r: Option<i64>)
    ensures
        r == int_of(*v),
{
    match unpack(v) {
        Value::Int(n) => Some(*n),
        _ => None,
    }
}

fn invalid_header(name: &String) -> (r: String)
    ensures
        r@ == invalid_header_reason(name@),
{
    String::from_str("invalid header `").concat(name.as_str()).concat("`")
}

/// The header fields of a mapping's entries, all of them or none.
pub fn decode_headers(entries: &Vec<(String, Value)>) -> (r: Result<Vec<(String, String)>, String>)
    ensures
        match r {
            Ok(h) => keys_unique(h@) && headers_spec(entries@) == Ok::<Map<Seq<char>, Seq<char>>, Seq<char>>(header_text(h@)),
            Err(reason) => headers_spec(entries@) == Err::<Map<Seq<char>, Seq<char>>, Seq<char>>(reason@),
        },
{
    let mut hs: Vec<(String, String)> = Vec::new();
    let n = entries.len();
    let mut i: usize = 0;
    assert(entries@.subrange(0, 0) =~= Seq::<(String, Value)>::empty());
    assert(header_text(hs@) =~= Map::empty());
    while i < n
        invariant
            n == entries.len(),
            i <= n,
            keys_unique(hs@),
            headers_spec(entries@.subrange(0, i as int)) == Ok::<Map<Seq<char>, Seq<char>>, Seq<char>>(header_text(hs@)),
        decreases n - i,
    {
        let name = &entries[i].0;
        let v = &entries[i].1;
        let ghost pre = entries@.subrange(0, i as int);
        assert(entries@.subrange(0, i + 1).drop_last() =~= pre);
        assert(entries@.subrange(0, i + 1).last() == entries@[i as int]);
        let text = match as_text(v) {
            Some(t) => t,
            None => {
                proof {
                    lemma_headers_err_stays(entries@, i + 1);
                }
                return Err(invalid_header(name));
            },
        };
        let lname = match header_name_of(name.as_str()) {
            Some(l) => l,
            None => {
                proof {
                    lemma_headers_err_stays(entries@, i + 1);
                }
                return Err(invalid_header(name));
            },
        };
        if !header_value_valid(text.as_str()) {
            proof {
                lemma_headers_err_stays(entries@, i + 1);
            }
            return Err(invalid_header(name));
        }
        let ghost before = hs@;
        let tv = text.clone();
        put_entry(&mut hs, lname, tv);
        assert(header_text(hs@) =~= header_text(before).insert(lower_ascii(name@), text@));
        i = i + 1;
    }
    assert(entries@.subrange(0, n as int) =~= entries@);
    Ok(hs)
}

/// The wire response that the handler's return value describes, or the
/// reason why it cannot be sent.
pub fn decode_response(resp: &Value) -> (r: Result<WireResponse, String>)
    ensures
        match r {
            Ok(w) => w.wf() && response_spec(*resp) == Ok::<WireModel, Seq<char>>(w.model()),
            Err(reason) => response_spec(*resp) == Err::<WireModel, Seq<char>>(reason@),
        },
{
    let items = match unpack(resp) {
        Value::Error(msg) => {
            return Err(msg.clone());
        },
        Value::Array(items) => items,
        _ => {
            return Err(String::from_str("invalid response"));
        },
    };
    if items.len() < 1 {
        return Err(String::from_str("missing status-code"));
    }
    let status: u16 = match as_int(&items[0]) {
        Some(n) => {
            // HTTP's own parser takes the code as well; within 100 to 599 it
            // accepts every value.
            if n < 100 || n > 599 || !status_code_valid(n as u16) {
                return Err(String::from_str("invalid status-code"));
            }
            n as u16
        },
        None => {
            return Err(String::from_str("invalid status-code"));
        },
    };
    if items.len() < 2 {
        return Err(String::from_str("missing headers"));
    }
    let entries = match unpack(&items[1]) {
        Value::Mapping(e) => e,
        _ => {
            return Err(String::from_str("invalid headers"));
        },
    };
    let headers = match decode_headers(entries) {
        Ok(h) => h,
        Err(reason) => {
            return Err(reason);
        },
    };
    if items.len() < 3 {
        return Err(String::from_str("missing body"));
    }
    let body = match as_text(&items[2]) {
        Some(t) => t.as_str().as_bytes_vec(),
        None => {
            return Err(String::from_str("invalid body"));
        },
    };
    Ok(WireResponse { status, headers, body })
}

/// The wire response for the handler's return value; any value that does not
/// describe a response gets the 500 fallback with the reason.
pub fn encode_response(resp: &Value) -> (r: WireResponse)
    ensures
        r.wf(),
        r.model() == respond(*resp),
{
    match decode_response(resp) {
        Ok(w) => w,
        Err(reason) => internal_server_error_response(reason.as_str()),
    }
}

} // verus!
