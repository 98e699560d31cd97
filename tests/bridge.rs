use tan_http_server::date::{datetime_from_date, Date};
use tan_http_server::form::read_form_urlencoded;
use tan_http_server::request::{decode_request, needs_body, BodyRead};
use tan_http_server::response::{decode_headers, encode_response};
use tan_http_server::server::{
    bind_address, config_from_options, handler_response, route_request, serve_config, static_file_response,
    Route, ServeError, DEFAULT_PORT,
};
use tan_http_server::value::{lookup, put_entry, Value};
use tan_http_server::wire::{internal_server_error_response, WireResponse};

fn s(x: &str) -> String {
    x.to_string()
}

fn text(x: &str) -> Value {
    Value::Str(x.to_string())
}

fn header<'a>(r: &'a WireResponse, name: &str) -> Option<&'a str> {
    r.headers.iter().find(|(n, _)| n == name).map(|(_, v)| v.as_str())
}

fn body_text(r: &WireResponse) -> String {
    String::from_utf8(r.body.clone()).unwrap()
}

fn assert_fallback(r: &WireResponse, reason: &str) {
    assert_eq!(r.status, 500);
    assert_eq!(r.headers.len(), 1);
    assert_eq!(header(r, "content-type"), Some("text/plain"));
    assert_eq!(body_text(r), format!("internal server error: {reason}"));
}

fn tuple(status: Value, headers: Vec<(String, Value)>, body: Value) -> Value {
    Value::Array(vec![status, Value::Mapping(headers), body])
}

#[test]
fn hello_response_is_sent_as_given() {
    let resp = tuple(
        Value::Int(200),
        vec![(s("content-type"), text("text/plain"))],
        text("hello"),
    );
    let r = encode_response(&resp);
    assert_eq!(r.status, 200);
    assert_eq!(r.headers, vec![(s("content-type"), s("text/plain"))]);
    assert_eq!(r.body, b"hello".to_vec());
}

#[test]
fn hello_configuration_binds_address_and_port() {
    let options = Value::Mapping(vec![
        (s("address"), text("127.0.0.1")),
        (s("port"), Value::Int(9001)),
    ]);
    let c = serve_config(&vec![options, Value::Func]).ok().unwrap();
    assert_eq!(c.address, "127.0.0.1");
    assert_eq!(c.port, 9001);
    assert!(!c.serve_static_files);
}

#[test]
fn bind_address_joins_address_and_port() {
    let options = Value::Mapping(vec![
        (s("address"), text("127.0.0.1")),
        (s("port"), Value::Int(9001)),
    ]);
    let c = serve_config(&vec![options, Value::Func]).ok().unwrap();
    assert_eq!(bind_address(&c), "127.0.0.1:9001");
    let c = config_from_options(&vec![(s("port"), Value::Int(-5))]);
    assert_eq!(bind_address(&c), "127.0.0.1:-5");
    let c = config_from_options(&vec![(s("address"), text("::1")), (s("port"), Value::Int(0))]);
    assert_eq!(bind_address(&c), "::1:0");
}

#[test]
fn string_status_is_invalid() {
    let r = encode_response(&tuple(text("200"), vec![], text("x")));
    assert_fallback(&r, "invalid status-code");
}

#[test]
fn header_name_with_space_is_invalid() {
    let r = encode_response(&tuple(
        Value::Int(200),
        vec![(s("bad header"), text("v"))],
        text("x"),
    ));
    assert_eq!(r.status, 500);
    assert!(body_text(&r).contains("invalid header `bad header`"));
    assert_fallback(&r, "invalid header `bad header`");
}

#[test]
fn header_value_not_text_is_invalid() {
    let r = encode_response(&tuple(Value::Int(200), vec![(s("x-n"), Value::Int(3))], text("x")));
    assert_fallback(&r, "invalid header `x-n`");
}

#[test]
fn header_value_with_newline_is_invalid() {
    let r = encode_response(&tuple(Value::Int(200), vec![(s("x-a"), text("a\nb"))], text("x")));
    assert_fallback(&r, "invalid header `x-a`");
}

#[test]
fn first_bad_header_is_named() {
    let entries = vec![
        (s("ok"), text("1")),
        (s("bad one"), text("2")),
        (s("bad two"), text("3")),
    ];
    let r = decode_headers(&entries);
    assert_eq!(r.err().unwrap(), "invalid header `bad one`");
}

#[test]
fn header_names_are_lower_cased() {
    let resp = tuple(
        Value::Int(201),
        vec![(s("X-Custom"), text("a")), (s("Content-Type"), Value::Symbol(s("text/html")))],
        text("made"),
    );
    let r = encode_response(&resp);
    assert_eq!(r.status, 201);
    assert_eq!(header(&r, "x-custom"), Some("a"));
    assert_eq!(header(&r, "content-type"), Some("text/html"));
    assert_eq!(header(&r, "X-Custom"), None);
}

#[test]
fn header_names_equal_after_lower_casing_keep_the_later() {
    let resp = tuple(
        Value::Int(200),
        vec![(s("X-A"), text("first")), (s("x-a"), text("second"))],
        text(""),
    );
    let r = encode_response(&resp);
    assert_eq!(r.headers, vec![(s("x-a"), s("second"))]);
}

#[test]
fn not_an_array_is_invalid_response() {
    assert_fallback(&encode_response(&text("hello")), "invalid response");
    assert_fallback(&encode_response(&Value::Mapping(vec![])), "invalid response");
}

#[test]
fn empty_array_misses_status() {
    assert_fallback(&encode_response(&Value::Array(vec![])), "missing status-code");
}

#[test]
fn status_out_of_range_is_invalid() {
    for n in [99i64, 600, 999, 1000, -1, 65736] {
        let r = encode_response(&tuple(Value::Int(n), vec![], text("x")));
        assert_fallback(&r, "invalid status-code");
    }
}

#[test]
fn status_range_edges_are_valid() {
    for n in [100i64, 200, 599] {
        let r = encode_response(&tuple(Value::Int(n), vec![], text("x")));
        assert_eq!(r.status as i64, n);
    }
}

#[test]
fn short_arrays_miss_elements() {
    assert_fallback(&encode_response(&Value::Array(vec![Value::Int(200)])), "missing headers");
    assert_fallback(
        &encode_response(&Value::Array(vec![Value::Int(200), Value::Mapping(vec![])])),
        "missing body",
    );
}

#[test]
fn headers_must_be_a_mapping() {
    let r = encode_response(&Value::Array(vec![Value::Int(200), text("h"), text("b")]));
    assert_fallback(&r, "invalid headers");
}

#[test]
fn body_must_be_text() {
    let r = encode_response(&Value::Array(vec![
        Value::Int(200),
        Value::Mapping(vec![]),
        Value::Int(1),
    ]));
    assert_fallback(&r, "invalid body");
}

#[test]
fn body_is_utf8_encoded() {
    let r = encode_response(&tuple(Value::Int(200), vec![], text("héllo ✓")));
    assert_eq!(r.body, "héllo ✓".as_bytes().to_vec());
}

#[test]
fn annotated_response_is_unpacked() {
    let inner = tuple(Value::Int(404), vec![], text("gone"));
    let r = encode_response(&Value::Typed(s("Response"), Box::new(inner)));
    assert_eq!(r.status, 404);
    assert_eq!(body_text(&r), "gone");
}

#[test]
fn error_value_gives_its_text() {
    let r = encode_response(&Value::Error(s("boom")));
    assert_fallback(&r, "boom");
}

#[test]
fn handler_error_gives_its_text() {
    let r = handler_response(&Err(s("undefined symbol `x`")));
    assert_fallback(&r, "undefined symbol `x`");
    let ok = handler_response(&Ok(tuple(Value::Int(204), vec![], text(""))));
    assert_eq!(ok.status, 204);
}

#[test]
fn fallback_response_shape() {
    let r = internal_server_error_response("invalid request body");
    assert_fallback(&r, "invalid request body");
}

fn request_fields(v: &Value) -> &Vec<(String, Value)> {
    match v {
        Value::Typed(tag, inner) => {
            assert_eq!(tag, "http/Request");
            match inner.as_ref() {
                Value::Mapping(e) => e,
                _ => panic!("request is not a mapping"),
            }
        }
        _ => panic!("request is not annotated"),
    }
}

fn field<'a>(e: &'a Vec<(String, Value)>, k: &str) -> Option<&'a Value> {
    lookup(e, &s(k))
}

fn field_text(e: &Vec<(String, Value)>, k: &str) -> Option<String> {
    match field(e, k) {
        Some(Value::Str(t)) => Some(t.clone()),
        _ => None,
    }
}

#[test]
fn get_request_has_no_body() {
    let headers = vec![(s("host"), b"localhost".to_vec()), (s("accept"), b"*/*".to_vec())];
    let v = decode_request(s("GET"), s("/a?b=c"), &headers, BodyRead::Skipped).ok().unwrap();
    let e = request_fields(&v);
    assert_eq!(field_text(e, "uri"), Some(s("/a?b=c")));
    assert_eq!(field_text(e, "method"), Some(s("GET")));
    assert!(field(e, "body").is_none());
    match field(e, "headers") {
        Some(Value::Mapping(h)) => {
            assert_eq!(h.len(), 2);
            assert_eq!(field_text(h, "host"), Some(s("localhost")));
            assert_eq!(field_text(h, "accept"), Some(s("*/*")));
        }
        _ => panic!("headers missing"),
    }
}

#[test]
fn post_request_has_body() {
    let v = decode_request(s("POST"), s("/submit"), &vec![], BodyRead::Bytes(b"a=1".to_vec()))
        .ok()
        .unwrap();
    let e = request_fields(&v);
    assert_eq!(field_text(e, "body"), Some(s("a=1")));
    assert_eq!(field_text(e, "method"), Some(s("POST")));
}

#[test]
fn post_with_empty_body_has_empty_body() {
    let v = decode_request(s("POST"), s("/"), &vec![], BodyRead::Bytes(vec![])).ok().unwrap();
    assert_eq!(field_text(request_fields(&v), "body"), Some(s("")));
}

#[test]
fn lower_case_post_is_not_post() {
    assert!(needs_body(&s("POST")));
    assert!(!needs_body(&s("post")));
    let v = decode_request(s("post"), s("/"), &vec![], BodyRead::Skipped).ok().unwrap();
    assert!(field(request_fields(&v), "body").is_none());
}

#[test]
fn post_body_not_utf8_is_refused() {
    let r = decode_request(s("POST"), s("/"), &vec![], BodyRead::Bytes(vec![0xff, 0xfe]));
    assert_eq!(r.err().unwrap(), "invalid request body");
}

#[test]
fn post_body_read_failure_is_refused() {
    let r = decode_request(s("POST"), s("/"), &vec![], BodyRead::Failed);
    assert_eq!(r.err().unwrap(), "invalid request body");
}

#[test]
fn duplicate_request_headers_keep_the_later() {
    let headers = vec![(s("x-a"), b"1".to_vec()), (s("x-a"), b"2".to_vec())];
    let v = decode_request(s("GET"), s("/"), &headers, BodyRead::Skipped).ok().unwrap();
    match field(request_fields(&v), "headers") {
        Some(Value::Mapping(h)) => {
            assert_eq!(h.len(), 1);
            assert_eq!(field_text(h, "x-a"), Some(s("2")));
        }
        _ => panic!("headers missing"),
    }
}

#[test]
fn request_header_bytes_are_read_lossily() {
    let headers = vec![(s("x-b"), vec![b'a', 0xff, b'b'])];
    let v = decode_request(s("GET"), s("/"), &headers, BodyRead::Skipped).ok().unwrap();
    match field(request_fields(&v), "headers") {
        Some(Value::Mapping(h)) => assert_eq!(field_text(h, "x-b"), Some(s("a\u{fffd}b"))),
        _ => panic!("headers missing"),
    }
}

#[test]
fn defaults_apply_when_options_are_missing_or_mistyped() {
    let c = config_from_options(&vec![]);
    assert_eq!(c.address, "127.0.0.1");
    assert_eq!(c.port, DEFAULT_PORT);
    assert_eq!(c.port, 8000);
    let c = config_from_options(&vec![
        (s("address"), Value::Int(1)),
        (s("port"), text("80")),
        (s("serve-static-files"), Value::Bool(false)),
    ]);
    assert_eq!(c.address, "127.0.0.1");
    assert_eq!(c.port, 8000);
    assert!(c.serve_static_files);
}

#[test]
fn symbol_address_is_taken() {
    let c = config_from_options(&vec![(s("address"), Value::Symbol(s("0.0.0.0")))]);
    assert_eq!(c.address, "0.0.0.0");
}

#[test]
fn serve_arguments_are_checked() {
    let opts = Value::Mapping(vec![]);
    let e = serve_config(&vec![opts]).err().unwrap();
    assert!(matches!(e, ServeError::MissingArguments));
    assert_eq!(e.message(), "`serve` requires `options` and `handler` arguments");
    let e = serve_config(&vec![Value::Int(1), Value::Func]).err().unwrap();
    assert!(matches!(e, ServeError::OptionsNotMapping));
    assert_eq!(e.message(), "`options` argument should be a Map");
    let e = serve_config(&vec![Value::Mapping(vec![]), text("f")]).err().unwrap();
    assert!(matches!(e, ServeError::HandlerNotFunc));
    assert_eq!(e.message(), "`handler` argument should be a Func");
    let typed_func = Value::Typed(s("Func"), Box::new(Value::Func));
    assert!(serve_config(&vec![Value::Mapping(vec![]), typed_func]).is_ok());
}

#[test]
fn dotted_path_goes_to_static_file_when_enabled() {
    match route_request(true, &s("/css/site.css")) {
        Route::StaticFile(p) => assert_eq!(p, "./public/css/site.css"),
        Route::Handler => panic!("expected a static file"),
    }
    assert!(matches!(route_request(true, &s("/about")), Route::Handler));
}

#[test]
fn dotted_path_goes_to_handler_when_disabled() {
    assert!(matches!(route_request(false, &s("/css/site.css")), Route::Handler));
}

#[test]
fn found_static_file_is_302_with_guessed_type() {
    let r = static_file_response(&s("./public/site.css"), Some(b"body{}".to_vec()));
    assert_eq!(r.status, 302);
    assert_eq!(header(&r, "content-type"), Some("text/css"));
    assert_eq!(r.body, b"body{}".to_vec());
    let r = static_file_response(&s("./public/blob.unknownext"), Some(vec![1, 2]));
    assert_eq!(header(&r, "content-type"), Some("application/octet-stream"));
}

#[test]
fn missing_static_file_is_404() {
    let r = static_file_response(&s("./public/none.png"), None);
    assert_eq!(r.status, 404);
    assert!(r.headers.is_empty());
    assert_eq!(body_text(&r), "File not found");
}

#[test]
fn form_fields_are_decoded() {
    match read_form_urlencoded("name=Jo+Ann&city=New%20York&name=Max") {
        Value::Mapping(e) => {
            assert_eq!(e.len(), 2);
            assert_eq!(field_text(&e, "name"), Some(s("Max")));
            assert_eq!(field_text(&e, "city"), Some(s("New York")));
        }
        _ => panic!("expected a mapping"),
    }
    match read_form_urlencoded("") {
        Value::Mapping(e) => assert!(e.is_empty()),
        _ => panic!("expected a mapping"),
    }
}

#[test]
fn put_entry_replaces_or_appends() {
    let mut m: Vec<(String, i32)> = vec![];
    put_entry(&mut m, s("a"), 1);
    put_entry(&mut m, s("b"), 2);
    put_entry(&mut m, s("a"), 3);
    assert_eq!(m, vec![(s("a"), 3), (s("b"), 2)]);
}

#[test]
fn date_becomes_midnight_utc() {
    let d = Date { year: 2024, month: 2, day: 29 };
    let t = datetime_from_date(d);
    assert_eq!(t.date, d);
    assert_eq!((t.hour, t.minute, t.second), (0, 0, 0));
}
