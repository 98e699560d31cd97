use vstd::prelude::*;
use vstd::utf8::encode_utf8;
use crate::value::{Value, unpacked, text_of, int_of, assoc, put_entry, lookup};
use crate::wire::{
    WireResponse, WireModel, fallback, header_text, mime_type_of, guess_mime,
    internal_server_error_response,
};
use crate::response::{as_text, as_int, respond, encode_response};

verus! {

/// The port that the listener takes when the options give none.
pub const DEFAULT_PORT: i64 = 8000;

/// The directory that static files are served from.
pub open spec fn static_root() -> Seq<char> {
    "./public"@
}

/// The address that the listener takes when the options give none.
pub open spec fn default_address() -> Seq<char> {
    "127.0.0.1"@
}

/// Where and how the listener runs.
pub struct ServerConfig {
    pub address: String,
    pub port: i64,
    pub serve_static_files: bool,
}

/// Why the server refuses to start.
pub enum ServeError {
    /// Not exactly two arguments, `options` and `handler`.
    MissingArguments,
    /// The `options` argument is not a mapping.
    OptionsNotMapping,
    /// The `handler` argument is not a function.
    HandlerNotFunc,
}

impl ServeError {
    pub open spec fn message_spec(&self) -> Seq<char> {
        match self {
            ServeError::MissingArguments => "`serve` requires `options` and `handler` arguments"@,
            ServeError::OptionsNotMapping => "`options` argument should be a Map"@,
            ServeError::HandlerNotFunc => "`handler` argument should be a Func"@,
        }
    }

    /// The text of the invalid-arguments error.
    pub fn message(&self) -> (r: String)
        ensures
            r@ == self.message_spec(),
    {
        match self {
            ServeError::MissingArguments => String::from_str("`serve` requires `options` and `handler` arguments"),
            ServeError::OptionsNotMapping => String::from_str("`options` argument should be a Map"),
            ServeError::HandlerNotFunc => String::from_str("`handler` argument should be a Func"),
        }
    }
}

/// The bind address that the options give: a text `address`, else the default.
pub open spec fn address_of(m: Map<Seq<char>, Value>) -> Seq<char> {
    if m.dom().contains("address"@) && text_of(m["address"@]) is Some {
        text_of(m["address"@])->0
    } else {
        default_address()
    }
}

/// The port that the options give: an integer `port`, else the default.
pub open spec fn port_of(m: Map<Seq<char>, Value>) -> i64 {
    if m.dom().contains("port"@) && int_of(m["port"@]) is Some {
        int_of(m["port"@])->0
    } else {
        DEFAULT_PORT
    }
}

/// The configuration that the options mapping gives; a value of the wrong
/// type falls back to the default.
pub fn config_from_options(options: &Vec<(String, Value)>) -> (r: ServerConfig)
    ensures
        r.address@ == address_of(assoc(options@)),
        r.port == port_of(assoc(options@)),
        r.serve_static_files == assoc(options@).dom().contains("serve-static-files"@),
{
    let address = match lookup(options, &String::from_str("address")) {
        Some(v) => match as_text(v) {
            Some(t) => t.clone(),
            None => String::from_str("127.0.0.1"),
        },
        None => String::from_str("127.0.0.1"),
    };
    let port = match lookup(options, &String::from_str("port")) {
        Some(v) => match as_int(v) {
            Some(n) => n,
            None => DEFAULT_PORT,
        },
        None => DEFAULT_PORT,
    };
    let serve_static_files = lookup(options, &String::from_str("serve-static-files")).is_some();
    ServerConfig { address, port, serve_static_files }
}

pub open spec fn digit_char(d: nat) -> char {
    ((d + 48) as u32) as char
}

/// The decimal digits of a natural number.
pub open spec fn digits(n: nat) -> Seq<char>
    decreases n,
{
    if n < 10 {
        seq![digit_char(n)]
    } else {
        digits(n / 10).push(digit_char(n % 10))
    }
}

/// An integer in decimal, with a leading `-` when it is negative.
pub open spec fn decimal(n: int) -> Seq<char> {
    if n < 0 {
        seq!['-'] + digits((-n) as nat)
    } else {
        digits(n as nat)
    }
}

fn digit_text(d: u64) -> (r: &'static str)
    requires
        d < 10,
    ensures
        r@ == seq![digit_char(d as nat)],
{
    proof {
        reveal_strlit("0");
        reveal_strlit("1");
        reveal_strlit("2");
        reveal_strlit("3");
        reveal_strlit("4");
        reveal_strlit("5");
        reveal_strlit("6");
        reveal_strlit("7");
        reveal_strlit("8");
        reveal_strlit("9");
    }
    let r = match d {
        0 => "0",
        1 => "1",
        2 => "2",
        3 => "3",
        4 => "4",
        5 => "5",
        6 => "6",
        7 => "7",
        8 => "8",
        _ => "9",
    };
    assert(r@ =~= seq![digit_char(d as nat)]);
    r
}

/// The decimal digits of `n`.
fn digits_text(n: u64) -> (r: String)
    ensures
        r@ == digits(n as nat),
    decreases n,
{
    if n < 10 {
        String::from_str(digit_text(n))
    } else {
        let r = digits_text(n / 10).concat(digit_text(n % 10));
        assert(r@ =~= digits(n as nat));
        r
    }
}

/// The number in decimal, with a leading `-` when it is negative.
fn int_to_text(n: i64) -> (r: String)
    ensures
        r@ == decimal(n as int),
{
    if n < 0 {
        let magnitude: u64 = ((-(n + 1)) as u64) + 1;
        proof {
            reveal_strlit("-");
        }
        let r = String::from_str("-").concat(digits_text(magnitude).as_str());
        assert(r@ =~= decimal(n as int));
        r
    } else {
        digits_text(n as u64)
    }
}

/// The socket address that the listener binds: `address:port`.
pub fn bind_address(config: &ServerConfig) -> (r: String)
    ensures
        r@ == config.address@ + seq![':'] + decimal(config.port as int),
{
    let port = int_to_text(config.port);
    let r = config.address.clone().concat(":").concat(port.as_str());
    proof {
        reveal_strlit(":");
    }
    assert(":"@ =~= seq![':']);
    r
}

/// The arguments of `serve` that start a server: an options mapping and a function.
pub open spec fn serve_args_error(args: Seq<Value>) -> Option<ServeError> {
    if args.len() != 2 {
        Some(ServeError::MissingArguments)
    } else if !(unpacked(args[0]) is Mapping) {
        Some(ServeError::OptionsNotMapping)
    } else if !(unpacked(args[1]) is Func) {
        Some(ServeError::HandlerNotFunc)
    } else {
        None
    }
}

/// Checks the arguments of `serve` before anything is bound, and reads the
/// configuration from the options.
pub fn serve_config(args: &Vec<Value>) -> (r: Result<ServerConfig, ServeError>)
    ensures
        r is Err <==> serve_args_error(args@) is Some,
        r matches Err(e) ==> serve_args_error(args@) == Some(e),
        r matches Ok(c) ==> ({
            let m = assoc(unpacked(args@[0])->Mapping_0@);
            &&& c.address@ == address_of(m)
            &&& c.port == port_of(m)
            &&& c.serve_static_files == m.dom().contains("serve-static-files"@)
        }),
{
    if args.len() != 2 {
        return Err(ServeError::MissingArguments);
    }
    let options = match crate::response::unpack(&args[0]) {
        Value::Mapping(e) => e,
        _ => {
            return Err(ServeError::OptionsNotMapping);
        },
    };
    match crate::response::unpack(&args[1]) {
        Value::Func => {},
        _ => {
            return Err(ServeError::HandlerNotFunc);
        },
    }
    Ok(config_from_options(options))
}

/// Where a request goes.
pub enum Route {
    /// To the static file at this path.
    StaticFile(String),
    /// To the handler.
    Handler,
}

pub open spec fn has_dot(s: Seq<char>) -> bool {
    exists|i: int| 0 <= i < s.len() && s[i] == '.'
}

/// A request whose path holds a `.` goes to a static file, where static files
/// are served; every other request goes to the handler.
pub fn route_request(serve_static_files: bool, path: &String) -> (r: Route)
    ensures
        match r {
            Route::StaticFile(p) => serve_static_files && has_dot(path@) && p@ == static_root() + path@,
            Route::Handler => !(serve_static_files && has_dot(path@)),
        },
{
    if serve_static_files {
        let s = path.as_str();
        let n = s.unicode_len();
        let mut i: usize = 0;
        while i < n
            invariant
                serve_static_files,
                n == path@.len(),
                s@ == path@,
                i <= n,
                forall|j: int| 0 <= j < i ==> path@[j] != '.',
            decreases n - i,
        {
            if s.get_char(i) == '.' {
                assert(path@[i as int] == '.');
                return Route::StaticFile(String::from_str("./public").concat(s));
            }
            i = i + 1;
        }
    }
    Route::Handler
}

/// The answer to a static-file request: the file's bytes with status 302 and
/// the content type that its path suggests, or 404 where it could not be read.
/// A found file is answered with 302, not 200: a known quirk of the server,
/// kept on purpose so that existing clients see the same status.
pub open spec fn static_spec(file_path: Seq<char>, contents: Option<Vec<u8>>) -> WireModel {
    match contents {
        Some(b) => (302, Map::empty().insert("content-type"@, mime_type_of(file_path)), b@),
        None => (404, Map::empty(), encode_utf8("File not found"@)),
    }
}

pub fn static_file_response(file_path: &String, contents: Option<Vec<u8>>) -> (r: WireResponse)
    ensures
        r.wf(),
        r.model() == static_spec(file_path@, contents),
{
    match contents {
        Some(bytes) => {
            let mut headers: Vec<(String, String)> = Vec::new();
            put_entry(&mut headers, String::from_str("content-type"), guess_mime(file_path.as_str()));
            let r = WireResponse { status: 302, headers, body: bytes };
            assert(header_text(r.headers@) =~= static_spec(file_path@, contents).1);
            r
        },
        None => {
            let headers: Vec<(String, String)> = Vec::new();
            let text = String::from_str("File not found");
            let r = WireResponse { status: 404, headers, body: text.as_str().as_bytes_vec() };
            assert(header_text(r.headers@) =~= Map::empty());
            r
        },
    }
}

/// What the handler's invocation gave: its return value, or the text of the
/// interpreter's error.
pub open spec fn outcome_spec(result: Result<Value, String>) -> WireModel {
    match result {
        Ok(v) => respond(v),
        Err(e) => fallback(e@),
    }
}

/// The wire response for the outcome of invoking the handler.
pub fn handler_response(result: &Result<Value, String>) -> (r: WireResponse)
    ensures
        r.wf(),
        r.model() == outcome_spec(*result),
{
    match result {
        Ok(v) => encode_response(v),
        Err(e) => internal_server_error_response(e.as_str()),
    }
}

} // verus!
