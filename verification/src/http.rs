//! Request handling of the HTTP responder service.
//!
//! Every request, whatever its method, path or headers, is answered with
//! status 200, the two fixed headers `X-Foo: value` and
//! `Set-Cookie: foo=bar`, and a body equal to an external override value
//! when one is set, else a fixed greeting. Before the response is built,
//! one log entry is produced per request header: the header name
//! uppercased, and the value as text, or empty when the value is not
//! representable as text.
//!
//! The caller owns the socket and the HTTP parsing; it hands this module
//! the request headers as plain byte strings (a value of `None` for one
//! that is not representable as text) and the override value, and sends
//! the returned response back on the wire.

use vstd::prelude::*;
use vstd::string::StringExecFns;

verus! {

/// ASCII uppercase of one byte: a lowercase letter loses 32, every other
/// byte is unchanged.
pub open spec fn upper_byte(b: u8) -> u8 {
    if 97 <= b && b <= 122 {
        (b - 32) as u8
    } else {
        b
    }
}

/// ASCII uppercase of a byte string, byte for byte.
pub open spec fn upper_bytes(s: Seq<u8>) -> Seq<u8> {
    s.map_values(|b: u8| upper_byte(b))
}

/// The text a header value contributes to its log entry: the value
/// itself, or the empty string when it is not representable as text.
pub open spec fn header_value_text(v: Option<Seq<u8>>) -> Seq<u8> {
    match v {
        Some(b) => b,
        None => Seq::empty(),
    }
}

/// The fixed response body used when no override value is set.
pub open spec fn default_body() -> Seq<char> {
    "Hello, OpenShift!\n"@
}

/// The body a response carries for a given override value: the override
/// when one is set, else the fixed default.
pub open spec fn resolved_body(response_override: Option<Seq<char>>) -> Seq<char> {
    match response_override {
        Some(v) => v,
        None => default_body(),
    }
}

/// The view of an optional override value.
pub open spec fn override_view(o: Option<String>) -> Option<Seq<char>> {
    match o {
        Some(s) => Some(s@),
        None => None,
    }
}

/// The response to one HTTP request: a status code, response headers in
/// order, and a body.
pub struct HttpResponse {
    pub status: u16,
    pub headers: Vec<(String, String)>,
    pub body: String,
}

/// The one response shape this service ever produces for a given override
/// value: status 200, exactly the two fixed headers, and the resolved
/// body. Nothing of the request appears in it.
pub open spec fn response_matches(r: HttpResponse, response_override: Option<Seq<char>>) -> bool {
    &&& r.status == 200
    &&& r.headers@.len() == 2
    &&& r.headers@[0].0@ == "X-Foo"@
    &&& r.headers@[0].1@ == "value"@
    &&& r.headers@[1].0@ == "Set-Cookie"@
    &&& r.headers@[1].1@ == "foo=bar"@
    &&& r.body@ == resolved_body(response_override)
}

/// Copy of a byte string.
fn copy_bytes(v: &Vec<u8>) -> (r: Vec<u8>)
    ensures
        r@ == v@,
{
    let mut r: Vec<u8> = Vec::new();
    let mut i: usize = 0;
    while i < v.len()
        invariant
            i <= v.len(),
            r@ == v@.take(i as int),
        decreases v.len() - i,
    {
        r.push(v[i]);
        proof {
            assert(v@.take(i + 1) =~= v@.take(i as int).push(v@[i as int]));
        }
        i = i + 1;
    }
    proof {
        assert(v@.take(v@.len() as int) =~= v@);
    }
    r
}

/// ASCII uppercase of a byte string: the transform applied to each header
/// name before it is logged.
pub fn ascii_uppercase(v: &Vec<u8>) -> (r: Vec<u8>)
    ensures
        r@ == upper_bytes(v@),
{
    let mut r: Vec<u8> = Vec::new();
    let mut i: usize = 0;
    while i < v.len()
        invariant
            i <= v.len(),
            r@ == upper_bytes(v@.take(i as int)),
        decreases v.len() - i,
    {
        let b = v[i];
        let u: u8 = if b >= 97 && b <= 122 {
            b - 32
        } else {
            b
        };
        r.push(u);
        proof {
            assert(upper_bytes(v@.take(i + 1)) =~= upper_bytes(v@.take(i as int)).push(
                upper_byte(v@[i as int]),
            ));
        }
        i = i + 1;
    }
    proof {
        assert(upper_bytes(v@.take(v@.len() as int)) =~= upper_bytes(v@));
    }
    r
}

/// The log entries emitted for a request's headers, one per header in
/// order: the name uppercased, and the value's text, or the empty string
/// for a value that is not representable as text. The request is not
/// otherwise inspected.
pub fn header_log_entries(headers: &Vec<(Vec<u8>, Option<Vec<u8>>)>) -> (log: Vec<(Vec<u8>, Vec<u8>)>)
    ensures
        log@.len() == headers@.len(),
        forall|i: int| 0 <= i < log@.len() ==> {
            &&& (#[trigger] log@[i]).0@ == upper_bytes(headers@[i].0@)
            &&& log@[i].1@ == header_value_text(match headers@[i].1 {
                Some(v) => Some(v@),
                None => None,
            })
        },
{
    let mut log: Vec<(Vec<u8>, Vec<u8>)> = Vec::new();
    let mut i: usize = 0;
    while i < headers.len()
        invariant
            i <= headers.len(),
            log@.len() == i,
            forall|j: int| 0 <= j < i ==> {
                &&& (#[trigger] log@[j]).0@ == upper_bytes(headers@[j].0@)
                &&& log@[j].1@ == header_value_text(match headers@[j].1 {
                    Some(v) => Some(v@),
                    None => None,
                })
            },
        decreases headers.len() - i,
    {
        let name = ascii_uppercase(&headers[i].0);
        let value: Vec<u8> = match &headers[i].1 {
            Some(v) => copy_bytes(v),
            None => Vec::new(),
        };
        log.push((name, value));
        i = i + 1;
    }
    log
}

/// The response body for a given override value: the override itself when
/// set, else the fixed default greeting.
pub fn resolve_body(response_override: Option<String>) -> (b: String)
    ensures
        b@ == resolved_body(override_view(response_override)),
{
    match response_override {
        Some(v) => v,
        None => String::from_str("Hello, OpenShift!\n"),
    }
}

/// Build the response for one request: status 200, the two fixed headers,
/// and the resolved body. Total: it succeeds for every request and every
/// override value.
pub fn build_response(response_override: Option<String>) -> (r: HttpResponse)
    ensures
        response_matches(r, override_view(response_override)),
{
    let body = resolve_body(response_override);
    let mut headers: Vec<(String, String)> = Vec::new();
    headers.push((String::from_str("X-Foo"), String::from_str("value")));
    headers.push((String::from_str("Set-Cookie"), String::from_str("foo=bar")));
    HttpResponse { status: 200, headers, body }
}

/// Handle one request: produce the header log entries, then the response.
/// The response depends only on the override value, never on the request's
/// headers.
pub fn handle_request(
    headers: &Vec<(Vec<u8>, Option<Vec<u8>>)>,
    response_override: Option<String>,
) -> (r: (Vec<(Vec<u8>, Vec<u8>)>, HttpResponse))
    ensures
        r.0@.len() == headers@.len(),
        forall|i: int| 0 <= i < r.0@.len() ==> {
            &&& (#[trigger] r.0@[i]).0@ == upper_bytes(headers@[i].0@)
            &&& r.0@[i].1@ == header_value_text(match headers@[i].1 {
                Some(v) => Some(v@),
                None => None,
            })
        },
        response_matches(r.1, override_view(response_override)),
{
    let log = header_log_entries(headers);
    let response = build_response(response_override);
    (log, response)
}

/// Law: the response is a function of the override value alone. Any two
/// responses this service produces for the same override value — in
/// particular, responses to requests with different headers, or to the
/// same request repeated any number of times — are observably identical:
/// same status, same headers in the same order, same body.
pub proof fn lemma_response_depends_only_on_override(
    r1: HttpResponse,
    r2: HttpResponse,
    response_override: Option<Seq<char>>,
)
    requires
        response_matches(r1, response_override),
        response_matches(r2, response_override),
    ensures
        r1.status == r2.status,
        r1.body@ == r2.body@,
        r1.headers@.len() == r2.headers@.len(),
        forall|i: int| 0 <= i < r1.headers@.len() ==> {
            &&& (#[trigger] r1.headers@[i]).0@ == r2.headers@[i].0@
            &&& r1.headers@[i].1@ == r2.headers@[i].1@
        },
{
    assert forall|i: int| 0 <= i < r1.headers@.len() implies {
        &&& (#[trigger] r1.headers@[i]).0@ == r2.headers@[i].0@
        &&& r1.headers@[i].1@ == r2.headers@[i].1@
    } by {
        if i == 0 {
        } else {
            assert(i == 1);
        }
    }
}

} // verus!
