//! The head of an HBONE request and the pieces of the `http` crate that the proxy reads from it.

use vstd::prelude::*;

verus! {

/// The header that carries the trace context of a request.
pub const TRACEPARENT_HEADER: &'static str = "traceparent";

/// The header that carries what the client says of its own workload.
pub const BAGGAGE_HEADER: &'static str = "baggage";

/// The header in which a proxy names the host that the client asked for.
pub const FORWARDED_HEADER: &'static str = "forwarded";

/// `http::Method`, carried as it is.
#[verifier::external_type_specification]
#[verifier::external_body]
pub struct ExMethod(http::Method);

/// `http::Uri`, carried as it is.
#[verifier::external_type_specification]
#[verifier::external_body]
pub struct ExUri(http::Uri);

/// `http::HeaderValue`, carried as it is.
#[verifier::external_type_specification]
#[verifier::external_body]
pub struct ExHeaderValue(http::HeaderValue);

/// `http::HeaderMap`, carried as it is.
#[verifier::external_type_specification]
#[verifier::external_body]
#[verifier::reject_recursive_types(T)]
pub struct ExHeaderMap<T>(http::HeaderMap<T>);

/// The text of a method, such as `CONNECT`.
pub uninterp spec fn method_text(method: http::Method) -> Seq<char>;

/// The text of a URI.
pub uninterp spec fn uri_text(uri: http::Uri) -> Seq<char>;

/// The bytes of a header value.
pub uninterp spec fn value_bytes(value: http::HeaderValue) -> Seq<u8>;

/// The values of each header of a map, in the order in which they were added, under the
/// header's lower-case name.
pub uninterp spec fn header_values(map: http::HeaderMap<http::HeaderValue>) -> Map<
    Seq<char>,
    Seq<Seq<u8>>,
>;

/// The head of a request as the proxy reads it.
pub struct H2Request {
    pub method: http::Method,
    pub uri: http::Uri,
    pub headers: http::HeaderMap<http::HeaderValue>,
}

/// A byte that may stand in a header value that is text: a tab or a printable ASCII character.
pub open spec fn visible_ascii(b: u8) -> bool {
    32 <= b < 127 || b == 9
}

/// The text that bytes spell, where all of them are visible ASCII.
pub open spec fn visible_text(bytes: Seq<u8>) -> Option<Seq<char>> {
    if forall|i: int| 0 <= i < bytes.len() ==> visible_ascii(#[trigger] bytes[i]) {
        Some(bytes.map_values(|b: u8| b as char))
    } else {
        None
    }
}

/// A header name in the form in which a header map keeps it.
pub open spec fn lower_case_name(name: Seq<char>) -> bool {
    &&& name.len() > 0
    &&& forall|i: int|
        0 <= i < name.len() ==> {
            ||| 'a' <= #[trigger] name[i] <= 'z'
            ||| '0' <= name[i] <= '9'
            ||| name[i] == '-'
        }
}

/// Compares with `http::Method::CONNECT`. A method equals it exactly where its text is
/// `CONNECT`.
#[verifier::external_body]
fn method_is_connect(method: &http::Method) -> (connect: bool)
    ensures
        connect == (method_text(*method) == "CONNECT"@),
{
    *method == http::Method::CONNECT
}

/// Calls `to_string` of `http::Method`, which gives the method's text.
#[verifier::external_body]
fn method_to_string(method: &http::Method) -> (text: String)
    ensures
        text@ == method_text(*method),
{
    method.to_string()
}

/// Calls `to_string` of `http::Uri`, which gives the URI's text.
#[verifier::external_body]
fn uri_to_string(uri: &http::Uri) -> (text: String)
    ensures
        text@ == uri_text(*uri),
{
    uri.to_string()
}

/// Calls `http::HeaderMap::get`, which gives the first value of the named header, or nothing
/// where the map has no such header.
#[verifier::external_body]
fn header_get<'a>(
    map: &'a http::HeaderMap<http::HeaderValue>,
    name: &str,
) -> (value: Option<&'a http::HeaderValue>)
    requires
        lower_case_name(name@),
    ensures
        match value {
            Some(v) => {
                &&& header_values(*map).contains_key(name@)
                &&& header_values(*map)[name@].len() > 0
                &&& value_bytes(*v) == header_values(*map)[name@][0]
            },
            None => !header_values(*map).contains_key(name@),
        },
{
    map.get(name)
}

/// Calls `http::HeaderMap::get_all`, which gives all values of the named header in the order in
/// which they were added, and copies the bytes of each.
#[verifier::external_body]
fn header_get_all(map: &http::HeaderMap<http::HeaderValue>, name: &str) -> (values: Vec<Vec<u8>>)
    requires
        lower_case_name(name@),
    ensures
        values@.map_values(|v: Vec<u8>| v@) == if header_values(*map).contains_key(name@) {
            header_values(*map)[name@]
        } else {
            Seq::empty()
        },
{
    map.get_all(name).iter().map(|v| v.as_bytes().to_vec()).collect()
}

/// Calls `http::HeaderValue::to_str`, which gives the value's text where every byte is visible
/// ASCII, and fails otherwise.
#[verifier::external_body]
fn value_to_str(value: &http::HeaderValue) -> (text: Option<&str>)
    ensures
        match text {
            Some(t) => visible_text(value_bytes(*value)) == Some(t@),
            None => visible_text(value_bytes(*value)) is None,
        },
{
    value.to_str().ok()
}

impl H2Request {
    /// Whether the request asks for a tunnel.
    pub fn is_connect(&self) -> (connect: bool)
        ensures
            connect == (method_text(self.method) == "CONNECT"@),
    {
        method_is_connect(&self.method)
    }

    /// The request's method as text.
    pub fn method_string(&self) -> (text: String)
        ensures
            text@ == method_text(self.method),
    {
        method_to_string(&self.method)
    }

    /// The request's target as text.
    pub fn uri_string(&self) -> (text: String)
        ensures
            text@ == uri_text(self.uri),
    {
        uri_to_string(&self.uri)
    }

    /// The text of the first value of a header, where the request has the header and that value
    /// is text.
    pub open spec fn text_of(self, name: Seq<char>) -> Option<Seq<char>> {
        if header_values(self.headers).contains_key(name) {
            visible_text(header_values(self.headers)[name][0])
        } else {
            None
        }
    }

    /// Reads the first value of a header as text.
    pub fn header_text(&self, name: &str) -> (text: Option<&str>)
        requires
            lower_case_name(name@),
        ensures
            match text {
                Some(t) => self.text_of(name@) == Some(t@),
                None => self.text_of(name@) is None,
            },
    {
        match header_get(&self.headers, name) {
            Some(value) => value_to_str(value),
            None => None,
        }
    }

    /// All values of the `baggage` header, in the order in which they were added.
    pub fn baggage_values(&self) -> (values: Vec<Vec<u8>>)
        ensures
            values@.map_values(|v: Vec<u8>| v@) == if header_values(self.headers).contains_key(
                BAGGAGE_HEADER@,
            ) {
                header_values(self.headers)[BAGGAGE_HEADER@]
            } else {
                Seq::empty()
            },
    {
        proof {
            reveal_strlit("baggage");
        }
        header_get_all(&self.headers, BAGGAGE_HEADER)
    }
}

} // verus!
