//! The responses that the proxy gives.

use vstd::prelude::*;

verus! {

/// The status codes that the proxy answers with.
#[derive(Clone, Copy, Debug, PartialEq, Eq, Structural)]
pub enum StatusCode {
    OK,
    BadRequest,
    Unauthorized,
    NotFound,
    ServiceUnavailable,
}

/// `http::Response`, carried as it is.
#[verifier::external_type_specification]
#[verifier::external_body]
#[verifier::reject_recursive_types(T)]
pub struct ExResponse<T>(http::Response<T>);

/// The status code of a response.
pub uninterp spec fn response_status(response: http::Response<()>) -> u16;

/// The values of each header of a response, under the header's lower-case name.
pub uninterp spec fn response_headers(response: http::Response<()>) -> Map<
    Seq<char>,
    Seq<Seq<u8>>,
>;

/// The HTTP version of a response, such as `HTTP/1.1`.
pub uninterp spec fn response_version(response: http::Response<()>) -> Seq<char>;

/// How many extensions a response carries.
pub uninterp spec fn response_extensions(response: http::Response<()>) -> nat;

impl StatusCode {
    /// The number of the status code.
    pub open spec fn number(self) -> u16 {
        match self {
            StatusCode::OK => 200,
            StatusCode::BadRequest => 400,
            StatusCode::Unauthorized => 401,
            StatusCode::NotFound => 404,
            StatusCode::ServiceUnavailable => 503,
        }
    }

    /// The status code as a number.
    pub fn as_u16(&self) -> (number: u16)
        ensures
            number == self.number(),
            100 <= number < 1000,
    {
        match *self {
            StatusCode::OK => 200,
            StatusCode::BadRequest => 400,
            StatusCode::Unauthorized => 401,
            StatusCode::NotFound => 404,
            StatusCode::ServiceUnavailable => 503,
        }
    }
}

/// Calls `http::Response::builder`, `status` with a number and `body` with the unit value. That
/// fails exactly where the number has not three digits. Otherwise it gives a response with that
/// status, in the default version, and without headers and extensions.
#[verifier::external_body]
fn response_with_status(status: u16) -> (response: Option<http::Response<()>>)
    ensures
        match response {
            Some(r) => {
                &&& 100 <= status < 1000
                &&& response_status(r) == status
                &&& response_version(r) == "HTTP/1.1"@
                &&& response_headers(r) == Map::<Seq<char>, Seq<Seq<u8>>>::empty()
                &&& response_extensions(r) == 0
            },
            None => !(100 <= status < 1000),
        },
{
    http::Response::builder().status(status).body(()).ok()
}

/// Builds a response that has a status and otherwise what every response has. Every status code
/// has three digits.
pub fn build_response(status: u16) -> (response: http::Response<()>)
    requires
        100 <= status < 1000,
    ensures
        response_status(response) == status,
        response_version(response) == "HTTP/1.1"@,
        response_headers(response) == Map::<Seq<char>, Seq<Seq<u8>>>::empty(),
        response_extensions(response) == 0,
{
    response_with_status(status).unwrap()
}

} // verus!
