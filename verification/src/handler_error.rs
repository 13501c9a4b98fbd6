//! The error type every stage returns, and the mapper that turns it into
//! an HTTP response — the only place a failure becomes a response.
use crate::cors::cors_view;
use crate::cors::get_default_cors;
use crate::headers::HeaderList;
use crate::types::opt_view;
use crate::types::RespSpec;
use crate::types::SillyResponse;
use vstd::prelude::*;

verus! {

use vstd::string::StringExecFns;

/// A pipeline failure: a message for the caller, an HTTP status code, and
/// the request's origin when it was already known, so that even an error
/// response can carry correct CORS headers.
pub struct HandlerError {
    pub message: String,
    pub code: u16,
    pub origin: Option<String>,
}

/// The view of a pipeline failure.
pub struct ErrSpec {
    pub message: Seq<char>,
    pub code: u16,
    pub origin: Option<Seq<char>>,
}

impl View for HandlerError {
    type V = ErrSpec;

    open spec fn view(&self) -> ErrSpec {
        ErrSpec { message: self.message@, code: self.code, origin: opt_view(self.origin) }
    }
}

impl HandlerError {
    pub fn new(message: &str, code: u16) -> (e: HandlerError)
        ensures
            e.message@ == message@,
            e.code == code,
            e.origin is None,
    {
        HandlerError { message: message.to_owned(), code, origin: None }
    }

    pub fn new_with_origin(message: &str, code: u16, origin: String) -> (e: HandlerError)
        ensures
            e.message@ == message@,
            e.code == code,
            e.origin == Some(origin),
    {
        HandlerError { message: message.to_owned(), code, origin: Some(origin) }
    }
}

/// The two fixed diagnostic headers every error response carries.
pub open spec fn common_error_view() -> Seq<(Seq<char>, Seq<char>)> {
    seq![("content-type"@, "text/plain; charset=utf-8"@), ("silly-response"@, "true"@)]
}

/// An error response's headers: the diagnostics, then — only when the
/// origin was known at failure time — the CORS set.
pub open spec fn error_headers_view(origin: Option<Seq<char>>) -> Seq<(Seq<char>, Seq<char>)> {
    common_error_view() + (match origin {
        Some(o) => cors_view(o),
        None => Seq::<(Seq<char>, Seq<char>)>::empty(),
    })
}

/// An error response's body: a fixed template around the message.
pub open spec fn error_body_view(message: Seq<char>) -> Seq<char> {
    "Silly error: "@ + message
}

/// The response a failure maps to.
pub open spec fn error_resp_view(e: ErrSpec) -> RespSpec {
    RespSpec {
        status: e.code,
        headers: error_headers_view(e.origin),
        body: error_body_view(e.message),
    }
}

/// Turns a pipeline failure into the response the caller sees.
pub fn error_response(err: &HandlerError) -> (r: SillyResponse)
    ensures
        r@ == error_resp_view(err@),
        r.status == err.code,
        r.body@ == error_body_view(err.message@),
        r.headers@ == error_headers_view(opt_view(err.origin)),
{
    let mut headers = HeaderList::new();
    headers.append("content-type", "text/plain; charset=utf-8".to_owned());
    headers.append("silly-response", "true".to_owned());
    match &err.origin {
        Some(o) => {
            let cors = get_default_cors(o.as_str());
            let n = cors.len();
            let mut i: usize = 0;
            proof {
                assert(headers@ =~= common_error_view() + cors@.take(0));
            }
            while i < n
                invariant
                    n == cors@.len(),
                    i <= n,
                    headers@ == common_error_view() + cors@.take(i as int),
                decreases n - i,
            {
                let name = cors.name_at(i).clone();
                let value = cors.value_at(i).clone();
                headers.append(name.as_str(), value);
                proof {
                    assert(common_error_view() + cors@.take(i + 1) =~= (common_error_view()
                        + cors@.take(i as int)).push(cors@[i as int]));
                }
                i = i + 1;
            }
            proof {
                assert(cors@.take(n as int) =~= cors@);
            }
        },
        None => {
            proof {
                assert(headers@ =~= common_error_view()
                    + Seq::<(Seq<char>, Seq<char>)>::empty());
            }
        },
    }
    let mut body = "Silly error: ".to_owned();
    body.append(err.message.as_str());
    proof {
        assert(headers@ =~= error_headers_view(opt_view(err.origin)));
    }
    SillyResponse { status: err.code, headers, body }
}

/// The answer to a failure nothing classified: a fixed 500 with no detail,
/// so nothing internal leaks to the caller.
pub fn internal_error_response() -> (r: SillyResponse)
    ensures
        r.status == 500,
        r.body@ == "Silly error: something bad happened 🥺. pwease, check the logs"@,
        r.headers@ == common_error_view(),
{
    let mut headers = HeaderList::new();
    headers.append("content-type", "text/plain; charset=utf-8".to_owned());
    headers.append("silly-response", "true".to_owned());
    proof {
        assert(headers@ =~= common_error_view());
    }
    SillyResponse {
        status: 500,
        headers,
        body: "Silly error: something bad happened 🥺. pwease, check the logs".to_owned(),
    }
}

} // verus!
