//! The CORS header builder: a pure function of the request's origin.
use crate::headers::HeaderList;
use crate::types::SillyResponse;
use vstd::prelude::*;

verus! {

/// The three headers every proxied or synthesized response carries: the
/// origin is echoed verbatim, never checked against a list.
pub open spec fn cors_view(origin: Seq<char>) -> Seq<(Seq<char>, Seq<char>)> {
    seq![
        ("Access-Control-Allow-Credentials"@, "true"@),
        ("Access-Control-Allow-Origin"@, origin),
        ("Access-Control-Allow-Methods"@, "GET, PUT, POST, DELETE, HEAD, PATCH, OPTIONS"@),
    ]
}

/// A preflight answer additionally allows every request header.
pub open spec fn preflight_headers_view(origin: Seq<char>) -> Seq<(Seq<char>, Seq<char>)> {
    cors_view(origin).push(("Access-Control-Allow-Headers"@, "*"@))
}

/// Builds the fixed CORS header set for `origin`.
pub fn get_default_cors(origin: &str) -> (h: HeaderList)
    ensures
        h@ == cors_view(origin@),
{
    let mut h = HeaderList::new();
    h.append("Access-Control-Allow-Credentials", "true".to_owned());
    h.append("Access-Control-Allow-Origin", origin.to_owned());
    h.append("Access-Control-Allow-Methods", "GET, PUT, POST, DELETE, HEAD, PATCH, OPTIONS".to_owned());
    proof {
        assert(h@ =~= cors_view(origin@));
    }
    h
}

/// Answers a preflight request: empty body, permissive CORS headers.
pub fn handle_options(origin: &str) -> (r: SillyResponse)
    ensures
        r.status == 200,
        r.body@ == Seq::<char>::empty(),
        r.headers@ == preflight_headers_view(origin@),
{
    let mut headers = get_default_cors(origin);
    headers.append("Access-Control-Allow-Headers", "*".to_owned());
    SillyResponse { status: 200, headers, body: String::new() }
}

} // verus!
