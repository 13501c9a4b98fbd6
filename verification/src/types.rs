//! The values that travel through one request's pipeline.
use crate::headers::HeaderList;
use vstd::prelude::*;

verus! {

use vstd::string::StringExecFns;

/// The view of an optional string.
pub open spec fn opt_view(o: Option<String>) -> Option<Seq<char>> {
    match o {
        Some(s) => Some(s@),
        None => None,
    }
}

/// How the proxy learns where to forward a request: from a destination
/// header, or from an absolute URI embedded in the request path.
pub enum DestinationStrategy {
    HeaderBased,
    PathEmbedded,
}

/// Configuration fixed at startup: the optional shared secret and the
/// destination-resolution strategy.
pub struct ProxyConfig {
    pub secret: Option<String>,
    pub strategy: DestinationStrategy,
}

/// One inbound request, as plain values: its method, its path with query
/// (empty when the request carries none), and its headers.
pub struct SillyRequest {
    pub method: String,
    pub path_and_query: String,
    pub headers: HeaderList,
}

/// A response the proxy synthesizes itself: preflight answers and errors.
pub struct SillyResponse {
    pub status: u16,
    pub headers: HeaderList,
    pub body: String,
}

/// A fully rewritten request, ready to forward to the destination over
/// HTTPS, along with what the response assembly will need: the caller's
/// origin and the proxy's own host (taken from the inbound `Host` header).
pub struct ForwardPlan {
    pub method: String,
    pub authority: String,
    pub path_and_query: String,
    pub headers: HeaderList,
    pub origin: String,
    pub proxy_host: String,
}

/// What the router decides for a request: answer it directly, or forward
/// it to the resolved destination.
pub enum RouteOutcome {
    Reply(SillyResponse),
    Forward(ForwardPlan),
}

/// The view of a request.
pub struct ReqSpec {
    pub method: Seq<char>,
    pub path_and_query: Seq<char>,
    pub headers: Seq<(Seq<char>, Seq<char>)>,
}

/// The view of a synthesized response.
pub struct RespSpec {
    pub status: u16,
    pub headers: Seq<(Seq<char>, Seq<char>)>,
    pub body: Seq<char>,
}

/// The view of a forward plan.
pub struct PlanSpec {
    pub method: Seq<char>,
    pub authority: Seq<char>,
    pub path_and_query: Seq<char>,
    pub headers: Seq<(Seq<char>, Seq<char>)>,
    pub origin: Seq<char>,
    pub proxy_host: Seq<char>,
}

/// The view of a routing decision.
pub enum OutcomeSpec {
    Reply(RespSpec),
    Forward(PlanSpec),
}

impl View for SillyRequest {
    type V = ReqSpec;

    open spec fn view(&self) -> ReqSpec {
        ReqSpec {
            method: self.method@,
            path_and_query: self.path_and_query@,
            headers: self.headers@,
        }
    }
}

impl View for SillyResponse {
    type V = RespSpec;

    open spec fn view(&self) -> RespSpec {
        RespSpec { status: self.status, headers: self.headers@, body: self.body@ }
    }
}

impl View for ForwardPlan {
    type V = PlanSpec;

    open spec fn view(&self) -> PlanSpec {
        PlanSpec {
            method: self.method@,
            authority: self.authority@,
            path_and_query: self.path_and_query@,
            headers: self.headers@,
            origin: self.origin@,
            proxy_host: self.proxy_host@,
        }
    }
}

impl View for RouteOutcome {
    type V = OutcomeSpec;

    open spec fn view(&self) -> OutcomeSpec {
        match self {
            RouteOutcome::Reply(r) => OutcomeSpec::Reply(r@),
            RouteOutcome::Forward(p) => OutcomeSpec::Forward(p@),
        }
    }
}

impl ForwardPlan {
    /// The destination URI as a string; the scheme is always HTTPS.
    pub fn uri_string(&self) -> (r: String)
        ensures
            r@ == "https://"@ + self.authority@ + self.path_and_query@,
    {
        let mut r = "https://".to_owned();
        r.append(self.authority.as_str());
        r.append(self.path_and_query.as_str());
        r
    }
}

} // verus!
