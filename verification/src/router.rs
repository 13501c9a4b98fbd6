//! The top-level entry point: one decision per request.
//!
//! `Origin` is required for every request, preflight included; a preflight
//! is answered on the spot, anything else becomes a forward plan or an
//! error response. The caller never sees a failure that is not already an
//! HTTP response.
use crate::cors::handle_options;
use crate::cors::preflight_headers_view;
use crate::handler_error::error_resp_view;
use crate::handler_error::error_response;
use crate::handler_error::ErrSpec;
use crate::handler_error::HandlerError;
use crate::handlers::handle;
use crate::handlers::spec_handle;
use crate::headers::sl_lookup;
use crate::headers::sl_strip;
use crate::headers::str_eq;
use crate::types::opt_view;
use crate::types::DestinationStrategy;
use crate::types::OutcomeSpec;
use crate::types::ProxyConfig;
use crate::types::ReqSpec;
use crate::types::RespSpec;
use crate::types::RouteOutcome;
use crate::types::SillyRequest;
use vstd::prelude::*;

verus! {

/// What the router decides for a request, as a function of the
/// configuration and the request alone.
pub open spec fn spec_route(
    secret: Option<Seq<char>>,
    strategy: DestinationStrategy,
    req: ReqSpec,
) -> OutcomeSpec {
    match sl_lookup(req.headers, "Origin"@) {
        None => OutcomeSpec::Reply(
            error_resp_view(
                ErrSpec {
                    message: "can i hav some of that Origin header, pwease? 🥺"@,
                    code: 400,
                    origin: None,
                },
            ),
        ),
        Some(origin) => if req.method == "OPTIONS"@ {
            OutcomeSpec::Reply(
                RespSpec {
                    status: 200,
                    headers: preflight_headers_view(origin),
                    body: Seq::<char>::empty(),
                },
            )
        } else {
            match spec_handle(
                secret,
                strategy,
                req.method,
                req.path_and_query,
                sl_strip(req.headers, "Origin"@),
                origin,
            ) {
                Ok(plan) => OutcomeSpec::Forward(plan),
                Err(e) => OutcomeSpec::Reply(error_resp_view(e)),
            }
        },
    }
}

/// Routes one request: answers preflights and failures itself, and hands
/// everything else on as a forward plan.
pub fn cors_router(req: SillyRequest, config: &ProxyConfig) -> (r: RouteOutcome)
    ensures
        r@ == spec_route(opt_view(config.secret), config.strategy, req@),
{
    let SillyRequest { method, path_and_query, mut headers } = req;
    let origin = headers.remove("Origin");
    match origin {
        None => RouteOutcome::Reply(
            error_response(&HandlerError::new("can i hav some of that Origin header, pwease? 🥺", 400)),
        ),
        Some(origin) => {
            if str_eq(method.as_str(), "OPTIONS") {
                RouteOutcome::Reply(handle_options(origin.as_str()))
            } else {
                match handle(
                    SillyRequest { method, path_and_query, headers },
                    config,
                    origin.as_str(),
                ) {
                    Ok(plan) => RouteOutcome::Forward(plan),
                    Err(e) => RouteOutcome::Reply(error_response(&e)),
                }
            }
        },
    }
}

} // verus!
