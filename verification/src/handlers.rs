//! The per-request pipeline around the one forwarding step: the shared
//! secret check, destination resolution and request rewriting before it,
//! and CORS/response assembly after it.
//!
//! The forwarding itself is the host layer's: it sends the returned
//! `ForwardPlan` and hands the outcome back to `build_forward_response_headers`
//! or `upstream_error_response`.
use crate::dest::authority_parse;
use crate::dest::parse_authority_str;
use crate::dest::parse_uri_str;
use crate::dest::strip_leading_slash;
use crate::dest::uri_parse;
use crate::handler_error::error_body_view;
use crate::handler_error::error_headers_view;
use crate::handler_error::error_response;
use crate::handler_error::ErrSpec;
use crate::handler_error::HandlerError;
use crate::headers::eq_ignore_case;
use crate::headers::key_eq;
use crate::headers::sl_lookup;
use crate::headers::sl_strip;
use crate::headers::str_eq;
use crate::headers::HeaderList;
use crate::types::opt_view;
use crate::types::DestinationStrategy;
use crate::types::ForwardPlan;
use crate::types::PlanSpec;
use crate::types::ProxyConfig;
use crate::types::SillyRequest;
use crate::types::SillyResponse;
use vstd::prelude::*;

verus! {

use vstd::string::StringExecFns;

/// Rewriting the request for its destination: the `Host` header becomes the
/// resolved authority, and the one that was there before — the proxy's own
/// host — is kept for response assembly; a request without one is refused.
pub open spec fn spec_finish_plan(
    method: Seq<char>,
    path_and_query: Seq<char>,
    authority: Seq<char>,
    headers: Seq<(Seq<char>, Seq<char>)>,
    origin: Seq<char>,
) -> Result<PlanSpec, ErrSpec> {
    match sl_lookup(headers, "Host"@) {
        None => Err(
            ErrSpec {
                message: "sowwy, you might have fowgotten host headew"@,
                code: 400,
                origin: Some(origin),
            },
        ),
        Some(proxy_host) => Ok(
            PlanSpec {
                method,
                authority,
                path_and_query,
                headers: sl_strip(headers, "Host"@).push(("Host"@, authority)),
                origin,
                proxy_host,
            },
        ),
    }
}

/// Path-embedded resolution: everything after the leading slash must parse
/// as a URI with an authority; the scheme is never taken from the client.
pub open spec fn spec_resolve_path(
    method: Seq<char>,
    path: Seq<char>,
    headers: Seq<(Seq<char>, Seq<char>)>,
    origin: Seq<char>,
) -> Result<PlanSpec, ErrSpec> {
    if path.len() == 0 {
        Err(
            ErrSpec {
                message: "sowwy, you seem to have fowgotten to pass the path 🥺"@,
                code: 400,
                origin: Some(origin),
            },
        )
    } else if path[0] != '/' {
        Err(
            ErrSpec {
                message: "sowwy, youw destination path seems invalid 🥺"@,
                code: 400,
                origin: Some(origin),
            },
        )
    } else {
        match uri_parse(path.drop_first()) {
            None => Err(
                ErrSpec {
                    message: "sowwy, youw destination path seems invalid 🥺"@,
                    code: 400,
                    origin: Some(origin),
                },
            ),
            Some(parts) => match parts.0 {
                None => Err(
                    ErrSpec {
                        message: "sowwy, you might have fowgotten host in your destination"@,
                        code: 400,
                        origin: Some(origin),
                    },
                ),
                Some(authority) => spec_finish_plan(
                    method,
                    match parts.1 {
                        Some(pq) => pq,
                        None => "/"@,
                    },
                    authority,
                    headers,
                    origin,
                ),
            },
        }
    }
}

/// Header-based resolution: the destination header names an authority; the
/// request's own path travels to it unchanged.
pub open spec fn spec_resolve_header(
    method: Seq<char>,
    path: Seq<char>,
    headers: Seq<(Seq<char>, Seq<char>)>,
    origin: Seq<char>,
) -> Result<PlanSpec, ErrSpec> {
    match sl_lookup(headers, "silly-destination"@) {
        None => Err(
            ErrSpec {
                message: "sowwy, you seem to have fowgotten the silly-destination headew 🥺"@,
                code: 400,
                origin: Some(origin),
            },
        ),
        Some(dest) => match authority_parse(dest) {
            None => Err(
                ErrSpec {
                    message: "sowwy, youw silly-destination headew seems invalid 🥺"@,
                    code: 400,
                    origin: Some(origin),
                },
            ),
            Some(authority) => spec_finish_plan(
                method,
                if path.len() == 0 {
                    "/"@
                } else {
                    path
                },
                authority,
                sl_strip(headers, "silly-destination"@),
                origin,
            ),
        },
    }
}

/// Resolution by the configured strategy.
pub open spec fn spec_resolve(
    strategy: DestinationStrategy,
    method: Seq<char>,
    path: Seq<char>,
    headers: Seq<(Seq<char>, Seq<char>)>,
    origin: Seq<char>,
) -> Result<PlanSpec, ErrSpec> {
    match strategy {
        DestinationStrategy::PathEmbedded => spec_resolve_path(method, path, headers, origin),
        DestinationStrategy::HeaderBased => spec_resolve_header(method, path, headers, origin),
    }
}

/// The pipeline between origin extraction and forwarding: the secret check
/// first — the `silly-secret` header never travels on — then resolution by
/// the configured strategy.
pub open spec fn spec_handle(
    secret: Option<Seq<char>>,
    strategy: DestinationStrategy,
    method: Seq<char>,
    path: Seq<char>,
    headers: Seq<(Seq<char>, Seq<char>)>,
    origin: Seq<char>,
) -> Result<PlanSpec, ErrSpec> {
    let provided = sl_lookup(headers, "silly-secret"@);
    let stripped = sl_strip(headers, "silly-secret"@);
    match (secret, provided) {
        (Some(_), None) => Err(
            ErrSpec {
                message: "sowwy, but you need a Silly-Secret header 🥺"@,
                code: 401,
                origin: Some(origin),
            },
        ),
        (Some(sec), Some(given)) => if given != sec {
            Err(
                ErrSpec {
                    message:
                        "sowwy, but you need to know the Silly-Secret to do silly stuff with Silly CORS 🥺"@,
                    code: 401,
                    origin: Some(origin),
                },
            )
        } else {
            spec_resolve(strategy, method, path, stripped, origin)
        },
        (None, _) => spec_resolve(strategy, method, path, stripped, origin),
    }
}

/// A redirect target, rerouted through the proxy's own host.
pub open spec fn location_rewrite(proxy_host: Seq<char>, loc: Seq<char>) -> Seq<char> {
    "https://"@ + proxy_host + "/"@ + loc
}

/// The header list with the first `Location` entry's value rerouted
/// through the proxy; names and everything else stay put.
pub open spec fn sl_rewrite_location(
    s: Seq<(Seq<char>, Seq<char>)>,
    proxy_host: Seq<char>,
) -> Seq<(Seq<char>, Seq<char>)>
    decreases s.len(),
{
    if s.len() == 0 {
        s
    } else if key_eq(s[0].0, "Location"@) {
        seq![(s[0].0, location_rewrite(proxy_host, s[0].1))] + s.drop_first()
    } else {
        seq![s[0]] + sl_rewrite_location(s.drop_first(), proxy_host)
    }
}

proof fn lemma_rewrite_none(s: Seq<(Seq<char>, Seq<char>)>, proxy_host: Seq<char>)
    requires
        forall|j: int| 0 <= j < s.len() ==> !key_eq(s[j].0, "Location"@),
    ensures
        sl_rewrite_location(s, proxy_host) == s,
    decreases s.len(),
{
    if s.len() > 0 {
        assert(forall|j: int|
            0 <= j < s.len() - 1 ==> s.drop_first()[j] == s[j + 1] && !key_eq(
                s.drop_first()[j].0,
                "Location"@,
            ));
        lemma_rewrite_none(s.drop_first(), proxy_host);
        assert(seq![s[0]] + s.drop_first() =~= s);
    }
}

proof fn lemma_rewrite_at(s: Seq<(Seq<char>, Seq<char>)>, proxy_host: Seq<char>, i: int)
    requires
        0 <= i < s.len(),
        key_eq(s[i].0, "Location"@),
        forall|j: int| 0 <= j < i ==> !key_eq(s[j].0, "Location"@),
    ensures
        sl_rewrite_location(s, proxy_host) == s.update(
            i,
            (s[i].0, location_rewrite(proxy_host, s[i].1)),
        ),
    decreases i,
{
    if i == 0 {
        assert(seq![(s[0].0, location_rewrite(proxy_host, s[0].1))] + s.drop_first() =~= s.update(
            0,
            (s[0].0, location_rewrite(proxy_host, s[0].1)),
        ));
    } else {
        assert(forall|j: int| 0 <= j < s.len() - 1 ==> s.drop_first()[j] == s[j + 1]);
        lemma_rewrite_at(s.drop_first(), proxy_host, i - 1);
        assert(seq![s[0]] + s.drop_first().update(
            i - 1,
            (s[i].0, location_rewrite(proxy_host, s[i].1)),
        ) =~= s.update(i, (s[i].0, location_rewrite(proxy_host, s[i].1))));
    }
}

/// Reroutes the first `Location` header, if any, through the proxy's host.
fn rewrite_location(h: &mut HeaderList, proxy_host: &str)
    ensures
        final(h)@ == sl_rewrite_location(old(h)@, proxy_host@),
{
    let n = h.len();
    let mut i: usize = 0;
    while i < n
        invariant
            *h == *old(h),
            n == h@.len(),
            i <= n,
            forall|j: int| 0 <= j < i ==> !key_eq(h@[j].0, "Location"@),
        decreases n - i,
    {
        if eq_ignore_case(h.name_at(i).as_str(), "Location") {
            let mut value = "https://".to_owned();
            value.append(proxy_host);
            value.append("/");
            value.append(h.value_at(i).as_str());
            proof {
                lemma_rewrite_at(h@, proxy_host@, i as int);
            }
            h.replace_value_at(i, value);
            return;
        }
        i = i + 1;
    }
    proof {
        lemma_rewrite_none(h@, proxy_host@);
    }
}

/// A forwarded response's headers: the destination's own, with the CORS
/// set written over any it already carried, and — under the path-embedded
/// strategy — the first `Location` header rerouted through the proxy.
pub open spec fn spec_forward_headers(
    origin: Seq<char>,
    proxy_host: Seq<char>,
    upstream: Seq<(Seq<char>, Seq<char>)>,
    rewrite: bool,
) -> Seq<(Seq<char>, Seq<char>)> {
    let h1 = sl_strip(upstream, "Access-Control-Allow-Credentials"@).push(
        ("Access-Control-Allow-Credentials"@, "true"@),
    );
    let h2 = sl_strip(h1, "Access-Control-Allow-Origin"@).push(
        ("Access-Control-Allow-Origin"@, origin),
    );
    let h3 = sl_strip(h2, "Access-Control-Allow-Methods"@).push(
        ("Access-Control-Allow-Methods"@, "GET, PUT, POST, DELETE, HEAD, PATCH, OPTIONS"@),
    );
    if rewrite {
        sl_rewrite_location(h3, proxy_host)
    } else {
        h3
    }
}

/// Augments a destination's response headers before they go back to the
/// caller; the status and body travel through unchanged.
pub fn build_forward_response_headers(
    config: &ProxyConfig,
    origin: &str,
    proxy_host: &str,
    upstream: HeaderList,
) -> (h: HeaderList)
    ensures
        h@ == spec_forward_headers(
            origin@,
            proxy_host@,
            upstream@,
            config.strategy is PathEmbedded,
        ),
{
    let mut h = upstream;
    h.insert("Access-Control-Allow-Credentials", "true".to_owned());
    h.insert("Access-Control-Allow-Origin", origin.to_owned());
    h.insert("Access-Control-Allow-Methods", "GET, PUT, POST, DELETE, HEAD, PATCH, OPTIONS".to_owned());
    match config.strategy {
        DestinationStrategy::PathEmbedded => {
            rewrite_location(&mut h, proxy_host);
        },
        DestinationStrategy::HeaderBased => {},
    }
    h
}

/// The response for a destination the proxy could not reach: a 500 whose
/// body names the transport failure, with CORS headers for the origin.
pub fn upstream_error_response(origin: &str, detail: &str) -> (r: SillyResponse)
    ensures
        r.status == 500,
        r@.body == error_body_view(
            "oops, couldn't connect to destination :(\n"@ + detail@,
        ),
        r@.headers == error_headers_view(Some(origin@)),
{
    let mut message = "oops, couldn't connect to destination :(\n".to_owned();
    message.append(detail);
    let e = HandlerError::new_with_origin(message.as_str(), 500, origin.to_owned());
    error_response(&e)
}

/// Sets `Host` to the resolved authority and builds the forward plan.
fn finish_plan(
    method: String,
    path_and_query: String,
    authority: String,
    headers: HeaderList,
    origin: &str,
) -> (r: Result<ForwardPlan, HandlerError>)
    ensures
        match r {
            Ok(plan) => spec_finish_plan(method@, path_and_query@, authority@, headers@, origin@)
                == Ok::<PlanSpec, ErrSpec>(plan@),
            Err(e) => spec_finish_plan(method@, path_and_query@, authority@, headers@, origin@)
                == Err::<PlanSpec, ErrSpec>(e@),
        },
{
    let mut headers = headers;
    let proxy_host = headers.insert("Host", authority.clone());
    match proxy_host {
        None => Err(
            HandlerError::new_with_origin(
                "sowwy, you might have fowgotten host headew",
                400,
                origin.to_owned(),
            ),
        ),
        Some(proxy_host) => Ok(
            ForwardPlan {
                method,
                authority,
                path_and_query,
                headers,
                origin: origin.to_owned(),
                proxy_host,
            },
        ),
    }
}

/// Runs a non-preflight request up to the forwarding step: checks the
/// shared secret, resolves the destination by the configured strategy, and
/// rewrites the request. The secret header is removed whatever happens.
pub fn handle(req: SillyRequest, config: &ProxyConfig, origin: &str) -> (r: Result<
    ForwardPlan,
    HandlerError,
>)
    ensures
        match r {
            Ok(plan) => spec_handle(
                opt_view(config.secret),
                config.strategy,
                req.method@,
                req.path_and_query@,
                req.headers@,
                origin@,
            ) == Ok::<PlanSpec, ErrSpec>(plan@),
            Err(e) => spec_handle(
                opt_view(config.secret),
                config.strategy,
                req.method@,
                req.path_and_query@,
                req.headers@,
                origin@,
            ) == Err::<PlanSpec, ErrSpec>(e@),
        },
{
    let SillyRequest { method, path_and_query, mut headers } = req;
    let provided = headers.remove("silly-secret");
    match (&config.secret, &provided) {
        (Some(_), None) => {
            return Err(
                HandlerError::new_with_origin(
                    "sowwy, but you need a Silly-Secret header 🥺",
                    401,
                    origin.to_owned(),
                ),
            );
        },
        (Some(sec), Some(given)) => {
            if !str_eq(given.as_str(), sec.as_str()) {
                return Err(
                    HandlerError::new_with_origin(
                        "sowwy, but you need to know the Silly-Secret to do silly stuff with Silly CORS 🥺",
                        401,
                        origin.to_owned(),
                    ),
                );
            }
        },
        (None, _) => {},
    }
    match config.strategy {
        DestinationStrategy::PathEmbedded => {
            if path_and_query.as_str().is_empty() {
                return Err(
                    HandlerError::new_with_origin(
                        "sowwy, you seem to have fowgotten to pass the path 🥺",
                        400,
                        origin.to_owned(),
                    ),
                );
            }
            match strip_leading_slash(path_and_query.as_str()) {
                None => Err(
                    HandlerError::new_with_origin(
                        "sowwy, youw destination path seems invalid 🥺",
                        400,
                        origin.to_owned(),
                    ),
                ),
                Some(tail) => match parse_uri_str(tail) {
                    None => Err(
                        HandlerError::new_with_origin(
                            "sowwy, youw destination path seems invalid 🥺",
                            400,
                            origin.to_owned(),
                        ),
                    ),
                    Some((authority_opt, pq_opt)) => match authority_opt {
                        None => Err(
                            HandlerError::new_with_origin(
                                "sowwy, you might have fowgotten host in your destination",
                                400,
                                origin.to_owned(),
                            ),
                        ),
                        Some(authority) => {
                            let pq = match pq_opt {
                                Some(p) => p,
                                None => "/".to_owned(),
                            };
                            finish_plan(method, pq, authority, headers, origin)
                        },
                    },
                },
            }
        },
        DestinationStrategy::HeaderBased => {
            let dest = headers.remove("silly-destination");
            match dest {
                None => Err(
                    HandlerError::new_with_origin(
                        "sowwy, you seem to have fowgotten the silly-destination headew 🥺",
                        400,
                        origin.to_owned(),
                    ),
                ),
                Some(dest) => match parse_authority_str(dest.as_str()) {
                    None => Err(
                        HandlerError::new_with_origin(
                            "sowwy, youw silly-destination headew seems invalid 🥺",
                            400,
                            origin.to_owned(),
                        ),
                    ),
                    Some(authority) => {
                        let pq = if path_and_query.as_str().is_empty() {
                            "/".to_owned()
                        } else {
                            path_and_query
                        };
                        finish_plan(method, pq, authority, headers, origin)
                    },
                },
            }
        },
    }
}

} // verus!
