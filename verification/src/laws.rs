//! The guarantees the proxy gives, stated over the spec-level pipeline.
//!
//! Each law here quantifies over whole classes of requests; single worked
//! examples live in the test suite instead.
use crate::cors::cors_view;
use crate::handler_error::common_error_view;
use crate::handlers::location_rewrite;
use crate::handlers::sl_rewrite_location;
use crate::handlers::spec_forward_headers;
use crate::handlers::spec_handle;
use crate::headers::key_eq;
use crate::headers::key_eq_refl;
use crate::headers::key_eq_sym;
use crate::headers::key_eq_trans;
use crate::headers::lemma_count_push;
use crate::headers::lemma_count_strip;
use crate::headers::lemma_lookup_concat;
use crate::headers::lemma_lookup_push;
use crate::headers::lemma_lookup_strip;
use crate::headers::sl_count;
use crate::headers::sl_lookup;
use crate::headers::sl_strip;
use crate::router::spec_route;
use crate::types::DestinationStrategy;
use crate::types::OutcomeSpec;
use crate::types::ReqSpec;
use vstd::prelude::*;

verus! {

/// The header names the laws below tell apart. Their lengths alone already
/// distinguish them, case aside.
proof fn lemma_cors_names_distinct()
    ensures
        !key_eq("Access-Control-Allow-Credentials"@, "Access-Control-Allow-Origin"@),
        !key_eq("Access-Control-Allow-Credentials"@, "Access-Control-Allow-Methods"@),
        !key_eq("Access-Control-Allow-Origin"@, "Access-Control-Allow-Methods"@),
        !key_eq("Location"@, "Access-Control-Allow-Credentials"@),
        !key_eq("Location"@, "Access-Control-Allow-Origin"@),
        !key_eq("Location"@, "Access-Control-Allow-Methods"@),
        !key_eq("content-type"@, "Access-Control-Allow-Credentials"@),
        !key_eq("content-type"@, "Access-Control-Allow-Origin"@),
        !key_eq("silly-response"@, "Access-Control-Allow-Credentials"@),
        !key_eq("silly-response"@, "Access-Control-Allow-Origin"@),
        !key_eq("Access-Control-Allow-Origin"@, "Access-Control-Allow-Credentials"@),
        !key_eq("Access-Control-Allow-Methods"@, "Access-Control-Allow-Credentials"@),
        !key_eq("Access-Control-Allow-Methods"@, "Access-Control-Allow-Origin"@),
{
    reveal_strlit("Access-Control-Allow-Credentials");
    reveal_strlit("Access-Control-Allow-Origin");
    reveal_strlit("Access-Control-Allow-Methods");
    reveal_strlit("Location");
    reveal_strlit("content-type");
    reveal_strlit("silly-response");
}

/// What each lookup finds in the freshly built CORS set.
proof fn lemma_lookup_cors_view(origin: Seq<char>)
    ensures
        sl_lookup(cors_view(origin), "Access-Control-Allow-Credentials"@) == Some("true"@),
        sl_lookup(cors_view(origin), "Access-Control-Allow-Origin"@) == Some(origin),
        sl_lookup(cors_view(origin), "Access-Control-Allow-Methods"@) == Some(
            "GET, PUT, POST, DELETE, HEAD, PATCH, OPTIONS"@,
        ),
{
    lemma_cors_names_distinct();
    key_eq_refl("Access-Control-Allow-Credentials"@);
    key_eq_refl("Access-Control-Allow-Origin"@);
    key_eq_refl("Access-Control-Allow-Methods"@);
    let s = cors_view(origin);
    reveal_with_fuel(sl_lookup, 4);
    assert(s.drop_first() =~= seq![
        ("Access-Control-Allow-Origin"@, origin),
        ("Access-Control-Allow-Methods"@, "GET, PUT, POST, DELETE, HEAD, PATCH, OPTIONS"@),
    ]);
    assert(s.drop_first().drop_first() =~= seq![
        ("Access-Control-Allow-Methods"@, "GET, PUT, POST, DELETE, HEAD, PATCH, OPTIONS"@),
    ]);
    assert(s.drop_first().drop_first().drop_first() =~= Seq::<(Seq<char>, Seq<char>)>::empty());
}

/// A request without an `Origin` header is answered 400, never forwarded.
pub proof fn law_missing_origin_is_bad_request(
    secret: Option<Seq<char>>,
    strategy: DestinationStrategy,
    req: ReqSpec,
)
    requires
        sl_lookup(req.headers, "Origin"@) is None,
        req.method != "OPTIONS"@,
    ensures
        spec_route(secret, strategy, req) matches OutcomeSpec::Reply(resp) && resp.status == 400,
{
}

/// With no secret configured, no request fails authentication: whatever
/// else goes wrong is a validation error, never a 401.
pub proof fn law_no_secret_no_auth_failure(
    strategy: DestinationStrategy,
    method: Seq<char>,
    path: Seq<char>,
    headers: Seq<(Seq<char>, Seq<char>)>,
    origin: Seq<char>,
)
    ensures
        spec_handle(None, strategy, method, path, headers, origin) matches Err(e) ==> e.code
            == 400,
{
}

/// A request carrying the configured secret passes authentication: any
/// failure after it is a validation error, never a 401.
pub proof fn law_correct_secret_accepted(
    sec: Seq<char>,
    strategy: DestinationStrategy,
    method: Seq<char>,
    path: Seq<char>,
    headers: Seq<(Seq<char>, Seq<char>)>,
    origin: Seq<char>,
)
    requires
        sl_lookup(headers, "silly-secret"@) == Some(sec),
    ensures
        spec_handle(Some(sec), strategy, method, path, headers, origin) matches Err(e) ==> e.code
            == 400,
{
}

/// With a secret configured, a request whose secret header is missing or
/// wrong is answered 401, with CORS headers echoing its origin.
pub proof fn law_wrong_secret_rejected(
    sec: Seq<char>,
    strategy: DestinationStrategy,
    req: ReqSpec,
    origin: Seq<char>,
)
    requires
        sl_lookup(req.headers, "Origin"@) == Some(origin),
        req.method != "OPTIONS"@,
        sl_lookup(sl_strip(req.headers, "Origin"@), "silly-secret"@) != Some(sec),
    ensures
        spec_route(Some(sec), strategy, req) matches OutcomeSpec::Reply(resp) && resp.status
            == 401 && sl_lookup(resp.headers, "Access-Control-Allow-Origin"@) == Some(origin)
            && sl_lookup(resp.headers, "Access-Control-Allow-Credentials"@) == Some("true"@),
{
    let resp = spec_route(Some(sec), strategy, req)->Reply_0;
    assert(resp.headers == common_error_view() + cors_view(origin));
    lemma_lookup_concat(common_error_view(), cors_view(origin), "Access-Control-Allow-Origin"@);
    lemma_lookup_concat(
        common_error_view(),
        cors_view(origin),
        "Access-Control-Allow-Credentials"@,
    );
    lemma_cors_names_distinct();
    reveal_with_fuel(sl_lookup, 4);
    let c = common_error_view();
    assert(c.drop_first() =~= seq![("silly-response"@, "true"@)]);
    assert(c.drop_first().drop_first() =~= Seq::<(Seq<char>, Seq<char>)>::empty());
    assert(sl_lookup(c, "Access-Control-Allow-Origin"@) is None);
    assert(sl_lookup(c, "Access-Control-Allow-Credentials"@) is None);
    lemma_lookup_cors_view(origin);
}

/// Rerouting the first `Location` header touches no lookup or count under
/// an unrelated name.
proof fn lemma_rewrite_location_other(
    s: Seq<(Seq<char>, Seq<char>)>,
    proxy_host: Seq<char>,
    k: Seq<char>,
)
    requires
        !key_eq("Location"@, k),
    ensures
        sl_lookup(sl_rewrite_location(s, proxy_host), k) == sl_lookup(s, k),
        sl_count(sl_rewrite_location(s, proxy_host), k) == sl_count(s, k),
    decreases s.len(),
{
    if s.len() > 0 {
        if key_eq(s[0].0, "Location"@) {
            let e = (s[0].0, location_rewrite(proxy_host, s[0].1));
            let r = seq![e] + s.drop_first();
            assert(r[0] == e);
            assert(r.drop_first() =~= s.drop_first());
            if key_eq(s[0].0, k) {
                key_eq_sym(s[0].0, "Location"@);
                key_eq_trans("Location"@, s[0].0, k);
                assert(false);
            }
        } else {
            lemma_rewrite_location_other(s.drop_first(), proxy_host, k);
            let r = seq![s[0]] + sl_rewrite_location(s.drop_first(), proxy_host);
            assert(r[0] == s[0]);
            assert(r.drop_first() =~= sl_rewrite_location(s.drop_first(), proxy_host));
        }
    }
}

/// Every successfully forwarded response carries exactly one
/// `Access-Control-Allow-Credentials: true`, exactly one
/// `Access-Control-Allow-Origin` echoing the request's origin, and exactly
/// one `Access-Control-Allow-Methods` with the fixed method list —
/// whatever the destination answered.
pub proof fn law_forward_response_cors(
    origin: Seq<char>,
    proxy_host: Seq<char>,
    upstream: Seq<(Seq<char>, Seq<char>)>,
    rewrite: bool,
)
    ensures
        sl_lookup(
            spec_forward_headers(origin, proxy_host, upstream, rewrite),
            "Access-Control-Allow-Credentials"@,
        ) == Some("true"@),
        sl_count(
            spec_forward_headers(origin, proxy_host, upstream, rewrite),
            "Access-Control-Allow-Credentials"@,
        ) == 1,
        sl_lookup(
            spec_forward_headers(origin, proxy_host, upstream, rewrite),
            "Access-Control-Allow-Origin"@,
        ) == Some(origin),
        sl_count(
            spec_forward_headers(origin, proxy_host, upstream, rewrite),
            "Access-Control-Allow-Origin"@,
        ) == 1,
        sl_lookup(
            spec_forward_headers(origin, proxy_host, upstream, rewrite),
            "Access-Control-Allow-Methods"@,
        ) == Some("GET, PUT, POST, DELETE, HEAD, PATCH, OPTIONS"@),
        sl_count(
            spec_forward_headers(origin, proxy_host, upstream, rewrite),
            "Access-Control-Allow-Methods"@,
        ) == 1,
{
    let cred = "Access-Control-Allow-Credentials"@;
    let orig = "Access-Control-Allow-Origin"@;
    let meth = "Access-Control-Allow-Methods"@;
    lemma_cors_names_distinct();
    key_eq_refl(cred);
    key_eq_refl(orig);
    key_eq_refl(meth);
    let h1 = sl_strip(upstream, cred).push((cred, "true"@));
    let h2 = sl_strip(h1, orig).push((orig, origin));
    let h3 = sl_strip(h2, meth).push((meth, "GET, PUT, POST, DELETE, HEAD, PATCH, OPTIONS"@));
    // the credentials entry
    lemma_lookup_strip(upstream, cred, cred);
    lemma_count_strip(upstream, cred, cred);
    lemma_lookup_push(sl_strip(upstream, cred), (cred, "true"@), cred);
    lemma_count_push(sl_strip(upstream, cred), (cred, "true"@), cred);
    lemma_lookup_strip(h1, orig, cred);
    lemma_count_strip(h1, orig, cred);
    lemma_lookup_push(sl_strip(h1, orig), (orig, origin), cred);
    lemma_count_push(sl_strip(h1, orig), (orig, origin), cred);
    lemma_lookup_strip(h2, meth, cred);
    lemma_count_strip(h2, meth, cred);
    lemma_lookup_push(sl_strip(h2, meth), (meth, "GET, PUT, POST, DELETE, HEAD, PATCH, OPTIONS"@), cred);
    lemma_count_push(sl_strip(h2, meth), (meth, "GET, PUT, POST, DELETE, HEAD, PATCH, OPTIONS"@), cred);
    // the origin entry
    lemma_lookup_strip(h1, orig, orig);
    lemma_count_strip(h1, orig, orig);
    lemma_lookup_push(sl_strip(h1, orig), (orig, origin), orig);
    lemma_count_push(sl_strip(h1, orig), (orig, origin), orig);
    lemma_lookup_strip(h2, meth, orig);
    lemma_count_strip(h2, meth, orig);
    lemma_lookup_push(sl_strip(h2, meth), (meth, "GET, PUT, POST, DELETE, HEAD, PATCH, OPTIONS"@), orig);
    lemma_count_push(sl_strip(h2, meth), (meth, "GET, PUT, POST, DELETE, HEAD, PATCH, OPTIONS"@), orig);
    // the methods entry
    lemma_lookup_strip(h2, meth, meth);
    lemma_count_strip(h2, meth, meth);
    lemma_lookup_push(sl_strip(h2, meth), (meth, "GET, PUT, POST, DELETE, HEAD, PATCH, OPTIONS"@), meth);
    lemma_count_push(sl_strip(h2, meth), (meth, "GET, PUT, POST, DELETE, HEAD, PATCH, OPTIONS"@), meth);
    // the rewrite leaves all three alone
    if rewrite {
        lemma_rewrite_location_other(h3, proxy_host, cred);
        lemma_rewrite_location_other(h3, proxy_host, orig);
        lemma_rewrite_location_other(h3, proxy_host, meth);
    }
}

} // verus!
