use silly_cors::cors::get_default_cors;
use silly_cors::cors::handle_options;
use silly_cors::handler_error::internal_error_response;
use silly_cors::handler_error::error_response;
use silly_cors::handler_error::HandlerError;
use silly_cors::handlers::build_forward_response_headers;
use silly_cors::handlers::upstream_error_response;
use silly_cors::headers::HeaderList;
use silly_cors::router::cors_router;
use silly_cors::types::DestinationStrategy;
use silly_cors::types::ForwardPlan;
use silly_cors::types::ProxyConfig;
use silly_cors::types::RouteOutcome;
use silly_cors::types::SillyRequest;
use silly_cors::types::SillyResponse;

fn path_config(secret: Option<&str>) -> ProxyConfig {
    ProxyConfig {
        secret: secret.map(|s| s.to_string()),
        strategy: DestinationStrategy::PathEmbedded,
    }
}

fn header_config(secret: Option<&str>) -> ProxyConfig {
    ProxyConfig {
        secret: secret.map(|s| s.to_string()),
        strategy: DestinationStrategy::HeaderBased,
    }
}

fn request(method: &str, path: &str, headers: &[(&str, &str)]) -> SillyRequest {
    let mut list = HeaderList::new();
    for (name, value) in headers {
        list.append(name, value.to_string());
    }
    SillyRequest {
        method: method.to_string(),
        path_and_query: path.to_string(),
        headers: list,
    }
}

fn expect_reply(outcome: RouteOutcome) -> SillyResponse {
    match outcome {
        RouteOutcome::Reply(resp) => resp,
        RouteOutcome::Forward(_) => panic!("expected a direct reply, got a forward plan"),
    }
}

fn expect_forward(outcome: RouteOutcome) -> ForwardPlan {
    match outcome {
        RouteOutcome::Forward(plan) => plan,
        RouteOutcome::Reply(resp) => {
            panic!("expected a forward plan, got status {}: {}", resp.status, resp.body)
        }
    }
}

fn header<'a>(h: &'a HeaderList, name: &str) -> Option<&'a String> {
    h.get(name)
}

fn count(h: &HeaderList, name: &str) -> usize {
    let mut c: usize = 0;
    for i in 0..h.len() {
        if h.name_at(i).eq_ignore_ascii_case(name) {
            c += 1;
        }
    }
    c
}

#[test]
fn preflight_includes_cors_headers() {
    let req = request("OPTIONS", "/whatever", &[("Origin", "https://a.test")]);
    let resp = expect_reply(cors_router(req, &path_config(None)));
    assert_eq!(resp.status, 200);
    assert_eq!(resp.body, "");
    assert_eq!(
        header(&resp.headers, "Access-Control-Allow-Origin").unwrap(),
        "https://a.test"
    );
    assert_eq!(header(&resp.headers, "Access-Control-Allow-Headers").unwrap(), "*");
    assert_eq!(
        header(&resp.headers, "Access-Control-Allow-Credentials").unwrap(),
        "true"
    );
}

#[test]
fn missing_origin_is_bad_request() {
    let req = request("GET", "/http://example.com/", &[("Host", "proxy.local")]);
    let resp = expect_reply(cors_router(req, &path_config(None)));
    assert_eq!(resp.status, 400);
    assert_eq!(
        resp.body,
        "Silly error: can i hav some of that Origin header, pwease? \u{1f97a}"
    );
    assert!(header(&resp.headers, "Access-Control-Allow-Origin").is_none());
}

#[test]
fn no_secret_configured_accepts_requests_without_secret() {
    let req = request(
        "GET",
        "/http://example.com/foo",
        &[("Origin", "https://a.test"), ("Host", "proxy.local")],
    );
    let plan = expect_forward(cors_router(req, &path_config(None)));
    assert_eq!(plan.authority, "example.com");
}

#[test]
fn correct_secret_is_accepted() {
    let req = request(
        "GET",
        "/http://example.com/foo",
        &[
            ("Origin", "https://a.test"),
            ("Host", "proxy.local"),
            ("Silly-Secret", "hunter2"),
        ],
    );
    let plan = expect_forward(cors_router(req, &path_config(Some("hunter2"))));
    assert_eq!(plan.authority, "example.com");
    assert!(header(&plan.headers, "silly-secret").is_none());
}

#[test]
fn missing_secret_is_rejected_with_cors() {
    let req = request(
        "GET",
        "/http://example.com/foo",
        &[("Origin", "https://a.test"), ("Host", "proxy.local")],
    );
    let resp = expect_reply(cors_router(req, &path_config(Some("hunter2"))));
    assert_eq!(resp.status, 401);
    assert_eq!(
        header(&resp.headers, "Access-Control-Allow-Origin").unwrap(),
        "https://a.test"
    );
    assert!(resp.body.starts_with("Silly error: sowwy, but you need a Silly-Secret header"));
}

#[test]
fn wrong_secret_is_rejected_with_cors() {
    let req = request(
        "GET",
        "/http://example.com/foo",
        &[
            ("Origin", "https://a.test"),
            ("Host", "proxy.local"),
            ("silly-secret", "guess"),
        ],
    );
    let resp = expect_reply(cors_router(req, &path_config(Some("hunter2"))));
    assert_eq!(resp.status, 401);
    assert_eq!(
        header(&resp.headers, "Access-Control-Allow-Origin").unwrap(),
        "https://a.test"
    );
}

#[test]
fn header_strategy_sets_host_and_keeps_path() {
    let req = request(
        "GET",
        "/users",
        &[
            ("Origin", "https://a.test"),
            ("Host", "proxy.local"),
            ("silly-destination", "example.com"),
        ],
    );
    let plan = expect_forward(cors_router(req, &header_config(None)));
    assert_eq!(plan.authority, "example.com");
    assert_eq!(plan.path_and_query, "/users");
    assert_eq!(header(&plan.headers, "Host").unwrap(), "example.com");
    assert!(header(&plan.headers, "silly-destination").is_none());
    assert_eq!(plan.uri_string(), "https://example.com/users");
    assert_eq!(plan.proxy_host, "proxy.local");
}

#[test]
fn path_strategy_resolves_embedded_uri() {
    let req = request(
        "GET",
        "/http://example.com/foo?x=1",
        &[("Origin", "https://a.test"), ("Host", "proxy.local")],
    );
    let plan = expect_forward(cors_router(req, &path_config(None)));
    assert_eq!(plan.authority, "example.com");
    assert_eq!(plan.path_and_query, "/foo?x=1");
    assert_eq!(header(&plan.headers, "Host").unwrap(), "example.com");
    assert_eq!(plan.uri_string(), "https://example.com/foo?x=1");
}

#[test]
fn path_strategy_defaults_path_to_slash() {
    let req = request(
        "GET",
        "/example.com",
        &[("Origin", "https://a.test"), ("Host", "proxy.local")],
    );
    let plan = expect_forward(cors_router(req, &path_config(None)));
    assert_eq!(plan.authority, "example.com");
    assert_eq!(plan.path_and_query, "/");
}

#[test]
fn unreachable_destination_yields_500() {
    let resp = upstream_error_response("https://a.test", "dns failure");
    assert_eq!(resp.status, 500);
    assert!(resp.body.starts_with("Silly error: oops, couldn't connect to destination"));
    assert!(resp.body.ends_with("dns failure"));
    assert_eq!(
        header(&resp.headers, "Access-Control-Allow-Origin").unwrap(),
        "https://a.test"
    );
}

#[test]
fn forwarded_response_has_exactly_one_of_each_cors_header() {
    let mut upstream = HeaderList::new();
    upstream.append("content-type", "text/html".to_string());
    upstream.append("Access-Control-Allow-Origin", "https://evil.test".to_string());
    upstream.append("access-control-allow-credentials", "false".to_string());
    let h = build_forward_response_headers(
        &path_config(None),
        "https://a.test",
        "proxy.local",
        upstream,
    );
    assert_eq!(header(&h, "Access-Control-Allow-Origin").unwrap(), "https://a.test");
    assert_eq!(header(&h, "Access-Control-Allow-Credentials").unwrap(), "true");
    assert_eq!(
        header(&h, "Access-Control-Allow-Methods").unwrap(),
        "GET, PUT, POST, DELETE, HEAD, PATCH, OPTIONS"
    );
    assert_eq!(count(&h, "Access-Control-Allow-Origin"), 1);
    assert_eq!(count(&h, "Access-Control-Allow-Credentials"), 1);
    assert_eq!(count(&h, "Access-Control-Allow-Methods"), 1);
    assert_eq!(header(&h, "content-type").unwrap(), "text/html");
}

#[test]
fn location_header_reroutes_through_proxy() {
    let mut upstream = HeaderList::new();
    upstream.append("Location", "https://example.com/next".to_string());
    let h = build_forward_response_headers(
        &path_config(None),
        "https://a.test",
        "proxy.local",
        upstream,
    );
    assert_eq!(
        header(&h, "Location").unwrap(),
        "https://proxy.local/https://example.com/next"
    );
}

#[test]
fn location_header_is_kept_under_header_strategy() {
    let mut upstream = HeaderList::new();
    upstream.append("Location", "https://example.com/next".to_string());
    let h = build_forward_response_headers(
        &header_config(None),
        "https://a.test",
        "proxy.local",
        upstream,
    );
    assert_eq!(header(&h, "Location").unwrap(), "https://example.com/next");
}

#[test]
fn header_names_match_case_insensitively() {
    let mut h = HeaderList::new();
    h.append("X-Thing", "one".to_string());
    h.append("x-thing", "two".to_string());
    assert_eq!(h.get("X-THING").unwrap(), "one");
    let removed = h.remove("x-Thing");
    assert_eq!(removed.unwrap(), "one");
    assert!(h.get("x-thing").is_none());
    assert_eq!(h.len(), 0);
}

#[test]
fn insert_replaces_every_entry() {
    let mut h = HeaderList::new();
    h.append("Host", "a".to_string());
    h.append("HOST", "b".to_string());
    let old = h.insert("host", "c".to_string());
    assert_eq!(old.unwrap(), "a");
    assert_eq!(h.len(), 1);
    assert_eq!(h.get("Host").unwrap(), "c");
}

#[test]
fn invalid_embedded_uri_is_bad_request() {
    let req = request(
        "GET",
        "/ht tp://bad",
        &[("Origin", "https://a.test"), ("Host", "proxy.local")],
    );
    let resp = expect_reply(cors_router(req, &path_config(None)));
    assert_eq!(resp.status, 400);
    assert!(resp.body.starts_with("Silly error: sowwy, youw destination path seems invalid"));
}

#[test]
fn empty_path_is_bad_request() {
    let req = request(
        "GET",
        "",
        &[("Origin", "https://a.test"), ("Host", "proxy.local")],
    );
    let resp = expect_reply(cors_router(req, &path_config(None)));
    assert_eq!(resp.status, 400);
    assert!(resp.body.starts_with("Silly error: sowwy, you seem to have fowgotten to pass the path"));
}

#[test]
fn destination_without_authority_is_bad_request() {
    let req = request(
        "GET",
        "//just-a-path",
        &[("Origin", "https://a.test"), ("Host", "proxy.local")],
    );
    let resp = expect_reply(cors_router(req, &path_config(None)));
    assert_eq!(resp.status, 400);
}

#[test]
fn missing_host_header_is_bad_request() {
    let req = request("GET", "/http://example.com/foo", &[("Origin", "https://a.test")]);
    let resp = expect_reply(cors_router(req, &path_config(None)));
    assert_eq!(resp.status, 400);
    assert!(resp.body.starts_with("Silly error: sowwy, you might have fowgotten host headew"));
}

#[test]
fn missing_destination_header_is_bad_request() {
    let req = request(
        "GET",
        "/users",
        &[("Origin", "https://a.test"), ("Host", "proxy.local")],
    );
    let resp = expect_reply(cors_router(req, &header_config(None)));
    assert_eq!(resp.status, 400);
    assert!(resp.body.contains("silly-destination"));
}

#[test]
fn invalid_destination_header_is_bad_request() {
    let req = request(
        "GET",
        "/users",
        &[
            ("Origin", "https://a.test"),
            ("Host", "proxy.local"),
            ("silly-destination", "not a host"),
        ],
    );
    let resp = expect_reply(cors_router(req, &header_config(None)));
    assert_eq!(resp.status, 400);
    assert!(resp.body.starts_with("Silly error: sowwy, youw silly-destination headew seems invalid"));
}

#[test]
fn default_cors_set_is_exact() {
    let h = get_default_cors("https://a.test");
    assert_eq!(h.len(), 3);
    assert_eq!(h.name_at(0), "Access-Control-Allow-Credentials");
    assert_eq!(h.value_at(0), "true");
    assert_eq!(h.name_at(1), "Access-Control-Allow-Origin");
    assert_eq!(h.value_at(1), "https://a.test");
    assert_eq!(h.name_at(2), "Access-Control-Allow-Methods");
    assert_eq!(h.value_at(2), "GET, PUT, POST, DELETE, HEAD, PATCH, OPTIONS");
}

#[test]
fn preflight_builder_matches_options_route() {
    let resp = handle_options("https://b.test");
    assert_eq!(resp.status, 200);
    assert_eq!(resp.body, "");
    assert_eq!(resp.headers.len(), 4);
    assert_eq!(header(&resp.headers, "Access-Control-Allow-Headers").unwrap(), "*");
}

#[test]
fn error_response_without_origin_has_no_cors() {
    let resp = error_response(&HandlerError::new("nope", 400));
    assert_eq!(resp.status, 400);
    assert_eq!(resp.body, "Silly error: nope");
    assert_eq!(header(&resp.headers, "content-type").unwrap(), "text/plain; charset=utf-8");
    assert_eq!(header(&resp.headers, "silly-response").unwrap(), "true");
    assert!(header(&resp.headers, "Access-Control-Allow-Origin").is_none());
}

#[test]
fn internal_error_is_generic() {
    let resp = internal_error_response();
    assert_eq!(resp.status, 500);
    assert!(resp.body.starts_with("Silly error: something bad happened"));
    assert_eq!(header(&resp.headers, "silly-response").unwrap(), "true");
}

#[test]
fn secret_header_is_stripped_before_forwarding() {
    let req = request(
        "GET",
        "/http://example.com/foo",
        &[
            ("Origin", "https://a.test"),
            ("Host", "proxy.local"),
            ("Silly-Secret", "hunter2"),
        ],
    );
    let plan = expect_forward(cors_router(req, &path_config(None)));
    assert!(header(&plan.headers, "Silly-Secret").is_none());
    assert!(header(&plan.headers, "Origin").is_none());
}
