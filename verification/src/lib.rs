//! A verified core for a permissive CORS reverse proxy.
//!
//! The library models one request's trip through the proxy: validate the
//! `Origin` header, check an optional shared secret, resolve the destination
//! (from a header or from the request path), rewrite the request for
//! forwarding, and assemble the response — CORS headers on success, a uniform
//! `Silly error: ...` body on failure. The host layer does the listening and
//! the actual forwarding; everything that decides lives here.
pub mod cors;
pub mod dest;
pub mod handler_error;
pub mod handlers;
pub mod headers;
pub mod laws;
pub mod router;
pub mod types;
