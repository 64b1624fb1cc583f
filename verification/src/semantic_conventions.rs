//! The attribute keys the interceptor writes on a span, with a spec-level
//! name for each so that contracts can speak of the exact key.

use vstd::prelude::*;

verus! {

/// Key of the full-URL attribute.
pub open spec fn spec_http_url() -> Seq<char> {
    "http.url"@
}

/// Key of the full-URL attribute.
pub fn http_url() -> (r: &'static str)
    ensures
        r@ == spec_http_url(),
{
    "http.url"
}

/// Key of the path-and-query attribute.
pub open spec fn spec_http_target() -> Seq<char> {
    "http.target"@
}

/// Key of the path-and-query attribute.
pub fn http_target() -> (r: &'static str)
    ensures
        r@ == spec_http_target(),
{
    "http.target"
}

/// Key of the request-method attribute.
pub open spec fn spec_http_method() -> Seq<char> {
    "http.method"@
}

/// Key of the request-method attribute.
pub fn http_method() -> (r: &'static str)
    ensures
        r@ == spec_http_method(),
{
    "http.method"
}

/// Key of the URL-scheme attribute.
pub open spec fn spec_http_scheme() -> Seq<char> {
    "http.scheme"@
}

/// Key of the URL-scheme attribute.
pub fn http_scheme() -> (r: &'static str)
    ensures
        r@ == spec_http_scheme(),
{
    "http.scheme"
}

/// Key of the response-status attribute.
pub open spec fn spec_http_status_code() -> Seq<char> {
    "http.status_code"@
}

/// Key of the response-status attribute.
pub fn http_status_code() -> (r: &'static str)
    ensures
        r@ == spec_http_status_code(),
{
    "http.status_code"
}

/// Key of the captured request-body attribute.
pub open spec fn spec_http_request_body() -> Seq<char> {
    "http.request.body"@
}

/// Key of the captured request-body attribute.
pub fn http_request_body() -> (r: &'static str)
    ensures
        r@ == spec_http_request_body(),
{
    "http.request.body"
}

/// Key of the captured response-body attribute.
pub open spec fn spec_http_response_body() -> Seq<char> {
    "http.response.body"@
}

/// Key of the captured response-body attribute.
pub fn http_response_body() -> (r: &'static str)
    ensures
        r@ == spec_http_response_body(),
{
    "http.response.body"
}

/// Prefix of every request-header attribute key.
pub open spec fn spec_http_request_header_prefix() -> Seq<char> {
    "http.request.header."@
}

/// Prefix of every request-header attribute key.
pub fn http_request_header_prefix() -> (r: &'static str)
    ensures
        r@ == spec_http_request_header_prefix(),
{
    "http.request.header."
}

/// Prefix of every response-header attribute key.
pub open spec fn spec_http_response_header_prefix() -> Seq<char> {
    "http.response.header."@
}

/// Prefix of every response-header attribute key.
pub fn http_response_header_prefix() -> (r: &'static str)
    ensures
        r@ == spec_http_response_header_prefix(),
{
    "http.response.header."
}

} // verus!
