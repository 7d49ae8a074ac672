//! The WAN IP resolver.
//!
//! The router's externally visible IPv4 address is obtained in two steps.
//! The caller fetches the router's home page and hands its HTTP status and
//! body to [`wan_step_home`], which yields the session token; it then
//! fetches the URL built by [`status_page_url`] and hands that response to
//! [`wan_step_status`], which yields the WAN IP, verbatim and unvalidated.
//! A status outside the success range fails the step with an
//! `UpstreamError`; a page without the expected pattern fails it with an
//! `ExtractionError`.

use vstd::prelude::*;
use vstd::string::*;

use crate::errors::SyncError;
use crate::scrape::{extract_http_id, extract_wan_ip, has_token, has_wan_ip, is_token_of,
    is_wan_ip_of};

verus! {

/// The HTTP success range.
pub open spec fn status_success(status: u16) -> bool {
    200 <= status < 300
}

/// An HTTP status counts as success exactly in the 2xx range.
pub fn is_success_status(status: u16) -> (r: bool)
    ensures
        r == status_success(status),
{
    200 <= status && status < 300
}

/// Step one: from the home page response, the session token.
///
/// Fails with `UpstreamError` on a non-success status, with
/// `ExtractionError` when the page carries no `http_id=` token, and
/// otherwise returns the token of the leftmost occurrence.
pub fn wan_step_home(status: u16, body: &str) -> (r: Result<String, SyncError>)
    ensures
        !status_success(status) ==> (r is Err && r->Err_0 == (SyncError::UpstreamError { status })),
        status_success(status) && !has_token(body@) ==> (r is Err && r->Err_0 == SyncError::ExtractionError),
        status_success(status) && has_token(body@) ==> (r is Ok && is_token_of(body@, r->Ok_0@)),
{
    if !is_success_status(status) {
        return Err(SyncError::UpstreamError { status });
    }
    match extract_http_id(body) {
        Some(token) => Ok(token),
        None => Err(SyncError::ExtractionError),
    }
}

/// The URL of the router's status page, carrying the session token.
pub fn status_page_url(base: &str, token: &str) -> (r: String)
    ensures
        r@ == base@ + "/status-data.jsx?_http_id="@ + token@,
{
    let mut url = base.to_owned();
    url.append("/status-data.jsx?_http_id=");
    url.append(token);
    url
}

/// Step two: from the status page response, the WAN IP.
///
/// Fails with `UpstreamError` on a non-success status, with
/// `ExtractionError` when the page carries no quoted `wan_ipaddr` value,
/// and otherwise returns the value of the leftmost occurrence, unchanged.
pub fn wan_step_status(status: u16, body: &str) -> (r: Result<String, SyncError>)
    ensures
        !status_success(status) ==> (r is Err && r->Err_0 == (SyncError::UpstreamError { status })),
        status_success(status) && !has_wan_ip(body@) ==> (r is Err && r->Err_0 == SyncError::ExtractionError),
        status_success(status) && has_wan_ip(body@) ==> (r is Ok && is_wan_ip_of(body@, r->Ok_0@)),
{
    if !is_success_status(status) {
        return Err(SyncError::UpstreamError { status });
    }
    match extract_wan_ip(body) {
        Some(ip) => Ok(ip),
        None => Err(SyncError::ExtractionError),
    }
}

} // verus!
