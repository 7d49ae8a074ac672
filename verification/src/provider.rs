//! The DNS provider's REST interface.
//!
//! Builds the URLs, the Authorization header and the PATCH body that the
//! provider expects, and turns a listing response into the zone's A
//! records. The caller performs the HTTP requests and hands statuses and
//! bodies in; the JSON itself is read through the `serde_json` crate,
//! whose deterministic outcome on the body text is named by
//! [`listing_fields_of`], and everything extracted from it is validated
//! by [`crate::records::collect_a_records`].

use vstd::prelude::*;
use vstd::string::*;

use crate::errors::SyncError;
use crate::records::{
    a_records_view, collect_a_records, fields_views, record_views, spec_a_records, ARecord,
    FieldsView, RecordFields,
};
use crate::wan::{is_success_status, status_success};

verus! {

/// The listing endpoint of the zone's records.
pub open spec fn spec_records_url(zone_id: Seq<char>) -> Seq<char> {
    "https://api.cloudflare.com/client/v4/zones/"@ + zone_id + "/dns_records"@
}

/// The URL listing the zone's DNS records.
pub fn dns_records_url(zone_id: &str) -> (r: String)
    ensures
        r@ == spec_records_url(zone_id@),
{
    let mut url = "https://api.cloudflare.com/client/v4/zones/".to_owned();
    url.append(zone_id);
    url.append("/dns_records");
    url
}

/// The PATCH endpoint of one record: the listing URL with the record's id
/// appended to it directly.
pub open spec fn spec_record_patch_url(zone_id: Seq<char>, record_id: Seq<char>) -> Seq<char> {
    spec_records_url(zone_id) + record_id
}

/// The URL updating one record of the zone.
pub fn record_patch_url(zone_id: &str, record_id: &str) -> (r: String)
    ensures
        r@ == spec_record_patch_url(zone_id@, record_id@),
{
    let mut url = dns_records_url(zone_id);
    url.append(record_id);
    url
}

/// The value of the Authorization header carrying the API key.
pub fn create_bearer(api_key: &str) -> (r: String)
    ensures
        r@ == "Bearer "@ + api_key@,
{
    let mut bearer = "Bearer ".to_owned();
    bearer.append(api_key);
    bearer
}

/// What `serde_json` makes of a string: its quoted, escaped JSON form,
/// a function of the characters alone.
pub uninterp spec fn json_quoted(s: Seq<char>) -> Seq<char>;

/// The PATCH body asking the provider to set a record's content to `ip`.
pub open spec fn spec_patch_body(ip: Seq<char>) -> Seq<char> {
    "{\"content\":"@ + json_quoted(ip) + "}"@
}

/// Builds the PATCH body `{"content": <ip>}`, with the IP serialised as a
/// JSON string.
pub fn patch_body(ip: &str) -> (r: String)
    ensures
        r@ == spec_patch_body(ip@),
{
    let quoted = json_string(ip);
    let mut body = "{\"content\":".to_owned();
    body.append(quoted.as_str());
    body.append("}");
    body
}

/// What the JSON parse makes of a listing body: `None` when the body is
/// not JSON or its `result` field is absent or not an array; otherwise,
/// for each array element in order, its `type`, `id`, `name` and
/// `content` fields, each present exactly when the element carries it as
/// a string. A function of the body text alone.
pub uninterp spec fn listing_fields_of(body: Seq<char>) -> Option<Seq<FieldsView>>;

/// Turns a listing response into the zone's A records.
///
/// A non-success status fails with that `UpstreamError` before the body
/// is looked at. On a success status the body is read as
/// [`listing_fields_of`] names it, and succeeds exactly when that read
/// succeeds and every A-type element of it is complete; the records
/// returned are its A-type elements in their original order, and
/// anything else is a `ParseError`.
pub fn parse_records_body(status: u16, body: &str) -> (r: Result<Vec<ARecord>, SyncError>)
    ensures
        !status_success(status) ==> (r is Err && r->Err_0 == (SyncError::UpstreamError { status })),
        status_success(status) ==> (r is Ok <==> (listing_fields_of(body@) is Some
            && spec_a_records(listing_fields_of(body@)->0) is Ok)),
        status_success(status) && r is Err ==> r->Err_0 == SyncError::ParseError,
        r is Ok ==> record_views(r->Ok_0@) == a_records_view(listing_fields_of(body@)->0),
{
    if !is_success_status(status) {
        return Err(SyncError::UpstreamError { status });
    }
    let elems = match read_listing(body) {
        Some(e) => e,
        None => {
            return Err(SyncError::ParseError);
        },
    };
    collect_a_records(&elems)
}

/// Relies on serde_json::from_str, Value::get, Value::as_array and
/// Value::as_str: parsing is deterministic, so what this reads from the
/// body — the `result` array's elements, each reduced to its four string
/// fields — is the function of the text that [`listing_fields_of`]
/// names; `None` exactly when the body is not JSON or `result` is absent
/// or not an array.
#[verifier::external_body]
fn read_listing(body: &str) -> (r: Option<Vec<RecordFields>>)
    ensures
        r is Some <==> listing_fields_of(body@) is Some,
        r is Some ==> fields_views(r->0@) == listing_fields_of(body@)->0,
{
    let parsed: serde_json::Value = serde_json::from_str(body).ok()?;
    let arr = parsed.get("result")?.as_array()?;
    let field = |v: &serde_json::Value, k: &str| {
        v.get(k).and_then(|x| x.as_str()).map(|s| s.to_string())
    };
    let mut out = Vec::new();
    for v in arr {
        out.push(RecordFields {
            rtype: field(v, "type"),
            id: field(v, "id"),
            name: field(v, "name"),
            content: field(v, "content"),
        });
    }
    Some(out)
}

/// Relies on serde_json::to_string: a string serialises to its quoted,
/// escaped JSON form, which depends on the characters alone; serialising
/// a string never fails.
#[verifier::external_body]
fn json_string(s: &str) -> (r: String)
    ensures
        r@ == json_quoted(s@),
{
    match serde_json::to_string(s) {
        Ok(r) => r,
        Err(_) => String::new(),
    }
}

} // verus!
