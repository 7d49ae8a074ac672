//! Configuration loading.
//!
//! A run is configured by a TOML document with two tables: `router`
//! (`username`, `password`, `url`) and `provider` (`api_key`, `zone_id`).
//! All five fields must be present and non-empty; anything else is a
//! [`SyncError::ConfigError`]. The TOML text itself is handed in by the
//! caller, which reads the file; what the parse makes of the text is
//! named by [`toml_string_field`], and the validation on top of it is
//! verified.

use vstd::prelude::*;

use crate::errors::SyncError;

verus! {

/// Credentials and base URL of the router whose WAN IP is scraped.
pub struct RouterConfig {
    pub username: String,
    pub password: String,
    pub url: String,
}

/// Credentials and zone of the DNS provider whose A records are synchronized.
pub struct ProviderConfig {
    pub api_key: String,
    pub zone_id: String,
}

/// The whole configuration of one run.
pub struct Config {
    pub router: RouterConfig,
    pub provider: ProviderConfig,
}

impl Config {
    /// Every field is present by construction; well-formed means non-empty.
    pub open spec fn wf(self) -> bool {
        &&& self.router.username@.len() > 0
        &&& self.router.password@.len() > 0
        &&& self.router.url@.len() > 0
        &&& self.provider.api_key@.len() > 0
        &&& self.provider.zone_id@.len() > 0
    }
}

/// A field counts as given when it is present and non-empty.
pub open spec fn field_given(f: Option<String>) -> bool {
    f is Some && f->0@.len() > 0
}

/// Builds the configuration from the five looked-up fields.
///
/// Succeeds exactly when every field is present and non-empty; any missing
/// or empty field is a `ConfigError`.
pub fn config_from_fields(
    username: Option<String>,
    password: Option<String>,
    url: Option<String>,
    api_key: Option<String>,
    zone_id: Option<String>,
) -> (r: Result<Config, SyncError>)
    ensures
        r is Ok <==> field_given(username) && field_given(password) && field_given(url)
            && field_given(api_key) && field_given(zone_id),
        r is Ok ==> {
            &&& r->Ok_0.router.username@ == username->0@
            &&& r->Ok_0.router.password@ == password->0@
            &&& r->Ok_0.router.url@ == url->0@
            &&& r->Ok_0.provider.api_key@ == api_key->0@
            &&& r->Ok_0.provider.zone_id@ == zone_id->0@
            &&& r->Ok_0.wf()
        },
        r is Err ==> r->Err_0 == SyncError::ConfigError,
{
    match (username, password, url, api_key, zone_id) {
        (Some(username), Some(password), Some(url), Some(api_key), Some(zone_id)) => {
            if username.as_str().is_empty() || password.as_str().is_empty()
                || url.as_str().is_empty() || api_key.as_str().is_empty()
                || zone_id.as_str().is_empty() {
                Err(SyncError::ConfigError)
            } else {
                Ok(Config {
                    router: RouterConfig { username, password, url },
                    provider: ProviderConfig { api_key, zone_id },
                })
            }
        },
        _ => Err(SyncError::ConfigError),
    }
}

/// What the TOML parse makes of the document: the string under
/// `section.key`, a function of the text alone; `None` when the document
/// is malformed, the section is missing or not a table, the key is
/// missing, or the value is not a string.
pub uninterp spec fn toml_string_field(
    doc: Seq<char>,
    section: Seq<char>,
    key: Seq<char>,
) -> Option<Seq<char>>;

/// The document carries the field, as a non-empty string.
pub open spec fn doc_field_given(doc: Seq<char>, section: Seq<char>, key: Seq<char>) -> bool {
    &&& toml_string_field(doc, section, key) is Some
    &&& toml_string_field(doc, section, key)->0.len() > 0
}

/// Parses a configuration document.
///
/// Succeeds exactly when the document carries all five fields as
/// non-empty strings, and then returns them verbatim; a document that
/// does not parse, lacks a field, has an empty field, or types a field
/// as something other than a string fails with a `ConfigError`.
pub fn parse_config(text: &str) -> (r: Result<Config, SyncError>)
    ensures
        r is Ok <==> doc_field_given(text@, "router"@, "username"@) && doc_field_given(
            text@,
            "router"@,
            "password"@,
        ) && doc_field_given(text@, "router"@, "url"@) && doc_field_given(
            text@,
            "provider"@,
            "api_key"@,
        ) && doc_field_given(text@, "provider"@, "zone_id"@),
        r is Ok ==> {
            &&& r->Ok_0.router.username@ == toml_string_field(text@, "router"@, "username"@)->0
            &&& r->Ok_0.router.password@ == toml_string_field(text@, "router"@, "password"@)->0
            &&& r->Ok_0.router.url@ == toml_string_field(text@, "router"@, "url"@)->0
            &&& r->Ok_0.provider.api_key@ == toml_string_field(text@, "provider"@, "api_key"@)->0
            &&& r->Ok_0.provider.zone_id@ == toml_string_field(text@, "provider"@, "zone_id"@)->0
            &&& r->Ok_0.wf()
        },
        r is Err ==> r->Err_0 == SyncError::ConfigError,
{
    let username = toml_lookup(text, "router", "username");
    let password = toml_lookup(text, "router", "password");
    let url = toml_lookup(text, "router", "url");
    let api_key = toml_lookup(text, "provider", "api_key");
    let zone_id = toml_lookup(text, "provider", "zone_id");
    config_from_fields(username, password, url, api_key, zone_id)
}

/// Relies on toml::from_str, toml::map::Map::get, toml::Value::as_table
/// and toml::Value::as_str: parsing is deterministic, so the string under
/// `section.key` is the function of the document text that
/// [`toml_string_field`] names; `None` exactly when the document is
/// malformed, the section is missing or not a table, or the field is
/// missing or not a string.
#[verifier::external_body]
fn toml_lookup(text: &str, section: &str, key: &str) -> (r: Option<String>)
    ensures
        r is Some <==> toml_string_field(text@, section@, key@) is Some,
        r is Some ==> r->0@ == toml_string_field(text@, section@, key@)->0,
{
    let table: toml::Table = toml::from_str(text).ok()?;
    let value = table.get(section)?.as_table()?.get(key)?.as_str()?;
    Some(value.to_string())
}

} // verus!
