//! Dynamic-DNS synchronizer library.
//!
//! Keeps a set of DNS A records in step with the WAN IPv4 address of a home
//! router. The pipeline is linear: load a configuration, scrape the router's
//! web interface for the current WAN IP (two authenticated fetches with
//! pattern extraction), list the zone's A records from the DNS provider, and
//! patch every record whose content differs from the WAN IP. Every failure is
//! fatal to the run; there are no retries and no state is kept between runs.
//!
//! The library holds the decisions and the parsing; the HTTP calls themselves
//! are made by the surrounding application, which feeds statuses and response
//! bodies into the functions here.

pub mod config;
pub mod errors;
pub mod provider;
pub mod records;
pub mod scrape;
pub mod sync;
pub mod wan;
