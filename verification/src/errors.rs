//! The error taxonomy of the synchronizer.
//!
//! Every stage of the pipeline fails into one of these variants, and every
//! failure is fatal to the run: the caller is expected to report the error
//! and stop, never to retry.

use vstd::prelude::*;

verus! {

/// One fatal error of the synchronization pipeline.
#[derive(Clone, Copy, Debug, PartialEq, Eq, Structural)]
pub enum SyncError {
    /// The configuration could not be read, parsed, or is missing a field.
    ConfigError,
    /// A request could not be sent or its response never arrived.
    NetworkError,
    /// A response carried an HTTP status outside the success range.
    UpstreamError { status: u16 },
    /// A scraped page did not contain the expected pattern.
    ExtractionError,
    /// A provider response was not JSON of the expected shape.
    ParseError,
}

} // verus!
