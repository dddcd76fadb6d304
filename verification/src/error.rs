//! The error taxonomy of the pipeline.

use vstd::prelude::*;

verus! {

/// What can go wrong around a fetch or at configuration time.
///
/// `ConfigurationError` (an out-of-range page size, an invalid title pattern)
/// is fatal at startup: it is returned before any request is issued.
/// `NetworkError` and `ParseError` classify a failed fetch; the poller
/// recovers from them locally by treating the fetch as an empty page and
/// leaving the cursor unchanged.
#[derive(Clone, Copy, Debug, PartialEq, Eq, Structural)]
pub enum WatcherError {
    ConfigurationError,
    NetworkError,
    ParseError,
}

} // verus!
