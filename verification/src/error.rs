//! The error type of feed generation.

use vstd::prelude::*;

verus! {

/// Why a feed could not be generated.
#[derive(Debug)]
pub enum GenFeedError {
    /// The static schedule archive could not be read: a corrupt ZIP or a
    /// missing table.
    Zip,
    /// Fetching the static schedule archive failed; carries the URL.
    ZipHttp(String),
    /// Fetching or decoding a live endpoint failed; carries the URL.
    Http(String),
    /// A live route is absent from the stops endpoint's view: the
    /// upstream snapshot is inconsistent. Carries the route id.
    MissingRoute(u64),
}

} // verus!
