//! A typed client core for the video lookup endpoint of the YouTube Data API.
//!
//! The crate builds the query of a lookup, decides each step of the deferred
//! request and decodes the JSON answer into typed values. It performs no
//! network I/O itself: a driver performs the one HTTP GET that the request
//! asks for and hands the outcome back.

use vstd::prelude::*;

pub mod videos;

verus! {

/// The credential sent as the `key` parameter of every query.
#[derive(Debug, Clone)]
pub struct ApiKey(pub String);

impl View for ApiKey {
    type V = Seq<char>;

    open spec fn view(&self) -> Seq<char> {
        self.0@
    }
}

impl ApiKey {
    /// Wraps the text of a key; the text is not inspected.
    pub fn new(key: &str) -> (r: ApiKey)
        ensures
            r@ == key@,
    {
        ApiKey(key.to_owned())
    }
}

} // verus!
