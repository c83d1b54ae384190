//! What the fetch side tells the cache.

use vstd::prelude::*;
use crate::decode::ImageMetadata;

verus! {

/// Why a fetch ended without a body.
#[derive(Clone, PartialEq, Eq, Debug)]
pub enum NetworkError {
    /// The fetch failed; the text says how.
    Internal(String),
    /// The fetch was cancelled before it ended.
    LoadCancelled,
}

/// What the fetch side reports about the load that it was started for.
#[derive(PartialEq, Eq, Debug)]
pub enum FetchResponseMsg {
    /// The next bytes of the body.
    ProcessResponseChunk(Vec<u8>),
    /// The dimensions of the image, read off the part of the body that has arrived.
    ProcessResponseMetadata(ImageMetadata),
    /// The end of the fetch: the body is whole, or the fetch failed.
    ProcessResponseEOF(Result<(), NetworkError>),
}

} // verus!
