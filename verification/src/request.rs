//! What a consumer passes to the cache with a request, and the states that the
//! cache answers with when it has no image to hand out.

use vstd::prelude::*;

verus! {

/// The unique id for an image that has previously been requested.
///
/// It is the key of the load while the load is pending, and it stays with the
/// completed load afterwards.
#[derive(Copy, Clone, PartialEq, Eq, Structural, Hash, Debug)]
pub struct PendingImageId(pub u64);

/// Whether a consumer is in a position to request images or not.
///
/// A consumer that only observes (a layout pass running beside script, say)
/// passes `No`, and the cache then never reserves a load on its behalf.
#[derive(Copy, Clone, PartialEq, Eq, Structural, Debug)]
pub enum CanRequestImages {
    No,
    Yes,
}

/// Whether a placeholder image is an acceptable answer for a failed load.
#[derive(Copy, Clone, PartialEq, Eq, Structural, Hash, Debug)]
pub enum UsePlaceholder {
    No,
    Yes,
}

/// The state of an image for which the cache has no image or metadata to hand out.
#[derive(Copy, Clone, PartialEq, Eq, Structural, Debug)]
pub enum ImageState {
    /// A load with this id is in flight.
    Pending(PendingImageId),
    /// Nothing can be had for this URL.
    LoadError,
    /// A load with this id was reserved just now; the caller starts the fetch.
    NotRequested(PendingImageId),
}

} // verus!
