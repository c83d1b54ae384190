//! The byte buffer of a load.

use vstd::prelude::*;
use std::sync::Arc;
use crate::shared::share;

verus! {

/// The body of a load: growing while the fetch runs, frozen and shared once the
/// fetch has ended.
///
/// A frozen buffer is never written again; the operations that write take only
/// a buffer that is still in progress.
#[derive(Debug)]
pub enum ImageBytes {
    InProgress(Vec<u8>),
    Complete(Arc<Vec<u8>>),
}

impl View for ImageBytes {
    type V = Seq<u8>;

    /// The bytes received so far.
    open spec fn view(&self) -> Seq<u8> {
        match *self {
            ImageBytes::InProgress(bytes) => bytes@,
            ImageBytes::Complete(bytes) => bytes@,
        }
    }
}

impl ImageBytes {
    /// Whether the buffer is frozen.
    pub open spec fn is_complete(&self) -> bool {
        self is Complete
    }

    /// An empty buffer, in progress.
    pub fn new() -> (bytes: ImageBytes)
        ensures
            !bytes.is_complete(),
            bytes@ == Seq::<u8>::empty(),
    {
        ImageBytes::InProgress(Vec::new())
    }

    /// Appends `data` to a buffer that is in progress.
    pub fn extend_from_slice(&mut self, data: &[u8])
        requires
            !old(self).is_complete(),
        ensures
            !final(self).is_complete(),
            final(self)@ == old(self)@ + data@,
    {
        match self {
            ImageBytes::InProgress(bytes) => {
                let ghost before = bytes@;
                bytes.extend_from_slice(data);
            },
            ImageBytes::Complete(_) => {},
        }
    }

    /// Freezes a buffer that is in progress and returns the frozen bytes, which
    /// the buffer goes on to share.
    pub fn mark_complete(&mut self) -> (frozen: Arc<Vec<u8>>)
        requires
            !old(self).is_complete(),
        ensures
            final(self).is_complete(),
            final(self)@ == old(self)@,
            frozen@ == old(self)@,
            *final(self) == ImageBytes::Complete(frozen),
    {
        let mut taken: Vec<u8> = Vec::new();
        match self {
            ImageBytes::InProgress(bytes) => {
                std::mem::swap(bytes, &mut taken);
            },
            ImageBytes::Complete(_) => {},
        }
        let frozen = Arc::new(taken);
        *self = ImageBytes::Complete(share(&frozen));
        frozen
    }

    /// The bytes received so far.
    pub fn as_slice(&self) -> (slice: &[u8])
        ensures
            slice@ == self@,
    {
        match self {
            ImageBytes::InProgress(bytes) => bytes.as_slice(),
            ImageBytes::Complete(bytes) => bytes.as_slice(),
        }
    }
}

} // verus!
