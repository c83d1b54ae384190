//! The outcome of a load, and what a consumer gets of it.

use vstd::prelude::*;
use std::sync::Arc;
use crate::shared::share;
use crate::decode::{Image, ImageMetadata, ImageView};
use crate::request::{ImageState, PendingImageId, UsePlaceholder};

verus! {

/// Indicating either entire image or just metadata availability.
#[derive(Clone, PartialEq, Eq, Debug)]
pub enum ImageOrMetadataAvailable {
    ImageAvailable(Arc<Image>),
    MetadataAvailable(ImageMetadata),
}

/// What an `ImageOrMetadataAvailable` holds, as a mathematical value.
pub enum ImageOrMetadataView {
    ImageAvailable(ImageView),
    MetadataAvailable(ImageMetadata),
}

impl View for ImageOrMetadataAvailable {
    type V = ImageOrMetadataView;

    open spec fn view(&self) -> ImageOrMetadataView {
        match *self {
            ImageOrMetadataAvailable::ImageAvailable(image) => ImageOrMetadataView::ImageAvailable(
                image@,
            ),
            ImageOrMetadataAvailable::MetadataAvailable(metadata) => {
                ImageOrMetadataView::MetadataAvailable(metadata)
            },
        }
    }
}

/// The answer to a lookup, as a mathematical value: what is available, or the
/// state of the image for which nothing is.
pub type Lookup = Result<ImageOrMetadataView, ImageState>;

/// The view of the answer to a lookup.
pub open spec fn lookup_view(answer: Result<ImageOrMetadataAvailable, ImageState>) -> Lookup {
    match answer {
        Ok(available) => Ok(available@),
        Err(state) => Err(state),
    }
}

/// The view of an answer that may be absent.
pub open spec fn lookup_option_view(
    answer: Option<Result<ImageOrMetadataAvailable, ImageState>>,
) -> Option<Lookup> {
    match answer {
        Some(answer) => Some(lookup_view(answer)),
        None => None,
    }
}

/// The returned image.
#[derive(Clone, PartialEq, Eq, Debug)]
pub enum ImageResponse {
    /// The requested image was loaded.
    Loaded(Arc<Image>),
    /// The request image metadata was loaded.
    MetadataLoaded(ImageMetadata),
    /// The requested image failed to load, so a placeholder was loaded instead.
    PlaceholderLoaded(Arc<Image>),
    /// Neither the requested image nor the placeholder could be loaded.
    NoImage,
}

/// What an `ImageResponse` holds, as a mathematical value.
pub enum ImageResponseView {
    Loaded(ImageView),
    MetadataLoaded(ImageMetadata),
    PlaceholderLoaded(ImageView),
    NoImage,
}

impl View for ImageResponse {
    type V = ImageResponseView;

    open spec fn view(&self) -> ImageResponseView {
        match *self {
            ImageResponse::Loaded(image) => ImageResponseView::Loaded(image@),
            ImageResponse::MetadataLoaded(metadata) => ImageResponseView::MetadataLoaded(metadata),
            ImageResponse::PlaceholderLoaded(image) => ImageResponseView::PlaceholderLoaded(image@),
            ImageResponse::NoImage => ImageResponseView::NoImage,
        }
    }
}

impl ImageResponseView {
    /// What a consumer gets of a load that ended with this response. A loaded
    /// image is handed out; so is a placeholder, to a consumer that accepts
    /// one. Everything else is a load error: a placeholder that the consumer
    /// does not accept, no image at all, and metadata alone, with which no load
    /// ends.
    pub open spec fn available(self, placeholder: UsePlaceholder) -> Lookup {
        match self {
            ImageResponseView::Loaded(image) => Ok(ImageOrMetadataView::ImageAvailable(image)),
            ImageResponseView::PlaceholderLoaded(image) => {
                if placeholder == UsePlaceholder::Yes {
                    Ok(ImageOrMetadataView::ImageAvailable(image))
                } else {
                    Err(ImageState::LoadError)
                }
            },
            ImageResponseView::MetadataLoaded(_) => Err(ImageState::LoadError),
            ImageResponseView::NoImage => Err(ImageState::LoadError),
        }
    }

    /// Whether a load can end with this response.
    pub open spec fn is_terminal(self) -> bool {
        !(self is MetadataLoaded)
    }
}

impl ImageResponse {
    /// What a consumer gets of a load that ended with this response; an image
    /// is handed out as one more pointer to the shared pixels.
    pub fn available(&self, placeholder: UsePlaceholder) -> (answer: Result<
        ImageOrMetadataAvailable,
        ImageState,
    >)
        ensures
            lookup_view(answer) == self@.available(placeholder),
    {
        match self {
            ImageResponse::Loaded(image) => Ok(ImageOrMetadataAvailable::ImageAvailable(share(image))),
            ImageResponse::PlaceholderLoaded(image) => {
                match placeholder {
                    UsePlaceholder::Yes => Ok(
                        ImageOrMetadataAvailable::ImageAvailable(share(image)),
                    ),
                    UsePlaceholder::No => Err(ImageState::LoadError),
                }
            },
            ImageResponse::MetadataLoaded(_) => Err(ImageState::LoadError),
            ImageResponse::NoImage => Err(ImageState::LoadError),
        }
    }
}

/// Represents an image that has completed loading. Images that fail to load
/// (due to network or decode failure) are still stored, so that they aren't
/// fetched again.
#[derive(Clone, PartialEq, Eq, Debug)]
pub struct CompletedLoad {
    pub image_response: ImageResponse,
    pub id: PendingImageId,
}

/// What a `CompletedLoad` holds, as a mathematical value.
pub struct CompletedLoadView {
    pub image_response: ImageResponseView,
    pub id: PendingImageId,
}

impl View for CompletedLoad {
    type V = CompletedLoadView;

    open spec fn view(&self) -> CompletedLoadView {
        CompletedLoadView { image_response: self.image_response@, id: self.id }
    }
}

impl CompletedLoad {
    pub fn new(image_response: ImageResponse, id: PendingImageId) -> (load: CompletedLoad)
        ensures
            load.image_response == image_response,
            load.id == id,
    {
        CompletedLoad { image_response, id }
    }
}

} // verus!
