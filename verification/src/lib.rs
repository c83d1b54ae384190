//! A request cache for images, keyed by URL.
//!
//! Consumers ask the cache for an image by URL. The cache answers from its table
//! of completed loads, or from the load that is already in flight for that URL,
//! or reserves a new load when the caller may start a fetch. The fetch side
//! reports body chunks, metadata and the terminal result by load key; the
//! terminal result moves the load from the pending index to the completed table,
//! where the body has been decoded or the failure is remembered. A cache with a
//! limit keeps that many completed loads, and lets the oldest go first.
//!
//! Every operation takes the cache by exclusive reference, so each one is a
//! single atomic step of the state machine that the contracts describe: the
//! state is modelled by `cache::ImageCacheView`, each operation by a function
//! on that model, and `laws` holds what is proved of the model in general.

pub mod request;
pub mod keygen;
mod shared;
pub mod bytes;
pub mod decode;
pub mod fetch;
pub mod response;
pub mod pending;
pub mod cache;
pub mod laws;

pub use request::{CanRequestImages, ImageState, PendingImageId, UsePlaceholder};
pub use keygen::LoadKeyGenerator;
pub use bytes::ImageBytes;
pub use decode::{
    decode_bytes_sync, detect_image_format, load_from_memory, DecoderMsg, Image, ImageFormat,
    ImageMetadata,
};
pub use fetch::{FetchResponseMsg, NetworkError};
pub use response::{CompletedLoad, ImageOrMetadataAvailable, ImageResponse};
pub use pending::{AllPendingLoads, CacheResult, LoadKey, PendingLoad};
pub use cache::ImageCache;
