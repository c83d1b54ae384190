//! Images, and the decoder that makes them of the bytes of a file.

use vstd::prelude::*;
use crate::request::PendingImageId;

verus! {

/// The dimensions of an image, known as soon as its header has arrived.
#[derive(Copy, Clone, PartialEq, Eq, Structural, Debug)]
pub struct ImageMetadata {
    pub width: u32,
    pub height: u32,
}

/// A decoded image: `width` by `height` pixels of four bytes each (red, green,
/// blue, alpha), row by row.
#[derive(Clone, PartialEq, Eq, Debug)]
pub struct Image {
    pub width: u32,
    pub height: u32,
    pub bytes: Vec<u8>,
}

/// What an `Image` holds, as a mathematical value.
pub struct ImageView {
    pub width: u32,
    pub height: u32,
    pub bytes: Seq<u8>,
}

impl View for Image {
    type V = ImageView;

    open spec fn view(&self) -> ImageView {
        ImageView { width: self.width, height: self.height, bytes: self.bytes@ }
    }
}

/// The view of an image that may be absent.
pub open spec fn image_view(image: Option<Image>) -> Option<ImageView> {
    match image {
        Some(image) => Some(image@),
        None => None,
    }
}

/// The file formats that the cache decodes.
#[derive(Copy, Clone, PartialEq, Eq, Structural, Debug)]
pub enum ImageFormat {
    Png,
    Bmp,
}

/// The eight bytes that every PNG file starts with.
pub open spec fn png_signature() -> Seq<u8> {
    seq![0x89u8, 0x50u8, 0x4Eu8, 0x47u8, 0x0Du8, 0x0Au8, 0x1Au8, 0x0Au8]
}

/// The two bytes, "BM", that every BMP file starts with.
pub open spec fn bmp_signature() -> Seq<u8> {
    seq![0x42u8, 0x4Du8]
}

/// The format that the first bytes of a file announce.
pub open spec fn detected_format(bytes: Seq<u8>) -> Option<ImageFormat> {
    if png_signature().is_prefix_of(bytes) {
        Some(ImageFormat::Png)
    } else if bmp_signature().is_prefix_of(bytes) {
        Some(ImageFormat::Bmp)
    } else {
        None
    }
}

/// Tells the format of a file by its first bytes.
pub fn detect_image_format(buffer: &[u8]) -> (format: Option<ImageFormat>)
    ensures
        format == detected_format(buffer@),
{
    if buffer.len() >= 8 && buffer[0] == 0x89 && buffer[1] == 0x50 && buffer[2] == 0x4E
        && buffer[3] == 0x47 && buffer[4] == 0x0D && buffer[5] == 0x0A && buffer[6] == 0x1A
        && buffer[7] == 0x0A {
        Some(ImageFormat::Png)
    } else if buffer.len() >= 2 && buffer[0] == 0x42 && buffer[1] == 0x4D {
        Some(ImageFormat::Bmp)
    } else {
        None
    }
}

/// The pixels that the decoder makes of a file read as `format`, or `None`
/// where it rejects the file.
pub uninterp spec fn decoded_pixels(bytes: Seq<u8>, format: ImageFormat) -> Option<ImageView>;

/// Decodes a file in a given format; `load_from_memory_with_format` of the
/// `image` crate, followed by the conversion of its result to four bytes per
/// pixel (`into_rgba8`). The contract claims that the outcome is a function of
/// the bytes and the format alone: with the format given, the call asks none of
/// the format hooks that a process may register, and the decoders of the two
/// formats read nothing but the file.
#[verifier::external_body]
fn decode_with_format(buffer: &[u8], format: ImageFormat) -> (image: Option<Image>)
    ensures
        image_view(image) == decoded_pixels(buffer@, format),
{
    let outside = match format {
        ImageFormat::Png => ::image::ImageFormat::Png,
        ImageFormat::Bmp => ::image::ImageFormat::Bmp,
    };
    match ::image::load_from_memory_with_format(buffer, outside) {
        Ok(decoded) => {
            let pixels = decoded.into_rgba8();
            Some(Image { width: pixels.width(), height: pixels.height(), bytes: pixels.into_raw() })
        },
        Err(_) => None,
    }
}

/// The image that a file decodes to: the pixels that the decoder makes of it in
/// the format that its first bytes announce. `None` where no known format is
/// announced or the decoder rejects the file.
pub open spec fn decoded_image(bytes: Seq<u8>) -> Option<ImageView> {
    match detected_format(bytes) {
        Some(format) => decoded_pixels(bytes, format),
        None => None,
    }
}

/// Decodes a file held in memory.
pub fn load_from_memory(buffer: &[u8]) -> (image: Option<Image>)
    ensures
        image_view(image) == decoded_image(buffer@),
{
    match detect_image_format(buffer) {
        Some(format) => decode_with_format(buffer, format),
        None => None,
    }
}

/// The outcome of decoding the body of the load `key`.
#[derive(Debug)]
pub struct DecoderMsg {
    pub key: PendingImageId,
    pub image: Option<Image>,
}

/// Decodes the body of the load `key` on the calling thread.
pub fn decode_bytes_sync(key: PendingImageId, bytes: &[u8]) -> (msg: DecoderMsg)
    ensures
        msg.key == key,
        image_view(msg.image) == decoded_image(bytes@),
{
    DecoderMsg { key, image: load_from_memory(bytes) }
}

} // verus!
