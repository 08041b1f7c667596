//! The image codec of the `image` crate, as the resizing logic sees it: decoded and
//! resized images carry the bytes they were decoded from, so that what the codec
//! gives back can be named as a function of those bytes.

use vstd::prelude::*;
use image::{DynamicImage, ImageError, ImageFormat};

verus! {

#[verifier::external_type_specification]
#[verifier::external_body]
pub struct ExDynamicImage(DynamicImage);

#[verifier::external_type_specification]
#[verifier::external_body]
pub struct ExImageError(ImageError);

#[verifier::external_type_specification]
#[verifier::external_body]
pub struct ExImageFormat(ImageFormat);

/// Whether `image::guess_format` recognises the format of these bytes by the magic
/// bytes they begin with.
pub uninterp spec fn format_known(bytes: Seq<u8>) -> bool;

/// Whether `image::load_from_memory_with_format` decodes these bytes in the format
/// `image::guess_format` recognises in them (under the crate's default limits).
pub uninterp spec fn decodable(bytes: Seq<u8>) -> bool;

/// The width (`DynamicImage::width`) of the image decoded from these bytes as
/// `decodable` says.
pub uninterp spec fn decoded_width(bytes: Seq<u8>) -> u32;

/// The height (`DynamicImage::height`) of the image decoded from these bytes as
/// `decodable` says.
pub uninterp spec fn decoded_height(bytes: Seq<u8>) -> u32;

/// What `DynamicImage::write_to` with the JPEG format writes for the image decoded
/// from `bytes` and resized by `DynamicImage::resize(width, height, Triangle)`:
/// `Some` of the bytes written, or `None` when the encoder fails.
pub uninterp spec fn jpeg_of(bytes: Seq<u8>, width: u32, height: u32) -> Option<Seq<u8>>;

/// The text (`ImageError`'s `Display`) of the error the JPEG encoder reports for the
/// image decoded from `bytes` and resized to `width` x `height`, when it fails.
pub uninterp spec fn jpeg_error_text(bytes: Seq<u8>, width: u32, height: u32) -> Seq<char>;

/// The bytes decode: their format is recognised and they decode in it.
pub open spec fn loads(bytes: Seq<u8>) -> bool {
    format_known(bytes) && decodable(bytes)
}

/// The format recognised in some bytes.
pub struct GuessedFormat {
    format: ImageFormat,
    source: Ghost<Seq<u8>>,
}

impl GuessedFormat {
    /// The bytes the format was recognised in.
    pub closed spec fn source(&self) -> Seq<u8> {
        self.source@
    }
}

/// A failure of the JPEG encoder on a resized image.
pub struct EncodeFailure {
    error: ImageError,
    source: Ghost<Seq<u8>>,
    width: Ghost<u32>,
    height: Ghost<u32>,
}

impl EncodeFailure {
    /// The bytes the image that failed to encode was decoded from.
    pub closed spec fn source(&self) -> Seq<u8> {
        self.source@
    }

    /// The size that image was resized to.
    pub closed spec fn requested(&self) -> (u32, u32) {
        (self.width@, self.height@)
    }
}

/// An image decoded from bytes, with its dimensions.
pub struct DecodedImage {
    raster: DynamicImage,
    source: Ghost<Seq<u8>>,
    width: u32,
    height: u32,
}

impl DecodedImage {
    /// The bytes the image was decoded from.
    pub closed spec fn source(&self) -> Seq<u8> {
        self.source@
    }

    /// The width and height of the image.
    pub closed spec fn dims(&self) -> (u32, u32) {
        (self.width, self.height)
    }

    pub fn width(&self) -> (w: u32)
        ensures
            w == self.dims().0,
    {
        self.width
    }

    pub fn height(&self) -> (h: u32)
        ensures
            h == self.dims().1,
    {
        self.height
    }
}

/// A decoded image resized to a requested size.
pub struct ResizedImage {
    raster: DynamicImage,
    source: Ghost<Seq<u8>>,
    width: Ghost<u32>,
    height: Ghost<u32>,
}

impl ResizedImage {
    /// The bytes the image it was resized from was decoded from.
    pub closed spec fn source(&self) -> Seq<u8> {
        self.source@
    }

    /// The size that was asked of the resize.
    pub closed spec fn requested(&self) -> (u32, u32) {
        (self.width@, self.height@)
    }
}

/// Calls `image::guess_format`. Claimed: it succeeds exactly on the bytes
/// `format_known` holds of, and the format it gives is that of these bytes.
#[verifier::external_body]
pub(crate) fn guess_image_format(bytes: &[u8]) -> (res: Result<GuessedFormat, ImageError>)
    ensures
        match res {
            Ok(format) => format_known(bytes@) && format.source() == bytes@,
            Err(_) => !format_known(bytes@),
        },
{
    let format = image::guess_format(bytes)?;
    Ok(GuessedFormat { format, source: Ghost(bytes@) })
}

/// Calls `image::load_from_memory_with_format`, then `DynamicImage::width` and
/// `DynamicImage::height` on the decoded image. Claimed, for the format recognised
/// in these very bytes: it succeeds exactly on the bytes `decodable` holds of, and
/// the dimensions are those the names give for the bytes.
#[verifier::external_body]
pub(crate) fn load_image(bytes: &[u8], format: &GuessedFormat) -> (res: Result<DecodedImage, ImageError>)
    ensures
        format.source() == bytes@ ==> match res {
            Ok(img) => decodable(bytes@) && img.source() == bytes@
                && img.dims() == (decoded_width(bytes@), decoded_height(bytes@)),
            Err(_) => !decodable(bytes@),
        },
{
    let raster = image::load_from_memory_with_format(bytes, format.format)?;
    let width = raster.width();
    let height = raster.height();
    Ok(DecodedImage { raster, source: Ghost(bytes@), width, height })
}

/// Decodes an image from memory in the format its magic bytes show.
pub(crate) fn decode_image(bytes: &[u8]) -> (res: Option<DecodedImage>)
    ensures
        match res {
            Some(img) => loads(bytes@) && img.source() == bytes@
                && img.dims() == (decoded_width(bytes@), decoded_height(bytes@)),
            None => !loads(bytes@),
        },
{
    let format = match guess_image_format(bytes) {
        Ok(format) => format,
        Err(_) => return None,
    };
    match load_image(bytes, &format) {
        Ok(img) => Some(img),
        Err(_) => None,
    }
}

/// Calls `DynamicImage::resize` with the triangle (bilinear) filter. Claimed: the
/// result comes from the same bytes and records the size asked for (the crate fits
/// the image into that size keeping its aspect ratio).
#[verifier::external_body]
pub(crate) fn resize_triangle(img: &DecodedImage, width: u32, height: u32) -> (res: ResizedImage)
    ensures
        res.source() == img.source(),
        res.requested() == (width, height),
{
    ResizedImage {
        raster: img.raster.resize(width, height, image::imageops::FilterType::Triangle),
        source: Ghost(img.source@),
        width: Ghost(width),
        height: Ghost(height),
    }
}

/// Calls `DynamicImage::write_to` with the JPEG format into an in-memory buffer and
/// hands back the buffer. Claimed: the outcome is `jpeg_of` of the bytes the image
/// comes from and of the size it was resized to; a failure keeps where it came from.
#[verifier::external_body]
pub(crate) fn write_jpeg(img: &ResizedImage) -> (res: Result<Vec<u8>, EncodeFailure>)
    ensures
        match res {
            Ok(v) => jpeg_of(img.source(), img.requested().0, img.requested().1) == Some(v@),
            Err(f) => jpeg_of(img.source(), img.requested().0, img.requested().1) is None
                && f.source() == img.source() && f.requested() == img.requested(),
        },
{
    let mut buffer = std::io::Cursor::new(Vec::new());
    match img.raster.write_to(&mut buffer, image::ImageFormat::Jpeg) {
        Ok(()) => Ok(buffer.into_inner()),
        Err(error) => Err(EncodeFailure { error, source: img.source, width: img.width, height: img.height }),
    }
}

/// Calls `ImageError::to_string` (its `Display` text) on the encoder's error.
/// Claimed: the text is `jpeg_error_text` of the image that failed to encode.
#[verifier::external_body]
pub(crate) fn image_error_text(failure: &EncodeFailure) -> (res: String)
    ensures
        res@ == jpeg_error_text(failure.source(), failure.requested().0, failure.requested().1),
{
    failure.error.to_string()
}

} // verus!
