//! Encoded images: JPEG for the display, and decoding of stored pictures.
//!
//! Encoding and decoding are done by the `image` crate; what is assumed of it
//! is written on the declarations that use it.

use crate::colour::Rgba;
use crate::compose::flattened_bytes;
use crate::raster::{Image, ImageView, MAX_DIMENSION};
use crate::layout::DrawingUtils;
use vstd::prelude::*;

verus! {

/// Quality at which images for the display are encoded.
pub const JPEG_QUALITY: u8 = 70;

/// Error type of the `image` crate, carried through unread.
#[verifier::external_type_specification]
#[verifier::external_body]
pub struct ExImageError(image::ImageError);

/// The JPEG stream that `image`'s encoder writes for a buffer of RGB bytes of
/// the given size at the given quality.
pub uninterp spec fn jpeg_encoding(rgb: Seq<u8>, width: u32, height: u32, quality: u8) -> Seq<u8>;

/// Calls `image::codecs::jpeg::JpegEncoder::new_with_quality` on a buffer in
/// memory and then `encode` with the colour type RGB8.
///
/// Assumed: the stream written is a function of the pixel bytes, the size and
/// the quality; and the call fails exactly where a side is zero or above
/// 65535.  That size is the one input the encoder refuses; every other
/// failure it can report is a failure to write, and here it writes to a
/// vector, which takes whatever is appended.  The encoder panics where the
/// buffer's length is not `width * height * 3`; the precondition leaves that
/// out.
#[verifier::external_body]
fn encode_jpeg(rgb: &Vec<u8>, width: u32, height: u32, quality: u8) -> (encoded: Result<
    Vec<u8>,
    image::ImageError,
>)
    requires
        rgb@.len() == width * height * 3,
    ensures
        encoded matches Ok(bytes) ==> bytes@ == jpeg_encoding(rgb@, width, height, quality),
        encoded is Ok <==> (1 <= width <= 65535 && 1 <= height <= 65535),
{
    let mut out = Vec::new();
    let mut encoder = image::codecs::jpeg::JpegEncoder::new_with_quality(&mut out, quality);
    encoder.encode(rgb, width, height, image::ExtendedColorType::Rgb8)?;
    Ok(out)
}

/// Calls `image::load_from_memory`, then `DynamicImage::into_rgba8`, and
/// hands out the size and the raw buffer.
///
/// Nothing is assumed of the outcome: the decoder picks its routines by the
/// machine it runs on, so the same bytes need not give the same pixels
/// everywhere.
#[verifier::external_body]
fn decode_rgba(bytes: &Vec<u8>) -> (decoded: Result<(u32, u32, Vec<u8>), image::ImageError>) {
    let picture = image::load_from_memory(bytes)?.into_rgba8();
    Ok((picture.width(), picture.height(), picture.into_raw()))
}

/// Why an image could not be encoded or decoded.
#[derive(Debug, Clone, Copy, PartialEq, Eq, Structural)]
pub enum CodecError {
    /// The encoder refused the image.
    Encode,
    /// The bytes are no image that can be decoded.
    Decode,
    /// The decoded image is larger than an image may be, or its buffer does
    /// not match its size.
    Size,
}

/// What `image_as_jpeg` returns for an outcome of the encoder.
pub fn encoded_or_error(encoded: Result<Vec<u8>, image::ImageError>) -> (out: Result<
    Vec<u8>,
    CodecError,
>)
    ensures
        match encoded {
            Ok(bytes) => out == Ok::<Vec<u8>, CodecError>(bytes),
            Err(_) => out == Err::<Vec<u8>, CodecError>(CodecError::Encode),
        },
{
    match encoded {
        Ok(bytes) => Ok(bytes),
        Err(_) => Err(CodecError::Encode),
    }
}

/// The pixels that a buffer of RGBA bytes holds, four bytes for each.
pub open spec fn pixels_of_bytes(data: Seq<u8>) -> Seq<Rgba> {
    Seq::new(
        (data.len() / 4) as nat,
        |k: int|
            Rgba {
                red: data[4 * k],
                green: data[4 * k + 1],
                blue: data[4 * k + 2],
                alpha: data[4 * k + 3],
            },
    )
}

/// True when a decoded picture of this size and buffer is an image of this
/// library: no side above the largest dimension, four bytes for each pixel.
pub open spec fn fits_image(width: u32, height: u32, data: Seq<u8>) -> bool {
    width <= MAX_DIMENSION && height <= MAX_DIMENSION && data.len() == width * height * 4
}

/// The image that a decoded picture stands for.
pub open spec fn image_of_decoded(width: u32, height: u32, data: Seq<u8>) -> ImageView {
    ImageView { width: width as int, height: height as int, pixels: pixels_of_bytes(data) }
}

/// Builds an image from a decoded picture: its size and its RGBA bytes.
pub fn image_from_rgba_bytes(width: u32, height: u32, data: &Vec<u8>) -> (out: Result<
    Image,
    CodecError,
>)
    ensures
        out is Ok <==> fits_image(width, height, data@),
        out matches Ok(image) ==> image@ == image_of_decoded(width, height, data@) && image@.wf(),
        out matches Err(e) ==> e == CodecError::Size,
{
    if width > MAX_DIMENSION || height > MAX_DIMENSION {
        return Err(CodecError::Size);
    }
    assert(width * height <= MAX_DIMENSION * MAX_DIMENSION) by (nonlinear_arith)
        requires
            width <= MAX_DIMENSION,
            height <= MAX_DIMENSION,
    ;
    let count: usize = (width as usize) * (height as usize);
    if data.len() != count * 4 {
        return Err(CodecError::Size);
    }
    let mut pixels: Vec<Rgba> = Vec::with_capacity(count);
    let mut k: usize = 0;
    while k < count
        invariant
            k <= count,
            count <= MAX_DIMENSION * MAX_DIMENSION,
            data@.len() == count * 4,
            pixels@.len() == k,
            forall|j: int| 0 <= j < k ==> pixels@[j] == pixels_of_bytes(data@)[j],
        decreases count - k,
    {
        pixels.push(
            Rgba {
                red: data[4 * k],
                green: data[4 * k + 1],
                blue: data[4 * k + 2],
                alpha: data[4 * k + 3],
            },
        );
        k += 1;
    }
    assert(pixels@ =~= pixels_of_bytes(data@));
    match Image::from_pixels(width, height, pixels) {
        Some(image) => Ok(image),
        None => Err(CodecError::Size),
    }
}

/// Decodes a stored picture (JPEG or PNG) into an image.  The decoder
/// decides whether the bytes are a picture and what it shows; what it hands
/// out becomes an image where it fits one.
pub fn decode_image(bytes: &Vec<u8>) -> (out: Result<Image, CodecError>)
    ensures
        out matches Ok(image) ==> image@.wf(),
        out matches Err(e) ==> e == CodecError::Decode || e == CodecError::Size,
{
    match decode_rgba(bytes) {
        Err(_) => Err(CodecError::Decode),
        Ok((width, height, data)) => image_from_rgba_bytes(width, height, &data),
    }
}

impl DrawingUtils {
    /// Flattens `image` onto `background` and encodes the result as JPEG.
    ///
    /// An image without pixels cannot be encoded.  Any other image can, and
    /// the bytes are the encoding of the flattened image.
    pub fn image_as_jpeg(image: &Image, background: Rgba, quality: u8) -> (out: Result<
        Vec<u8>,
        CodecError,
    >)
        requires
            image@.wf(),
        ensures
            out matches Ok(bytes) ==> bytes@ == jpeg_encoding(
                flattened_bytes(image@.pixels, background),
                image@.width as u32,
                image@.height as u32,
                quality,
            ),
            out matches Err(e) ==> e == CodecError::Encode,
            out is Ok <==> image@.has_pixels(),
    {
        let flat = Self::flatten_rgba_image(image, background);
        assert(flat@.len() == image@.width * image@.height * 3) by (nonlinear_arith)
            requires
                flat@.len() == 3 * image@.pixels.len(),
                image@.pixels.len() == image@.width * image@.height,
        ;
        encoded_or_error(encode_jpeg(&flat, image.width(), image.height(), quality))
    }
}

} // verus!
