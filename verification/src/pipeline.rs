//! The per-job conversion pipeline: decode the RAW input, validate the
//! buffer shape, encode the TIFF output. Decoding and encoding are
//! boundary calls into external libraries; what they return depends on
//! what is on disk, so the functions here state what holds of every
//! outcome and the exact logic lives in the verified steps between the
//! calls.

use vstd::prelude::*;
use crate::errors::ConvertError;
use crate::image_buf::DecodedImage;

verus! {

/// Relies on `imagepipe::simple_decode_8bit`: decodes the RAW file at
/// `path` into 8-bit three-channel pixels, scaled down to fit the given
/// maximums, or reports why it could not. The result depends on what is
/// on disk, so nothing is promised of it.
#[verifier::external_body]
fn decode_raw(path: &str, max_width: usize, max_height: usize) -> Result<
    (usize, usize, Vec<u8>),
    String,
> {
    match imagepipe::simple_decode_8bit(std::path::Path::new(path), max_width, max_height) {
        Ok(img) => Ok((img.width, img.height, img.data)),
        Err(e) => Err(e),
    }
}

/// Relies on `image::ImageBuffer::from_raw` and
/// `ImageBuffer::save_with_format`: writes `img` as a TIFF file at
/// `path`. Whether the write succeeds depends on the file system, so
/// nothing is promised of the result.
#[verifier::external_body]
fn write_tiff(img: DecodedImage, path: &str) -> Result<(), String>
    requires
        img.wf(),
        img.width <= u32::MAX as usize,
        img.height <= u32::MAX as usize,
{
    let buffer: image::ImageBuffer<image::Rgb<u8>, Vec<u8>> =
        match image::ImageBuffer::from_raw(img.width as u32, img.height as u32, img.data) {
            Some(b) => b,
            None => return Err(format!("pixel buffer does not fit {}x{}", img.width, img.height)),
        };
    match buffer.save_with_format(std::path::Path::new(path), image::ImageFormat::Tiff) {
        Ok(()) => Ok(()),
        Err(e) => Err(e.to_string()),
    }
}

/// Encodes a validated buffer to a TIFF file at `output`. Every failure
/// is an `Encode` error. Dimensions beyond the encoder's 32-bit range
/// are refused before the call, with exactly the message stated below;
/// within that range, success depends on the file system, so it is not
/// promised.
pub fn encode_to_tiff(img: DecodedImage, output: &str) -> (r: Result<(), ConvertError>)
    requires
        img.wf(),
    ensures
        r matches Err(e) ==> e is Encode,
        img.width > u32::MAX as usize || img.height > u32::MAX as usize ==> (r matches Err(
            ConvertError::Encode { message },
        ) && message@ == "image dimensions exceed the TIFF encoder's range"@),
{
    if img.width > u32::MAX as usize || img.height > u32::MAX as usize {
        return Err(
            ConvertError::Encode {
                message: String::from_str("image dimensions exceed the TIFF encoder's range"),
            },
        );
    }
    match write_tiff(img, output) {
        Ok(()) => Ok(()),
        Err(m) => Err(ConvertError::Encode { message: m }),
    }
}

/// Converts one RAW file to one TIFF file, asking the decoder for at
/// most `max_width` x `max_height` pixels. A failed job reports which
/// step refused it: `Decode` when the decoder rejected the input,
/// `BufferShape` when the decoder's dimensions and byte count disagree,
/// `Encode` when the output could not be written. It never reports an
/// `Argument` error: both paths are already resolved.
pub fn convert_with_limits(input: &str, output: &str, max_width: usize, max_height: usize) -> (r:
    Result<(), ConvertError>)
    ensures
        r matches Err(e) ==> (e is Decode || e is BufferShape || e is Encode),
{
    let (width, height, data) = match decode_raw(input, max_width, max_height) {
        Ok(t) => t,
        Err(m) => { return Err(ConvertError::Decode { message: m }); },
    };
    let img = match DecodedImage::from_raw(width, height, data) {
        Ok(img) => img,
        Err(e) => { return Err(e); },
    };
    encode_to_tiff(img, output)
}

/// Converts one RAW file to one TIFF file at the batch converter's
/// fixed decode ceiling of 2000 x 2000 pixels.
pub fn raw_to_tiff(input: &str, output: &str) -> (r: Result<(), ConvertError>)
    ensures
        r matches Err(e) ==> (e is Decode || e is BufferShape || e is Encode),
{
    convert_with_limits(input, output, 2000, 2000)
}

} // verus!
