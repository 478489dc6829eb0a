//! The image codec, which is the `image` crate, and what the pipeline makes
//! of its answers.
//!
//! Nothing is proved of the codec itself. Three functions of this file call
//! it; each states only that its result is the codec's answer to what it was
//! given. The answers have names, so that the rest can say exactly what
//! becomes of each.

use vstd::prelude::*;
use crate::image_processing::failure::FatalCause;

verus! {

/// `image::ImageFormat`, an image format that the codec knows. Nothing is
/// read off it here; it is handed from the detection to the decoding.
#[verifier::external_type_specification]
#[verifier::external_body]
pub struct ExImageFormat(image::ImageFormat);

/// `image::DynamicImage`, a decoded picture. Nothing is read off it here; it
/// is handed from the decoding to the encoding.
#[verifier::external_type_specification]
#[verifier::external_body]
pub struct ExDynamicImage(image::DynamicImage);

/// `image::ImageError`, the error of the codec. Nothing is read off it here.
#[verifier::external_type_specification]
#[verifier::external_body]
pub struct ExImageError(image::ImageError);

/// What the codec makes of a file name.
#[derive(Debug)]
pub enum Detection {
    /// The name tells of no format that the codec knows.
    Unrecognized,
    /// The name tells of a TIFF image.
    Tiff,
    /// The name tells of this format, which is not TIFF.
    Supported(image::ImageFormat),
}

/// What `image::ImageFormat::from_path` makes of a file of this name: it
/// goes by the extension alone, whatever its case, and knows a fixed list of
/// extensions.
pub uninterp spec fn detection_of(file_name: Seq<char>) -> Detection;

/// What `image::io::Reader::decode` makes of these bytes, read as an image of
/// this format.
pub uninterp spec fn decoding_of(bytes: Seq<u8>, format: image::ImageFormat) -> Result<
    image::DynamicImage,
    image::ImageError,
>;

/// The PNG file that `image::DynamicImage::write_to` writes for this picture.
pub uninterp spec fn png_encoding_of(picture: image::DynamicImage) -> Result<
    Seq<u8>,
    image::ImageError,
>;

/// Calls `image::ImageFormat::from_path` on the file name. Trusted: the
/// result is what the codec answers for this name, told apart into no
/// format, TIFF, and any other format.
#[verifier::external_body]
fn detect(file_name: &str) -> (detection: Detection)
    ensures
        detection == detection_of(file_name@),
{
    match image::ImageFormat::from_path(file_name) {
        Err(_) => Detection::Unrecognized,
        Ok(image::ImageFormat::Tiff) => Detection::Tiff,
        Ok(format) => Detection::Supported(format),
    }
}

/// Calls `image::io::Reader::decode` on a reader over `bytes` with the
/// format set to `format`. Trusted: the result is what the codec answers
/// for these bytes and this format.
#[verifier::external_body]
fn decode(bytes: &Vec<u8>, format: image::ImageFormat) -> (decoded: Result<
    image::DynamicImage,
    image::ImageError,
>)
    ensures
        decoded == decoding_of(bytes@, format),
{
    image::io::Reader::with_format(std::io::Cursor::new(bytes), format).decode()
}

/// Calls `image::DynamicImage::write_to` with the PNG format, on a buffer in
/// memory. Trusted: the result is the file that the codec writes for this
/// picture, or its error.
#[verifier::external_body]
fn encode_png(picture: &image::DynamicImage) -> (encoded: Result<Vec<u8>, image::ImageError>)
    ensures
        match encoded {
            Ok(bytes) => png_encoding_of(*picture) == Ok::<Seq<u8>, image::ImageError>(bytes@),
            Err(error) => png_encoding_of(*picture) == Err::<Seq<u8>, image::ImageError>(error),
        },
{
    let mut buffer = std::io::Cursor::new(Vec::new());
    match picture.write_to(&mut buffer, image::ImageFormat::Png) {
        Ok(()) => Ok(buffer.into_inner()),
        Err(error) => Err(error),
    }
}

/// The format to decode a source as, or why the source is not converted:
/// a name that tells of no format, and a TIFF source, are fatal.
pub open spec fn admission_of(detection: Detection) -> Result<image::ImageFormat, FatalCause> {
    match detection {
        Detection::Unrecognized => Err(FatalCause::UnrecognizedFormat),
        Detection::Tiff => Err(FatalCause::TiffSource),
        Detection::Supported(format) => Ok(format),
    }
}

/// What becomes of a decoding: a source that does not decode is fatal.
pub open spec fn picture_of(decoded: Result<image::DynamicImage, image::ImageError>) -> Result<
    image::DynamicImage,
    FatalCause,
> {
    match decoded {
        Ok(picture) => Ok(picture),
        Err(_) => Err(FatalCause::Undecodable),
    }
}

/// What becomes of an encoding: a picture that does not encode is fatal.
pub open spec fn png_of(encoded: Result<Seq<u8>, image::ImageError>) -> Result<
    Seq<u8>,
    FatalCause,
> {
    match encoded {
        Ok(bytes) => Ok(bytes),
        Err(_) => Err(FatalCause::Unwritable),
    }
}

/// The PNG file for a source with this file name and these contents, or why
/// there is none.
pub open spec fn transcoding_of(file_name: Option<Seq<char>>, source: Seq<u8>) -> Result<
    Seq<u8>,
    FatalCause,
> {
    match file_name {
        None => Err(FatalCause::UnrecognizedFormat),
        Some(name) => match admission_of(detection_of(name)) {
            Err(cause) => Err(cause),
            Ok(format) => match picture_of(decoding_of(source, format)) {
                Err(cause) => Err(cause),
                Ok(picture) => png_of(png_encoding_of(picture)),
            },
        },
    }
}

/// The format to decode a source as, given what the codec made of its name.
pub fn admitted_format(detection: Detection) -> (admission: Result<image::ImageFormat, FatalCause>)
    ensures
        admission == admission_of(detection),
{
    match detection {
        Detection::Unrecognized => Err(FatalCause::UnrecognizedFormat),
        Detection::Tiff => Err(FatalCause::TiffSource),
        Detection::Supported(format) => Ok(format),
    }
}

/// The picture to encode, given what the codec made of the source.
pub fn decoded_picture(decoded: Result<image::DynamicImage, image::ImageError>) -> (picture: Result<
    image::DynamicImage,
    FatalCause,
>)
    ensures
        picture == picture_of(decoded),
{
    match decoded {
        Ok(picture) => Ok(picture),
        Err(_) => Err(FatalCause::Undecodable),
    }
}

/// The PNG file to write, given what the codec made of the picture.
pub fn encoded_png(encoded: Result<Vec<u8>, image::ImageError>) -> (png: Result<
    Vec<u8>,
    FatalCause,
>)
    ensures
        match png {
            Ok(bytes) => encoded matches Ok(given) && bytes@ == given@,
            Err(cause) => encoded is Err && cause == FatalCause::Unwritable,
        },
{
    match encoded {
        Ok(bytes) => Ok(bytes),
        Err(_) => Err(FatalCause::Unwritable),
    }
}

/// Converts the contents of a source file to those of a PNG file. The name
/// of the file decides as what it is decoded; a file without a name, or
/// whose name tells of no format or of TIFF, is not decoded at all.
pub fn transcode(file_name: Option<&String>, source: &Vec<u8>) -> (png: Result<Vec<u8>, FatalCause>)
    ensures
        match png {
            Ok(bytes) => transcoding_of(
                match file_name {
                    Some(name) => Some(name@),
                    None => None,
                },
                source@,
            ) == Ok::<Seq<u8>, FatalCause>(bytes@),
            Err(cause) => transcoding_of(
                match file_name {
                    Some(name) => Some(name@),
                    None => None,
                },
                source@,
            ) == Err::<Seq<u8>, FatalCause>(cause),
        },
{
    let name = match file_name {
        Some(name) => name,
        None => {
            return Err(FatalCause::UnrecognizedFormat);
        },
    };
    let format = match admitted_format(detect(name.as_str())) {
        Ok(format) => format,
        Err(cause) => {
            return Err(cause);
        },
    };
    let picture = match decoded_picture(decode(source, format)) {
        Ok(picture) => picture,
        Err(cause) => {
            return Err(cause);
        },
    };
    encoded_png(encode_png(&picture))
}

} // verus!
