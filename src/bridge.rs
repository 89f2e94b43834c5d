//! Decode, encode and release: the three operations offered to the host.

use vstd::prelude::*;
use crate::backend::{
    color_code_of, encoded_file, format_for_extension, format_from_extension, height_of,
    image_bytes, image_color_code, image_height, image_width, into_pixel_bytes, load_with_format,
    loaded_image, width_of, write_with_format,
};
use crate::layout::{buffer_len, layout_of_code, PixelLayout};

verus! {

/// Why a decode or an encode produced no buffer.
#[derive(Clone, Copy, Debug, PartialEq, Eq, Structural)]
pub enum CodecError {
    /// The extension names no format that the codec library knows.
    UnsupportedExtension,
    /// The input bytes are not a well-formed image of the selected format.
    DecodeFailed,
    /// The color type code is not one of 0, 1, 2, 3.
    InvalidColorType,
    /// The pixel buffer does not hold `width * height` pixels of the layout.
    PixelLengthMismatch,
    /// The codec library could not write the selected format.
    EncodeFailed,
}

/// A decoded image: its size, its color type code and its pixel bytes.
pub struct DecodedImage {
    pub width: u32,
    pub height: u32,
    pub color_code: u32,
    pub pixels: Vec<u8>,
}

/// What a decoded image holds, as mathematical values.
pub struct DecodedView {
    pub width: u32,
    pub height: u32,
    pub color_code: u32,
    pub pixels: Seq<u8>,
}

impl View for DecodedImage {
    type V = DecodedView;

    open spec fn view(&self) -> DecodedView {
        DecodedView {
            width: self.width,
            height: self.height,
            color_code: self.color_code,
            pixels: self.pixels@,
        }
    }
}

/// The outcome of a decode, with its buffer taken as a sequence.
pub open spec fn decode_view(r: Result<DecodedImage, CodecError>) -> Result<DecodedView, CodecError> {
    match r {
        Ok(d) => Ok(d@),
        Err(e) => Err(e),
    }
}

/// The outcome of an encode, with its buffer taken as a sequence.
pub open spec fn encode_view(r: Result<Vec<u8>, CodecError>) -> Result<Seq<u8>, CodecError> {
    match r {
        Ok(b) => Ok(b@),
        Err(e) => Err(e),
    }
}

/// What decoding `input`, named by extension `ext`, gives.
pub open spec fn decode_outcome(input: Seq<u8>, ext: Seq<char>) -> Result<DecodedView, CodecError> {
    match format_for_extension(ext) {
        None => Err(CodecError::UnsupportedExtension),
        Some(format) => match loaded_image(input, format) {
            None => Err(CodecError::DecodeFailed),
            Some(img) => Ok(
                DecodedView {
                    width: image_width(img),
                    height: image_height(img),
                    color_code: image_color_code(img),
                    pixels: image_bytes(img),
                },
            ),
        },
    }
}

/// What encoding raw `pixels` of color type `code` into the format of
/// extension `ext` gives.
pub open spec fn encode_outcome(
    pixels: Seq<u8>,
    width: u32,
    height: u32,
    code: u32,
    ext: Seq<char>,
) -> Result<Seq<u8>, CodecError> {
    match layout_of_code(code) {
        None => Err(CodecError::InvalidColorType),
        Some(layout) => if pixels.len() != width * height * layout.channels_spec() {
            Err(CodecError::PixelLengthMismatch)
        } else {
            match format_for_extension(ext) {
                None => Err(CodecError::UnsupportedExtension),
                Some(format) => match encoded_file(pixels, width, height, layout, format) {
                    None => Err(CodecError::EncodeFailed),
                    Some(file) => Ok(file),
                },
            }
        },
    }
}

/// Decodes the image file `input`, whose format the extension `ext` names,
/// into its width, height, color type code and pixel bytes.
pub fn rs_image_decode(input: &[u8], ext: &str) -> (r: Result<DecodedImage, CodecError>)
    ensures
        decode_view(r) == decode_outcome(input@, ext@),
        format_for_extension(ext@) is None <==> r == Err::<DecodedImage, CodecError>(
            CodecError::UnsupportedExtension,
        ),
{
    let format = match format_from_extension(ext) {
        Some(f) => f,
        None => return Err(CodecError::UnsupportedExtension),
    };
    let img = match load_with_format(input, format) {
        Ok(img) => img,
        Err(_) => return Err(CodecError::DecodeFailed),
    };
    let width = width_of(&img);
    let height = height_of(&img);
    let color_code = color_code_of(&img);
    let pixels = into_pixel_bytes(img);
    let r = DecodedImage { width, height, color_code, pixels };
    assert(decode_view(Ok(r)) == decode_outcome(input@, ext@));
    Ok(r)
}

/// Encodes raw `input` pixels of a `width` by `height` image, laid out as
/// color type code `t` says, into the file format that `ext` names.
pub fn rs_image_encode(input: &[u8], width: u32, height: u32, t: u32, ext: &str) -> (r: Result<
    Vec<u8>,
    CodecError,
>)
    ensures
        encode_view(r) == encode_outcome(input@, width, height, t, ext@),
        t > 3 ==> r == Err::<Vec<u8>, CodecError>(CodecError::InvalidColorType),
        t <= 3 && input@.len() != width * height * (t + 1) ==> r == Err::<Vec<u8>, CodecError>(
            CodecError::PixelLengthMismatch,
        ),
{
    let layout = match PixelLayout::from_code(t) {
        Some(layout) => layout,
        None => return Err(CodecError::InvalidColorType),
    };
    let len = input.len();
    match buffer_len(width, height, layout) {
        Some(n) => {
            if len != n {
                return Err(CodecError::PixelLengthMismatch);
            }
        },
        None => return Err(CodecError::PixelLengthMismatch),
    }
    let format = match format_from_extension(ext) {
        Some(f) => f,
        None => return Err(CodecError::UnsupportedExtension),
    };
    match write_with_format(input, width, height, layout, format) {
        Ok(file) => Ok(file),
        Err(_) => Err(CodecError::EncodeFailed),
    }
}

/// Releases a buffer that a decode or an encode handed out, and returns how
/// many bytes it held.
pub fn rs_vec_free(buffer: Vec<u8>) -> (released: usize)
    ensures
        released == buffer@.len(),
{
    buffer.len()
}

/// Codes 0 to 3 name layouts of 1 to 4 channels, and an encode with such a
/// code succeeds only on exactly `width * height * channels` pixel bytes.
pub proof fn encode_needs_exact_length(
    pixels: Seq<u8>,
    width: u32,
    height: u32,
    code: u32,
    ext: Seq<char>,
)
    requires
        code <= 3,
    ensures
        layout_of_code(code) matches Some(layout) && layout.channels_spec() == code + 1,
        encode_outcome(pixels, width, height, code, ext) is Ok ==> pixels.len() == width * height
            * (code + 1),
        pixels.len() != width * height * (code + 1) ==> encode_outcome(
            pixels,
            width,
            height,
            code,
            ext,
        ) == Err::<Seq<u8>, CodecError>(CodecError::PixelLengthMismatch),
{
}

/// A failed decode fails the same way every time: two outcomes of decoding the
/// same bytes under the same extension are equal once one of them is an error.
pub proof fn decode_failure_is_deterministic(
    input: Seq<u8>,
    ext: Seq<char>,
    first: Result<DecodedImage, CodecError>,
    second: Result<DecodedImage, CodecError>,
)
    requires
        decode_view(first) == decode_outcome(input, ext),
        decode_view(second) == decode_outcome(input, ext),
        first is Err,
    ensures
        first == second,
{
}

} // verus!
