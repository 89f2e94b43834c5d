//! The calls into the `image` crate that the codec bridge makes, with what
//! this library relies on of each.

use vstd::prelude::*;
use crate::layout::PixelLayout;

verus! {

#[verifier::external_type_specification]
#[verifier::external_body]
pub struct ExImageFormat(image::ImageFormat);

#[verifier::external_type_specification]
#[verifier::external_body]
pub struct ExDynamicImage(image::DynamicImage);

#[verifier::external_type_specification]
#[verifier::external_body]
pub struct ExImageError(image::ImageError);

/// The format that `image` selects for a file extension.
pub uninterp spec fn format_for_extension(ext: Seq<char>) -> Option<image::ImageFormat>;

/// The image that `image` decodes from `bytes` in `format`, if they decode.
pub uninterp spec fn loaded_image(bytes: Seq<u8>, format: image::ImageFormat) -> Option<
    image::DynamicImage,
>;

/// Width in pixels of a decoded image.
pub uninterp spec fn image_width(img: image::DynamicImage) -> u32;

/// Height in pixels of a decoded image.
pub uninterp spec fn image_height(img: image::DynamicImage) -> u32;

/// Numeric color type of a decoded image.
pub uninterp spec fn image_color_code(img: image::DynamicImage) -> u32;

/// Pixel bytes of a decoded image, in its native channel order.
pub uninterp spec fn image_bytes(img: image::DynamicImage) -> Seq<u8>;

/// The file that `image` writes for raw pixels in `format`, if it can.
pub uninterp spec fn encoded_file(
    pixels: Seq<u8>,
    width: u32,
    height: u32,
    layout: PixelLayout,
    format: image::ImageFormat,
) -> Option<Seq<u8>>;

/// Relies on `image::ImageFormat::from_extension`: a table lookup on the
/// lower-cased extension, a function of the extension alone.
#[verifier::external_body]
pub(crate) fn format_from_extension(ext: &str) -> (r: Option<image::ImageFormat>)
    ensures
        r == format_for_extension(ext@),
{
    image::ImageFormat::from_extension(ext)
}

/// Relies on `image::load_from_memory_with_format`: decodes an in-memory file
/// of the given format; the outcome depends on the bytes and the format alone.
#[verifier::external_body]
pub(crate) fn load_with_format(bytes: &[u8], format: image::ImageFormat) -> (r: Result<
    image::DynamicImage,
    image::ImageError,
>)
    ensures
        match r {
            Ok(img) => loaded_image(bytes@, format) == Some(img),
            Err(_) => loaded_image(bytes@, format) is None,
        },
{
    image::load_from_memory_with_format(bytes, format)
}

/// Relies on `image::DynamicImage::width`.
#[verifier::external_body]
pub(crate) fn width_of(img: &image::DynamicImage) -> (r: u32)
    ensures
        r == image_width(*img),
{
    img.width()
}

/// Relies on `image::DynamicImage::height`.
#[verifier::external_body]
pub(crate) fn height_of(img: &image::DynamicImage) -> (r: u32)
    ensures
        r == image_height(*img),
{
    img.height()
}

/// Relies on `image::DynamicImage::color`: one of the ten variants of
/// `image::ColorType`, taken as its position in that enum's declaration.
#[verifier::external_body]
pub(crate) fn color_code_of(img: &image::DynamicImage) -> (r: u32)
    ensures
        r == image_color_code(*img),
        r < 10,
{
    img.color() as u32
}

/// Relies on `image::DynamicImage::into_bytes`: the raw pixel bytes.
#[verifier::external_body]
pub(crate) fn into_pixel_bytes(img: image::DynamicImage) -> (r: Vec<u8>)
    ensures
        r@ == image_bytes(img),
{
    img.into_bytes()
}

/// Relies on `image::write_buffer_with_format`, writing into an in-memory
/// cursor. Its encoders assert that the buffer holds exactly
/// `width * height` pixels of the layout, hence the precondition.
#[verifier::external_body]
pub(crate) fn write_with_format(
    pixels: &[u8],
    width: u32,
    height: u32,
    layout: PixelLayout,
    format: image::ImageFormat,
) -> (r: Result<Vec<u8>, image::ImageError>)
    requires
        pixels@.len() == width * height * layout.channels_spec(),
    ensures
        match r {
            Ok(file) => encoded_file(pixels@, width, height, layout, format) == Some(file@),
            Err(_) => encoded_file(pixels@, width, height, layout, format) is None,
        },
{
    let color = match layout {
        PixelLayout::Gray => image::ColorType::L8,
        PixelLayout::GrayAlpha => image::ColorType::La8,
        PixelLayout::Rgb => image::ColorType::Rgb8,
        PixelLayout::Rgba => image::ColorType::Rgba8,
    };
    let mut cursor = std::io::Cursor::new(Vec::new());
    image::write_buffer_with_format(&mut cursor, pixels, width, height, color, format)?;
    Ok(cursor.into_inner())
}

} // verus!
