use rsimage::layout::{buffer_len, channel_count};
use rsimage::{rs_image_decode, rs_image_encode, rs_vec_free, CodecError, PixelLayout};
use std::io::Cursor;

fn red_pixel_png() -> Vec<u8> {
    let img = image::RgbaImage::from_raw(1, 1, vec![255, 0, 0, 255]).unwrap();
    let mut out = Cursor::new(Vec::new());
    img.write_to(&mut out, image::ImageOutputFormat::Png).unwrap();
    out.into_inner()
}

fn gray_jpeg() -> Vec<u8> {
    let pixels = vec![128u8; 8 * 8];
    let mut out = Cursor::new(Vec::new());
    image::write_buffer_with_format(
        &mut out,
        &pixels,
        8,
        8,
        image::ColorType::L8,
        image::ImageOutputFormat::Jpeg(90),
    )
    .unwrap();
    out.into_inner()
}

#[test]
fn decode_red_pixel_png() {
    let d = rs_image_decode(&red_pixel_png(), "png").unwrap();
    assert_eq!(d.width, 1);
    assert_eq!(d.height, 1);
    assert_eq!(d.color_code, image::ColorType::Rgba8 as u32);
    assert_eq!(d.color_code, 3);
    assert_eq!(d.pixels, vec![255, 0, 0, 255]);
}

#[test]
fn decode_accepts_upper_case_extension() {
    let d = rs_image_decode(&red_pixel_png(), "PNG").unwrap();
    assert_eq!(d.pixels, vec![255, 0, 0, 255]);
}

#[test]
fn png_round_trip_keeps_size_and_pixels() {
    let first = rs_image_decode(&red_pixel_png(), "png").unwrap();
    let file = rs_image_encode(&first.pixels, first.width, first.height, first.color_code, "png")
        .unwrap();
    let second = rs_image_decode(&file, "png").unwrap();
    assert_eq!(second.width, first.width);
    assert_eq!(second.height, first.height);
    assert_eq!(second.color_code, first.color_code);
    assert_eq!(second.pixels, first.pixels);
}

#[test]
fn png_round_trip_of_each_layout() {
    for code in 0u32..4 {
        let channels = (code + 1) as usize;
        let pixels: Vec<u8> = (0..(3 * 2 * channels)).map(|i| (i * 11) as u8).collect();
        let file = rs_image_encode(&pixels, 3, 2, code, "png").unwrap();
        assert_eq!(&file[1..4], b"PNG");
        let d = rs_image_decode(&file, "png").unwrap();
        assert_eq!((d.width, d.height, d.color_code), (3, 2, code));
        assert_eq!(d.pixels, pixels);
    }
}

#[test]
fn channel_count_of_each_code() {
    assert_eq!(channel_count(0), Some(1));
    assert_eq!(channel_count(1), Some(2));
    assert_eq!(channel_count(2), Some(3));
    assert_eq!(channel_count(3), Some(4));
    assert_eq!(channel_count(4), None);
    assert_eq!(channel_count(99), None);
}

#[test]
fn layout_from_code() {
    assert_eq!(PixelLayout::from_code(0), Some(PixelLayout::Gray));
    assert_eq!(PixelLayout::from_code(1), Some(PixelLayout::GrayAlpha));
    assert_eq!(PixelLayout::from_code(2), Some(PixelLayout::Rgb));
    assert_eq!(PixelLayout::from_code(3), Some(PixelLayout::Rgba));
    assert_eq!(PixelLayout::from_code(4), None);
    assert_eq!(PixelLayout::Rgb.channels(), 3);
}

#[test]
fn buffer_len_exact_and_overflowing() {
    assert_eq!(buffer_len(2, 3, PixelLayout::Rgb), Some(18));
    assert_eq!(buffer_len(0, 7, PixelLayout::Rgba), Some(0));
    assert_eq!(buffer_len(u32::MAX, u32::MAX, PixelLayout::Rgba), None);
}

#[test]
fn encode_invalid_color_type_gives_no_buffer() {
    let r = rs_image_encode(&[0, 0, 0, 0], 1, 1, 99, "png");
    assert_eq!(r, Err(CodecError::InvalidColorType));
}

#[test]
fn encode_invalid_color_type_wins_over_bad_extension() {
    let r = rs_image_encode(&[0], 1, 1, 4, "nope");
    assert_eq!(r, Err(CodecError::InvalidColorType));
}

#[test]
fn encode_rejects_wrong_pixel_length() {
    assert_eq!(rs_image_encode(&[1, 2, 3], 1, 1, 3, "png"), Err(CodecError::PixelLengthMismatch));
    assert_eq!(rs_image_encode(&[1, 2, 3, 4, 5], 1, 1, 3, "png"), Err(CodecError::PixelLengthMismatch));
    assert_eq!(rs_image_encode(&[1, 2], 2, 2, 0, "png"), Err(CodecError::PixelLengthMismatch));
}

#[test]
fn encode_rejects_unknown_extension() {
    assert_eq!(rs_image_encode(&[1, 2, 3], 1, 1, 2, "xyz"), Err(CodecError::UnsupportedExtension));
}

#[test]
fn encode_into_format_without_encoder_fails() {
    assert_eq!(rs_image_encode(&[1, 2, 3], 1, 1, 2, "dds"), Err(CodecError::EncodeFailed));
}

#[test]
fn encode_bmp_gives_bmp_file() {
    let file = rs_image_encode(&[10, 20, 30], 1, 1, 2, "bmp").unwrap();
    assert_eq!(&file[0..2], b"BM");
    let d = rs_image_decode(&file, "bmp").unwrap();
    assert_eq!((d.width, d.height), (1, 1));
}

#[test]
fn decode_rejects_unknown_extension() {
    assert!(matches!(rs_image_decode(&red_pixel_png(), "xyz"), Err(CodecError::UnsupportedExtension)));
    assert!(matches!(rs_image_decode(&red_pixel_png(), ""), Err(CodecError::UnsupportedExtension)));
}

#[test]
fn decode_rejects_garbage() {
    assert!(matches!(rs_image_decode(&[1, 2, 3, 4], "png"), Err(CodecError::DecodeFailed)));
    assert!(matches!(rs_image_decode(&[], "png"), Err(CodecError::DecodeFailed)));
}

#[test]
fn decode_jpeg_named_png_fails_the_same_way_each_time() {
    let jpeg = gray_jpeg();
    assert!(rs_image_decode(&jpeg, "jpg").is_ok());
    let first = rs_image_decode(&jpeg, "png");
    let second = rs_image_decode(&jpeg, "png");
    assert!(matches!(first, Err(CodecError::DecodeFailed)));
    assert!(matches!(second, Err(CodecError::DecodeFailed)));
}

#[test]
fn release_leaves_other_buffers_intact() {
    let png = red_pixel_png();
    let a = rs_image_decode(&png, "png").unwrap();
    let b = rs_image_decode(&png, "png").unwrap();
    assert_eq!(rs_vec_free(a.pixels), 4);
    assert_eq!(b.pixels, vec![255, 0, 0, 255]);
    let file = rs_image_encode(&b.pixels, 1, 1, 3, "png").unwrap();
    let n = file.len();
    assert_eq!(rs_vec_free(file), n);
    assert_eq!(b.pixels, vec![255, 0, 0, 255]);
}
