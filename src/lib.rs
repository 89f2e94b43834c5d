//! Decoding and encoding of raster images for a host application.
//!
//! The codec work itself is done by the `image` crate; this library selects
//! the codec by file extension, validates the pixel layout of raw buffers and
//! reports each failure as a value of [`CodecError`].

mod backend;
pub mod bridge;
pub mod layout;

pub use bridge::{rs_image_decode, rs_image_encode, rs_vec_free, CodecError, DecodedImage};
pub use layout::PixelLayout;
