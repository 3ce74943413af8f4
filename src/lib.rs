//! Decoding of TGA raster images into a flat pixel buffer.
//!
//! A [`decoder::TGADecoder`] reads from the bytes of a file: the 18-byte
//! header, the image id it skips, the optional color map, then the raw or
//! run-length encoded pixels, which it expands through the color map where
//! the image uses one and turns from BGR to RGB order.

pub mod color;
pub mod color_map;
pub mod decoder;
pub mod error;
pub mod header;
pub mod image_type;
pub mod pixels;
pub mod source;
