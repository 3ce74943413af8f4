//! Errors of the decoder.
use vstd::prelude::*;

verus! {

/// Why a header describes an image that this decoder does not handle.
#[derive(Clone, Copy, Debug, PartialEq, Eq, Structural)]
pub enum Unsupported {
    /// The pixel depth is not a multiple of 8.
    DepthNotByteAligned,
    /// The pixel depth is above 32.
    DepthTooLarge,
    /// No color type has this pair of channel depth and alpha bits.
    ColorFormat { bit_depth: u8, alpha_bits: u8 },
    /// Row-at-a-time decoding is not offered.
    Scanline,
}

/// What goes wrong while decoding.
#[derive(Clone, Copy, Debug, PartialEq, Eq, Structural)]
pub enum ImageError {
    /// The source ended before a read or seek was done.
    UnexpectedEof,
    /// The image uses a format this decoder does not handle.
    UnsupportedError(Unsupported),
    /// The image type uses a color map and the file has none.
    MissingColorMap,
    /// A pixel's color-map index lies past the end of the color map.
    ColorMapIndexOutOfRange,
}

} // verus!
