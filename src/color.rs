//! The output channel layout, resolved from the header.
use vstd::prelude::*;

use crate::error::{ImageError, Unsupported};
use crate::header::Header;
use crate::image_type::{classify, ImageType};

verus! {

/// The channels of a decoded pixel and the bits of each.
#[derive(Clone, Copy, Debug, PartialEq, Eq, Structural)]
pub enum ColorType {
    Grey(u8),
    GreyAlpha(u8),
    RGB(u8),
    RGBAlpha(u8),
}

/// The alpha bits of an image descriptor: its low four bits.
pub open spec fn alpha_bits(image_desc: u8) -> u8 {
    (image_desc % 16) as u8
}

/// The bits of the channels other than alpha, in the byte arithmetic of the
/// header: the entry size of a color-mapped image, else the pixel depth less
/// the alpha bits, modulo 256.
pub open spec fn other_channel_bits(h: Header) -> u8 {
    if classify(h.image_type).spec_is_color_mapped() {
        h.map_entry_size
    } else if alpha_bits(h.image_desc) <= h.pixel_depth {
        (h.pixel_depth - alpha_bits(h.image_desc)) as u8
    } else {
        (h.pixel_depth + 256 - alpha_bits(h.image_desc)) as u8
    }
}

/// The color type of a combination of alpha bits, other bits and color, if
/// the combination is one of the four supported ones.
pub open spec fn color_type_of(alpha: u8, other: u8, color: bool) -> Option<ColorType> {
    if alpha == 8 && other == 24 && color {
        Some(ColorType::RGBAlpha(8))
    } else if alpha == 0 && other == 24 && color {
        Some(ColorType::RGB(8))
    } else if alpha == 8 && other == 8 && !color {
        Some(ColorType::GreyAlpha(8))
    } else if alpha == 0 && other == 8 && !color {
        Some(ColorType::Grey(8))
    } else {
        None
    }
}

/// The color type that a header describes, or why it is not supported.
pub open spec fn resolved_color_type(h: Header) -> Result<ColorType, ImageError> {
    if h.pixel_depth % 8 != 0 {
        Err(ImageError::UnsupportedError(Unsupported::DepthNotByteAligned))
    } else if h.pixel_depth > 32 {
        Err(ImageError::UnsupportedError(Unsupported::DepthTooLarge))
    } else {
        let alpha = alpha_bits(h.image_desc);
        let other = other_channel_bits(h);
        match color_type_of(alpha, other, classify(h.image_type).spec_is_color()) {
            Some(c) => Ok(c),
            None => Err(
                ImageError::UnsupportedError(
                    Unsupported::ColorFormat { bit_depth: other, alpha_bits: alpha },
                ),
            ),
        }
    }
}

/// Work out the color type of an image from its header and image type.
///
/// To keep things simple, bit depths that are not a multiple of 8 or that
/// are above 32 are not handled.
pub fn resolve_color_type(header: &Header, image_type: ImageType) -> (r: Result<ColorType, ImageError>)
    requires
        image_type == classify(header.image_type),
    ensures
        r == resolved_color_type(*header),
{
    if header.pixel_depth % 8 != 0 {
        return Err(ImageError::UnsupportedError(Unsupported::DepthNotByteAligned));
    }
    if header.pixel_depth > 32 {
        return Err(ImageError::UnsupportedError(Unsupported::DepthTooLarge));
    }
    let desc = header.image_desc;
    let num_alpha_bits = desc & 0b1111;
    assert(num_alpha_bits == desc % 16) by (bit_vector)
        requires
            num_alpha_bits == desc & 0b1111,
    ;
    let other_channel_bits = if image_type.is_color_mapped() {
        header.map_entry_size
    } else if num_alpha_bits <= header.pixel_depth {
        header.pixel_depth - num_alpha_bits
    } else {
        (header.pixel_depth as u16 + 256 - num_alpha_bits as u16) as u8
    };
    let color = image_type.is_color();
    if num_alpha_bits == 8 && other_channel_bits == 24 && color {
        // really, the encoding is BGR and BGRA, this is fixed
        // up with `reverse_encoding`.
        Ok(ColorType::RGBAlpha(8))
    } else if num_alpha_bits == 0 && other_channel_bits == 24 && color {
        Ok(ColorType::RGB(8))
    } else if num_alpha_bits == 8 && other_channel_bits == 8 && !color {
        Ok(ColorType::GreyAlpha(8))
    } else if num_alpha_bits == 0 && other_channel_bits == 8 && !color {
        Ok(ColorType::Grey(8))
    } else {
        Err(
            ImageError::UnsupportedError(
                Unsupported::ColorFormat { bit_depth: other_channel_bits, alpha_bits: num_alpha_bits },
            ),
        )
    }
}

/// The resolver accepts exactly four combinations of alpha bits, other
/// channel bits and color, for pixel depths that are whole bytes up to 32,
/// and rejects every other header with an unsupported-format error.
pub proof fn lemma_resolver_accepts_exactly_four(h: Header)
    ensures
        resolved_color_type(h) is Ok <==> {
            let a = alpha_bits(h.image_desc);
            let o = other_channel_bits(h);
            let c = classify(h.image_type).spec_is_color();
            &&& h.pixel_depth % 8 == 0
            &&& h.pixel_depth <= 32
            &&& {
                ||| (a == 8 && o == 24 && c)
                ||| (a == 0 && o == 24 && c)
                ||| (a == 8 && o == 8 && !c)
                ||| (a == 0 && o == 8 && !c)
            }
        },
        resolved_color_type(h) is Err ==> resolved_color_type(h)->Err_0 is UnsupportedError,
        ({
            let a = alpha_bits(h.image_desc);
            let o = other_channel_bits(h);
            let c = classify(h.image_type).spec_is_color();
            let r = resolved_color_type(h);
            h.pixel_depth % 8 == 0 && h.pixel_depth <= 32 ==> {
                &&& (a == 8 && o == 24 && c) ==> r == Ok::<ColorType, ImageError>(
                    ColorType::RGBAlpha(8),
                )
                &&& (a == 0 && o == 24 && c) ==> r == Ok::<ColorType, ImageError>(ColorType::RGB(8))
                &&& (a == 8 && o == 8 && !c) ==> r == Ok::<ColorType, ImageError>(
                    ColorType::GreyAlpha(8),
                )
                &&& (a == 0 && o == 8 && !c) ==> r == Ok::<ColorType, ImageError>(ColorType::Grey(8))
                &&& r is Err ==> r->Err_0 == ImageError::UnsupportedError(
                    Unsupported::ColorFormat { bit_depth: o, alpha_bits: a },
                )
            }
        }),
{
}

} // verus!
