//! Classification of the header's image type code.
use vstd::prelude::*;

verus! {

/// The kind of pixel data a TGA file holds.
#[derive(Clone, Copy, Debug, PartialEq, Eq, Structural)]
pub enum ImageType {
    NoImageData,
    /// Uncompressed images
    RawColorMap,
    RawTrueColor,
    RawGreyScale,
    /// Run length encoded images
    RunColorMap,
    RunTrueColor,
    RunGreyScale,
    Unknown,
}

/// The image type that a header's type code stands for.
pub open spec fn classify(code: u8) -> ImageType {
    match code {
        0 => ImageType::NoImageData,
        1 => ImageType::RawColorMap,
        2 => ImageType::RawTrueColor,
        3 => ImageType::RawGreyScale,
        9 => ImageType::RunColorMap,
        10 => ImageType::RunTrueColor,
        11 => ImageType::RunGreyScale,
        _ => ImageType::Unknown,
    }
}

impl ImageType {
    pub open spec fn spec_is_color(self) -> bool {
        match self {
            ImageType::RawColorMap | ImageType::RawTrueColor | ImageType::RunTrueColor
            | ImageType::RunColorMap => true,
            _ => false,
        }
    }

    pub open spec fn spec_is_color_mapped(self) -> bool {
        match self {
            ImageType::RawColorMap | ImageType::RunColorMap => true,
            _ => false,
        }
    }

    pub open spec fn spec_is_encoded(self) -> bool {
        match self {
            ImageType::RunColorMap | ImageType::RunTrueColor | ImageType::RunGreyScale => true,
            _ => false,
        }
    }

    /// Create a new image type from a u8
    pub fn new(img_type: u8) -> (r: ImageType)
        ensures
            r == classify(img_type),
    {
        match img_type {
            0 => ImageType::NoImageData,
            1 => ImageType::RawColorMap,
            2 => ImageType::RawTrueColor,
            3 => ImageType::RawGreyScale,
            9 => ImageType::RunColorMap,
            10 => ImageType::RunTrueColor,
            11 => ImageType::RunGreyScale,
            _ => ImageType::Unknown,
        }
    }

    /// Check if the image format uses colors as opposed to grey scale
    pub fn is_color(&self) -> (r: bool)
        ensures
            r == self.spec_is_color(),
    {
        match *self {
            ImageType::RawColorMap | ImageType::RawTrueColor | ImageType::RunTrueColor
            | ImageType::RunColorMap => true,
            _ => false,
        }
    }

    /// Does the image use a color map
    pub fn is_color_mapped(&self) -> (r: bool)
        ensures
            r == self.spec_is_color_mapped(),
    {
        match *self {
            ImageType::RawColorMap | ImageType::RunColorMap => true,
            _ => false,
        }
    }

    /// Is the image run length encoded
    pub fn is_encoded(&self) -> (r: bool)
        ensures
            r == self.spec_is_encoded(),
    {
        match *self {
            ImageType::RunColorMap | ImageType::RunTrueColor | ImageType::RunGreyScale => true,
            _ => false,
        }
    }
}

/// Every byte is classified, and only the seven listed codes name a known
/// image type. Color images are exactly codes 1, 2, 9 and 10, color-mapped
/// images codes 1 and 9, and run-length encoded images codes 9, 10 and 11.
/// Two codes that name the same known type are the same code.
pub proof fn lemma_classify_tables(code: u8, other: u8)
    ensures
        (classify(code) == ImageType::Unknown) <==> !(code == 0 || code == 1 || code == 2
            || code == 3 || code == 9 || code == 10 || code == 11),
        classify(code).spec_is_color() <==> (code == 1 || code == 2 || code == 9 || code == 10),
        classify(code).spec_is_color_mapped() <==> (code == 1 || code == 9),
        classify(code).spec_is_encoded() <==> (code == 9 || code == 10 || code == 11),
        classify(code) != ImageType::Unknown && classify(code) == classify(other) ==> code
            == other,
{
}

} // verus!
