//! The TGA decoder: metadata loaded once, then the pixel data on request.
use vstd::prelude::*;

use crate::color::{resolve_color_type, resolved_color_type, ColorType};
use crate::color_map::{bytes_for_bits, expand_color_map, expanded, ColorMap, Palette};
use crate::error::{ImageError, Unsupported};
use crate::header::{parse_header, Header, HEADER_LEN};
use crate::image_type::{classify, ImageType};
use crate::pixels::{bgr_to_rgb, needs_reversal, read_encoded_data, reverse_encoding, rle_decode};
use crate::source::{ByteSource, count_after};

verus! {

/// Bytes of color map that follow the image id, for a header.
pub open spec fn map_bytes(h: Header) -> nat {
    if h.map_type == 1 {
        bytes_for_bits(h.map_entry_size) * (h.map_length as nat)
    } else {
        0
    }
}

/// Reads and seeks made on the source while loading the metadata: twelve
/// for the header fields, one to skip the image id, and one for the color
/// map where there is one.
pub open spec fn metadata_reads(h: Header) -> nat {
    if h.map_type == 1 {
        14
    } else {
        13
    }
}

/// Loading the metadata from index `p` of `data`: the header, the index where
/// the pixel data starts and the color type, or the error that stops it.
/// The header is read, the image id skipped, the color map read, and the
/// color type resolved, in this order.
pub open spec fn metadata_result(data: Seq<u8>, p: int) -> Result<(Header, int, ColorType), ImageError> {
    if p + HEADER_LEN > data.len() {
        Err(ImageError::UnexpectedEof)
    } else {
        let h = parse_header(data.subrange(p, p + HEADER_LEN));
        let map_pos = p + HEADER_LEN + h.id_length;
        if map_pos > data.len() {
            Err(ImageError::UnexpectedEof)
        } else if map_pos + map_bytes(h) > data.len() {
            Err(ImageError::UnexpectedEof)
        } else {
            match resolved_color_type(h) {
                Ok(ct) => Ok((h, map_pos + map_bytes(h), ct)),
                Err(e) => Err(e),
            }
        }
    }
}

/// The pixel bytes stored from index `q` of `data`, before any color-map
/// expansion, or `None` where the data ends first.
pub open spec fn raw_pixels(data: Seq<u8>, q: int, h: Header) -> Option<Seq<u8>> {
    let k = bytes_for_bits(h.pixel_depth);
    let np = h.image_width as nat * h.image_height as nat;
    if classify(h.image_type).spec_is_encoded() {
        match rle_decode(data, q, 0, np as int, k) {
            Some((s, _, _)) => Some(s),
            None => None,
        }
    } else if q + np * k <= data.len() {
        Some(data.subrange(q, q + np * k))
    } else {
        None
    }
}

/// The index after the pixel data that starts at `q`, where `raw_pixels`
/// reads it.
pub open spec fn pixel_end(data: Seq<u8>, q: int, h: Header) -> int {
    let k = bytes_for_bits(h.pixel_depth);
    let np = h.image_width as nat * h.image_height as nat;
    if classify(h.image_type).spec_is_encoded() {
        rle_decode(data, q, 0, np as int, k)->Some_0.1
    } else {
        q + np * k
    }
}

/// Reads made on the source for the pixel data that starts at `q`: two per
/// run-length packet, or one for raw data.
pub open spec fn pixel_reads(data: Seq<u8>, q: int, h: Header) -> nat {
    let k = bytes_for_bits(h.pixel_depth);
    let np = h.image_width as nat * h.image_height as nat;
    if classify(h.image_type).spec_is_encoded() {
        2 * rle_decode(data, q, 0, np as int, k)->Some_0.2
    } else {
        1
    }
}

/// The palette of a color map, if there is one.
pub open spec fn map_palette(m: Option<ColorMap>) -> Option<Palette> {
    match m {
        Some(c) => Some(c.palette()),
        None => None,
    }
}

/// The palette that loading the metadata from index `p` of `data` reads,
/// for a header whose map type is 1.
pub open spec fn loaded_palette(data: Seq<u8>, p: int, h: Header) -> Palette {
    let map_pos = p + HEADER_LEN + h.id_length;
    (h.map_origin as nat, bytes_for_bits(h.map_entry_size), data.subrange(map_pos, map_pos + map_bytes(h)))
}

/// The decoded image whose pixel data starts at index `q` of `data`: the
/// stored pixels, expanded through the color map where the image type uses
/// one, with the first and third byte swapped in each chunk of
/// bytes-per-pixel bytes of an RGB or RGBA image.
pub open spec fn image_result(
    data: Seq<u8>,
    q: int,
    h: Header,
    map: Option<Palette>,
    ct: ColorType,
) -> Result<Seq<u8>, ImageError> {
    let k = bytes_for_bits(h.pixel_depth);
    match raw_pixels(data, q, h) {
        None => Err(ImageError::UnexpectedEof),
        Some(raw) => if classify(h.image_type).spec_is_color_mapped() {
            match map {
                None => Err(ImageError::MissingColorMap),
                Some(m) => match expanded(raw, k, m) {
                    None => Err(ImageError::ColorMapIndexOutOfRange),
                    Some(e) => Ok(
                        if needs_reversal(ct) {
                            bgr_to_rgb(e, k)
                        } else {
                            e
                        },
                    ),
                },
            }
        } else {
            Ok(
                if needs_reversal(ct) {
                    bgr_to_rgb(raw, k)
                } else {
                    raw
                },
            )
        },
    }
}

/// The image that loading the metadata from index `p` of `data` and then
/// reading the pixel data gives, for a decoder that held `old_map` before:
/// a header without a color map leaves the map held as it was.
pub open spec fn decoded_from(data: Seq<u8>, p: int, old_map: Option<Palette>) -> Result<
    Seq<u8>,
    ImageError,
> {
    match metadata_result(data, p) {
        Err(e) => Err(e),
        Ok((h, q, ct)) => image_result(
            data,
            q,
            h,
            if h.map_type == 1 {
                Some(loaded_palette(data, p, h))
            } else {
                old_map
            },
            ct,
        ),
    }
}

/// A result with its value dropped.
pub open spec fn unit_result<T>(r: Result<T, ImageError>) -> Result<(), ImageError> {
    match r {
        Ok(_) => Ok(()),
        Err(e) => Err(e),
    }
}

/// The representation of a TGA decoder
pub struct TGADecoder {
    r: ByteSource,
    width: usize,
    height: usize,
    bytes_per_pixel: usize,
    has_loaded_metadata: bool,
    image_type: ImageType,
    color_type: ColorType,
    header: Header,
    color_map: Option<ColorMap>,
}

impl TGADecoder {
    pub closed spec fn source(&self) -> ByteSource {
        self.r
    }

    pub closed spec fn loaded(&self) -> bool {
        self.has_loaded_metadata
    }

    pub closed spec fn spec_header(&self) -> Header {
        self.header
    }

    pub closed spec fn spec_color_type(&self) -> ColorType {
        self.color_type
    }

    pub closed spec fn spec_color_map(&self) -> Option<ColorMap> {
        self.color_map
    }

    pub closed spec fn wf(&self) -> bool {
        &&& self.r.wf()
        &&& self.has_loaded_metadata ==> {
            &&& self.image_type == classify(self.header.image_type)
            &&& self.width == self.header.image_width
            &&& self.height == self.header.image_height
            &&& self.bytes_per_pixel == bytes_for_bits(self.header.pixel_depth)
            &&& resolved_color_type(self.header) == Ok::<ColorType, ImageError>(self.color_type)
        }
    }

    /// The metadata held is what loading from index `p` of `data` gives, and
    /// the source stands where the pixel data starts.
    pub open spec fn loaded_from(&self, data: Seq<u8>, p: int) -> bool {
        &&& self.meta_from(data, p)
        &&& self.source().position() == metadata_result(data, p)->Ok_0.1
    }

    /// The metadata held is what loading from index `p` of `data` gives.
    pub open spec fn meta_from(&self, data: Seq<u8>, p: int) -> bool {
        let m = metadata_result(data, p);
        &&& m is Ok
        &&& self.loaded()
        &&& self.spec_header() == m->Ok_0.0
        &&& self.spec_color_type() == m->Ok_0.2
        &&& m->Ok_0.0.map_type == 1 ==> map_palette(self.spec_color_map()) == Some(
            loaded_palette(data, p, m->Ok_0.0),
        )
    }

    /// What a query that loads the metadata on first use does: nothing where
    /// it is loaded already, else the load from the current position.
    pub open spec fn load_post(old_d: TGADecoder, new_d: TGADecoder, r: Result<(), ImageError>) -> bool {
        let data = old_d.source().data();
        &&& new_d.wf()
        &&& new_d.source().data() == data
        &&& old_d.loaded() ==> new_d == old_d && r is Ok
        &&& !old_d.loaded() ==> {
            let m = metadata_result(data, old_d.source().position());
            &&& r is Ok <==> m is Ok
            &&& r is Ok ==> new_d.loaded_from(data, old_d.source().position())
            &&& r is Ok && m->Ok_0.0.map_type != 1 ==> new_d.spec_color_map()
                == old_d.spec_color_map()
            &&& r is Ok ==> new_d.source().read_count() == count_after(
                old_d.source().read_count(),
                metadata_reads(m->Ok_0.0),
            )
            &&& r is Err ==> r->Err_0 == m->Err_0 && !new_d.loaded()
        }
    }

    /// Create a new decoder that decodes from the bytes of `r`
    pub fn new(r: Vec<u8>) -> (d: TGADecoder)
        ensures
            d.wf(),
            !d.loaded(),
            d.spec_color_map() is None,
            d.source().data() == r@,
            d.source().position() == 0,
            d.source().read_count() == 0,
    {
        TGADecoder {
            r: ByteSource::new(r),
            width: 0,
            height: 0,
            bytes_per_pixel: 0,
            has_loaded_metadata: false,
            image_type: ImageType::Unknown,
            color_type: ColorType::Grey(1),
            header: Header::new(),
            color_map: None,
        }
    }

    /// How many reads and seeks were made on the source.
    pub fn source_reads(&self) -> (n: u64)
        ensures
            n == self.source().read_count(),
    {
        self.r.reads()
    }

    /// The index of the next byte to read from the source.
    pub fn source_position(&self) -> (n: usize)
        ensures
            n == self.source().position(),
    {
        self.r.pos()
    }

    fn read_header(&mut self) -> (res: Result<(), ImageError>)
        requires
            old(self).r.wf(),
        ensures
            final(self).r.wf(),
            final(self).r.data() == old(self).r.data(),
            final(self).has_loaded_metadata == old(self).has_loaded_metadata,
            final(self).color_map == old(self).color_map,
            final(self).color_type == old(self).color_type,
            res is Ok <==> old(self).r.position() + HEADER_LEN <= old(self).r.data().len(),
            res is Ok ==> {
                &&& final(self).header == parse_header(
                    old(self).r.data().subrange(
                        old(self).r.position(),
                        old(self).r.position() + HEADER_LEN,
                    ),
                )
                &&& final(self).r.position() == old(self).r.position() + HEADER_LEN
                &&& final(self).image_type == classify(final(self).header.image_type)
                &&& final(self).width == final(self).header.image_width
                &&& final(self).height == final(self).header.image_height
                &&& final(self).bytes_per_pixel == bytes_for_bits(final(self).header.pixel_depth)
                &&& final(self).r.read_count() == count_after(old(self).r.read_count(), 12)
            },
            res is Err ==> {
                &&& res->Err_0 == ImageError::UnexpectedEof
                &&& final(self).header == old(self).header
                &&& final(self).image_type == old(self).image_type
                &&& final(self).width == old(self).width
                &&& final(self).height == old(self).height
                &&& final(self).bytes_per_pixel == old(self).bytes_per_pixel
            },
    {
        self.header = Header::from_reader(&mut self.r)?;
        self.image_type = ImageType::new(self.header.image_type);
        self.width = self.header.image_width as usize;
        self.height = self.header.image_height as usize;
        self.bytes_per_pixel = (self.header.pixel_depth as usize + 7) / 8;
        Ok(())
    }

    /// Read the image id field
    ///
    /// We're not interested in this field, so this function skips it if it
    /// is present
    fn read_image_id(&mut self) -> (res: Result<(), ImageError>)
        requires
            old(self).r.wf(),
        ensures
            final(self).r.wf(),
            final(self).r.data() == old(self).r.data(),
            final(self).has_loaded_metadata == old(self).has_loaded_metadata,
            final(self).color_map == old(self).color_map,
            final(self).header == old(self).header,
            final(self).image_type == old(self).image_type,
            final(self).width == old(self).width,
            final(self).height == old(self).height,
            final(self).bytes_per_pixel == old(self).bytes_per_pixel,
            final(self).color_type == old(self).color_type,
            final(self).r.read_count() == count_after(old(self).r.read_count(), 1),
            res is Ok <==> old(self).r.position() + old(self).header.id_length <= old(
                self,
            ).r.data().len(),
            res is Ok ==> final(self).r.position() == old(self).r.position()
                + old(self).header.id_length,
            res is Err ==> res->Err_0 == ImageError::UnexpectedEof,
    {
        self.r.skip(self.header.id_length as usize)
    }

    fn read_color_map(&mut self) -> (res: Result<(), ImageError>)
        requires
            old(self).r.wf(),
        ensures
            final(self).r.wf(),
            final(self).color_type == old(self).color_type,
            final(self).r.data() == old(self).r.data(),
            final(self).has_loaded_metadata == old(self).has_loaded_metadata,
            final(self).header == old(self).header,
            final(self).image_type == old(self).image_type,
            final(self).width == old(self).width,
            final(self).height == old(self).height,
            final(self).bytes_per_pixel == old(self).bytes_per_pixel,
            ({
                let h = old(self).header;
                let p = old(self).r.position();
                &&& res is Ok <==> p + map_bytes(h) <= old(self).r.data().len()
                &&& res is Ok ==> final(self).r.position() == p + map_bytes(h)
                &&& res is Ok ==> final(self).r.read_count() == count_after(
                    old(self).r.read_count(),
                    if h.map_type == 1 {
                        1
                    } else {
                        0
                    },
                )
                &&& res is Ok && h.map_type == 1 ==> {
                    &&& final(self).color_map is Some
                    &&& final(self).color_map->Some_0.start() == h.map_origin
                    &&& final(self).color_map->Some_0.size() == bytes_for_bits(h.map_entry_size)
                    &&& final(self).color_map->Some_0.contents() == old(self).r.data().subrange(
                        p,
                        p + map_bytes(h),
                    )
                }
                &&& h.map_type != 1 ==> final(self).color_map == old(self).color_map
            }),
            res is Err ==> res->Err_0 == ImageError::UnexpectedEof,
    {
        if self.header.map_type == 1 {
            let m = ColorMap::from_reader(
                &mut self.r,
                self.header.map_origin,
                self.header.map_length,
                self.header.map_entry_size,
            )?;
            self.color_map = Some(m);
        }
        Ok(())
    }

    /// Loads the color information for the decoder
    fn read_color_information(&mut self) -> (res: Result<(), ImageError>)
        requires
            old(self).image_type == classify(old(self).header.image_type),
        ensures
            final(self).r == old(self).r,
            final(self).has_loaded_metadata == old(self).has_loaded_metadata,
            final(self).color_map == old(self).color_map,
            final(self).header == old(self).header,
            final(self).image_type == old(self).image_type,
            final(self).width == old(self).width,
            final(self).height == old(self).height,
            final(self).bytes_per_pixel == old(self).bytes_per_pixel,
            res is Ok <==> resolved_color_type(old(self).header) is Ok,
            res is Ok ==> resolved_color_type(old(self).header) == Ok::<ColorType, ImageError>(
                final(self).color_type,
            ),
            res is Err ==> res->Err_0 == resolved_color_type(old(self).header)->Err_0
                && final(self).color_type == old(self).color_type,
    {
        self.color_type = resolve_color_type(&self.header, self.image_type)?;
        Ok(())
    }

    fn read_metadata(&mut self) -> (res: Result<(), ImageError>)
        requires
            old(self).wf(),
        ensures
            TGADecoder::load_post(*old(self), *final(self), res),
    {
        if !self.has_loaded_metadata {
            self.read_header()?;
            self.read_image_id()?;
            self.read_color_map()?;
            self.read_color_information()?;
            self.has_loaded_metadata = true;
        }
        Ok(())
    }

    fn read_image_data(&mut self) -> (res: Result<Vec<u8>, ImageError>)
        requires
            old(self).wf(),
            old(self).has_loaded_metadata,
        ensures
            final(self).wf(),
            final(self).r.data() == old(self).r.data(),
            final(self).has_loaded_metadata,
            final(self).header == old(self).header,
            final(self).color_type == old(self).color_type,
            final(self).color_map == old(self).color_map,
            raw_pixels(old(self).r.data(), old(self).r.position(), old(self).header) is Some ==> {
                &&& final(self).r.position() == pixel_end(
                    old(self).r.data(),
                    old(self).r.position(),
                    old(self).header,
                )
                &&& final(self).r.read_count() == count_after(
                    old(self).r.read_count(),
                    pixel_reads(old(self).r.data(), old(self).r.position(), old(self).header),
                )
            },
            ({
                let ir = image_result(
                    old(self).r.data(),
                    old(self).r.position(),
                    old(self).header,
                    map_palette(old(self).color_map),
                    old(self).color_type,
                );
                &&& res is Ok <==> ir is Ok
                &&& res is Ok ==> res->Ok_0@ == ir->Ok_0
                &&& res is Err ==> res->Err_0 == ir->Err_0
            }),
    {
        let ghost data = self.r.data();
        let ghost q = self.r.position();
        let k = self.bytes_per_pixel;
        assert(k <= 4);
        assert(self.width * self.height <= 65535 * 65535) by (nonlinear_arith)
            requires
                self.width <= 65535,
                self.height <= 65535,
        ;
        let num_pixels = (self.width * self.height) as u32;
        // read the pixels from the data region
        let mut pixel_data = if self.image_type.is_encoded() {
            read_encoded_data(&mut self.r, num_pixels, k)?
        } else {
            assert(num_pixels as u64 * k as u64 <= 65535 * 65535 * 4) by (nonlinear_arith)
                requires
                    num_pixels <= 65535 * 65535,
                    k <= 4,
            ;
            let num_raw_bytes = num_pixels as u64 * k as u64;
            if num_raw_bytes > self.r.remaining() as u64 {
                return Err(ImageError::UnexpectedEof);
            }
            self.r.read_exact(num_raw_bytes as usize)?
        };
        assert(Some(pixel_data@) == raw_pixels(data, q, self.header));
        // expand the indices using the color map if necessary
        if self.image_type.is_color_mapped() {
            match &self.color_map {
                None => {
                    return Err(ImageError::MissingColorMap);
                },
                Some(color_map) => {
                    if k == 0 {
                        assert(expanded(pixel_data@, 0, color_map.palette()) == Some(
                            Seq::<u8>::empty(),
                        ));
                        pixel_data = Vec::new();
                    } else {
                        pixel_data = expand_color_map(&pixel_data, k, color_map)?;
                    }
                },
            }
        }
        reverse_encoding(&mut pixel_data, k, self.color_type);
        Ok(pixel_data)
    }

    /// The width and height of the image, loading the metadata first if it
    /// is not loaded yet.
    pub fn dimensions(&mut self) -> (res: Result<(u32, u32), ImageError>)
        requires
            old(self).wf(),
        ensures
            TGADecoder::load_post(*old(self), *final(self), unit_result(res)),
            res is Ok ==> res->Ok_0 == (
                final(self).spec_header().image_width as u32,
                final(self).spec_header().image_height as u32,
            ),
    {
        self.read_metadata()?;
        Ok((self.width as u32, self.height as u32))
    }

    /// The color type of the decoded pixels, loading the metadata first if
    /// it is not loaded yet.
    pub fn colortype(&mut self) -> (res: Result<ColorType, ImageError>)
        requires
            old(self).wf(),
        ensures
            TGADecoder::load_post(*old(self), *final(self), unit_result(res)),
            res is Ok ==> res->Ok_0 == final(self).spec_color_type(),
    {
        self.read_metadata()?;
        Ok(self.color_type)
    }

    /// The row length reported to callers: bytes per pixel, times 8, times
    /// the width. This is the width in bits, not in bytes.
    pub fn row_len(&mut self) -> (res: Result<usize, ImageError>)
        requires
            old(self).wf(),
        ensures
            TGADecoder::load_post(*old(self), *final(self), unit_result(res)),
            res is Ok ==> res->Ok_0 == bytes_for_bits(final(self).spec_header().pixel_depth) * 8
                * final(self).spec_header().image_width,
    {
        self.read_metadata()?;
        assert(self.bytes_per_pixel * 8 * self.width <= 4 * 8 * 65535) by (nonlinear_arith)
            requires
                self.bytes_per_pixel <= 4,
                self.width <= 65535,
        ;
        Ok(self.bytes_per_pixel * 8 * self.width)
    }

    /// Row-at-a-time decoding is not offered: this always fails, and changes
    /// nothing.
    pub fn read_scanline(&mut self, buf: &mut [u8]) -> (res: Result<u32, ImageError>)
        ensures
            *final(self) == *old(self),
            final(buf)@ == old(buf)@,
            res == Err::<u32, ImageError>(ImageError::UnsupportedError(Unsupported::Scanline)),
    {
        Err(ImageError::UnsupportedError(Unsupported::Scanline))
    }

    /// Decode the whole image, loading the metadata first if it is not loaded
    /// yet. Pixel data is read from where the source stands once the metadata
    /// is loaded.
    pub fn read_image(&mut self) -> (res: Result<Vec<u8>, ImageError>)
        requires
            old(self).wf(),
        ensures
            final(self).wf(),
            final(self).source().data() == old(self).source().data(),
            ({
                let data = old(self).source().data();
                let p = old(self).source().position();
                let m = metadata_result(data, p);
                if old(self).loaded() {
                    &&& final(self).loaded()
                    &&& final(self).spec_header() == old(self).spec_header()
                    &&& final(self).spec_color_type() == old(self).spec_color_type()
                    &&& final(self).spec_color_map() == old(self).spec_color_map()
                    &&& raw_pixels(data, p, old(self).spec_header()) is Some ==> {
                        &&& final(self).source().position() == pixel_end(
                            data,
                            p,
                            old(self).spec_header(),
                        )
                        &&& final(self).source().read_count() == count_after(
                            old(self).source().read_count(),
                            pixel_reads(data, p, old(self).spec_header()),
                        )
                    }
                    &&& unit_result(res) == unit_result(
                        image_result(
                            data,
                            p,
                            old(self).spec_header(),
                            map_palette(old(self).spec_color_map()),
                            old(self).spec_color_type(),
                        ),
                    )
                    &&& res is Ok ==> res->Ok_0@ == image_result(
                        data,
                        p,
                        old(self).spec_header(),
                        map_palette(old(self).spec_color_map()),
                        old(self).spec_color_type(),
                    )->Ok_0
                } else if m is Err {
                    res == Err::<Vec<u8>, ImageError>(m->Err_0) && !final(self).loaded()
                } else {
                    let ir = decoded_from(data, p, map_palette(old(self).spec_color_map()));
                    &&& final(self).meta_from(data, p)
                    &&& m->Ok_0.0.map_type != 1 ==> final(self).spec_color_map() == old(
                        self,
                    ).spec_color_map()
                    &&& raw_pixels(data, m->Ok_0.1, m->Ok_0.0) is Some ==> {
                        &&& final(self).source().position() == pixel_end(
                            data,
                            m->Ok_0.1,
                            m->Ok_0.0,
                        )
                        &&& final(self).source().read_count() == count_after(
                            old(self).source().read_count(),
                            metadata_reads(m->Ok_0.0) + pixel_reads(data, m->Ok_0.1, m->Ok_0.0),
                        )
                    }
                    &&& unit_result(res) == unit_result(ir)
                    &&& res is Ok ==> res->Ok_0@ == ir->Ok_0
                }
            }),
    {
        self.read_metadata()?;
        self.read_image_data()
    }
}

/// Once a query has loaded the metadata, a second query loads nothing: the
/// decoder, its source's position and its count of reads stay as they are.
/// Over both queries the metadata is read once: the reads made are those of
/// one load, and the source stands where the pixel data starts. The image
/// then read is the one that a decoder still to load would read.
pub proof fn lemma_metadata_loaded_once(
    d0: TGADecoder,
    d1: TGADecoder,
    d2: TGADecoder,
    r1: Result<(), ImageError>,
    r2: Result<(), ImageError>,
)
    requires
        TGADecoder::load_post(d0, d1, r1),
        r1 is Ok,
        TGADecoder::load_post(d1, d2, r2),
    ensures
        d2 == d1,
        d2.source().read_count() == d1.source().read_count(),
        d2.source().position() == d1.source().position(),
        r2 is Ok,
        !d0.loaded() ==> {
            let m = metadata_result(d0.source().data(), d0.source().position());
            &&& d2.source().read_count() == count_after(
                d0.source().read_count(),
                metadata_reads(m->Ok_0.0),
            )
            &&& d2.source().position() == m->Ok_0.1
            &&& image_result(
                d0.source().data(),
                d2.source().position(),
                d2.spec_header(),
                map_palette(d2.spec_color_map()),
                d2.spec_color_type(),
            ) == decoded_from(
                d0.source().data(),
                d0.source().position(),
                map_palette(d0.spec_color_map()),
            )
        },
{
}

} // verus!
