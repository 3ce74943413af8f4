//! The fixed 18-byte TGA header.
use vstd::prelude::*;

use crate::error::ImageError;
use crate::source::{ByteSource, count_after, le_u16};

verus! {

/// Header used by TGA image files
#[derive(Clone, Copy, Debug, PartialEq, Eq, Structural)]
pub struct Header {
    /// length of ID string
    pub id_length: u8,
    /// color map type
    pub map_type: u8,
    /// image type code
    pub image_type: u8,
    /// starting index of map
    pub map_origin: u16,
    /// length of map
    pub map_length: u16,
    /// size of map entries in bits
    pub map_entry_size: u8,
    /// x-origin of image
    pub x_origin: u16,
    /// y-origin of image
    pub y_origin: u16,
    /// width of image
    pub image_width: u16,
    /// height of image
    pub image_height: u16,
    /// bits per pixel
    pub pixel_depth: u8,
    /// image descriptor
    pub image_desc: u8,
}

/// The size of a header in bytes.
pub const HEADER_LEN: usize = 18;

/// The header that 18 bytes encode, fields in order, 16-bit ones little-endian.
pub open spec fn parse_header(s: Seq<u8>) -> Header {
    Header {
        id_length: s[0],
        map_type: s[1],
        image_type: s[2],
        map_origin: le_u16(s[3], s[4]),
        map_length: le_u16(s[5], s[6]),
        map_entry_size: s[7],
        x_origin: le_u16(s[8], s[9]),
        y_origin: le_u16(s[10], s[11]),
        image_width: le_u16(s[12], s[13]),
        image_height: le_u16(s[14], s[15]),
        pixel_depth: s[16],
        image_desc: s[17],
    }
}

/// The two little-endian bytes of a 16-bit value.
pub open spec fn le_bytes(v: u16) -> Seq<u8> {
    seq![(v % 256) as u8, (v / 256) as u8]
}

/// The 18 bytes that encode a header.
pub open spec fn header_bytes(h: Header) -> Seq<u8> {
    seq![h.id_length, h.map_type, h.image_type] + le_bytes(h.map_origin) + le_bytes(h.map_length)
        + seq![h.map_entry_size] + le_bytes(h.x_origin) + le_bytes(h.y_origin) + le_bytes(
        h.image_width,
    ) + le_bytes(h.image_height) + seq![h.pixel_depth, h.image_desc]
}

proof fn lemma_le_u16_round_trip(lo: u8, hi: u8, v: u16)
    ensures
        le_bytes(le_u16(lo, hi)) == seq![lo, hi],
        le_u16(le_bytes(v)[0], le_bytes(v)[1]) == v,
{
    assert(le_bytes(le_u16(lo, hi)) =~= seq![lo, hi]);
}

/// Parsing 18 bytes and encoding the fields again gives back the same bytes,
/// and encoding a header and parsing the bytes gives back the same header.
pub proof fn lemma_header_round_trip(s: Seq<u8>, h: Header)
    requires
        s.len() == HEADER_LEN,
    ensures
        header_bytes(parse_header(s)) == s,
        parse_header(header_bytes(h)) == h,
{
    lemma_le_u16_round_trip(s[3], s[4], h.map_origin);
    lemma_le_u16_round_trip(s[5], s[6], h.map_length);
    lemma_le_u16_round_trip(s[8], s[9], h.x_origin);
    lemma_le_u16_round_trip(s[10], s[11], h.y_origin);
    lemma_le_u16_round_trip(s[12], s[13], h.image_width);
    lemma_le_u16_round_trip(s[14], s[15], h.image_height);
    assert(header_bytes(parse_header(s)) =~= s);
    assert(parse_header(header_bytes(h)) == h);
}

impl Header {
    /// Create a header with all values set to zero
    pub fn new() -> (r: Header)
        ensures
            header_bytes(r) == Seq::new(HEADER_LEN as nat, |i: int| 0u8),
    {
        let r = Header {
            id_length: 0,
            map_type: 0,
            image_type: 0,
            map_origin: 0,
            map_length: 0,
            map_entry_size: 0,
            x_origin: 0,
            y_origin: 0,
            image_width: 0,
            image_height: 0,
            pixel_depth: 0,
            image_desc: 0,
        };
        assert(header_bytes(r) =~= Seq::new(HEADER_LEN as nat, |i: int| 0u8));
        r
    }

    /// Load the header with values from the reader
    pub fn from_reader(r: &mut ByteSource) -> (res: Result<Header, ImageError>)
        requires
            old(r).wf(),
        ensures
            final(r).wf(),
            final(r).data() == old(r).data(),
            res is Ok <==> old(r).position() + HEADER_LEN <= old(r).data().len(),
            res is Ok ==> res->Ok_0 == parse_header(
                old(r).data().subrange(old(r).position(), old(r).position() + HEADER_LEN),
            ) && final(r).position() == old(r).position() + HEADER_LEN && final(r).read_count()
                == count_after(old(r).read_count(), 12),
            res is Err ==> res->Err_0 == ImageError::UnexpectedEof,
    {
        let ghost s = old(r).data();
        let ghost p = old(r).position();
        let id_length = r.read_u8()?;
        let map_type = r.read_u8()?;
        let image_type = r.read_u8()?;
        let map_origin = r.read_le_u16()?;
        let map_length = r.read_le_u16()?;
        let map_entry_size = r.read_u8()?;
        let x_origin = r.read_le_u16()?;
        let y_origin = r.read_le_u16()?;
        let image_width = r.read_le_u16()?;
        let image_height = r.read_le_u16()?;
        let pixel_depth = r.read_u8()?;
        let image_desc = r.read_u8()?;
        let h = Header {
            id_length,
            map_type,
            image_type,
            map_origin,
            map_length,
            map_entry_size,
            x_origin,
            y_origin,
            image_width,
            image_height,
            pixel_depth,
            image_desc,
        };
        assert(r.position() == p + HEADER_LEN);
        let ghost t = s.subrange(p, p + HEADER_LEN);
        assert(forall|i: int| 0 <= i < HEADER_LEN ==> t[i] == s[p + i]);
        assert(h == parse_header(t));
        Ok(h)
    }
}

} // verus!
