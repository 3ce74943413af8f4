use tga::color::{resolve_color_type, ColorType};
use tga::color_map::{expand_color_map, ColorMap};
use tga::decoder::TGADecoder;
use tga::error::{ImageError, Unsupported};
use tga::header::Header;
use tga::image_type::ImageType;
use tga::pixels::{read_encoded_data, reverse_encoding};
use tga::source::ByteSource;

#[allow(clippy::too_many_arguments)]
fn header_bytes(
    id_length: u8,
    map_type: u8,
    image_type: u8,
    map_length: u16,
    map_entry_size: u8,
    width: u16,
    height: u16,
    depth: u8,
    desc: u8,
) -> Vec<u8> {
    let mut v = vec![id_length, map_type, image_type, 0, 0];
    v.extend_from_slice(&map_length.to_le_bytes());
    v.push(map_entry_size);
    v.extend_from_slice(&[0, 0, 0, 0]);
    v.extend_from_slice(&width.to_le_bytes());
    v.extend_from_slice(&height.to_le_bytes());
    v.push(depth);
    v.push(desc);
    v
}

fn plain_header(image_type: u8, depth: u8, desc: u8) -> Header {
    Header {
        id_length: 0,
        map_type: 0,
        image_type,
        map_origin: 0,
        map_length: 0,
        map_entry_size: 0,
        x_origin: 0,
        y_origin: 0,
        image_width: 1,
        image_height: 1,
        pixel_depth: depth,
        image_desc: desc,
    }
}

#[test]
fn header_parse_and_reencode() {
    let bytes: Vec<u8> = vec![
        1, 0, 2, 0x34, 0x12, 0x78, 0x56, 24, 1, 0, 2, 0, 0x20, 0x03, 0x58, 0x02, 24, 8,
    ];
    let mut src = ByteSource::new(bytes.clone());
    let h = Header::from_reader(&mut src).unwrap();
    assert_eq!(h.id_length, 1);
    assert_eq!(h.map_type, 0);
    assert_eq!(h.image_type, 2);
    assert_eq!(h.map_origin, 0x1234);
    assert_eq!(h.map_length, 0x5678);
    assert_eq!(h.map_entry_size, 24);
    assert_eq!(h.x_origin, 1);
    assert_eq!(h.y_origin, 2);
    assert_eq!(h.image_width, 800);
    assert_eq!(h.image_height, 600);
    assert_eq!(h.pixel_depth, 24);
    assert_eq!(h.image_desc, 8);
    assert_eq!(src.pos(), 18);
    let mut again = vec![h.id_length, h.map_type, h.image_type];
    for v in [h.map_origin, h.map_length] {
        again.extend_from_slice(&v.to_le_bytes());
    }
    again.push(h.map_entry_size);
    for v in [h.x_origin, h.y_origin, h.image_width, h.image_height] {
        again.extend_from_slice(&v.to_le_bytes());
    }
    again.push(h.pixel_depth);
    again.push(h.image_desc);
    assert_eq!(again, bytes);
}

#[test]
fn header_too_short_is_eof() {
    let mut src = ByteSource::new(vec![0u8; 17]);
    assert_eq!(Header::from_reader(&mut src), Err(ImageError::UnexpectedEof));
}

#[test]
fn zeroed_header() {
    let h = Header::new();
    assert_eq!(h.image_width, 0);
    assert_eq!(h.pixel_depth, 0);
    assert_eq!(h.image_desc, 0);
}

#[test]
fn classify_every_byte() {
    for code in 0..=255u8 {
        let t = ImageType::new(code);
        let known = matches!(code, 0 | 1 | 2 | 3 | 9 | 10 | 11);
        assert_eq!(t == ImageType::Unknown, !known);
        assert_eq!(t.is_color(), matches!(code, 1 | 2 | 9 | 10));
        assert_eq!(t.is_color_mapped(), matches!(code, 1 | 9));
        assert_eq!(t.is_encoded(), matches!(code, 9 | 10 | 11));
    }
    assert_eq!(ImageType::new(0), ImageType::NoImageData);
    assert_eq!(ImageType::new(1), ImageType::RawColorMap);
    assert_eq!(ImageType::new(2), ImageType::RawTrueColor);
    assert_eq!(ImageType::new(3), ImageType::RawGreyScale);
    assert_eq!(ImageType::new(9), ImageType::RunColorMap);
    assert_eq!(ImageType::new(10), ImageType::RunTrueColor);
    assert_eq!(ImageType::new(11), ImageType::RunGreyScale);
}

#[test]
fn resolver_accepts_four_combinations() {
    let h = plain_header(2, 32, 8);
    assert_eq!(resolve_color_type(&h, ImageType::new(2)), Ok(ColorType::RGBAlpha(8)));
    let h = plain_header(2, 24, 0);
    assert_eq!(resolve_color_type(&h, ImageType::new(2)), Ok(ColorType::RGB(8)));
    let h = plain_header(3, 16, 8);
    assert_eq!(resolve_color_type(&h, ImageType::new(3)), Ok(ColorType::GreyAlpha(8)));
    let h = plain_header(3, 8, 0);
    assert_eq!(resolve_color_type(&h, ImageType::new(3)), Ok(ColorType::Grey(8)));
    let mut h = plain_header(1, 8, 0);
    h.map_entry_size = 24;
    assert_eq!(resolve_color_type(&h, ImageType::new(1)), Ok(ColorType::RGB(8)));
}

#[test]
fn resolver_rejects_others() {
    let h = plain_header(2, 12, 0);
    assert_eq!(
        resolve_color_type(&h, ImageType::new(2)),
        Err(ImageError::UnsupportedError(Unsupported::DepthNotByteAligned))
    );
    let h = plain_header(2, 40, 0);
    assert_eq!(
        resolve_color_type(&h, ImageType::new(2)),
        Err(ImageError::UnsupportedError(Unsupported::DepthTooLarge))
    );
    let h = plain_header(3, 24, 0);
    assert_eq!(
        resolve_color_type(&h, ImageType::new(3)),
        Err(ImageError::UnsupportedError(Unsupported::ColorFormat { bit_depth: 24, alpha_bits: 0 }))
    );
    let h = plain_header(2, 8, 0);
    assert_eq!(
        resolve_color_type(&h, ImageType::new(2)),
        Err(ImageError::UnsupportedError(Unsupported::ColorFormat { bit_depth: 8, alpha_bits: 0 }))
    );
    let h = plain_header(3, 0, 8);
    assert_eq!(
        resolve_color_type(&h, ImageType::new(3)),
        Err(ImageError::UnsupportedError(Unsupported::ColorFormat { bit_depth: 248, alpha_bits: 8 }))
    );
}

#[test]
fn rle_repeat_run() {
    let mut src = ByteSource::new(vec![0x83, 10, 20, 30]);
    let out = read_encoded_data(&mut src, 4, 3).unwrap();
    assert_eq!(out, vec![10, 20, 30, 10, 20, 30, 10, 20, 30, 10, 20, 30]);
    assert_eq!(src.pos(), 4);
    assert_eq!(src.reads(), 2);
    assert_eq!(src.remaining(), 0);
}

#[test]
fn rle_raw_run_counts_control_value() {
    // a raw packet with control byte 2 carries three pixels but counts as two
    let packet: Vec<u8> = vec![0x02, 1, 2, 3, 4, 5, 6, 7, 8, 9];
    let mut src = ByteSource::new(packet.clone());
    let out = read_encoded_data(&mut src, 2, 3).unwrap();
    assert_eq!(out, vec![1, 2, 3, 4, 5, 6, 7, 8, 9]);
    assert_eq!(src.pos(), 10);
    let mut src = ByteSource::new(packet);
    assert_eq!(read_encoded_data(&mut src, 3, 3), Err(ImageError::UnexpectedEof));
}

#[test]
fn rle_truncated_payload() {
    let mut src = ByteSource::new(vec![0x81, 1, 2]);
    assert_eq!(read_encoded_data(&mut src, 2, 3), Err(ImageError::UnexpectedEof));
}

#[test]
fn color_map_expansion_single_entry() {
    let mut src = ByteSource::new(vec![7, 8, 9]);
    let map = ColorMap::from_reader(&mut src, 0, 1, 24).unwrap();
    assert_eq!(map.entry_size(), 3);
    assert_eq!(expand_color_map(&vec![0], 1, &map), Ok(vec![7, 8, 9]));
    assert_eq!(expand_color_map(&vec![1], 1, &map), Err(ImageError::ColorMapIndexOutOfRange));
}

#[test]
fn color_map_two_byte_indices_are_big_endian() {
    let mut bytes = vec![0u8; 2 * 300];
    bytes[2 * 258] = 0xAA;
    bytes[2 * 258 + 1] = 0xBB;
    let mut src = ByteSource::new(bytes);
    let map = ColorMap::from_reader(&mut src, 0, 300, 16).unwrap();
    assert_eq!(expand_color_map(&vec![1, 2], 2, &map), Ok(vec![0xAA, 0xBB]));
}

#[test]
fn color_map_get_with_offset() {
    let mut src = ByteSource::new(vec![1, 2, 3, 4, 5, 6]);
    let map = ColorMap::from_reader(&mut src, 2, 3, 16).unwrap();
    assert_eq!(map.get(0), Some(vec![3, 4]));
    assert_eq!(map.get(1), Some(vec![5, 6]));
    assert_eq!(map.get(2), None);
    assert_eq!(map.get(usize::MAX), None);
}

#[test]
fn color_map_short_source() {
    let mut src = ByteSource::new(vec![1, 2, 3, 4, 5]);
    assert!(matches!(ColorMap::from_reader(&mut src, 0, 2, 24), Err(ImageError::UnexpectedEof)));
}

#[test]
fn channel_reversal() {
    let mut v = vec![1, 2, 3, 4, 5, 6];
    reverse_encoding(&mut v, 3, ColorType::RGB(8));
    assert_eq!(v, vec![3, 2, 1, 6, 5, 4]);
    let mut v = vec![1, 2, 3, 4, 5, 6];
    reverse_encoding(&mut v, 3, ColorType::Grey(8));
    assert_eq!(v, vec![1, 2, 3, 4, 5, 6]);
    let mut v = vec![1, 2, 3, 4, 5, 6, 7, 8];
    reverse_encoding(&mut v, 4, ColorType::RGBAlpha(8));
    assert_eq!(v, vec![3, 2, 1, 4, 7, 6, 5, 8]);
}

#[test]
fn metadata_loaded_once() {
    let mut bytes = header_bytes(0, 0, 3, 0, 0, 2, 1, 8, 0);
    bytes.extend_from_slice(&[5, 6]);
    let mut d = TGADecoder::new(bytes);
    assert_eq!(d.source_reads(), 0);
    assert_eq!(d.dimensions(), Ok((2, 1)));
    let reads = d.source_reads();
    let pos = d.source_position();
    assert_eq!(pos, 18);
    assert_eq!(d.colortype(), Ok(ColorType::Grey(8)));
    assert_eq!(d.source_reads(), reads);
    assert_eq!(d.source_position(), pos);
    assert_eq!(d.read_image(), Ok(vec![5, 6]));
    assert_eq!(d.source_reads(), reads + 1);
    assert_eq!(reads, 13);
    assert_eq!(d.source_position(), 20);
}

#[test]
fn metadata_failure_leaves_decoder_unloaded() {
    let bytes = header_bytes(0, 0, 2, 0, 0, 1, 1, 16, 0);
    let mut d = TGADecoder::new(bytes);
    assert_eq!(
        d.colortype(),
        Err(ImageError::UnsupportedError(Unsupported::ColorFormat { bit_depth: 16, alpha_bits: 0 }))
    );
    assert_eq!(d.source_position(), 18);
}

#[test]
fn decode_run_length_grey_consumes_stream() {
    let mut bytes = header_bytes(0, 0, 11, 0, 0, 3, 1, 8, 0);
    bytes.extend_from_slice(&[0x81, 7, 0x80, 9]);
    let mut d = TGADecoder::new(bytes);
    assert_eq!(d.read_image(), Ok(vec![7, 7, 9]));
    assert_eq!(d.source_position(), 22);
    assert_eq!(d.source_reads(), 13 + 4);
}

#[test]
fn decode_raw_true_color() {
    let mut bytes = header_bytes(2, 0, 2, 0, 0, 2, 1, 24, 0);
    bytes.extend_from_slice(&[0xEE, 0xEE]);
    bytes.extend_from_slice(&[1, 2, 3, 4, 5, 6]);
    let mut d = TGADecoder::new(bytes);
    assert_eq!(d.colortype(), Ok(ColorType::RGB(8)));
    assert_eq!(d.row_len(), Ok(3 * 8 * 2));
    assert_eq!(d.read_image(), Ok(vec![3, 2, 1, 6, 5, 4]));
}

#[test]
fn decode_run_length_true_color_with_alpha() {
    let mut bytes = header_bytes(0, 0, 10, 0, 0, 2, 2, 32, 8);
    bytes.extend_from_slice(&[0x83, 1, 2, 3, 4]);
    let mut d = TGADecoder::new(bytes);
    assert_eq!(d.colortype(), Ok(ColorType::RGBAlpha(8)));
    assert_eq!(d.read_image(), Ok([3, 2, 1, 4].repeat(4)));
}

#[test]
fn decode_color_mapped() {
    let mut bytes = header_bytes(0, 1, 1, 2, 24, 3, 1, 8, 0);
    bytes.extend_from_slice(&[10, 20, 30, 40, 50, 60]);
    bytes.extend_from_slice(&[1, 0, 1]);
    let mut d = TGADecoder::new(bytes);
    assert_eq!(d.dimensions(), Ok((3, 1)));
    // one-byte indices: pixels shorter than three bytes are not swapped
    assert_eq!(d.read_image(), Ok(vec![40, 50, 60, 10, 20, 30, 40, 50, 60]));
}

#[test]
fn decode_color_mapped_swaps_per_index_size() {
    let mut bytes = header_bytes(0, 1, 1, 4, 24, 4, 1, 32, 0);
    bytes.extend_from_slice(&[1, 2, 3, 4, 5, 6, 7, 8, 9, 10, 11, 12]);
    for i in 0..4u8 {
        bytes.extend_from_slice(&[0, 0, 0, i]);
    }
    let mut d = TGADecoder::new(bytes);
    assert_eq!(d.colortype(), Ok(ColorType::RGB(8)));
    assert_eq!(d.read_image(), Ok(vec![3, 2, 1, 4, 7, 6, 5, 8, 11, 10, 9, 12]));
}

#[test]
fn decode_color_mapped_without_map() {
    let mut bytes = header_bytes(0, 0, 1, 0, 24, 1, 1, 8, 0);
    bytes.push(0);
    let mut d = TGADecoder::new(bytes);
    assert_eq!(d.read_image(), Err(ImageError::MissingColorMap));
}

#[test]
fn decode_truncated_pixels() {
    let mut bytes = header_bytes(0, 0, 3, 0, 0, 2, 2, 8, 0);
    bytes.extend_from_slice(&[1, 2, 3]);
    let mut d = TGADecoder::new(bytes);
    assert_eq!(d.read_image(), Err(ImageError::UnexpectedEof));
}

#[test]
fn decode_unsupported_depth() {
    let bytes = header_bytes(0, 0, 2, 0, 0, 1, 1, 15, 0);
    let mut d = TGADecoder::new(bytes);
    assert_eq!(
        d.dimensions(),
        Err(ImageError::UnsupportedError(Unsupported::DepthNotByteAligned))
    );
}

#[test]
fn decode_short_image_id() {
    let bytes = header_bytes(4, 0, 3, 0, 0, 1, 1, 8, 0);
    let mut d = TGADecoder::new(bytes);
    assert_eq!(d.dimensions(), Err(ImageError::UnexpectedEof));
}

#[test]
fn scanline_is_unsupported() {
    let mut d = TGADecoder::new(vec![]);
    let mut buf = [0u8; 4];
    assert_eq!(
        d.read_scanline(&mut buf),
        Err(ImageError::UnsupportedError(Unsupported::Scanline))
    );
}
