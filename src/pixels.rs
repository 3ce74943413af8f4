//! Pixel data: run-length decoding and the blue-red channel swap.
use vstd::prelude::*;

use crate::color::ColorType;
use crate::error::ImageError;
use crate::source::{ByteSource, count_after};

verus! {

/// `s` written `n` times.
pub open spec fn repeat_seq(s: Seq<u8>, n: nat) -> Seq<u8>
    decreases n,
{
    if n == 0 {
        Seq::empty()
    } else {
        repeat_seq(s, (n - 1) as nat) + s
    }
}

/// Run-length decoding of `data` from index `pos`, with `num_read` pixels
/// counted so far, until at least `num_pixels` are counted: the bytes decoded,
/// the index after the last packet and the number of packets, or `None`
/// where the data ends first.
///
/// A control byte with its high bit set is followed by one pixel that is
/// written `(c & 0x7f) + 1` times, which counts as that many pixels. Any
/// other control byte `c` is followed by `c + 1` pixels written verbatim,
/// which count as `c` pixels only.
pub open spec fn rle_decode(data: Seq<u8>, pos: int, num_read: int, num_pixels: int, k: nat) -> Option<
    (Seq<u8>, int, nat),
>
    decreases data.len() - pos,
{
    if num_read >= num_pixels {
        Some((Seq::empty(), pos, 0))
    } else if pos < 0 || pos >= data.len() {
        None
    } else {
        let c = data[pos];
        if c >= 0x80 {
            let count = c - 0x80 + 1;
            if pos + 1 + k > data.len() {
                None
            } else {
                let px = data.subrange(pos + 1, pos + 1 + k);
                match rle_decode(data, pos + 1 + k, num_read + count, num_pixels, k) {
                    Some((s, p, n)) => Some((repeat_seq(px, count as nat) + s, p, n + 1)),
                    None => None,
                }
            }
        } else {
            let n = (c + 1) * k;
            if pos + 1 + n > data.len() {
                None
            } else {
                match rle_decode(data, pos + 1 + n, num_read + c, num_pixels, k) {
                    Some((s, p, m)) => Some((data.subrange(pos + 1, pos + 1 + n) + s, p, m + 1)),
                    None => None,
                }
            }
        }
    }
}

/// Reads run length encoded packets until `num_pixels` pixels are counted.
pub fn read_encoded_data(r: &mut ByteSource, num_pixels: u32, bytes_per_pixel: usize) -> (res: Result<
    Vec<u8>,
    ImageError,
>)
    requires
        old(r).wf(),
        bytes_per_pixel <= 4,
    ensures
        final(r).wf(),
        final(r).data() == old(r).data(),
        ({
            let d = rle_decode(
                old(r).data(),
                old(r).position(),
                0,
                num_pixels as int,
                bytes_per_pixel as nat,
            );
            &&& res is Ok <==> d is Some
            &&& res is Ok ==> res->Ok_0@ == d->Some_0.0 && final(r).position() == d->Some_0.1
                && final(r).read_count() == count_after(old(r).read_count(), 2 * d->Some_0.2)
            &&& res is Err ==> res->Err_0 == ImageError::UnexpectedEof
        }),
{
    let ghost data = old(r).data();
    let ghost start = old(r).position();
    let ghost k = bytes_per_pixel as nat;
    let mut num_read: u64 = 0;
    let ghost mut packets: nat = 0;
    let mut pixel_data: Vec<u8> = Vec::new();
    while num_read < num_pixels as u64
        invariant
            r.wf(),
            r.data() == data,
            data == old(r).data(),
            start == old(r).position(),
            k == bytes_per_pixel,
            bytes_per_pixel <= 4,
            num_read < num_pixels as u64 + 256,
            rle_decode(data, start, 0, num_pixels as int, k) == match rle_decode(
                data,
                r.position(),
                num_read as int,
                num_pixels as int,
                k,
            ) {
                Some((s, p, n)) => Some(
                    (pixel_data@ + s, p, n + packets),
                ),
                None => None,
            },
            r.read_count() == count_after(old(r).read_count(), 2 * packets),
        decreases data.len() - r.position(),
    {
        let ghost before = pixel_data@;
        let run_packet = match r.read_u8() {
            Ok(b) => b,
            Err(e) => {
                return Err(e);
            },
        };
        // If the highest bit in `run_packet` is set, then we repeat pixels
        //
        // Note: the TGA format adds 1 to both counts because having a count
        // of 0 would be pointless.
        if run_packet >= 0x80 {
            // high bit set, so we will repeat the data
            let repeat_count = (run_packet - 0x80 + 1) as usize;
            let data_px = match r.read_exact(bytes_per_pixel) {
                Ok(d) => d,
                Err(e) => {
                    return Err(e);
                },
            };
            let mut t: usize = 0;
            while t < repeat_count
                invariant
                    t <= repeat_count,
                    pixel_data@ == before + repeat_seq(data_px@, t as nat),
                decreases repeat_count - t,
            {
                let ghost mid = pixel_data@;
                let mut j: usize = 0;
                while j < data_px.len()
                    invariant
                        j <= data_px@.len(),
                        pixel_data@ == mid + data_px@.subrange(0, j as int),
                    decreases data_px@.len() - j,
                {
                    pixel_data.push(data_px[j]);
                    j = j + 1;
                    assert(pixel_data@ =~= mid + data_px@.subrange(0, j as int));
                }
                assert(data_px@.subrange(0, data_px@.len() as int) =~= data_px@);
                t = t + 1;
                assert(pixel_data@ =~= before + repeat_seq(data_px@, t as nat));
            }
            num_read = num_read + repeat_count as u64;
        } else {
            // not set, so `run_packet+1` is the number of non-encoded pixels
            assert((run_packet as usize + 1) * bytes_per_pixel <= 128 * 4) by (nonlinear_arith)
                requires
                    run_packet < 0x80,
                    bytes_per_pixel <= 4,
            ;
            let num_raw_bytes = (run_packet as usize + 1) * bytes_per_pixel;
            let mut raw = match r.read_exact(num_raw_bytes) {
                Ok(d) => d,
                Err(e) => {
                    return Err(e);
                },
            };
            pixel_data.append(&mut raw);
            num_read = num_read + run_packet as u64;
        }
        proof {
            packets = packets + 1;
        }
    }
    Ok(pixel_data)
}

/// What byte `i` of `s` becomes when, in each chunk of `k` bytes that holds
/// at least three, the first and third bytes trade places.
pub open spec fn swapped_byte(s: Seq<u8>, k: nat, i: int) -> u8 {
    let j = i % (k as int);
    let base = i - j;
    if k >= 3 && base + 3 <= s.len() {
        if j == 0 {
            s[base + 2]
        } else if j == 2 {
            s[base]
        } else {
            s[i]
        }
    } else {
        s[i]
    }
}

/// `s` with the first and third byte of each chunk of `k` swapped.
pub open spec fn bgr_to_rgb(s: Seq<u8>, k: nat) -> Seq<u8> {
    Seq::new(s.len(), |i: int| swapped_byte(s, k, i))
}

/// Whether a color type is stored blue first and needs its channels swapped.
pub open spec fn needs_reversal(ct: ColorType) -> bool {
    ct == ColorType::RGB(8) || ct == ColorType::RGBAlpha(8)
}

proof fn lemma_mod_in_chunk(c: int, k: int, i: int)
    requires
        k > 0,
        c >= 0,
        c % k == 0,
        c <= i < c + k,
    ensures
        i % k == i - c,
{
    vstd::arithmetic::div_mod::lemma_fundamental_div_mod(c, k);
    assert(c == (c / k) * k) by (nonlinear_arith)
        requires
            c == k * (c / k) + c % k,
            c % k == 0,
    ;
    vstd::arithmetic::div_mod::lemma_fundamental_div_mod_converse(i, k, c / k, i - c);
}

/// Reverse from BGR encoding to RGB encoding.
///
/// TGA files are stored in the BGRA encoding. For the RGB and RGBA color
/// types this swaps the blue and red bytes of each pixel of `bytes_per_pixel`
/// bytes; a trailing pixel of fewer than three bytes is left as it is. Other
/// color types are left unchanged.
pub fn reverse_encoding(pixels: &mut Vec<u8>, bytes_per_pixel: usize, color_type: ColorType)
    ensures
        needs_reversal(color_type) ==> final(pixels)@ == bgr_to_rgb(
            old(pixels)@,
            bytes_per_pixel as nat,
        ),
        !needs_reversal(color_type) ==> final(pixels)@ == old(pixels)@,
{
    let is_rgb = match color_type {
        ColorType::RGB(8) | ColorType::RGBAlpha(8) => true,
        _ => false,
    };
    if !is_rgb {
        return;
    }
    let ghost s = pixels@;
    let k = bytes_per_pixel;
    let len = pixels.len();
    if k < 3 {
        assert(pixels@ =~= bgr_to_rgb(s, k as nat));
        return;
    }
    let mut c: usize = 0;
    while c < len
        invariant
            k >= 3,
            len == s.len(),
            pixels@.len() == len,
            c <= len,
            c < len ==> (c as int) % (k as int) == 0,
            forall|i: int| 0 <= i < c ==> pixels@[i] == swapped_byte(s, k as nat, i),
            forall|i: int| c <= i < len ==> pixels@[i] == s[i],
        decreases len - c,
    {
        proof {
            assert forall|i: int| c <= i < c + k implies #[trigger] (i % (k as int)) == i - c by {
                lemma_mod_in_chunk(c as int, k as int, i);
            }
        }
        if len - c >= 3 {
            let b = pixels[c];
            let red = pixels[c + 2];
            pixels.set(c, red);
            pixels.set(c + 2, b);
        }
        let next = if len - c > k { c + k } else { len };
        assert forall|i: int| 0 <= i < next implies pixels@[i] == swapped_byte(s, k as nat, i) by {
            if i >= c {
                assert(i % (k as int) == i - c);
            }
        }
        if next < len {
            assert((c + k) as int % (k as int) == 0) by {
                vstd::arithmetic::div_mod::lemma_mod_add_multiples_vanish(c as int, k as int);
            }
        }
        c = next;
    }
    assert(pixels@ =~= bgr_to_rgb(s, k as nat));
}

} // verus!
