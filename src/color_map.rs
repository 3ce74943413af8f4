//! The optional palette of a TGA file, and the expansion of indices through it.
use vstd::prelude::*;

use crate::error::ImageError;
use crate::source::{ByteSource, count_after};

verus! {

/// Bytes needed to hold `bits` bits.
pub open spec fn bytes_for_bits(bits: u8) -> nat {
    ((bits + 7) / 8) as nat
}

/// The entry at `index` of a palette whose entries are `size` bytes and
/// start `start` bytes into `bytes`, if it lies within `bytes`.
pub open spec fn palette_entry(start: int, size: int, bytes: Seq<u8>, index: int) -> Option<Seq<u8>> {
    let off = start + size * index;
    if off + size <= bytes.len() {
        Some(bytes.subrange(off, off + size))
    } else {
        None
    }
}

/// The value of bytes read most significant first.
pub open spec fn be_value(s: Seq<u8>) -> nat
    decreases s.len(),
{
    if s.len() == 0 {
        0
    } else {
        be_value(s.drop_last()) * 256 + s.last() as nat
    }
}

/// The `i`-th chunk of `k` bytes of `data`; the last one may be shorter.
pub open spec fn chunk(data: Seq<u8>, k: nat, i: int) -> Seq<u8> {
    let end = if (i + 1) * k <= data.len() {
        (i + 1) * k
    } else {
        data.len() as int
    };
    data.subrange(i * k, end)
}

/// How many chunks of `k` bytes `len` bytes make.
pub open spec fn num_chunks(len: nat, k: nat) -> nat {
    if k == 0 {
        0
    } else {
        ((len + k - 1) as int / k as int) as nat
    }
}

/// A palette as a value: start offset and entry size in bytes, then the
/// bytes that hold the entries.
pub type Palette = (nat, nat, Seq<u8>);

pub struct ColorMap {
    /// sizes in bytes
    start_offset: usize,
    entry_size: usize,
    bytes: Vec<u8>,
}

impl ColorMap {
    pub closed spec fn start(&self) -> nat {
        self.start_offset as nat
    }

    pub closed spec fn size(&self) -> nat {
        self.entry_size as nat
    }

    pub closed spec fn contents(&self) -> Seq<u8> {
        self.bytes@
    }

    /// The palette as a value: its start offset, its entry size and its bytes.
    pub open spec fn palette(&self) -> Palette {
        (self.start(), self.size(), self.contents())
    }

    /// The entry that an index names, if it lies within the palette.
    pub open spec fn entry(&self, index: int) -> Option<Seq<u8>> {
        palette_entry(self.start() as int, self.size() as int, self.contents(), index)
    }

    /// Read a palette of `num_entries` entries of `bits_per_entry` bits each.
    pub fn from_reader(r: &mut ByteSource, start_offset: u16, num_entries: u16, bits_per_entry: u8) -> (res:
        Result<ColorMap, ImageError>)
        requires
            old(r).wf(),
        ensures
            final(r).wf(),
            final(r).data() == old(r).data(),
            final(r).read_count() == count_after(old(r).read_count(), 1),
            ({
                let n = bytes_for_bits(bits_per_entry) * num_entries;
                &&& res is Ok <==> old(r).position() + n <= old(r).data().len()
                &&& res is Ok ==> res->Ok_0.start() == start_offset && res->Ok_0.size()
                    == bytes_for_bits(bits_per_entry) && res->Ok_0.contents() == old(
                    r,
                ).data().subrange(old(r).position(), old(r).position() + n) && final(r).position()
                    == old(r).position() + n
                &&& res is Err ==> res->Err_0 == ImageError::UnexpectedEof
            }),
    {
        let bytes_per_entry = (bits_per_entry as usize + 7) / 8;
        assert(bytes_per_entry * num_entries as usize <= 32 * 65535) by (nonlinear_arith)
            requires
                bytes_per_entry <= 32,
        ;
        let bytes = r.read_exact(bytes_per_entry * num_entries as usize)?;
        Ok(ColorMap { entry_size: bytes_per_entry, start_offset: start_offset as usize, bytes })
    }

    /// Bytes per palette entry.
    pub fn entry_size(&self) -> (r: usize)
        ensures
            r == self.size(),
    {
        self.entry_size
    }

    /// Get one entry from the color map, or `None` where the index lies past
    /// its end.
    pub fn get(&self, index: usize) -> (r: Option<Vec<u8>>)
        ensures
            r is Some <==> self.entry(index as int) is Some,
            r is Some ==> r->Some_0@ == self.entry(index as int)->Some_0,
            r is Some ==> r->Some_0@.len() == self.size(),
    {
        let len = self.bytes.len();
        let off = match self.entry_size.checked_mul(index) {
            Some(m) => match m.checked_add(self.start_offset) {
                Some(o) => o,
                None => {
                    assert(self.entry(index as int) is None);
                    return None;
                },
            },
            None => {
                assert(self.start() + self.size() * index > usize::MAX);
                assert(self.entry(index as int) is None);
                return None;
            },
        };
        if off > len || len - off < self.entry_size {
            return None;
        }
        let mut out: Vec<u8> = Vec::with_capacity(self.entry_size);
        let mut i: usize = 0;
        while i < self.entry_size
            invariant
                off + self.entry_size <= self.bytes.len(),
                off == self.start_offset + self.entry_size * index,
                i <= self.entry_size,
                out@ == self.bytes@.subrange(off as int, off + i),
            decreases self.entry_size - i,
        {
            out.push(self.bytes[off + i]);
            i = i + 1;
            assert(out@ =~= self.bytes@.subrange(off as int, off + i));
        }
        Some(out)
    }
}

/// The bytes that the first `n` index chunks of `data` expand to, or `None`
/// where one of them lies past the end of the palette.
pub open spec fn expanded_prefix(data: Seq<u8>, k: nat, map: Palette, n: nat) -> Option<Seq<u8>>
    decreases n,
{
    if n == 0 {
        Some(Seq::empty())
    } else {
        match expanded_prefix(data, k, map, (n - 1) as nat) {
            None => None,
            Some(p) => match palette_entry(
                map.0 as int,
                map.1 as int,
                map.2,
                be_value(chunk(data, k, n - 1)) as int,
            ) {
                None => None,
                Some(e) => Some(p + e),
            },
        }
    }
}

/// The bytes that all index chunks of `data` expand to.
pub open spec fn expanded(data: Seq<u8>, k: nat, map: Palette) -> Option<Seq<u8>> {
    expanded_prefix(data, k, map, num_chunks(data.len(), k))
}

pub open spec fn pow256(n: nat) -> nat
    decreases n,
{
    if n == 0 {
        1
    } else {
        256 * pow256((n - 1) as nat)
    }
}

proof fn lemma_expanded_none_stays(data: Seq<u8>, k: nat, map: Palette, m: nat, n: nat)
    requires
        m <= n,
        expanded_prefix(data, k, map, m) is None,
    ensures
        expanded_prefix(data, k, map, n) is None,
    decreases n - m,
{
    if m < n {
        lemma_expanded_none_stays(data, k, map, m, (n - 1) as nat);
    }
}

/// Expands indices into their mapped color: each chunk of `bytes_per_pixel`
/// bytes is an index, most significant byte first, and is replaced by the
/// palette entry it names. An index past the end of the palette is an error.
pub fn expand_color_map(pixel_data: &Vec<u8>, bytes_per_pixel: usize, color_map: &ColorMap) -> (r:
    Result<Vec<u8>, ImageError>)
    requires
        1 <= bytes_per_pixel <= 4,
    ensures
        r is Ok <==> expanded(pixel_data@, bytes_per_pixel as nat, color_map.palette()) is Some,
        r is Ok ==> r->Ok_0@ == expanded(pixel_data@, bytes_per_pixel as nat, color_map.palette())->Some_0,
        r is Err ==> r->Err_0 == ImageError::ColorMapIndexOutOfRange,
{
    let ghost data = pixel_data@;
    let ghost kk = bytes_per_pixel as nat;
    let len = pixel_data.len();
    let k = bytes_per_pixel;
    let q = len / k;
    let n = if len % k != 0 {
        assert(q < len) by (nonlinear_arith)
            requires
                k >= 2,
                q == len / k,
                len % k != 0,
        ;
        q + 1
    } else {
        q
    };
    assert(n == num_chunks(len as nat, kk)) by (nonlinear_arith)
        requires
            k >= 1,
            n == len / k + if len % k != 0 { 1int } else { 0int },
            num_chunks(len as nat, kk) == (len + k - 1) / (k as int),
            kk == k,
    {
        assert(len == k * (len / k) + len % k);
    }
    assert(n * k < len + k) by (nonlinear_arith)
        requires
            k >= 1,
            n == len / k + if len % k != 0 { 1int } else { 0int },
    {
        assert(len == k * (len / k) + len % k);
    }
    let mut result: Vec<u8> = Vec::new();
    let mut i: usize = 0;
    while i < n
        invariant
            1 <= k <= 4,
            k == bytes_per_pixel,
            kk == k,
            len == pixel_data@.len(),
            data == pixel_data@,
            n == num_chunks(len as nat, kk),
            n * k < len + k,
            i <= n,
            expanded_prefix(data, kk, color_map.palette(), i as nat) == Some(result@),
        decreases n - i,
    {
        assert(i * k < len) by (nonlinear_arith)
            requires
                i < n,
                n * k < len + k,
                k >= 1,
        {
            assert(i + 1 <= n);
            assert((i + 1) * k <= n * k);
        }
        let c = i * k;
        let end = if len - c >= k { c + k } else { len };
        assert((i + 1) * k == c + k) by (nonlinear_arith)
            requires
                c == i * k,
        ;
        let ghost ch = chunk(data, kk, i as int);
        assert(ch =~= data.subrange(c as int, end as int));
        let mut idx: u32 = 0;
        let mut j: usize = c;
        while j < end
            invariant
                c <= j <= end,
                end <= len,
                end - c <= 4,
                len == pixel_data@.len(),
                data == pixel_data@,
                idx as nat == be_value(data.subrange(c as int, j as int)),
                idx < pow256((j - c) as nat),
            decreases end - j,
        {
            proof {
                reveal_with_fuel(pow256, 5);
                assert(data.subrange(c as int, j + 1).drop_last() =~= data.subrange(
                    c as int,
                    j as int,
                ));
            }
            idx = idx * 256 + pixel_data[j] as u32;
            j = j + 1;
        }
        let ghost p = result@;
        match color_map.get(idx as usize) {
            Some(mut e) => {
                result.append(&mut e);
                assert(expanded_prefix(data, kk, color_map.palette(), (i + 1) as nat) == Some(result@));
            },
            None => {
                assert(expanded_prefix(data, kk, color_map.palette(), (i + 1) as nat) is None);
                proof {
                    lemma_expanded_none_stays(data, kk, color_map.palette(), (i + 1) as nat, n as nat);
                }
                return Err(ImageError::ColorMapIndexOutOfRange);
            },
        }
        i = i + 1;
    }
    Ok(result)
}

} // verus!
