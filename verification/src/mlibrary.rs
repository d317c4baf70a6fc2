// Reading images from a `.lib` image library, with a small cache of decoded
// images evicted oldest-used first.
//
// The file starts with the image count (4 bytes), 4 skipped bytes and the
// version (4 bytes), then one 4-byte offset per image. At an image's offset
// stand its width, height and drawing offsets (16-bit each), the shadow size
// and flag (a byte each) and the length of its compressed data (32-bit); then
// the zlib-compressed pixels, 16 bits each in 0RRRRRGGGGGBBBBB form; then, for
// a shadowed image, the length and zlib-compressed data of its mask. All
// numbers are little-endian.

use vstd::prelude::*;
use std::collections::HashMap;
use crate::le_bytes::{i16_at, i32_at, read_i16, read_i32, read_u32, u32_at};

verus! {

broadcast use vstd::std_specs::hash::group_hash_axioms;

/// The bytes that zlib decompression of `data` yields when read to the end,
/// or `None` when the decoder reports an error.
pub uninterp spec fn zlib_inflate(data: Seq<u8>) -> Option<Seq<u8>>;

/// Decompresses zlib data with flate2's `read::ZlibDecoder`, reading it to
/// the end with `Read::read_to_end`. The contract claims only that the
/// outcome is a function of the input bytes: the decompressed bytes, or an
/// error (then `None`).
#[verifier::external_body]
fn inflate(data: &[u8]) -> (r: Option<Vec<u8>>)
    ensures
        r is Some <==> zlib_inflate(data@) is Some,
        r matches Some(v) ==> zlib_inflate(data@) == Some(v@),
{
    let mut decoder = flate2::read::ZlibDecoder::new(data);
    let mut out: Vec<u8> = Vec::new();
    match std::io::Read::read_to_end(&mut decoder, &mut out) {
        Ok(_) => Some(out),
        Err(_) => None,
    }
}

/// The header of a library file.
#[derive(Debug, Clone, Copy, PartialEq, Eq, Structural)]
pub struct LibraryHeader {
    pub count: i32,
    pub version: i32,
}

/// Where an image starts in the file; zero for no image.
#[derive(Debug, Clone, Copy, PartialEq, Eq, Structural)]
pub struct ImageIndex {
    pub offset: u32,
}

/// The shadow mask of an image.
#[derive(Debug)]
pub struct MaskData {
    pub width: i16,
    pub height: i16,
    pub data: Vec<u8>,
}

/// A decoded image: its size, drawing offset, RGBA pixels and shadow mask.
#[derive(Debug)]
pub struct ImageData {
    pub width: i16,
    pub height: i16,
    pub offset_x: i16,
    pub offset_y: i16,
    pub rgba_data: Vec<u8>,
    pub mask: Option<MaskData>,
}

/// A mask as plain values: width, height and data.
pub type MaskView = (i16, i16, Seq<u8>);

/// An image as plain values: width, height, offsets, pixels and mask.
pub type ImageView = (i16, i16, i16, i16, Seq<u8>, Option<MaskView>);

impl View for MaskData {
    type V = MaskView;

    open spec fn view(&self) -> MaskView {
        (self.width, self.height, self.data@)
    }
}

impl View for ImageData {
    type V = ImageView;

    open spec fn view(&self) -> ImageView {
        (
            self.width,
            self.height,
            self.offset_x,
            self.offset_y,
            self.rgba_data@,
            match self.mask {
                Some(m) => Some(m@),
                None => None,
            },
        )
    }
}

impl Clone for MaskData {
    fn clone(&self) -> (r: Self)
        ensures
            r@ == self@,
    {
        let data = self.data.clone();
        assert(data@ =~= self.data@);
        MaskData { width: self.width, height: self.height, data }
    }
}

impl Clone for ImageData {
    fn clone(&self) -> (r: Self)
        ensures
            r@ == self@,
    {
        let rgba_data = self.rgba_data.clone();
        assert(rgba_data@ =~= self.rgba_data@);
        let mask = match &self.mask {
            Some(m) => Some(m.clone()),
            None => None,
        };
        ImageData {
            width: self.width,
            height: self.height,
            offset_x: self.offset_x,
            offset_y: self.offset_y,
            rgba_data,
            mask,
        }
    }
}

/// Why an image or a library could not be read.
#[derive(Debug, Clone, Copy, PartialEq, Eq, Structural)]
pub enum LibraryError {
    /// The file ends before what it announces.
    Truncated,
    /// Compressed data does not decompress.
    Corrupt,
}

/// A 5-bit channel widened to 8 bits: its top three bits repeated below it.
pub open spec fn widen5(v: int) -> int {
    v * 8 + v / 4
}

/// Channel `c` (red, green, blue, alpha) of the `p`th pixel of 16-bit
/// 0RRRRRGGGGGBBBBB data; black is transparent, anything else opaque.
pub open spec fn pixel_channel(data: Seq<u8>, p: int, c: int) -> u8 {
    let lo = data[2 * p] as int;
    let hi = data[2 * p + 1] as int;
    let r = (hi / 4) % 32;
    let g = (hi % 4) * 8 + lo / 32;
    let b = lo % 32;
    (if c == 0 {
        widen5(r)
    } else if c == 1 {
        widen5(g)
    } else if c == 2 {
        widen5(b)
    } else if r == 0 && g == 0 && b == 0 {
        0
    } else {
        255
    }) as u8
}

/// The RGBA bytes of 16-bit pixel data: four bytes per whole pixel; a last
/// odd byte is dropped.
pub open spec fn rgba_of(data: Seq<u8>) -> Seq<u8> {
    Seq::new(4 * (data.len() / 2), |i: int| pixel_channel(data, i / 4, i % 4))
}

fn convert_pixel(lo: u8, hi: u8) -> (rgba: (u8, u8, u8, u8))
    ensures
        rgba.0 == pixel_channel(seq![lo, hi], 0, 0),
        rgba.1 == pixel_channel(seq![lo, hi], 0, 1),
        rgba.2 == pixel_channel(seq![lo, hi], 0, 2),
        rgba.3 == pixel_channel(seq![lo, hi], 0, 3),
{
    let pixel: u16 = lo as u16 | ((hi as u16) << 8);
    let r = ((pixel >> 10) & 0x1F) as u8;
    let g = ((pixel >> 5) & 0x1F) as u8;
    let b = (pixel & 0x1F) as u8;
    assert(r == (hi / 4) % 32 && g == (hi % 4) * 8 + lo / 32 && b == lo % 32) by (bit_vector)
        requires
            pixel == lo as u16 | ((hi as u16) << 8),
            r == ((pixel >> 10) & 0x1F) as u8,
            g == ((pixel >> 5) & 0x1F) as u8,
            b == (pixel & 0x1F) as u8,
    ;
    let r8 = (r << 3) | (r >> 2);
    let g8 = (g << 3) | (g >> 2);
    let b8 = (b << 3) | (b >> 2);
    assert(r8 == r * 8 + r / 4 && g8 == g * 8 + g / 4 && b8 == b * 8 + b / 4) by (bit_vector)
        requires
            r < 32,
            g < 32,
            b < 32,
            r8 == (r << 3) | (r >> 2),
            g8 == (g << 3) | (g >> 2),
            b8 == (b << 3) | (b >> 2),
    ;
    let a: u8 = if r == 0 && g == 0 && b == 0 { 0 } else { 255 };
    (r8, g8, b8, a)
}

/// Converts 16-bit pixel data to RGBA.
pub fn convert_555_to_rgba(data: &[u8]) -> (rgba: Vec<u8>)
    ensures
        rgba@ == rgba_of(data@),
{
    let len = data.len();
    let n = len / 2;
    let mut rgba: Vec<u8> = Vec::new();
    let mut p: usize = 0;
    while p < n
        invariant
            len == data@.len(),
            n == data@.len() / 2,
            p <= n,
            rgba@ == rgba_of(data@).take(4 * p),
        decreases n - p,
    {
        assert(2 * p + 1 < data@.len());
        let lo = data[2 * p];
        let hi = data[2 * p + 1];
        let (r8, g8, b8, a) = convert_pixel(lo, hi);
        assert(seq![lo, hi][0] == data@[2 * p as int] && seq![lo, hi][1] == data@[2 * p + 1]);
        proof {
            let full = rgba_of(data@);
            assert forall|c: int| 0 <= c < 4 implies #[trigger] full[4 * p + c] == pixel_channel(data@, p as int, c) by {
                assert((4 * p + c) / 4 == p as int);
                assert((4 * p + c) % 4 == c);
            }
        }
        rgba.push(r8);
        rgba.push(g8);
        rgba.push(b8);
        rgba.push(a);
        assert(rgba@ =~= rgba_of(data@).take(4 * (p + 1)));
        p = p + 1;
    }
    assert(rgba@ =~= rgba_of(data@));
    rgba
}

/// The header of a library file.
pub open spec fn library_header_of(b: Seq<u8>) -> LibraryHeader {
    LibraryHeader { count: i32_at(b, 0) as i32, version: i32_at(b, 8) as i32 }
}

/// Whether a library file holds its header and all the offsets it announces.
pub open spec fn library_complete(b: Seq<u8>) -> bool {
    b.len() >= 12 && b.len() >= 12 + 4 * library_header_of(b).count
}

/// The offset of the `i`th image.
pub open spec fn index_of(b: Seq<u8>, i: int) -> ImageIndex {
    ImageIndex { offset: u32_at(b, 12 + 4 * i) as u32 }
}

/// What reading the shadow mask at `at` gives: nothing unless the image is
/// shadowed and the mask's length, positive, and its data can be read and
/// decompressed.
pub open spec fn mask_at(b: Seq<u8>, at: int, shadow: u8, shadow_x: u8, shadow_y: u8) -> Option<MaskView> {
    if shadow == 0 || at + 4 > b.len() {
        None
    } else {
        let len = i32_at(b, at);
        if len <= 0 || at + 4 + len > b.len() {
            None
        } else {
            match zlib_inflate(b.subrange(at + 4, at + 4 + len)) {
                Some(d) => Some((shadow_x as i16, shadow_y as i16, d)),
                None => None,
            }
        }
    }
}

/// What reading the image at `offset` gives: none for offset zero or an
/// image without size or data; an error when the file ends early or the
/// pixels do not decompress.
pub open spec fn image_at(b: Seq<u8>, offset: u32) -> Result<Option<ImageView>, LibraryError> {
    let at = offset as int;
    if offset == 0 {
        Ok(None)
    } else if at + 15 > b.len() {
        Err(LibraryError::Truncated)
    } else {
        let width = i16_at(b, at);
        let height = i16_at(b, at + 2);
        let length = i32_at(b, at + 11);
        if width <= 0 || height <= 0 || length <= 0 {
            Ok(None)
        } else if at + 15 + length > b.len() {
            Err(LibraryError::Truncated)
        } else {
            match zlib_inflate(b.subrange(at + 15, at + 15 + length)) {
                None => Err(LibraryError::Corrupt),
                Some(raw) => Ok(
                    Some(
                        (
                            width as i16,
                            height as i16,
                            i16_at(b, at + 4) as i16,
                            i16_at(b, at + 6) as i16,
                            rgba_of(raw),
                            mask_at(b, at + 15 + length, b[at + 10], b[at + 8], b[at + 9]),
                        ),
                    ),
                ),
            }
        }
    }
}

/// A read's outcome as plain values.
pub open spec fn result_view(r: Result<Option<ImageData>, LibraryError>) -> Result<Option<ImageView>, LibraryError> {
    match r {
        Ok(Some(img)) => Ok(Some(img@)),
        Ok(None) => Ok(None),
        Err(e) => Err(e),
    }
}

fn read_mask(b: &[u8], at: usize, shadow: u8, shadow_x: u8, shadow_y: u8) -> (m: Option<MaskData>)
    requires
        at <= b@.len(),
    ensures
        match m {
            Some(d) => mask_at(b@, at as int, shadow, shadow_x, shadow_y) == Some(d@),
            None => mask_at(b@, at as int, shadow, shadow_x, shadow_y) is None,
        },
{
    if shadow == 0 || b.len() - at < 4 {
        return None;
    }
    let len = read_i32(b, at);
    if len <= 0 || b.len() - at - 4 < len as usize {
        return None;
    }
    let start = at + 4;
    let end = start + len as usize;
    match inflate(&b[start..end]) {
        Some(data) => Some(MaskData { width: shadow_x as i16, height: shadow_y as i16, data }),
        None => None,
    }
}

/// Reads the image at `offset` of the file's bytes.
fn read_image(b: &[u8], offset: u32) -> (r: Result<Option<ImageData>, LibraryError>)
    ensures
        result_view(r) == image_at(b@, offset),
{
    if offset == 0 {
        return Ok(None);
    }
    let at = offset as usize;
    if at > b.len() || b.len() - at < 15 {
        return Err(LibraryError::Truncated);
    }
    let width = read_i16(b, at);
    let height = read_i16(b, at + 2);
    let offset_x = read_i16(b, at + 4);
    let offset_y = read_i16(b, at + 6);
    let shadow_x = b[at + 8];
    let shadow_y = b[at + 9];
    let shadow = b[at + 10];
    let length = read_i32(b, at + 11);
    if width <= 0 || height <= 0 || length <= 0 {
        return Ok(None);
    }
    let data_at = at + 15;
    if b.len() - data_at < length as usize {
        return Err(LibraryError::Truncated);
    }
    let data_end = data_at + length as usize;
    match inflate(&b[data_at..data_end]) {
        None => Err(LibraryError::Corrupt),
        Some(raw) => {
            let rgba_data = convert_555_to_rgba(raw.as_slice());
            let mask = read_mask(b, data_end, shadow, shadow_x, shadow_y);
            Ok(Some(ImageData { width, height, offset_x, offset_y, rgba_data, mask }))
        },
    }
}

/// The image after `current` when browsing `count` images: the first again
/// after the last.
pub open spec fn next_image(current: int, count: int) -> int {
    (current + 1) % count
}

/// The image before `current` when browsing `count` images: the last again
/// before the first.
pub open spec fn previous_image(current: int, count: int) -> int {
    if current == 0 {
        count - 1
    } else {
        current - 1
    }
}

/// Steps to the next image of a library of `count` images.
pub fn next_image_index(current: usize, count: usize) -> (r: usize)
    requires
        count > 0,
        current < usize::MAX,
    ensures
        r == next_image(current as int, count as int),
        r < count,
{
    (current + 1) % count
}

/// Steps to the previous image of a library of `count` images.
pub fn previous_image_index(current: usize, count: usize) -> (r: usize)
    requires
        current == 0 ==> count > 0,
    ensures
        r == previous_image(current as int, count as int),
        current < count ==> r < count,
{
    if current == 0 {
        count - 1
    } else {
        current - 1
    }
}

/// Browsing forward and then back returns to the image one started from,
/// and so does browsing back and then forward.
pub proof fn lemma_previous_undoes_next(current: int, count: int)
    requires
        0 <= current < count,
    ensures
        previous_image(next_image(current, count), count) == current,
        next_image(previous_image(current, count), count) == current,
{
    if current + 1 < count {
        vstd::arithmetic::div_mod::lemma_small_mod((current + 1) as nat, count as nat);
    } else {
        vstd::arithmetic::div_mod::lemma_mod_self_0(count);
    }
    if current == 0 {
        vstd::arithmetic::div_mod::lemma_mod_self_0(count);
    } else {
        vstd::arithmetic::div_mod::lemma_small_mod(current as nat, count as nat);
    }
}

/// Keeps every index but `index`.
pub open spec fn other_than(index: usize) -> spec_fn(usize) -> bool {
    |k: usize| k != index
}

/// The use order after a cached `index` is used: moved to the most recent end.
pub open spec fn touched(order: Seq<usize>, index: usize) -> Seq<usize> {
    order.filter(other_than(index)).push(index)
}

/// The use order after `index` is cached: appended as the most recent, then
/// the oldest entries leave while there are more than `max`.
pub open spec fn admitted(order: Seq<usize>, index: usize, max: usize) -> Seq<usize> {
    let pushed = order.push(index);
    if pushed.len() > max {
        pushed.skip(pushed.len() - max)
    } else {
        pushed
    }
}

proof fn lemma_filter_without(s: Seq<usize>, x: usize)
    requires
        !s.contains(x),
    ensures
        s.filter(other_than(x)) == s,
    decreases s.len(),
{
    if s.len() > 0 {
        let t = s.drop_last();
        let last = s.last();
        assert(s =~= t.push(last));
        assert(!t.contains(x)) by {
            if t.contains(x) {
                let j = choose|j: int| 0 <= j < t.len() && t[j] == x;
                assert(s[j] == x);
            }
        }
        assert(s[s.len() - 1] == last);
        lemma_filter_without(t, x);
        t.lemma_filter_push(last, other_than(x));
    } else {
        assert(s.filter(other_than(x)) =~= s);
    }
}

proof fn lemma_remove_is_filter(s: Seq<usize>, p: int)
    requires
        s.no_duplicates(),
        0 <= p < s.len(),
    ensures
        s.remove(p) == s.filter(other_than(s[p])),
    decreases s.len(),
{
    let x = s[p];
    let t = s.drop_last();
    let last = s.last();
    assert(s =~= t.push(last));
    t.lemma_filter_push(last, other_than(x));
    if p == s.len() - 1 {
        assert(s.remove(p) =~= t);
        assert(!t.contains(x)) by {
            if t.contains(x) {
                let j = choose|j: int| 0 <= j < t.len() && t[j] == x;
                assert(s[j] == s[p]);
            }
        }
        lemma_filter_without(t, x);
    } else {
        assert(t.no_duplicates()) by {
            assert forall|i: int, j: int| 0 <= i < t.len() && 0 <= j < t.len() && i != j implies t[i] != t[j] by {
                assert(t[i] == s[i] && t[j] == s[j]);
            }
        }
        assert(t[p] == x);
        lemma_remove_is_filter(t, p);
        assert(s[s.len() - 1] != s[p]);
        assert(s.remove(p) =~= t.remove(p).push(last));
    }
}

proof fn lemma_remove_distinct(s: Seq<usize>, pos: int)
    requires
        s.no_duplicates(),
        0 <= pos < s.len(),
    ensures
        s.remove(pos).no_duplicates(),
        forall|k: usize| #[trigger] s.remove(pos).contains(k) <==> (s.contains(k) && k != s[pos]),
{
    let r = s.remove(pos);
    assert forall|i: int, j: int| 0 <= i < r.len() && 0 <= j < r.len() && i != j implies r[i] != r[j] by {
        let oi = if i < pos { i } else { i + 1 };
        let oj = if j < pos { j } else { j + 1 };
        assert(r[i] == s[oi] && r[j] == s[oj]);
    }
    assert forall|k: usize| #[trigger] r.contains(k) <==> (s.contains(k) && k != s[pos]) by {
        if r.contains(k) {
            let i = choose|i: int| 0 <= i < r.len() && r[i] == k;
            let oi = if i < pos { i } else { i + 1 };
            assert(s[oi] == k);
        }
        if s.contains(k) && k != s[pos] {
            let o = choose|o: int| 0 <= o < s.len() && s[o] == k;
            let i = if o < pos { o } else { o - 1 };
            assert(r[i] == k);
        }
    }
}

/// An image library read into memory, with a cache of decoded images.
pub struct MLibraryData {
    file_path: String,
    bytes: Vec<u8>,
    header: LibraryHeader,
    indices: Vec<ImageIndex>,
    cache: HashMap<usize, ImageData>,
    max_cache_size: usize,
    lru_order: Vec<usize>,
}

impl MLibraryData {
    /// The path of the library's file.
    pub closed spec fn spec_file_path(self) -> Seq<char> {
        self.file_path@
    }

    /// The file's bytes.
    pub closed spec fn spec_bytes(self) -> Seq<u8> {
        self.bytes@
    }

    /// The image offsets.
    pub closed spec fn spec_indices(self) -> Seq<ImageIndex> {
        self.indices@
    }

    /// The header.
    pub closed spec fn spec_header(self) -> LibraryHeader {
        self.header
    }

    /// The cached images, by index.
    pub closed spec fn spec_cache(self) -> Map<usize, ImageData> {
        self.cache@
    }

    /// The cached indices, least recently used first.
    pub closed spec fn spec_lru(self) -> Seq<usize> {
        self.lru_order@
    }

    /// The most images the cache keeps.
    pub closed spec fn spec_max_cache(self) -> usize {
        self.max_cache_size
    }

    /// The cache holds exactly the indices of the use order, each once, no
    /// more than the cache size, and every cached image is what the file
    /// gives at its index.
    pub closed spec fn wf(self) -> bool {
        &&& self.lru_order@.no_duplicates()
        &&& forall|k: usize| #[trigger] self.cache@.contains_key(k) <==> self.lru_order@.contains(k)
        &&& self.cache@.len() <= self.max_cache_size
        &&& forall|k: usize| #[trigger] self.cache@.contains_key(k) ==> k < self.indices@.len()
            && image_at(self.bytes@, self.indices@[k as int].offset) == Ok::<Option<ImageView>, LibraryError>(Some(self.cache@[k]@))
    }

    proof fn lemma_cache_len(self)
        requires
            self.lru_order@.no_duplicates(),
            forall|k: usize| #[trigger] self.cache@.contains_key(k) <==> self.lru_order@.contains(k),
        ensures
            self.cache@.len() == self.lru_order@.len(),
    {
        assert(self.cache@.dom() =~= self.lru_order@.to_set());
        self.lru_order@.unique_seq_to_set();
    }

    /// Reads a library from the bytes of its file: the header and one
    /// offset per image; nothing is decoded yet and the cache keeps up to
    /// 100 images.
    pub fn load(file_path: String, bytes: Vec<u8>) -> (r: Result<Self, LibraryError>)
        requires
            bytes@.len() >= 12 ==> library_header_of(bytes@).count >= 0,
        ensures
            r is Ok <==> library_complete(bytes@),
            r is Err ==> r == Err::<Self, LibraryError>(LibraryError::Truncated),
            r matches Ok(lib) ==> {
                &&& lib.wf()
                &&& lib.spec_file_path() == file_path@
                &&& lib.spec_bytes() == bytes@
                &&& lib.spec_header() == library_header_of(bytes@)
                &&& lib.spec_indices().len() == library_header_of(bytes@).count
                &&& forall|i: int| 0 <= i < lib.spec_indices().len() ==> #[trigger] lib.spec_indices()[i] == index_of(bytes@, i)
                &&& lib.spec_cache().len() == 0
                &&& lib.spec_lru().len() == 0
                &&& lib.spec_max_cache() == 100
            },
    {
        if bytes.len() < 12 {
            return Err(LibraryError::Truncated);
        }
        let count = read_i32(bytes.as_slice(), 0);
        let version = read_i32(bytes.as_slice(), 8);
        let header = LibraryHeader { count, version };
        let n = count as usize;
        if (bytes.len() - 12) / 4 < n {
            return Err(LibraryError::Truncated);
        }
        let total = bytes.len();
        let mut indices: Vec<ImageIndex> = Vec::new();
        let mut i: usize = 0;
        while i < n
            invariant
                total == bytes@.len(),
                n == count,
                12 + 4 * n <= bytes@.len(),
                i <= n,
                indices@.len() == i,
                forall|j: int| 0 <= j < i ==> #[trigger] indices@[j] == index_of(bytes@, j),
            decreases n - i,
        {
            let offset = read_u32(bytes.as_slice(), 12 + 4 * i);
            indices.push(ImageIndex { offset });
            i = i + 1;
        }
        let lib = MLibraryData {
            file_path,
            bytes,
            header,
            indices,
            cache: HashMap::new(),
            max_cache_size: 100,
            lru_order: Vec::new(),
        };
        assert(lib.cache@.len() == 0);
        Ok(lib)
    }

    /// The image at `index`: none beyond the last index; from the cache
    /// when it is there (it becomes the most recently used), else read from
    /// the file and, when there is one, cached, the least recently used
    /// images making room.
    pub fn get_image(&mut self, index: usize) -> (r: Result<Option<ImageData>, LibraryError>)
        requires
            old(self).wf(),
        ensures
            final(self).wf(),
            final(self).spec_file_path() == old(self).spec_file_path(),
            final(self).spec_bytes() == old(self).spec_bytes(),
            final(self).spec_indices() == old(self).spec_indices(),
            final(self).spec_header() == old(self).spec_header(),
            final(self).spec_max_cache() == old(self).spec_max_cache(),
            index >= old(self).spec_indices().len() ==> r == Ok::<Option<ImageData>, LibraryError>(None),
            index < old(self).spec_indices().len() ==> result_view(r) == image_at(
                old(self).spec_bytes(),
                old(self).spec_indices()[index as int].offset,
            ),
            r matches Ok(Some(_)) ==> old(self).spec_max_cache() > 0 ==> final(self).spec_cache().contains_key(index)
                && final(self).spec_lru().last() == index,
            forall|k: usize| #[trigger] final(self).spec_cache().contains_key(k) <==> final(self).spec_lru().contains(k),
            final(self).spec_lru().len() <= final(self).spec_max_cache(),
            index < old(self).spec_indices().len() && old(self).spec_cache().contains_key(index) ==> final(self).spec_lru()
                == touched(old(self).spec_lru(), index) && final(self).spec_cache() == old(self).spec_cache(),
            index < old(self).spec_indices().len() && !old(self).spec_cache().contains_key(index) && (r matches Ok(
                Some(_))) ==> final(self).spec_lru() == admitted(old(self).spec_lru(), index, old(self).spec_max_cache()),
            forall|k: usize| #[trigger] final(self).spec_cache().contains_key(k) && k != index
                ==> old(self).spec_cache().contains_key(k) && final(self).spec_cache()[k] == old(self).spec_cache()[k],
            r matches Ok(Some(img)) ==> (final(self).spec_cache().contains_key(index) ==> final(self).spec_cache()[index]@
                == img@),
            !(r matches Ok(Some(_))) ==> final(self).spec_lru() == old(self).spec_lru() && final(self).spec_cache()
                == old(self).spec_cache(),
    {
        proof {
            self.lemma_cache_len();
        }
        if index >= self.indices.len() {
            return Ok(None);
        }
        match self.cache.get(&index) {
            Some(cached) => {
                let image = cached.clone();
                self.update_lru(index);
                proof {
                    self.lemma_cache_len();
                }
                return Ok(Some(image));
            },
            None => {},
        }
        let offset = self.indices[index].offset;
        let r = read_image(self.bytes.as_slice(), offset);
        match r {
            Ok(Some(image)) => {
                let copy = image.clone();
                proof {
                    self.lemma_cache_len();
                }
                let ghost old_lru = self.lru_order@;
                assert(!old_lru.contains(index));
                self.cache.insert(index, copy);
                self.lru_order.push(index);
                proof {
                    assert forall|k: usize| #[trigger] self.cache@.contains_key(k) <==> self.lru_order@.contains(k) by {
                        if k == index {
                            assert(self.lru_order@[self.lru_order@.len() - 1] == index);
                        } else {
                            if old_lru.contains(k) {
                                let j = choose|j: int| 0 <= j < old_lru.len() && old_lru[j] == k;
                                assert(self.lru_order@[j] == k);
                            }
                            if self.lru_order@.contains(k) {
                                let j = choose|j: int| 0 <= j < self.lru_order@.len() && self.lru_order@[j] == k;
                                assert(j < old_lru.len());
                                assert(old_lru[j] == k);
                            }
                        }
                    }
                    assert forall|a: int, b: int| 0 <= a < self.lru_order@.len() && 0 <= b < self.lru_order@.len() && a != b
                        implies self.lru_order@[a] != self.lru_order@[b] by {
                        if a < old_lru.len() && b < old_lru.len() {
                        } else if a < old_lru.len() {
                            assert(old_lru.contains(old_lru[a]));
                        } else if b < old_lru.len() {
                            assert(old_lru.contains(old_lru[b]));
                        }
                    }
                }
                self.evict();
                proof {
                    self.lemma_cache_len();
                }
                Ok(Some(image))
            },
            _ => r,
        }
    }

    /// Moves `index` to the most recently used end of the use order.
    fn update_lru(&mut self, index: usize)
        requires
            old(self).wf(),
            old(self).cache@.contains_key(index),
        ensures
            final(self).wf(),
            final(self).cache@ == old(self).cache@,
            final(self).lru_order@ == touched(old(self).lru_order@, index),
            final(self).lru_order@.last() == index,
            final(self).bytes == old(self).bytes,
            final(self).indices == old(self).indices,
            final(self).header == old(self).header,
            final(self).max_cache_size == old(self).max_cache_size,
            final(self).file_path == old(self).file_path,
    {
        let mut pos: usize = 0;
        while pos < self.lru_order.len() && self.lru_order[pos] != index
            invariant
                pos <= self.lru_order@.len(),
                forall|j: int| 0 <= j < pos ==> self.lru_order@[j] != index,
            decreases self.lru_order@.len() - pos,
        {
            pos = pos + 1;
        }
        proof {
            assert(self.lru_order@.contains(index));
            if pos == self.lru_order@.len() {
                let j = choose|j: int| 0 <= j < self.lru_order@.len() && self.lru_order@[j] == index;
                assert(false);
            }
            lemma_remove_distinct(self.lru_order@, pos as int);
            lemma_remove_is_filter(self.lru_order@, pos as int);
        }
        let ghost before = self.lru_order@;
        self.lru_order.remove(pos);
        assert(self.lru_order@ == before.remove(pos as int));
        assert(!self.lru_order@.contains(index));
        self.lru_order.push(index);
        proof {
            assert forall|k: usize| #[trigger] self.cache@.contains_key(k) <==> self.lru_order@.contains(k) by {
                if k == index {
                    assert(self.lru_order@[self.lru_order@.len() - 1] == index);
                } else {
                    assert(self.lru_order@.contains(k) <==> before.remove(pos as int).contains(k)) by {
                        if self.lru_order@.contains(k) {
                            let j = choose|j: int| 0 <= j < self.lru_order@.len() && self.lru_order@[j] == k;
                            assert(j < self.lru_order@.len() - 1);
                            assert(before.remove(pos as int)[j] == k);
                        }
                        if before.remove(pos as int).contains(k) {
                            let j = choose|j: int| 0 <= j < before.remove(pos as int).len() && before.remove(pos as int)[j] == k;
                            assert(self.lru_order@[j] == k);
                        }
                    }
                }
            }
            assert forall|a: int, b: int| 0 <= a < self.lru_order@.len() && 0 <= b < self.lru_order@.len() && a != b
                implies self.lru_order@[a] != self.lru_order@[b] by {
                let r = before.remove(pos as int);
                if a < r.len() && b < r.len() {
                    assert(self.lru_order@[a] == r[a] && self.lru_order@[b] == r[b]);
                } else if a < r.len() {
                    assert(self.lru_order@[a] == r[a]);
                    assert(r.contains(r[a]));
                } else if b < r.len() {
                    assert(self.lru_order@[b] == r[b]);
                    assert(r.contains(r[b]));
                }
            }
        }
    }

    /// Drops the least recently used images until the cache is within its size.
    fn evict(&mut self)
        requires
            old(self).lru_order@.no_duplicates(),
            forall|k: usize| #[trigger] old(self).cache@.contains_key(k) <==> old(self).lru_order@.contains(k),
            forall|k: usize| #[trigger] old(self).cache@.contains_key(k) ==> k < old(self).indices@.len()
                && image_at(old(self).bytes@, old(self).indices@[k as int].offset) == Ok::<Option<ImageView>, LibraryError>(Some(old(self).cache@[k]@)),
        ensures
            final(self).wf(),
            final(self).bytes == old(self).bytes,
            final(self).indices == old(self).indices,
            final(self).header == old(self).header,
            final(self).max_cache_size == old(self).max_cache_size,
            final(self).file_path == old(self).file_path,
            old(self).cache@.len() <= old(self).max_cache_size ==> final(self).cache@ == old(self).cache@
                && final(self).lru_order@ == old(self).lru_order@,
            forall|k: usize| #[trigger] final(self).cache@.contains_key(k) ==> old(self).cache@.contains_key(k)
                && final(self).cache@[k] == old(self).cache@[k],
            old(self).max_cache_size > 0 && old(self).lru_order@.len() > 0 ==> final(self).lru_order@.len() > 0
                && final(self).lru_order@.last() == old(self).lru_order@.last(),
            old(self).lru_order@.len() > old(self).max_cache_size ==> final(self).lru_order@
                == old(self).lru_order@.skip(old(self).lru_order@.len() - old(self).max_cache_size),
    {
        proof {
            self.lemma_cache_len();
        }
        while self.cache.len() > self.max_cache_size && self.lru_order.len() > 0
            invariant
                self.lru_order@.no_duplicates(),
                forall|k: usize| #[trigger] self.cache@.contains_key(k) <==> self.lru_order@.contains(k),
                forall|k: usize| #[trigger] self.cache@.contains_key(k) ==> old(self).cache@.contains_key(k)
                    && self.cache@[k] == old(self).cache@[k],
                forall|k: usize| #[trigger] self.cache@.contains_key(k) ==> k < self.indices@.len()
                    && image_at(self.bytes@, self.indices@[k as int].offset) == Ok::<Option<ImageView>, LibraryError>(Some(self.cache@[k]@)),
                self.cache@.len() == self.lru_order@.len(),
                self.bytes == old(self).bytes,
                self.indices == old(self).indices,
                self.header == old(self).header,
                self.max_cache_size == old(self).max_cache_size,
                self.file_path == old(self).file_path,
                old(self).cache@.len() <= old(self).max_cache_size ==> self.cache@ == old(self).cache@
                    && self.lru_order@ == old(self).lru_order@,
                self.lru_order@.len() <= old(self).lru_order@.len(),
                self.lru_order@ == old(self).lru_order@.skip(old(self).lru_order@.len() - self.lru_order@.len()),
                old(self).max_cache_size > 0 && old(self).lru_order@.len() > 0 ==> self.lru_order@.len() > 0,
                old(self).lru_order@.len() > old(self).max_cache_size ==> self.lru_order@.len() >= old(self).max_cache_size,
            decreases self.lru_order@.len(),
        {
            let ghost before = self.lru_order@;
            proof {
                lemma_remove_distinct(before, 0);
            }
            let oldest = self.lru_order.remove(0);
            assert(self.lru_order@ == before.remove(0));
            self.cache.remove(&oldest);
            proof {
                assert forall|k: usize| #[trigger] self.cache@.contains_key(k) <==> self.lru_order@.contains(k) by {
                    assert(before.remove(0).contains(k) <==> (before.contains(k) && k != before[0]));
                }
                assert(self.lru_order@ =~= old(self).lru_order@.skip(old(self).lru_order@.len() - self.lru_order@.len()));
                self.lemma_cache_len();
            }
        }
        proof {
            if old(self).max_cache_size > 0 && old(self).lru_order@.len() > 0 {
                let m = old(self).lru_order@.len() - self.lru_order@.len();
                assert(self.lru_order@[self.lru_order@.len() - 1] == old(self).lru_order@[m + self.lru_order@.len() - 1]);
            }
        }
    }

    /// How many images the library announces.
    pub fn image_count(&self) -> (n: usize)
        ensures
            n == self.spec_indices().len(),
    {
        self.indices.len()
    }

    /// Empties the cache.
    pub fn clear_cache(&mut self)
        requires
            old(self).wf(),
        ensures
            final(self).wf(),
            final(self).spec_cache().len() == 0,
            final(self).spec_lru().len() == 0,
            final(self).spec_file_path() == old(self).spec_file_path(),
            final(self).spec_bytes() == old(self).spec_bytes(),
            final(self).spec_indices() == old(self).spec_indices(),
            final(self).spec_header() == old(self).spec_header(),
            final(self).spec_max_cache() == old(self).spec_max_cache(),
    {
        self.cache.clear();
        self.lru_order.clear();
        assert(self.cache@.len() == 0);
    }
}

} // verus!
