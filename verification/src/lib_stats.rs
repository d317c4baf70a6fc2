// Statistics over the images of a `.Lib` file: how many are usable, how many
// have no size, how many have no data and how many cannot be found.
//
// The file starts with a 12-byte header (version, image count, frame seek),
// then one 4-byte offset per image; at each offset stand 17 bytes of image
// metadata. The caller reads the bytes; the scan here classifies them.

use vstd::prelude::*;
use crate::le_bytes::{i16_at, i32_at, read_i16, read_i32};

verus! {

/// The header of a library file.
#[derive(Debug, Clone, Copy, PartialEq, Eq, Structural)]
pub struct LibraryHeader {
    pub version: i32,
    pub count: i32,
    pub frame_seek: i32,
}

/// Where an image's metadata starts in the file; zero for no image.
#[derive(Debug, Clone, Copy, PartialEq, Eq, Structural)]
pub struct ImageIndex {
    pub offset: i32,
}

/// The metadata in front of an image's data.
#[derive(Debug, Clone, Copy, PartialEq, Eq, Structural)]
pub struct ImageMetadata {
    pub width: i16,
    pub height: i16,
    pub offset_x: i16,
    pub offset_y: i16,
    pub shadow_x: u8,
    pub shadow_y: u8,
    pub shadow: u8,
    pub data_length: i32,
}

/// The header held by the first 12 bytes.
pub open spec fn header_of(b: Seq<u8>) -> LibraryHeader {
    LibraryHeader {
        version: i32_at(b, 0) as i32,
        count: i32_at(b, 4) as i32,
        frame_seek: i32_at(b, 8) as i32,
    }
}

/// The metadata held by the 17 bytes from `at` on.
pub open spec fn metadata_at(b: Seq<u8>, at: int) -> ImageMetadata {
    ImageMetadata {
        width: i16_at(b, at) as i16,
        height: i16_at(b, at + 2) as i16,
        offset_x: i16_at(b, at + 4) as i16,
        offset_y: i16_at(b, at + 6) as i16,
        shadow_x: b[at + 8],
        shadow_y: b[at + 9],
        shadow: b[at + 10],
        data_length: i32_at(b, at + 11) as i32,
    }
}

/// The metadata held by the first 17 bytes.
pub open spec fn metadata_of(b: Seq<u8>) -> ImageMetadata {
    metadata_at(b, 0)
}

/// Decodes a library header from its 12 bytes.
pub fn read_library_header(buffer: &[u8]) -> (h: LibraryHeader)
    requires
        buffer@.len() == 12,
    ensures
        h == header_of(buffer@),
{
    LibraryHeader {
        version: read_i32(buffer, 0),
        count: read_i32(buffer, 4),
        frame_seek: read_i32(buffer, 8),
    }
}

/// Decodes an image offset from its 4 bytes.
pub fn read_image_index(buffer: &[u8]) -> (i: ImageIndex)
    requires
        buffer@.len() == 4,
    ensures
        i.offset == i32_at(buffer@, 0),
{
    ImageIndex { offset: read_i32(buffer, 0) }
}

/// Decodes image metadata from its 17 bytes.
pub fn read_image_metadata(buffer: &[u8]) -> (m: ImageMetadata)
    requires
        buffer@.len() == 17,
    ensures
        m == metadata_of(buffer@),
{
    ImageMetadata {
        width: read_i16(buffer, 0),
        height: read_i16(buffer, 2),
        offset_x: read_i16(buffer, 4),
        offset_y: read_i16(buffer, 6),
        shadow_x: buffer[8],
        shadow_y: buffer[9],
        shadow: buffer[10],
        data_length: read_i32(buffer, 11),
    }
}

/// How an image of the library turned out.
#[derive(Debug, Clone, Copy, PartialEq, Eq, Structural)]
pub enum ImageClass {
    /// Has a size and data.
    Valid,
    /// Its width or height is zero.
    ZeroDimension,
    /// Has a size but no data.
    ZeroDataLength,
    /// Its offset is zero, or its metadata could not be read there.
    InvalidOffset,
}

/// The class of an image whose metadata could be read (`None` when it could not).
pub open spec fn class_of(metadata: Option<ImageMetadata>) -> ImageClass {
    match metadata {
        None => ImageClass::InvalidOffset,
        Some(m) => if m.width == 0 || m.height == 0 {
            ImageClass::ZeroDimension
        } else if m.data_length == 0 {
            ImageClass::ZeroDataLength
        } else {
            ImageClass::Valid
        },
    }
}

/// Classifies an image from its metadata, or from the failure to read it.
pub fn classify(metadata: Option<ImageMetadata>) -> (c: ImageClass)
    ensures
        c == class_of(metadata),
{
    match metadata {
        None => ImageClass::InvalidOffset,
        Some(m) => if m.width == 0 || m.height == 0 {
            ImageClass::ZeroDimension
        } else if m.data_length == 0 {
            ImageClass::ZeroDataLength
        } else {
            ImageClass::Valid
        },
    }
}

/// Running counts of a scan, and the empty images met, with their index.
#[derive(Debug, Clone)]
pub struct LibraryScan {
    pub valid_count: u64,
    pub zero_dimension_count: u64,
    pub zero_data_length_count: u64,
    pub invalid_offset_count: u64,
    pub zero_images: Vec<(usize, ImageMetadata)>,
}

impl LibraryScan {
    /// How many images the scan has seen.
    pub open spec fn seen(self) -> int {
        self.valid_count + self.zero_dimension_count + self.zero_data_length_count + self.invalid_offset_count
    }

    /// The empty images are those with no size or no data.
    pub open spec fn wf(self) -> bool {
        self.zero_images@.len() == self.zero_dimension_count + self.zero_data_length_count
    }

    /// A scan that has seen nothing.
    pub fn new() -> (s: Self)
        ensures
            s.valid_count == 0,
            s.zero_dimension_count == 0,
            s.zero_data_length_count == 0,
            s.invalid_offset_count == 0,
            s.zero_images@.len() == 0,
            s.wf(),
    {
        LibraryScan {
            valid_count: 0,
            zero_dimension_count: 0,
            zero_data_length_count: 0,
            invalid_offset_count: 0,
            zero_images: Vec::new(),
        }
    }

    /// Counts the image at `index`, from its metadata or the failure to read
    /// it; an empty image is also listed.
    pub fn record(&mut self, index: usize, metadata: Option<ImageMetadata>) -> (c: ImageClass)
        requires
            old(self).wf(),
            old(self).seen() < u64::MAX,
        ensures
            final(self).wf(),
            c == class_of(metadata),
            final(self).seen() == old(self).seen() + 1,
            final(self).valid_count == old(self).valid_count + if c == ImageClass::Valid { 1int } else { 0 },
            final(self).zero_dimension_count == old(self).zero_dimension_count + if c == ImageClass::ZeroDimension {
                1int
            } else {
                0
            },
            final(self).zero_data_length_count == old(self).zero_data_length_count + if c
                == ImageClass::ZeroDataLength {
                1int
            } else {
                0
            },
            final(self).invalid_offset_count == old(self).invalid_offset_count + if c == ImageClass::InvalidOffset {
                1int
            } else {
                0
            },
            final(self).zero_images@ == if c == ImageClass::ZeroDimension || c == ImageClass::ZeroDataLength {
                old(self).zero_images@.push((index, metadata->0))
            } else {
                old(self).zero_images@
            },
    {
        let c = classify(metadata);
        match c {
            ImageClass::Valid => {
                self.valid_count = self.valid_count + 1;
            },
            ImageClass::ZeroDimension => {
                self.zero_dimension_count = self.zero_dimension_count + 1;
                self.zero_images.push((index, metadata.unwrap()));
            },
            ImageClass::ZeroDataLength => {
                self.zero_data_length_count = self.zero_data_length_count + 1;
                self.zero_images.push((index, metadata.unwrap()));
            },
            ImageClass::InvalidOffset => {
                self.invalid_offset_count = self.invalid_offset_count + 1;
            },
        }
        c
    }
}

/// The metadata of the image at `offset`, as a scan of the file finds it:
/// none for an offset of zero or below, or when 17 bytes cannot be read there.
pub open spec fn image_metadata(b: Seq<u8>, offset: i32) -> Option<ImageMetadata> {
    if offset <= 0 || offset + 17 > b.len() {
        None
    } else {
        Some(metadata_at(b, offset as int))
    }
}

/// The offset of image `i`, from the table after the header.
pub open spec fn offset_of(b: Seq<u8>, i: int) -> i32 {
    i32_at(b, 12 + 4 * i) as i32
}

/// The class of image `i` of the file.
pub open spec fn class_at(b: Seq<u8>, i: int) -> ImageClass {
    class_of(image_metadata(b, offset_of(b, i)))
}

/// How many of the first `n` images have class `c`.
pub open spec fn class_count(b: Seq<u8>, n: nat, c: ImageClass) -> nat
    decreases n,
{
    if n == 0 {
        0
    } else {
        class_count(b, (n - 1) as nat, c) + if class_at(b, n - 1) == c {
            1nat
        } else {
            0nat
        }
    }
}

/// The images among the first `n` that have no size or no data, with their
/// index, in order.
pub open spec fn empty_images(b: Seq<u8>, n: nat) -> Seq<(usize, ImageMetadata)>
    decreases n,
{
    if n == 0 {
        Seq::empty()
    } else {
        let prev = empty_images(b, (n - 1) as nat);
        let c = class_at(b, n - 1);
        if c == ImageClass::ZeroDimension || c == ImageClass::ZeroDataLength {
            prev.push(((n - 1) as usize, image_metadata(b, offset_of(b, n - 1))->0))
        } else {
            prev
        }
    }
}

/// Whether the file holds its header and its whole offset table.
pub open spec fn table_complete(b: Seq<u8>) -> bool {
    b.len() >= 12 && b.len() >= 12 + 4 * header_of(b).count
}

/// Reads the metadata of the image at `offset`, when the file has it there.
fn read_metadata_at(bytes: &[u8], offset: i32) -> (r: Option<ImageMetadata>)
    ensures
        r == image_metadata(bytes@, offset),
{
    let n = bytes.len();
    if offset <= 0 || (offset as usize) > n || n - (offset as usize) < 17 {
        return None;
    }
    let at = offset as usize;
    Some(ImageMetadata {
        width: read_i16(bytes, at),
        height: read_i16(bytes, at + 2),
        offset_x: read_i16(bytes, at + 4),
        offset_y: read_i16(bytes, at + 6),
        shadow_x: bytes[at + 8],
        shadow_y: bytes[at + 9],
        shadow: bytes[at + 10],
        data_length: read_i32(bytes, at + 11),
    })
}

/// Scans a whole library file: its header, then every image through the
/// offset table. `None` when the file is too short for its header or its
/// table; a count below zero is not a file that can be scanned.
pub fn scan_library(bytes: &[u8]) -> (r: Option<(LibraryHeader, LibraryScan)>)
    requires
        bytes@.len() >= 12 ==> header_of(bytes@).count >= 0,
    ensures
        r is Some <==> table_complete(bytes@),
        r matches Some((h, s)) ==> {
            &&& h == header_of(bytes@)
            &&& s.wf()
            &&& s.valid_count == class_count(bytes@, h.count as nat, ImageClass::Valid)
            &&& s.zero_dimension_count == class_count(bytes@, h.count as nat, ImageClass::ZeroDimension)
            &&& s.zero_data_length_count == class_count(bytes@, h.count as nat, ImageClass::ZeroDataLength)
            &&& s.invalid_offset_count == class_count(bytes@, h.count as nat, ImageClass::InvalidOffset)
            &&& s.zero_images@ == empty_images(bytes@, h.count as nat)
        },
{
    let len = bytes.len();
    if len < 12 {
        return None;
    }
    let header = LibraryHeader {
        version: read_i32(bytes, 0),
        count: read_i32(bytes, 4),
        frame_seek: read_i32(bytes, 8),
    };
    let count = header.count as usize;
    if (len - 12) / 4 < count {
        return None;
    }
    let mut scan = LibraryScan::new();
    let mut i: usize = 0;
    while i < count
        invariant
            len == bytes@.len(),
            count == header.count,
            header == header_of(bytes@),
            12 + 4 * count <= len,
            i <= count,
            count <= i32::MAX,
            scan.wf(),
            scan.seen() == i,
            scan.valid_count == class_count(bytes@, i as nat, ImageClass::Valid),
            scan.zero_dimension_count == class_count(bytes@, i as nat, ImageClass::ZeroDimension),
            scan.zero_data_length_count == class_count(bytes@, i as nat, ImageClass::ZeroDataLength),
            scan.invalid_offset_count == class_count(bytes@, i as nat, ImageClass::InvalidOffset),
            scan.zero_images@ == empty_images(bytes@, i as nat),
        decreases count - i,
    {
        let offset = read_i32(bytes, 12 + 4 * i);
        let metadata = read_metadata_at(bytes, offset);
        scan.record(i, metadata);
        i = i + 1;
    }
    Some((header, scan))
}

} // verus!
