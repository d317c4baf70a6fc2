// The quick reader of `.map` files used by the simple map viewer: a 52-byte
// header that starts with the width and height as little-endian 16-bit
// numbers, then one record per cell, column by column, of 14 bytes (type 2)
// or 36 bytes (type 3, whose last 22 bytes are skipped).
//
// A record starts with the back, middle and front images as little-endian
// 16-bit numbers, whose top bit is a blending flag and whose low 15 bits are
// the image; then the door index, door offset, front animation frames and
// tick, a front library byte (skipped), the light, and the back and middle
// library bytes (skipped).

use vstd::prelude::*;
use crate::text::{decimal, push_decimal, push_str};

verus! {

/// One cell of a map file as the quick reader keeps it. The libraries are
/// fixed: back 0, middle 1, front 2.
#[derive(Debug, Clone, Copy, PartialEq, Eq, Structural)]
pub struct FileTile {
    pub back_index: i16,
    pub back_image: i32,
    pub middle_index: i16,
    pub middle_image: i32,
    pub front_index: i16,
    pub front_image: i32,
    pub back_blend: bool,
    pub middle_blend: bool,
    pub front_blend: bool,
    pub door_index: u8,
    pub door_offset: u8,
    pub front_anim_frame: u8,
    pub front_anim_tick: u8,
    pub light: u8,
}

/// A map file: its size and its cells, indexed `[x][y]`.
#[derive(Debug, Clone)]
pub struct MapFile {
    pub width: i32,
    pub height: i32,
    pub tiles: Vec<Vec<FileTile>>,
}

/// The signed little-endian 16-bit number of two bytes.
pub open spec fn le_i16(b0: u8, b1: u8) -> int {
    if b1 < 128 {
        b0 + 256 * b1
    } else {
        b0 + 256 * b1 - 65536
    }
}

/// The width in the header.
pub open spec fn file_width(bytes: Seq<u8>) -> int {
    le_i16(bytes[0], bytes[1])
}

/// The height in the header.
pub open spec fn file_height(bytes: Seq<u8>) -> int {
    le_i16(bytes[2], bytes[3])
}

/// The size a file of `per_tile` bytes per cell would have, as the reader
/// computes it: in 32-bit arithmetic, then taken as an unsigned size.
pub open spec fn expected_size(bytes: Seq<u8>, per_tile: int) -> usize {
    (52 + file_width(bytes) * file_height(bytes) * per_tile) as usize
}

/// Whether a value fits in 32 signed bits.
pub open spec fn fits_i32(v: int) -> bool {
    i32::MIN <= v <= i32::MAX
}

/// The number of bytes per cell, if the file has the size of type 2 or type 3.
pub open spec fn record_size(bytes: Seq<u8>) -> Option<int> {
    if bytes.len() == expected_size(bytes, 14) {
        Some(14)
    } else if bytes.len() == expected_size(bytes, 36) {
        Some(36)
    } else {
        None
    }
}

/// The inputs the reader handles without panicking: a whole header, size
/// computations that do not overflow 32 bits, and, for a file of a known
/// type, a size that is not negative (the cell table is allocated from it).
pub open spec fn readable(bytes: Seq<u8>) -> bool {
    let w = file_width(bytes);
    let h = file_height(bytes);
    &&& bytes.len() >= 4
    &&& fits_i32(w * h * 14)
    &&& fits_i32(52 + w * h * 14)
    &&& bytes.len() != expected_size(bytes, 14) ==> fits_i32(w * h * 36) && fits_i32(52 + w * h * 36)
    &&& record_size(bytes) is Some ==> w >= 0 && h >= 0
}

/// The low 15 bits of a little-endian 16-bit number.
pub open spec fn image_of(b0: u8, b1: u8) -> i32 {
    (b0 + 256 * (b1 % 128)) as i32
}

/// The cell whose record starts at `at`.
pub open spec fn tile_at(bytes: Seq<u8>, at: int) -> FileTile {
    FileTile {
        back_index: 0,
        back_image: image_of(bytes[at], bytes[at + 1]),
        middle_index: 1,
        middle_image: image_of(bytes[at + 2], bytes[at + 3]),
        front_index: 2,
        front_image: image_of(bytes[at + 4], bytes[at + 5]),
        back_blend: bytes[at + 1] >= 128,
        middle_blend: bytes[at + 3] >= 128,
        front_blend: bytes[at + 5] >= 128,
        door_index: bytes[at + 6],
        door_offset: bytes[at + 7],
        front_anim_frame: bytes[at + 8],
        front_anim_tick: bytes[at + 9],
        light: bytes[at + 11],
    }
}

/// The error message for a file of unknown type.
pub open spec fn unknown_format_message(len: nat) -> Seq<char> {
    "Unknown map format, size: "@ + decimal(len)
}

fn read_i16(b0: u8, b1: u8) -> (v: i32)
    ensures
        v == le_i16(b0, b1),
{
    if b1 < 128 {
        b0 as i32 + 256 * (b1 as i32)
    } else {
        b0 as i32 + 256 * (b1 as i32) - 65536
    }
}

fn read_image(b0: u8, b1: u8) -> (r: (i32, bool))
    ensures
        r.0 == image_of(b0, b1),
        r.1 == (b1 >= 128),
{
    let high = b1 & 0x7F;
    assert(high == b1 % 128) by (bit_vector)
        requires high == b1 & 0x7F;
    let blend = (b1 & 0x80) != 0;
    assert(blend == (b1 >= 128)) by (bit_vector)
        requires blend == ((b1 & 0x80) != 0);
    (b0 as i32 + 256 * (high as i32), blend)
}

fn read_tile(bytes: &[u8], at: usize) -> (t: FileTile)
    requires
        at + 12 <= bytes@.len(),
    ensures
        t == tile_at(bytes@, at as int),
{
    let (back_image, back_blend) = read_image(bytes[at], bytes[at + 1]);
    let (middle_image, middle_blend) = read_image(bytes[at + 2], bytes[at + 3]);
    let (front_image, front_blend) = read_image(bytes[at + 4], bytes[at + 5]);
    FileTile {
        back_index: 0,
        back_image,
        middle_index: 1,
        middle_image,
        front_index: 2,
        front_image,
        back_blend,
        middle_blend,
        front_blend,
        door_index: bytes[at + 6],
        door_offset: bytes[at + 7],
        front_anim_frame: bytes[at + 8],
        front_anim_tick: bytes[at + 9],
        light: bytes[at + 11],
    }
}

proof fn lemma_record_fits(x: int, y: int, w: int, h: int, k: int)
    requires
        0 <= x < w,
        0 <= y < h,
        k > 0,
    ensures
        (x * h + y) * k + k <= w * h * k,
        0 <= (x * h + y) * k,
{
    assert(x * h + y + 1 <= w * h) by (nonlinear_arith)
        requires 0 <= x < w, 0 <= y < h;
    assert((x * h + y + 1) * k <= w * h * k) by (nonlinear_arith)
        requires x * h + y + 1 <= w * h, k > 0;
    assert((x * h + y) * k + k == (x * h + y + 1) * k) by (nonlinear_arith);
    assert(0 <= (x * h + y) * k) by (nonlinear_arith)
        requires 0 <= x, 0 <= y, 0 <= h, k > 0;
}

/// Reads a map file of type 2 or 3 from its bytes.
pub fn load_map(bytes: &[u8]) -> (r: Result<MapFile, String>)
    requires
        readable(bytes@),
    ensures
        r is Ok <==> record_size(bytes@) is Some,
        r matches Err(e) ==> e@ == unknown_format_message(bytes@.len()),
        r matches Ok(m) ==> {
            let w = file_width(bytes@);
            let h = file_height(bytes@);
            let k = record_size(bytes@)->0;
            &&& m.width == w
            &&& m.height == h
            &&& m.tiles@.len() == w
            &&& forall|x: int| 0 <= x < w ==> (#[trigger] m.tiles@[x])@.len() == h
            &&& forall|x: int, y: int|
                0 <= x < w && 0 <= y < h ==> #[trigger] m.tiles@[x]@[y] == tile_at(bytes@, 52 + (x * h + y) * k)
        },
{
    let width = read_i16(bytes[0], bytes[1]);
    let height = read_i16(bytes[2], bytes[3]);
    let ghost w = width as int;
    let ghost h = height as int;
    let per_tile: usize = if bytes.len() == (52 + width * height * 14) as usize {
        14
    } else if bytes.len() == (52 + width * height * 36) as usize {
        36
    } else {
        let mut message = String::new();
        push_str(&mut message, "Unknown map format, size: ");
        push_decimal(&mut message, bytes.len() as u64);
        return Err(message);
    };
    assert(bytes@.len() == 52 + w * h * per_tile) by {
        assert(0 <= w * h) by (nonlinear_arith)
            requires w >= 0, h >= 0;
    }
    let total: usize = bytes.len();
    let mut tiles: Vec<Vec<FileTile>> = Vec::new();
    let mut pos: usize = 52;
    let mut x: i32 = 0;
    while x < width
        invariant
            0 <= x <= width,
            w == width,
            h == height,
            w >= 0,
            h >= 0,
            per_tile == 14 || per_tile == 36,
            bytes@.len() == 52 + w * h * per_tile,
            total == bytes@.len(),
            pos == 52 + x * h * per_tile,
            tiles@.len() == x,
            forall|i: int| 0 <= i < x ==> (#[trigger] tiles@[i])@.len() == h,
            forall|i: int, j: int|
                0 <= i < x && 0 <= j < h ==> #[trigger] tiles@[i]@[j] == tile_at(bytes@, 52 + (i * h + j) * per_tile),
        decreases width - x,
    {
        let mut column: Vec<FileTile> = Vec::new();
        let mut y: i32 = 0;
        while y < height
            invariant
                0 <= x < width,
                0 <= y <= height,
                w == width,
                h == height,
                per_tile == 14 || per_tile == 36,
                bytes@.len() == 52 + w * h * per_tile,
                total == bytes@.len(),
                pos == 52 + (x * h + y) * per_tile,
                column@.len() == y,
                forall|j: int| 0 <= j < y ==> #[trigger] column@[j] == tile_at(bytes@, 52 + (x * h + j) * per_tile),
            decreases height - y,
        {
            proof {
                lemma_record_fits(x as int, y as int, w, h, per_tile as int);
            }
            assert(pos + per_tile <= bytes@.len());
            column.push(read_tile(bytes, pos));
            pos = pos + per_tile;
            y = y + 1;
        }
        assert((x * h + h) * per_tile == (x + 1) * h * per_tile) by (nonlinear_arith);
        tiles.push(column);
        x = x + 1;
    }
    Ok(MapFile { width, height, tiles })
}

} // verus!
