// Little-endian numbers in byte sequences, as the library and map files
// store them.

use vstd::prelude::*;

verus! {

/// The unsigned 16-bit number at `at`.
pub open spec fn u16_at(b: Seq<u8>, at: int) -> int {
    b[at] + 256 * b[at + 1]
}

/// The signed 16-bit number at `at`.
pub open spec fn i16_at(b: Seq<u8>, at: int) -> int {
    if b[at + 1] < 128 {
        u16_at(b, at)
    } else {
        u16_at(b, at) - 65536
    }
}

/// The unsigned 32-bit number at `at`.
pub open spec fn u32_at(b: Seq<u8>, at: int) -> int {
    b[at] + 256 * b[at + 1] + 65536 * b[at + 2] + 16777216 * b[at + 3]
}

/// The signed 32-bit number at `at`.
pub open spec fn i32_at(b: Seq<u8>, at: int) -> int {
    if b[at + 3] < 128 {
        u32_at(b, at)
    } else {
        u32_at(b, at) - 4294967296
    }
}

/// Reads the signed 16-bit number at `at`.
pub fn read_i16(b: &[u8], at: usize) -> (v: i16)
    requires
        at + 2 <= b@.len(),
    ensures
        v == i16_at(b@, at as int),
{
    let lo = b[at] as i32;
    let hi = b[at + 1] as i32;
    let v: i32 = if hi < 128 {
        lo + 256 * hi
    } else {
        lo + 256 * hi - 65536
    };
    v as i16
}

/// Reads the unsigned 32-bit number at `at`.
pub fn read_u32(b: &[u8], at: usize) -> (v: u32)
    requires
        at + 4 <= b@.len(),
    ensures
        v == u32_at(b@, at as int),
{
    b[at] as u32 + 256 * (b[at + 1] as u32) + 65536 * (b[at + 2] as u32) + 16777216 * (b[at + 3] as u32)
}

/// Reads the signed 32-bit number at `at`.
pub fn read_i32(b: &[u8], at: usize) -> (v: i32)
    requires
        at + 4 <= b@.len(),
    ensures
        v == i32_at(b@, at as int),
{
    let low: i64 = b[at] as i64 + 256 * (b[at + 1] as i64) + 65536 * (b[at + 2] as i64);
    let top = b[at + 3] as i64;
    let v: i64 = if top < 128 {
        low + 16777216 * top
    } else {
        low + 16777216 * top - 4294967296
    };
    v as i32
}

} // verus!
