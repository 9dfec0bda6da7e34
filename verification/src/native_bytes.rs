//! The in-memory bytes of the integers that OpenGL reads from client memory.
//!
//! OpenGL reads index and uniform data in the byte order of the machine, so
//! the library asks std for the native-endian bytes of each value. Which of
//! the two byte orders that is depends on the machine: the contracts name it
//! by vstd's `endianness()`, one order shared by every value.

use vstd::prelude::*;

verus! {

/// The little-endian bytes of a 16-bit value.
pub open spec fn le_bytes_u16(x: u16) -> Seq<u8> {
    seq![(x % 0x100) as u8, (x / 0x100) as u8]
}

/// The little-endian bytes of a 32-bit value, taken as unsigned.
pub open spec fn le_bytes_u32(x: u32) -> Seq<u8> {
    seq![
        (x % 0x100) as u8,
        ((x / 0x100) % 0x100) as u8,
        ((x / 0x10000) % 0x100) as u8,
        (x / 0x1000000) as u8,
    ]
}

/// Whether `bytes` is the encoding, in the byte order of the machine
/// (`vstd::endian::endianness()`), of the value whose little-endian encoding
/// is `le`.
pub open spec fn is_native_encoding(bytes: Seq<u8>, le: Seq<u8>) -> bool {
    match vstd::endian::endianness() {
        vstd::endian::Endian::Little => bytes == le,
        vstd::endian::Endian::Big => bytes == le.reverse(),
    }
}

/// `u16::to_ne_bytes`: the bytes of `x` in the byte order of the machine
/// (the one that `vstd::endian::endianness()` stands for).
#[verifier::external_body]
pub(crate) fn u16_to_ne_bytes(x: u16) -> (r: [u8; 2])
    ensures
        is_native_encoding(r@, le_bytes_u16(x)),
{
    x.to_ne_bytes()
}

/// `i32::to_ne_bytes`: the bytes of `x` (two's complement) in the byte order
/// of the machine (the one that `vstd::endian::endianness()` stands for).
#[verifier::external_body]
pub(crate) fn i32_to_ne_bytes(x: i32) -> (r: [u8; 4])
    ensures
        is_native_encoding(r@, le_bytes_u32(x as u32)),
{
    x.to_ne_bytes()
}

} // verus!
