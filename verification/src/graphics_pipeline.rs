//! The shader code that the graphics pipeline is built from.

use vstd::prelude::*;

verus! {

/// The SPIR-V magic number, the first word of every module.
pub open spec fn spirv_magic() -> u32 {
    0x0723_0203
}

/// Word `k` of `bytes` read little-endian.
pub open spec fn little_endian_word(bytes: Seq<u8>, k: int) -> u32 {
    (bytes[4 * k] + 0x100 * bytes[4 * k + 1] + 0x1_0000 * bytes[4 * k + 2] + 0x100_0000 * bytes[4
        * k + 3]) as u32
}

/// Word `k` of `bytes` read big-endian.
pub open spec fn big_endian_word(bytes: Seq<u8>, k: int) -> u32 {
    (bytes[4 * k + 3] + 0x100 * bytes[4 * k + 2] + 0x1_0000 * bytes[4 * k + 1] + 0x100_0000
        * bytes[4 * k]) as u32
}

/// Whether `bytes` begin with the magic number written little-endian.
pub open spec fn spirv_is_little_endian(bytes: Seq<u8>) -> bool {
    bytes.len() >= 4 && little_endian_word(bytes, 0) == spirv_magic()
}

/// Whether `bytes` begin with the magic number written big-endian.
pub open spec fn spirv_is_big_endian(bytes: Seq<u8>) -> bool {
    bytes.len() >= 4 && big_endian_word(bytes, 0) == spirv_magic()
}

/// Whether `bytes` hold SPIR-V: whole words, and the magic number first,
/// in either byte order.
pub open spec fn spirv_is_valid(bytes: Seq<u8>) -> bool {
    bytes.len() % 4 == 0 && (spirv_is_little_endian(bytes) || spirv_is_big_endian(bytes))
}

/// The words of `bytes`, read in the byte order that its magic number shows.
pub open spec fn spirv_words(bytes: Seq<u8>) -> Seq<u32> {
    Seq::new(
        (bytes.len() / 4) as nat,
        |k: int|
            if spirv_is_little_endian(bytes) {
                little_endian_word(bytes, k)
            } else {
                big_endian_word(bytes, k)
            },
    )
}

/// Calls `jay_ash::util::read_spv` on the bytes through a `std::io::Cursor`.
/// Its source reads the whole input, fails unless the length is a multiple
/// of four, reads the words in the machine's byte order and swaps every word
/// when the first one is the byte-swapped magic number, then fails unless
/// the first word is the magic number. On any machine that decodes the words
/// in the byte order the magic number shows; the contract claims that.
#[verifier::external_body]
fn read_spv_words(bytes: &[u8]) -> (r: Option<Vec<u32>>)
    ensures
        r is Some <==> spirv_is_valid(bytes@),
        r matches Some(words) ==> words@ == spirv_words(bytes@),
{
    jay_ash::util::read_spv(&mut std::io::Cursor::new(bytes)).ok()
}

/// Decodes the compiled shaders into the words that a shader module is
/// created from; `None` where the bytes are not SPIR-V.
pub fn shader_code(bytes: &[u8]) -> (r: Option<Vec<u32>>)
    ensures
        r is Some <==> spirv_is_valid(bytes@),
        r matches Some(words) ==> words@ == spirv_words(bytes@),
        r matches Some(words) ==> words.len() == bytes.len() / 4 && words.len() >= 1 && words@[0]
            == spirv_magic(),
{
    read_spv_words(bytes)
}

} // verus!
