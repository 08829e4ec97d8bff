//! Reading the compute ray tracer's SPIR-V shaders.

use vstd::prelude::*;
use crate::text::concat;

verus! {

/// The first word of every SPIR-V module.
pub const SPIRV_MAGIC: u32 = 0x0723_0203;

/// The `i`-th 32-bit word of `bytes`, least significant byte first.
pub open spec fn le_word(bytes: Seq<u8>, i: int) -> int {
    bytes[4 * i] + bytes[4 * i + 1] * 0x100 + bytes[4 * i + 2] * 0x1_0000 + bytes[4 * i + 3] * 0x100_0000
}

/// The `i`-th 32-bit word of `bytes`, most significant byte first.
pub open spec fn be_word(bytes: Seq<u8>, i: int) -> int {
    bytes[4 * i + 3] + bytes[4 * i + 2] * 0x100 + bytes[4 * i + 1] * 0x1_0000 + bytes[4 * i] * 0x100_0000
}

/// The words of a SPIR-V module: a whole number of 32-bit words, read in the
/// byte order that makes the first word the magic number; `None` when the
/// length is not a multiple of four or no byte order gives the magic number
/// (an empty input included).
pub open spec fn spirv_words(bytes: Seq<u8>) -> Option<Seq<u32>> {
    let n = bytes.len() / 4;
    if bytes.len() % 4 != 0 || bytes.len() == 0 {
        None
    } else if le_word(bytes, 0) == SPIRV_MAGIC {
        Some(Seq::new(n, |i: int| le_word(bytes, i) as u32))
    } else if be_word(bytes, 0) == SPIRV_MAGIC {
        Some(Seq::new(n, |i: int| be_word(bytes, i) as u32))
    } else {
        None
    }
}

/// `ash::util::read_spv` over the bytes of a file. It reads the bytes as
/// native-endian words and swaps every word when the first one is the magic
/// number swapped, so on any machine the words come out in the byte order
/// that makes the first word the magic number; it fails when the length is
/// not a multiple of four or the first word is not the magic number either way.
#[verifier::external_body]
fn read_spv(bytes: &[u8]) -> (res: Option<Vec<u32>>)
    ensures
        match spirv_words(bytes@) {
            Some(words) => res matches Some(v) && v@ == words,
            None => res is None,
        },
{
    ash::util::read_spv(&mut std::io::Cursor::new(bytes)).ok()
}

/// The text of a string in debug form (quoted, with escapes).
pub uninterp spec fn str_debug_text(s: Seq<char>) -> Seq<char>;

/// `format!("{:?}", s)` for a string slice.
#[verifier::external_body]
fn str_debug(s: &str) -> (res: String)
    ensures
        res@ == str_debug_text(s@),
{
    format!("{:?}", s)
}

/// The code of the shader in `filename`. `file_bytes` is what reading the
/// file gave, `None` when it could not be opened.
pub fn shader_code(filename: &str, file_bytes: Option<Vec<u8>>) -> (res: Result<Vec<u32>, String>)
    ensures
        file_bytes is None ==> (res matches Err(msg) && msg@ == "failed to find spv file at "@ + str_debug_text(filename@)),
        file_bytes matches Some(bytes) ==> match spirv_words(bytes@) {
            Some(words) => res matches Ok(v) && v@ == words,
            None => res matches Err(msg) && msg@ == "failed to read shader spv file ("@ + filename@ + ")"@,
        },
{
    let bytes = match file_bytes {
        None => {
            let shown = str_debug(filename);
            return Err(concat("failed to find spv file at ", shown.as_str()));
        },
        Some(bytes) => bytes,
    };
    match read_spv(bytes.as_slice()) {
        Some(words) => Ok(words),
        None => {
            let s = concat("failed to read shader spv file (", filename);
            Err(concat(s.as_str(), ")"))
        },
    }
}

} // verus!
