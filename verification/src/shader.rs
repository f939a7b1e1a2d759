//! Shader bytecode: from the bytes of a SPIR-V binary to its words.

use vstd::prelude::*;

verus! {

/// First word of every SPIR-V module.
pub const SPIRV_MAGIC: u32 = 0x0723_0203;

#[derive(Clone, Copy, Debug, PartialEq, Eq, Structural)]
pub enum ShaderError {
    /// The bytes are no SPIR-V module: empty, not a whole number of words,
    /// or without the magic number in front.
    NotSpirv,
}

/// What a shader module is created with.
#[derive(Clone, Debug)]
pub struct ShaderCode {
    /// Size of the code in bytes.
    pub code_size: usize,
    pub words: Vec<u32>,
}

/// The I/O error of the standard library, carried as an opaque value.
#[verifier::external_type_specification]
#[verifier::external_body]
pub struct ExIoError(std::io::Error);

/// Word `i` of `bytes`, lowest byte first.
pub open spec fn word_le(bytes: Seq<u8>, i: int) -> u32 {
    (bytes[4 * i] as u32) | (bytes[4 * i + 1] as u32) << 8 | (bytes[4 * i + 2] as u32) << 16 | (
    bytes[4 * i + 3] as u32) << 24
}

/// Word `i` of `bytes`, highest byte first.
pub open spec fn word_be(bytes: Seq<u8>, i: int) -> u32 {
    (bytes[4 * i] as u32) << 24 | (bytes[4 * i + 1] as u32) << 16 | (bytes[4 * i + 2] as u32) << 8
        | (bytes[4 * i + 3] as u32)
}

/// The words of a SPIR-V binary, read in the byte order in which its first
/// word is the magic number; `None` where there is no such order or the
/// bytes are no whole, positive number of words.
pub open spec fn spirv_words(bytes: Seq<u8>) -> Option<Seq<u32>> {
    if bytes.len() == 0 || bytes.len() % 4 != 0 {
        None
    } else if word_le(bytes, 0) == SPIRV_MAGIC {
        Some(Seq::new(bytes.len() / 4, |i: int| word_le(bytes, i)))
    } else if word_be(bytes, 0) == SPIRV_MAGIC {
        Some(Seq::new(bytes.len() / 4, |i: int| word_be(bytes, i)))
    } else {
        None
    }
}

/// Calls `ash::util::read_spv` on the bytes. Trusted: it fails on a length
/// that is zero or no multiple of four and on a first word that is the magic
/// number in neither byte order, and else returns the words in the order
/// that puts the magic number first.
#[verifier::external_body]
fn read_spv_words(bytes: &[u8]) -> (r: Result<Vec<u32>, std::io::Error>)
    ensures
        r is Ok <==> spirv_words(bytes@) is Some,
        r matches Ok(words) ==> spirv_words(bytes@) == Some(words@),
{
    ash::util::read_spv(&mut std::io::Cursor::new(bytes))
}

impl ShaderCode {
    /// Decodes a SPIR-V binary of either byte order.
    pub fn decode(bytes: &[u8]) -> (r: Result<ShaderCode, ShaderError>)
        ensures
            r is Ok <==> spirv_words(bytes@) is Some,
            r matches Ok(code) ==> {
                &&& spirv_words(bytes@) == Some(code.words@)
                &&& code.code_size == bytes@.len()
                &&& code.words@.len() * 4 == bytes@.len()
                &&& code.words@[0] == SPIRV_MAGIC
            },
            r matches Err(e) ==> e == ShaderError::NotSpirv,
    {
        match read_spv_words(bytes) {
            Ok(words) => Ok(ShaderCode { code_size: bytes.len(), words }),
            Err(_) => Err(ShaderError::NotSpirv),
        }
    }
}

} // verus!
