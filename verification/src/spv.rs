//! Decoding shader bytecode blobs into words.
//!
//! The pipeline builder consumes two precompiled shader binaries as opaque
//! byte sequences. A blob is a sequence of 32-bit words; it is valid when
//! its length is a positive multiple of four and its first word, read in
//! either byte order, is the magic number. When the magic only matches in
//! the reversed byte order, every word is read reversed, so the decoded
//! first word is always the magic number.

use vstd::prelude::*;

verus! {

/// The magic number of a shader binary, as its first decoded word.
pub const SHADER_MAGIC: u32 = 0x0723_0203;

/// The word at index `i`, reading each group of four bytes least
/// significant first.
pub open spec fn word_le(b: Seq<u8>, i: int) -> int {
    b[4 * i] + 256 * b[4 * i + 1] + 65536 * b[4 * i + 2] + 16777216 * b[4 * i + 3]
}

/// The word at index `i`, reading each group of four bytes most
/// significant first.
pub open spec fn word_be(b: Seq<u8>, i: int) -> int {
    b[4 * i + 3] + 256 * b[4 * i + 2] + 65536 * b[4 * i + 1] + 16777216 * b[4 * i]
}

/// Why a shader blob was rejected.
#[derive(Clone, Copy, PartialEq, Eq, Structural, Debug)]
pub enum ShaderError {
    /// The blob's length is not a multiple of four.
    Misaligned,
    /// The blob is empty or its first word is not the magic number in
    /// either byte order.
    MissingMagic,
}

/// Decode a shader blob into words. Succeeds exactly on a non-empty blob
/// whose length is a multiple of four and whose first word, in one of the
/// two byte orders, is the magic number; the words are then read in that
/// byte order, so the first decoded word is the magic number.
pub fn read_spv(bytes: &Vec<u8>) -> (r: Result<Vec<u32>, ShaderError>)
    ensures
        match r {
            Ok(words) => {
                &&& bytes@.len() % 4 == 0
                &&& bytes@.len() > 0
                &&& words@.len() == bytes@.len() / 4
                &&& if word_le(bytes@, 0) == SHADER_MAGIC {
                    forall|i: int| 0 <= i < words@.len() ==> #[trigger] words@[i] == word_le(
                        bytes@,
                        i,
                    )
                } else {
                    &&& word_be(bytes@, 0) == SHADER_MAGIC
                    &&& forall|i: int| 0 <= i < words@.len() ==> #[trigger] words@[i] == word_be(
                        bytes@,
                        i,
                    )
                }
                &&& words@[0] == SHADER_MAGIC
            },
            Err(ShaderError::Misaligned) => bytes@.len() % 4 != 0,
            Err(ShaderError::MissingMagic) => {
                &&& bytes@.len() % 4 == 0
                &&& (bytes@.len() == 0 || (word_le(bytes@, 0) != SHADER_MAGIC && word_be(bytes@, 0)
                    != SHADER_MAGIC))
            },
        },
{
    if bytes.len() % 4 != 0 {
        return Err(ShaderError::Misaligned);
    }
    if bytes.len() == 0 {
        return Err(ShaderError::MissingMagic);
    }
    let n = bytes.len() / 4;
    let first_le = word_at_le(bytes, 0);
    if first_le == SHADER_MAGIC {
        let mut words: Vec<u32> = Vec::new();
        let mut i: usize = 0;
        while i < n
            invariant
                bytes@.len() % 4 == 0,
                n == bytes@.len() / 4,
                i <= n,
                words@.len() == i,
                forall|j: int| 0 <= j < i ==> #[trigger] words@[j] == word_le(bytes@, j),
            decreases n - i,
        {
            let w = word_at_le(bytes, i);
            words.push(w);
            i = i + 1;
        }
        Ok(words)
    } else {
        let first_be = word_at_be(bytes, 0);
        if first_be == SHADER_MAGIC {
            let mut words: Vec<u32> = Vec::new();
            let mut i: usize = 0;
            while i < n
                invariant
                    bytes@.len() % 4 == 0,
                    n == bytes@.len() / 4,
                    i <= n,
                    words@.len() == i,
                    forall|j: int| 0 <= j < i ==> #[trigger] words@[j] == word_be(bytes@, j),
                decreases n - i,
            {
                let w = word_at_be(bytes, i);
                words.push(w);
                i = i + 1;
            }
            Ok(words)
        } else {
            Err(ShaderError::MissingMagic)
        }
    }
}

/// Read the word at index `i`, least significant byte first.
fn word_at_le(bytes: &Vec<u8>, i: usize) -> (w: u32)
    requires
        4 * i + 4 <= bytes.len(),
    ensures
        w == word_le(bytes@, i as int),
{
    let base = 4 * i;
    (bytes[base] as u32) + 256 * (bytes[base + 1] as u32) + 65536 * (bytes[base + 2] as u32)
        + 16777216 * (bytes[base + 3] as u32)
}

/// Read the word at index `i`, most significant byte first.
fn word_at_be(bytes: &Vec<u8>, i: usize) -> (w: u32)
    requires
        4 * i + 4 <= bytes.len(),
    ensures
        w == word_be(bytes@, i as int),
{
    let base = 4 * i;
    (bytes[base + 3] as u32) + 256 * (bytes[base + 2] as u32) + 65536 * (bytes[base + 1] as u32)
        + 16777216 * (bytes[base] as u32)
}

} // verus!
