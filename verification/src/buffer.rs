use vstd::prelude::*;

verus! {

/// Byte `k` (0 is the least significant) of a 32-bit word.
pub open spec fn word_byte(word: u32, k: int) -> u8 {
    if k == 0 {
        (word as int % 256) as u8
    } else if k == 1 {
        (word as int / 256 % 256) as u8
    } else if k == 2 {
        (word as int / 65536 % 256) as u8
    } else {
        (word as int / 16777216 % 256) as u8
    }
}

/// The words laid out one after another, least significant byte first.
pub open spec fn little_endian_bytes(words: Seq<u32>) -> Seq<u8> {
    Seq::new(4 * words.len(), |i: int| word_byte(words[i / 4], i % 4))
}

/// The words laid out one after another, most significant byte first.
pub open spec fn big_endian_bytes(words: Seq<u32>) -> Seq<u8> {
    Seq::new(4 * words.len(), |i: int| word_byte(words[i / 4], 3 - i % 4))
}

/// Whether `bytes` is the in-memory image of `words` on some machine: all
/// words in little-endian order, or all in big-endian order.
pub open spec fn is_memory_image(bytes: Seq<u8>, words: Seq<u32>) -> bool {
    bytes == little_endian_bytes(words) || bytes == big_endian_bytes(words)
}

/// Reinterprets a slice of words as the bytes that store it.
///
/// Trusted: calls `bytemuck::cast_slice` from `u32` to `u8`. That cast never
/// fails (a byte has no alignment demand and four bytes fill a word) and
/// yields the memory of the slice unchanged, which is each word in the byte
/// order of the machine.
#[verifier::external_body]
pub(crate) fn words_to_bytes(words: &Vec<u32>) -> (bytes: Vec<u8>)
    ensures
        is_memory_image(bytes@, words@),
{
    bytemuck::cast_slice::<u32, u8>(words.as_slice()).to_vec()
}

/// What a buffer on the device is used for.
#[derive(Clone, Copy, Debug, PartialEq, Eq, Structural)]
pub enum BufferUsage {
    /// Read by the vertex stage as per-vertex or per-instance records.
    Vertex,
    /// Read as triangle indices.
    Index,
    /// Read as a uniform block, and written again every frame.
    UniformCopyDst,
}

/// A buffer to create on the device together with its first contents.
#[derive(Debug)]
pub struct Buffer {
    pub contents: Vec<u8>,
    pub usage: BufferUsage,
}

impl Buffer {
    /// Describes a buffer that starts out holding the memory image of `words`.
    pub fn from_words(words: &Vec<u32>, usage: BufferUsage) -> (b: Self)
        ensures
            is_memory_image(b.contents@, words@),
            b.usage == usage,
    {
        Buffer { contents: words_to_bytes(words), usage }
    }
}

/// The memory image of a word sequence has four bytes for every word.
pub proof fn memory_image_len(bytes: Seq<u8>, words: Seq<u32>)
    requires
        is_memory_image(bytes, words),
    ensures
        bytes.len() == 4 * words.len(),
{
}

} // verus!
