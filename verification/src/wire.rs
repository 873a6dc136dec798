//! How 32-bit words lie in a byte buffer that is handed to the device.
//!
//! Buffers are filled with the machine's own representation of the words, so
//! the byte order is the machine's. The contracts here hold for either order.

use vstd::prelude::*;

verus! {

/// The order in which the four bytes of a word follow one another.
#[derive(Clone, Copy, Debug, PartialEq, Eq, Structural)]
pub enum ByteOrder {
    /// Least significant byte first.
    LittleEndian,
    /// Most significant byte first.
    BigEndian,
}

/// Byte `k` of a word, counted from the least significant one.
pub open spec fn byte_of(word: u32, k: int) -> u8 {
    if k == 0 {
        (word % 256) as u8
    } else if k == 1 {
        ((word / 256) % 256) as u8
    } else if k == 2 {
        ((word / 65536) % 256) as u8
    } else {
        (word / 16777216) as u8
    }
}

/// The byte that stands at place `k` (0 to 3) of a word written in `order`.
pub open spec fn word_byte(order: ByteOrder, word: u32, k: int) -> u8 {
    match order {
        ByteOrder::LittleEndian => byte_of(word, k),
        ByteOrder::BigEndian => byte_of(word, 3 - k),
    }
}

/// The words written one after another, four bytes each.
pub open spec fn encode_words(order: ByteOrder, words: Seq<u32>) -> Seq<u8> {
    Seq::new(4 * words.len(), |i: int| word_byte(order, words[i / 4], i % 4))
}

/// `bytes` is the machine's representation of `words`, whichever of the two
/// byte orders the machine has.
pub open spec fn native_encoding(words: Seq<u32>, bytes: Seq<u8>) -> bool {
    ||| bytes == encode_words(ByteOrder::LittleEndian, words)
    ||| bytes == encode_words(ByteOrder::BigEndian, words)
}

/// The word that four bytes in `order` stand for.
pub open spec fn decode_word(order: ByteOrder, bytes: Seq<u8>) -> int {
    match order {
        ByteOrder::LittleEndian => bytes[0] + 256 * bytes[1] + 65536 * bytes[2] + 16777216
            * bytes[3],
        ByteOrder::BigEndian => bytes[3] + 256 * bytes[2] + 65536 * bytes[1] + 16777216
            * bytes[0],
    }
}

/// Nothing is lost on the way: word `k` of a buffer occupies the bytes from
/// `4 * k` on, and can be read back from them.
pub proof fn lemma_word_read_back(order: ByteOrder, words: Seq<u32>, k: int)
    requires
        0 <= k < words.len(),
    ensures
        encode_words(order, words).len() == 4 * words.len(),
        decode_word(order, encode_words(order, words).subrange(4 * k, 4 * k + 4)) == words[k],
{
    let bytes = encode_words(order, words);
    let part = bytes.subrange(4 * k, 4 * k + 4);
    let w = words[k];
    assert(part[0] == word_byte(order, w, 0));
    assert(part[1] == word_byte(order, w, 1));
    assert(part[2] == word_byte(order, w, 2));
    assert(part[3] == word_byte(order, w, 3));
}

/// `bytemuck::cast_slice` from `u32` to `u8`, copied into a vector. The cast
/// cannot fail in this direction: a byte has no alignment to meet and every
/// length is a whole number of bytes. The result is the memory of the words
/// read as bytes, four for each word, in the byte order of the machine.
#[verifier::external_body]
pub(crate) fn cast_words(words: &Vec<u32>) -> (bytes: Vec<u8>)
    ensures
        native_encoding(words@, bytes@),
{
    bytemuck::cast_slice::<u32, u8>(words.as_slice()).to_vec()
}

} // verus!
