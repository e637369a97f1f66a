//! Program images: the bytes of a program as it is stored, and the words
//! that they hold.
//!
//! An image is a sequence of 16-bit words, each stored low byte first.

use byteorder::{ByteOrder, LittleEndian};
use vstd::prelude::*;
use vstd::slice::slice_subrange;

verus! {

/// Why the bytes of an image are not a sequence of words.
#[derive(Debug, Clone, Copy, PartialEq, Eq, Structural)]
pub enum ConvertToU16Error {
    /// The number of bytes is odd.
    NotEvenNumberOfBytes,
}

/// The word that is stored as the byte `low` followed by the byte `high`.
pub open spec fn le_word(low: u8, high: u8) -> u16 {
    (low + 256 * high) as u16
}

/// The words that the bytes of an image hold: word `i` is made of the bytes
/// `2 * i` and `2 * i + 1`. A last byte without a partner holds no word.
pub open spec fn words_of(bytes: Seq<u8>) -> Seq<u16> {
    Seq::new((bytes.len() / 2) as nat, |i: int| le_word(bytes[2 * i], bytes[2 * i + 1]))
}

/// The little-endian word at the start of `pair`.
///
/// This is `byteorder`'s `<LittleEndian as ByteOrder>::read_u16`. It is
/// taken on trust that the function reads the first two bytes of the slice
/// as a word with the low byte first, as its documentation says. It panics
/// on a slice of fewer than two bytes, which the precondition leaves out.
#[verifier::external_body]
fn read_le_u16(pair: &[u8]) -> (word: u16)
    requires
        pair@.len() >= 2,
    ensures
        word == le_word(pair@[0], pair@[1]),
{
    LittleEndian::read_u16(pair)
}

/// Turns the bytes of an image into its words.
///
/// An image of an odd number of bytes is refused. Every other image gives
/// half as many words as it has bytes, each read low byte first.
pub fn convert_to_u16_le(mem: &Vec<u8>) -> (r: Result<Vec<u16>, ConvertToU16Error>)
    ensures
        mem@.len() % 2 != 0 ==> r == Err::<Vec<u16>, ConvertToU16Error>(
            ConvertToU16Error::NotEvenNumberOfBytes,
        ),
        mem@.len() % 2 == 0 ==> (r matches Ok(words) && words@ == words_of(mem@)),
{
    let size = mem.len();
    if size % 2 != 0 {
        return Err(ConvertToU16Error::NotEvenNumberOfBytes);
    }
    let mut mem_u16: Vec<u16> = Vec::new();
    let mut position: usize = 0;
    while position < size
        invariant
            size == mem@.len(),
            size % 2 == 0,
            position % 2 == 0,
            position <= size,
            mem_u16@.len() == position / 2,
            forall|i: int| 0 <= i < mem_u16@.len() ==> mem_u16@[i] == words_of(mem@)[i],
        decreases size - position,
    {
        let pair = slice_subrange(mem.as_slice(), position, position + 2);
        let word = read_le_u16(pair);
        mem_u16.push(word);
        position = position + 2;
    }
    assert(mem_u16@ =~= words_of(mem@));
    Ok(mem_u16)
}

/// The word that is stored in `mem` at the byte offset `offset`, low byte
/// first, if both of its bytes lie in `mem`.
pub fn read_mem_as_u16_le(mem: &[u8], offset: u16) -> (word: Option<u16>)
    ensures
        word == if offset + 1 < mem@.len() {
            Some(le_word(mem@[offset as int], mem@[offset + 1]))
        } else {
            None::<u16>
        },
{
    let low_index = offset as usize;
    let high_index = offset as usize + 1;
    if high_index < mem.len() {
        let high_byte: u16 = mem[high_index] as u16;
        let low_byte: u16 = mem[low_index] as u16;
        Some(high_byte * 256 + low_byte)
    } else {
        None
    }
}

/// Reading a word at an even byte offset of an image gives the word of
/// that index: the word at byte offset `2 * i` is word `i` of the image.
pub proof fn lemma_word_at_even_offset(bytes: Seq<u8>, i: int)
    requires
        0 <= i,
        2 * i + 1 < bytes.len(),
    ensures
        i < words_of(bytes).len(),
        words_of(bytes)[i] == le_word(bytes[2 * i], bytes[2 * i + 1]),
        words_of(bytes).len() == bytes.len() / 2,
{
}

/// A word determines the two bytes that store it: the low byte is the
/// remainder of the word by 256 and the high byte the quotient.
pub proof fn lemma_le_word_bytes(low: u8, high: u8)
    ensures
        le_word(low, high) == low + 256 * high,
        le_word(low, high) % 256 == low,
        le_word(low, high) / 256 == high,
{
}

} // verus!
