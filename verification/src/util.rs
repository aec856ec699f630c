//! Turning the bytes of a compiled shader into the words that a shader
//! module is made from.

use vstd::prelude::*;

verus! {

/// The 32-bit word that four bytes spell, lowest byte first.
pub open spec fn spec_word(b0: u8, b1: u8, b2: u8, b3: u8) -> int {
    b0 + b1 * 0x100 + b2 * 0x1_0000 + b3 * 0x100_0000
}

/// The word at position `index` of a buffer of little-endian words.
pub open spec fn spec_word_at(buffer: Seq<u8>, index: int) -> int {
    spec_word(
        buffer[4 * index],
        buffer[4 * index + 1],
        buffer[4 * index + 2],
        buffer[4 * index + 3],
    )
}

/// The words of a buffer of little-endian words, in order.
pub open spec fn spec_words(buffer: Seq<u8>) -> Seq<u32> {
    Seq::new((buffer.len() / 4) as nat, |index: int| spec_word_at(buffer, index) as u32)
}

/// The words of a compiled shader, which is stored as 32-bit words with the
/// lowest byte first. The buffer holds whole words only.
pub fn read_shader_file(buffer: &Vec<u8>) -> (words: Vec<u32>)
    requires
        buffer@.len() % 4 == 0,
    ensures
        words@ == spec_words(buffer@),
        words@.len() * 4 == buffer@.len(),
        forall|index: int|
            0 <= index < words@.len() ==> words@[index] == #[trigger] spec_word_at(buffer@, index),
{
    let count: usize = buffer.len() / 4;
    let mut words: Vec<u32> = Vec::new();
    let mut index: usize = 0;
    while index < count
        invariant
            index <= count,
            count * 4 == buffer@.len() <= usize::MAX,
            words@.len() == index,
            forall|k: int| 0 <= k < index ==> words@[k] == #[trigger] spec_word_at(buffer@, k),
        decreases count - index,
    {
        let at: usize = index * 4;
        let b0: u32 = buffer[at] as u32;
        let b1: u32 = buffer[at + 1] as u32;
        let b2: u32 = buffer[at + 2] as u32;
        let b3: u32 = buffer[at + 3] as u32;
        words.push(b0 + b1 * 0x100 + b2 * 0x1_0000 + b3 * 0x100_0000);
        index += 1;
    }
    assert(words@ =~= spec_words(buffer@));
    words
}

} // verus!
