//! The decode ROM: the control word of every instruction, laid out as bytes.
use vstd::prelude::*;
use crate::decode::{decode_instruction, instruction_word};

verus! {

/// The number of instructions, and of control words in the ROM.
pub const INSTRUCTION_COUNT: usize = 0x1_0000;

/// Byte `k` (0 is the lowest) of a control word.
pub open spec fn byte_of(word: u32, k: int) -> u8 {
    ((word >> (8 * k) as u32) & 0xff) as u8
}

/// The control word of every instruction 0x0000 to 0xFFFF, in order.
pub fn build_control_words() -> (words: Vec<u32>)
    ensures
        words.len() == INSTRUCTION_COUNT,
        forall|i: int| 0 <= i < INSTRUCTION_COUNT ==> words[i] == instruction_word(i as u16),
{
    let mut words: Vec<u32> = Vec::new();
    let mut inst: u32 = 0;
    while inst <= 0xffff
        invariant
            inst <= 0x1_0000,
            words.len() == inst,
            forall|i: int| 0 <= i < inst ==> words[i] == instruction_word(i as u16),
        decreases 0x1_0000 - inst,
    {
        words.push(decode_instruction(inst as u16));
        inst = inst + 1;
    }
    words
}

/// The ROM image: each control word as four bytes, lowest byte first.
pub fn rom_bytes(control_words: &Vec<u32>) -> (bytes: Vec<u8>)
    ensures
        bytes.len() == 4 * control_words.len(),
        forall|i: int, k: int|
            0 <= i < control_words.len() && 0 <= k < 4 ==> #[trigger] bytes[4 * i + k]
                == byte_of(control_words[i], k),
{
    let mut bytes: Vec<u8> = Vec::new();
    let mut j: usize = 0;
    while j < control_words.len()
        invariant
            j <= control_words.len(),
            bytes.len() == 4 * j,
            forall|i: int, k: int|
                0 <= i < j && 0 <= k < 4 ==> #[trigger] bytes[4 * i + k] == byte_of(
                    control_words[i],
                    k,
                ),
        decreases control_words.len() - j,
    {
        let word = control_words[j];
        let mut i: u32 = 0;
        while i < 4
            invariant
                i <= 4,
                j < control_words.len(),
                word == control_words[j as int],
                bytes.len() == 4 * j + i,
                forall|ii: int, k: int|
                    0 <= ii < j && 0 <= k < 4 ==> #[trigger] bytes[4 * ii + k] == byte_of(
                        control_words[ii],
                        k,
                    ),
                forall|k: int| 0 <= k < i ==> #[trigger] bytes[4 * j + k] == byte_of(word, k),
            decreases 4 - i,
        {
            let shift: u32 = i * 8;
            proof {
                assert(((word & (255u32 << shift)) >> shift) == (word >> shift) & 0xff)
                    by (bit_vector)
                    requires
                        shift < 32,
                ;
            }
            let byte = ((word & (255 << shift)) >> shift) as u8;
            bytes.push(byte);
            i = i + 1;
        }
        j = j + 1;
    }
    bytes
}

/// The four bytes of a control word in the ROM give the word back, read
/// lowest byte first.
pub proof fn lemma_rom_bytes_reassemble(word: u32)
    ensures
        byte_of(word, 0) + byte_of(word, 1) * 0x100 + byte_of(word, 2) * 0x1_0000 + byte_of(word, 3)
            * 0x100_0000 == word,
{
    assert(((word >> 0u32) & 0xff) < 0x100 && ((word >> 8u32) & 0xff) < 0x100 && ((word >> 16u32)
        & 0xff) < 0x100 && ((word >> 24u32) & 0xff) < 0x100) by (bit_vector);
    assert(byte_of(word, 0) == (word >> 0u32) & 0xff);
    assert(byte_of(word, 1) == (word >> 8u32) & 0xff);
    assert(byte_of(word, 2) == (word >> 16u32) & 0xff);
    assert(byte_of(word, 3) == (word >> 24u32) & 0xff);
    assert(((word >> 0u32) & 0xff) + ((word >> 8u32) & 0xff) * 0x100 + ((word >> 16u32) & 0xff)
        * 0x1_0000 + ((word >> 24u32) & 0xff) * 0x100_0000 == word) by (bit_vector);
}

} // verus!
