use bwb16::decode::decode_instruction;
use bwb16::rom::{build_control_words, rom_bytes, INSTRUCTION_COUNT};

#[test]
fn one_control_word_per_instruction() {
    let words = build_control_words();
    assert_eq!(words.len(), INSTRUCTION_COUNT);
    assert_eq!(words[0x0000], 0x0300_0008);
    assert_eq!(words[0x0008], 0x0300_8048);
    assert_eq!(words[0x070e], 0x0501_7fef);
    assert_eq!(words[0xffff], 0x0301_ffe8);
    for inst in [0x1234u16, 0x8000, 0x00f0, 0x4321] {
        assert_eq!(words[inst as usize], decode_instruction(inst));
    }
    let total: u64 = words.iter().map(|w| *w as u64).sum();
    assert_eq!(total, 2840536020864);
}

#[test]
fn rom_bytes_are_little_endian() {
    let bytes = rom_bytes(&vec![0x0a0b_0c0d, 0x0314_0000]);
    assert_eq!(bytes, vec![0x0d, 0x0c, 0x0b, 0x0a, 0x00, 0x00, 0x14, 0x03]);
    assert_eq!(rom_bytes(&vec![]), Vec::<u8>::new());
    assert_eq!(rom_bytes(&vec![0xffff_ffff]), vec![0xff, 0xff, 0xff, 0xff]);
}

#[test]
fn rom_bytes_reassemble_into_words() {
    let words = build_control_words();
    let bytes = rom_bytes(&words);
    assert_eq!(bytes.len(), 4 * INSTRUCTION_COUNT);
    for (i, word) in words.iter().enumerate() {
        let b = &bytes[4 * i..4 * i + 4];
        assert_eq!(u32::from_le_bytes([b[0], b[1], b[2], b[3]]), *word);
    }
    let sum: u64 = bytes.iter().map(|b| *b as u64).sum();
    assert_eq!(sum, 21159024);
}
