use bwb16::decode::decode_instruction;

#[test]
fn decode_instruction_table() {
    let cases: [(u16, u32); 27] = [
        (0x0000, 0x3000008),
        (0x1230, 0x3061088),
        (0x12d0, 0x3021080),
        (0x12e0, 0x3141088),
        (0x12a0, 0x3141080),
        (0x05f0, 0x3182808),
        (0xf0f0, 0x3140000),
        (0x01f0, 0x3180808),
        (0x02f0, 0x3181008),
        (0x35f0, 0x3142980),
        (0xa308, 0x300d548),
        (0x4512, 0x1002a48),
        (0x671a, 0x1803b48),
        (0x2106, 0x200940),
        (0x3704, 0x1a039c0),
        (0x890c, 0x1a04c40),
        (0x000e, 0x5017fe1),
        (0x070e, 0x5017fef),
        (0x060e, 0x5017fe7),
        (0x0005, 0x3178048),
        (0xff07, 0x301ffe8),
        (0x0a01, 0x317d548),
        (0x0b03, 0x301dde8),
        (0xffff, 0x301ffe8),
        (0x1238, 0x30088c8),
        (0x0008, 0x3008048),
        (0xc008, 0x300e648),
    ];
    for (inst, word) in cases {
        assert_eq!(decode_instruction(inst), word, "instruction {:#06x}", inst);
    }
}

#[test]
fn every_control_word_fits_in_27_bits() {
    for inst in 0..=u16::MAX {
        assert!(decode_instruction(inst) < 1 << 27);
    }
}
