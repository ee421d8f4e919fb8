use bwb16::decode::{
    decode_alu, decode_auipc, decode_control, decode_imm, decode_jal, decode_jmp, decode_ld,
    decode_ld8, decode_ld8s, decode_lui, decode_st, decode_st8,
};

#[test]
fn alu_operations() {
    // SUB r2 <- r2 - r1
    assert_eq!(decode_alu(0x1230), 0x0306_1088);
    // CMP computes a subtraction and writes nothing back
    assert_eq!(decode_alu(0x12d0), 0x0302_1080);
    // MOV writes back
    assert_eq!(decode_alu(0x12e0), 0x0314_1088);
    // an unassigned function falls back to MOV without a register write
    assert_eq!(decode_alu(0x12a0), 0x0314_1080);
}

#[test]
fn alu_sub_functions() {
    assert_eq!(decode_alu(0x05f0), 0x0318_2808);
    assert_eq!(decode_alu(0x15f0), 0x031a_2888);
    assert_eq!(decode_alu(0x25f0), 0x031c_2908);
    // an unassigned sub-function falls back to MOV without a register write
    assert_eq!(decode_alu(0x35f0), 0x0314_2980);
    // the control sub-function decodes to the default control lines
    assert_eq!(decode_alu(0xf0f0), 0x0314_0000);
}

#[test]
fn control_functions_do_nothing() {
    for function in 0..16u16 {
        let inst = 0xf0f0 | (function << 8);
        assert_eq!(decode_control(inst), 0x0314_0000);
        assert_eq!(decode_alu(inst), 0x0314_0000);
    }
}

#[test]
fn imm_adds_an_immediate() {
    assert_eq!(decode_imm(0x0008), 0x0300_8048);
    assert_eq!(decode_imm(0x3408), 0x0300_99c8);
    for source in 0..16u16 {
        let inst = (source << 12) | 0x0008;
        let s = source as u32;
        let expected = 0x8 | 0x40 | (s << 7) | (s << 11) | (1 << 15) | (1 << 24) | (1 << 25);
        assert_eq!(decode_imm(inst), expected);
    }
}

#[test]
fn jump_and_link() {
    assert_eq!(decode_jal(0x0000), 0x0400_fff8);
    assert_eq!(decode_jal(0xffff), 0x0400_fff8);
}

#[test]
fn loads_and_stores() {
    assert_eq!(decode_ld(0x4512), 0x0100_2a48);
    assert_eq!(decode_ld8(0x671a), 0x0180_3b48);
    assert_eq!(decode_st(0x3704), 0x01a0_39c0);
    assert_eq!(decode_st8(0x890c), 0x01a0_4c40);
    assert_eq!(decode_st8(0x3704), decode_st(0x3704));
    assert_eq!(decode_ld8s(0x2106), 0x0020_0940);
}

#[test]
fn jumps_by_kind() {
    let expected: [u32; 8] = [
        0x0501_7fe1,
        0x0501_7fe2,
        0x0501_7fe3,
        0x0501_7fe4,
        0x0501_7fe5,
        0x0501_7fe6,
        0x0501_7fe7,
        0x0501_7fef,
    ];
    for kind in 0..8u16 {
        assert_eq!(decode_jmp(0x000e | (kind << 8)), expected[kind as usize]);
    }
}

#[test]
fn upper_immediates() {
    assert_eq!(decode_lui(0x0a01), 0x0317_d548);
    assert_eq!(decode_auipc(0x0b03), 0x0301_dde8);
}
