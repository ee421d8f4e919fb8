use bwb16::decode::{get_bits, get_field};
use bwb16::isa::fields;
use bwb16::isa::InstructionField;

#[test]
fn get_bits_takes_a_nibble() {
    assert_eq!(get_bits(0xabcd, 4, 4), 0xc);
    assert_eq!(get_bits(0xabcd, 4, 12), 0xa);
    assert_eq!(get_bits(0xabcd, 4, 0), 0xd);
}

#[test]
fn get_bits_edges() {
    assert_eq!(get_bits(0xffff, 0, 3), 0);
    assert_eq!(get_bits(0xffff, 15, 0), 0x7fff);
    assert_eq!(get_bits(0xffff, 15, 15), 1);
    assert_eq!(get_bits(0x8000, 1, 15), 1);
    assert_eq!(get_bits(0x000f, 2, 14), 0);
}

#[test]
fn get_field_reads_instruction_fields() {
    let inst: u16 = 0x9a5e;
    assert_eq!(get_field(inst, fields::opcode()), 0xe);
    assert_eq!(get_field(inst, fields::alu_function()), 0x5);
    assert_eq!(get_field(inst, fields::destination()), 0xa);
    assert_eq!(get_field(inst, fields::source()), 0x9);
    assert_eq!(get_field(inst, fields::sub_function()), 0x9);
    assert_eq!(get_field(inst, fields::imm_function()), 0x9);
    assert_eq!(get_field(inst, fields::ctrl_function()), 0xa);
    assert_eq!(get_field(inst, fields::jump_type()), 0x2);
    assert_eq!(get_field(inst, InstructionField { width: 8, shift: 4 }), 0xa5);
}
