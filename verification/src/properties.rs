//! What each instruction decodes to, written out as control-word values over
//! the instruction's own bits: source register `s` (bits 12..15), destination
//! register `d` (bits 8..11), ALU function `f` (bits 4..7) and jump kind `k`
//! (bits 8..10).
use vstd::prelude::*;
use vstd::arithmetic::power2::lemma2_to64;
use crate::decode::{
    alu_lines, auipc_lines, control_lines, imm_lines, instruction_word, jal_lines, jmp_lines,
    ld8_lines, ld8s_lines, ld_lines, lui_lines, st8_lines, st_lines,
};
use crate::encode::{control_word_of, lemma_control_word_round_trip};

verus! {

/// ALU instructions. Each function code selects the ALU operation of the
/// same name (CMP subtracts, MOV moves), and the result is written to the
/// destination register except for CMP and for unassigned codes, which fall
/// back to MOV without a write. Function 0b1111 takes its sub-function from
/// bits 12..15: NOT, NEG, NEGB, a control function (which does nothing), or
/// an unassigned code (MOV without a write).
pub proof fn lemma_alu_words(inst: u16)
    ensures
        ({
            let s = inst / 0x1000;
            let d = inst / 0x100 % 0x10;
            let f = inst / 0x10 % 0x10;
            let w = control_word_of(alu_lines(inst)) as int;
            let base = 0x300_0000 + s * 0x80 + d * 0x800;
            &&& f == 0b0000 ==> w == base + 0x8 + 0b0000 * 0x2_0000
            &&& f == 0b0001 ==> w == base + 0x8 + 0b0001 * 0x2_0000
            &&& f == 0b0010 ==> w == base + 0x8 + 0b0010 * 0x2_0000
            &&& f == 0b0011 ==> w == base + 0x8 + 0b0011 * 0x2_0000
            &&& f == 0b0100 ==> w == base + 0x8 + 0b0100 * 0x2_0000
            &&& f == 0b0101 ==> w == base + 0x8 + 0b0101 * 0x2_0000
            &&& f == 0b0110 ==> w == base + 0x8 + 0b0110 * 0x2_0000
            &&& f == 0b0111 ==> w == base + 0x8 + 0b0111 * 0x2_0000
            &&& f == 0b1000 ==> w == base + 0x8 + 0b1000 * 0x2_0000
            &&& f == 0b1001 ==> w == base + 0x8 + 0b1001 * 0x2_0000
            &&& (f == 0b1010 || f == 0b1011 || f == 0b1100) ==> w == base + 0b1010 * 0x2_0000
            &&& f == 0b1101 ==> w == base + 0b0001 * 0x2_0000
            &&& f == 0b1110 ==> w == base + 0x8 + 0b1010 * 0x2_0000
            &&& f == 0b1111 && s == 0b0000 ==> w == base + 0x8 + 0b1100 * 0x2_0000
            &&& f == 0b1111 && s == 0b0001 ==> w == base + 0x8 + 0b1101 * 0x2_0000
            &&& f == 0b1111 && s == 0b0010 ==> w == base + 0x8 + 0b1110 * 0x2_0000
            &&& f == 0b1111 && 0b0011 <= s <= 0b1110 ==> w == base + 0b1010 * 0x2_0000
            &&& f == 0b1111 && s == 0b1111 ==> w == 0x314_0000
        }),
{
    lemma2_to64();
    lemma_control_word_round_trip(alu_lines(inst));
}

/// Control functions do nothing: no jump, no write, MOV of register 0.
pub proof fn lemma_control_word()
    ensures
        control_word_of(control_lines()) == 0x314_0000,
{
    lemma_control_word_round_trip(control_lines());
}

/// IMM instructions add a six-bit immediate to the source register and write
/// the sum back to it.
pub proof fn lemma_imm_words(inst: u16)
    ensures
        control_word_of(imm_lines(inst)) as int == 0x300_8048 + (inst / 0x1000) * 0x880,
{
    lemma2_to64();
    lemma_control_word_round_trip(imm_lines(inst));
}

/// Jump-and-link writes the program counter to the link register r15.
pub proof fn lemma_jal_word()
    ensures
        control_word_of(jal_lines()) == 0x400_fff8,
{
    lemma_control_word_round_trip(jal_lines());
}

/// Loads: a word load (LD) or a zero-extended byte load (LD8) from source
/// plus immediate into the destination register.
pub proof fn lemma_load_words(inst: u16)
    ensures
        control_word_of(ld_lines(inst)) as int == 0x100_0048 + (inst / 0x1000) * 0x80 + (inst
            / 0x100 % 0x10) * 0x800,
        control_word_of(ld8_lines(inst)) as int == 0x180_0048 + (inst / 0x1000) * 0x80 + (inst
            / 0x100 % 0x10) * 0x800,
{
    lemma2_to64();
    lemma_control_word_round_trip(ld_lines(inst));
    lemma_control_word_round_trip(ld8_lines(inst));
}

/// Stores: ST and ST8 decode alike, a memory write at source plus immediate
/// with no register write; LD8S as it stands also writes memory.
pub proof fn lemma_store_words(inst: u16)
    ensures
        control_word_of(st_lines(inst)) as int == 0x1a0_0040 + (inst / 0x1000) * 0x80 + (inst
            / 0x100 % 0x10) * 0x800,
        control_word_of(st8_lines(inst)) as int == 0x1a0_0040 + (inst / 0x1000) * 0x80 + (inst
            / 0x100 % 0x10) * 0x800,
        control_word_of(ld8s_lines(inst)) as int == 0x20_0040 + (inst / 0x1000) * 0x80 + (inst
            / 0x100 % 0x10) * 0x800,
{
    lemma2_to64();
    lemma_control_word_round_trip(st_lines(inst));
    lemma_control_word_round_trip(st8_lines(inst));
    lemma_control_word_round_trip(ld8s_lines(inst));
}

/// JMP: the condition depends on the jump kind alone (EQ, NE, LT, GE, LTS,
/// GES to conditions 1 to 6; JR and JRAL always), and JRAL also writes the
/// link register.
pub proof fn lemma_jmp_words(inst: u16)
    ensures
        ({
            let k = inst / 0x100 % 0x8;
            let w = control_word_of(jmp_lines(inst)) as int;
            &&& k == 0b000 ==> w == 0x501_7fe0 + 0b001
            &&& k == 0b001 ==> w == 0x501_7fe0 + 0b010
            &&& k == 0b010 ==> w == 0x501_7fe0 + 0b011
            &&& k == 0b011 ==> w == 0x501_7fe0 + 0b100
            &&& k == 0b100 ==> w == 0x501_7fe0 + 0b101
            &&& k == 0b101 ==> w == 0x501_7fe0 + 0b110
            &&& k == 0b110 ==> w == 0x501_7fe0 + 0b111
            &&& k == 0b111 ==> w == 0x501_7fe0 + 0b111 + 0x8
        }),
{
    lemma2_to64();
    lemma_control_word_round_trip(jmp_lines(inst));
}

/// LUI and AUIPC read and write the register in bits 8..11.
pub proof fn lemma_upper_immediate_words(inst: u16)
    ensures
        control_word_of(lui_lines(inst)) as int == 0x317_8048 + (inst / 0x100 % 0x10) * 0x880,
        control_word_of(auipc_lines(inst)) as int == 0x301_8068 + (inst / 0x100 % 0x10) * 0x880,
{
    lemma2_to64();
    lemma_control_word_round_trip(lui_lines(inst));
    lemma_control_word_round_trip(auipc_lines(inst));
}

/// The decoder picks the handler by the opcode alone: LUI and AUIPC by the
/// low two bits, every other instruction by the low four bits.
pub proof fn lemma_dispatch_by_opcode(inst: u16)
    ensures
        inst % 4 == 1 ==> instruction_word(inst) == control_word_of(lui_lines(inst)),
        inst % 4 == 3 ==> instruction_word(inst) == control_word_of(auipc_lines(inst)),
        inst % 16 == 0b0000 ==> instruction_word(inst) == control_word_of(alu_lines(inst)),
        inst % 16 == 0b1000 ==> instruction_word(inst) == control_word_of(imm_lines(inst)),
        inst % 16 == 0b0010 ==> instruction_word(inst) == control_word_of(ld_lines(inst)),
        inst % 16 == 0b1010 ==> instruction_word(inst) == control_word_of(ld8_lines(inst)),
        inst % 16 == 0b0110 ==> instruction_word(inst) == control_word_of(ld8s_lines(inst)),
        inst % 16 == 0b0100 ==> instruction_word(inst) == control_word_of(st_lines(inst)),
        inst % 16 == 0b1100 ==> instruction_word(inst) == control_word_of(st8_lines(inst)),
        inst % 16 == 0b1110 ==> instruction_word(inst) == control_word_of(jmp_lines(inst)),
{
    lemma2_to64();
    assert(inst % 16 % 4 == inst % 4) by (bit_vector);
}

/// Every instruction's control word, by opcode, over the instruction's bits.
pub proof fn lemma_instruction_words(inst: u16)
    ensures
        ({
            let s = inst / 0x1000;
            let d = inst / 0x100 % 0x10;
            let w = instruction_word(inst) as int;
            &&& inst % 4 == 1 ==> w == 0x317_8048 + d * 0x880
            &&& inst % 4 == 3 ==> w == 0x301_8068 + d * 0x880
            &&& inst % 16 == 0b1000 ==> w == 0x300_8048 + s * 0x880
            &&& inst % 16 == 0b0010 ==> w == 0x100_0048 + s * 0x80 + d * 0x800
            &&& inst % 16 == 0b1010 ==> w == 0x180_0048 + s * 0x80 + d * 0x800
            &&& inst % 16 == 0b0110 ==> w == 0x20_0040 + s * 0x80 + d * 0x800
            &&& inst % 16 == 0b0100 ==> w == 0x1a0_0040 + s * 0x80 + d * 0x800
            &&& inst % 16 == 0b1100 ==> w == 0x1a0_0040 + s * 0x80 + d * 0x800
            &&& inst % 16 == 0b1110 ==> w == 0x501_7fe0 + (if d % 8 < 6 {
                d % 8 + 1
            } else {
                7
            }) + (if d % 8 == 7 {
                8int
            } else {
                0
            })
            &&& inst % 16 == 0b0000 ==> w == control_word_of(alu_lines(inst))
        }),
{
    lemma_dispatch_by_opcode(inst);
    lemma_imm_words(inst);
    lemma_load_words(inst);
    lemma_store_words(inst);
    lemma_jmp_words(inst);
    lemma_upper_immediate_words(inst);
}

} // verus!
