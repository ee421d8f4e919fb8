//! Decoding an instruction word into its control word.
use vstd::prelude::*;
use vstd::arithmetic::power2::{pow2, lemma_pow2_unfold, lemma_pow2_pos, lemma2_to64};
use vstd::bits::{lemma_u16_shr_is_div, lemma_u16_low_bits_mask_is_mod, lemma_u16_pow2_no_overflow, low_bits_mask};
use crate::isa;
use crate::isa::InstructionField;
use crate::ctrl;
use crate::ctrl::{ControlLines, LeftSelect, RightSelect, RegisterWriteSelect, default_lines};
use crate::encode::{control_word_of, encode_control_word, lines_of_word, lemma_control_word_round_trip};

verus! {

/// The `count` bits of `value` that start at bit `shift`, as a number.
pub open spec fn bits_of(value: u16, count: nat, shift: nat) -> u16 {
    ((value as nat / pow2(shift)) % pow2(count)) as u16
}

/// The value of an instruction field.
pub open spec fn field_of(inst: u16, field: InstructionField) -> u16 {
    bits_of(inst, field.width as nat, field.shift as nat)
}

/// Extracts `count` bits of `inst`, starting at bit `shift`.
pub fn get_bits(inst: u16, count: u16, shift: u16) -> (bits: u16)
    requires
        count < 16,
        shift < 16,
    ensures
        bits == bits_of(inst, count as nat, shift as nat),
{
    let mut n: u16 = 1;
    let mut i: u16 = 0;
    proof {
        lemma2_to64();
    }
    while i < count
        invariant
            i <= count < 16,
            n as nat == pow2(i as nat),
        decreases count - i,
    {
        proof {
            lemma_pow2_unfold((i + 1) as nat);
            lemma_u16_pow2_no_overflow((i + 1) as nat);
        }
        n = n * 2;
        i = i + 1;
    }
    proof {
        lemma_pow2_pos(count as nat);
    }
    let mask: u16 = n - 1;
    proof {
        lemma_u16_shr_is_div(inst, shift);
        lemma_u16_low_bits_mask_is_mod(inst >> shift, count as nat);
        lemma_u16_pow2_no_overflow(count as nat);
        assert(mask == low_bits_mask(count as nat) as u16);
    }
    (inst >> shift) & mask
}

/// Extracts an instruction field.
pub fn get_field(inst: u16, field: InstructionField) -> (value: u16)
    requires
        field.width < 16,
        field.shift < 16,
    ensures
        value == field_of(inst, field),
{
    get_bits(inst, field.width, field.shift)
}

/// A register number held in an instruction field.
pub open spec fn register_of(inst: u16, field: InstructionField) -> u32 {
    field_of(inst, field) as u32
}

/// The ALU operation that an ALU instruction's function and sub-function
/// codes select (unassigned codes select MOV).
pub open spec fn alu_operation(function: u16, sub_function: u16) -> u32 {
    if function == isa::functions::ADD {
        ctrl::functions::ADD
    } else if function == isa::functions::SUB {
        ctrl::functions::SUB
    } else if function == isa::functions::ADDC {
        ctrl::functions::ADDC
    } else if function == isa::functions::SUBB {
        ctrl::functions::SUBB
    } else if function == isa::functions::AND {
        ctrl::functions::AND
    } else if function == isa::functions::OR {
        ctrl::functions::OR
    } else if function == isa::functions::XOR {
        ctrl::functions::XOR
    } else if function == isa::functions::SHL {
        ctrl::functions::SHL
    } else if function == isa::functions::LSR {
        ctrl::functions::LSR
    } else if function == isa::functions::ASR {
        ctrl::functions::ASR
    } else if function == isa::functions::CMP {
        ctrl::functions::SUB
    } else if function == isa::functions::MOV {
        ctrl::functions::MOV
    } else if function == isa::functions::SUB_FUNCTION {
        if sub_function == isa::sub_functions::NOT {
            ctrl::functions::NOT
        } else if sub_function == isa::sub_functions::NEG {
            ctrl::functions::NEG
        } else if sub_function == isa::sub_functions::NEGB {
            ctrl::functions::NEGB
        } else {
            ctrl::functions::MOV
        }
    } else {
        ctrl::functions::MOV
    }
}

/// Control lines of an ALU instruction. A control function (sub-function
/// CONTROL_FUNCTION) does nothing; otherwise the ALU combines the source and
/// destination registers, and the result is written back unless the
/// instruction is CMP or an unassigned code that falls back to MOV.
pub open spec fn alu_lines(inst: u16) -> ControlLines {
    let function = field_of(inst, isa::fields::alu_function());
    let sub_function = field_of(inst, isa::fields::sub_function());
    if function == isa::functions::SUB_FUNCTION && sub_function
        == isa::sub_functions::CONTROL_FUNCTION {
        control_lines()
    } else {
        let operation = alu_operation(function, sub_function);
        ControlLines {
            register_write: if operation == ctrl::functions::MOV && function
                != isa::functions::MOV {
                false
            } else {
                function != isa::functions::CMP
            },
            source: register_of(inst, isa::fields::source()),
            destination: register_of(inst, isa::fields::destination()),
            function: operation,
            ..default_lines()
        }
    }
}

/// Control lines of a control function: all of them do nothing.
pub open spec fn control_lines() -> ControlLines {
    default_lines()
}

/// Control lines of an IMM instruction, selected by the top two bits of the
/// four-bit IMM function field taken as a sixteen-bit number (so always
/// 0b00: add a six-bit immediate to the source register).
pub open spec fn imm_lines(inst: u16) -> ControlLines {
    let source = register_of(inst, isa::fields::source());
    let function = field_of(inst, isa::fields::imm_function());
    let top_two = bits_of(function, 2, 14);
    if top_two == 0b10 {
        jal_lines()
    } else {
        let low_two = function & 0b11u16;
        let (immediate, operation) = if top_two == 0b00 {
            (ctrl::immediate_format::SIX, ctrl::functions::ADD)
        } else if top_two == 0b01 {
            (ctrl::immediate_format::SIX, ctrl::functions::SUB)
        } else if low_two == 0b00 {
            (ctrl::immediate_format::FOUR, ctrl::functions::SHL)
        } else if low_two == 0b01 {
            (ctrl::immediate_format::FOUR, ctrl::functions::LSR)
        } else if low_two == 0b10 {
            (ctrl::immediate_format::FOUR, ctrl::functions::ASR)
        } else {
            (ctrl::immediate_format::FOUR, ctrl::functions::AND)
        };
        ControlLines {
            register_write: top_two != 0b01,
            right: RightSelect::Immediate,
            source,
            destination: source,
            immediate,
            function: operation,
            ..default_lines()
        }
    }
}

/// Control lines of jump-and-link: the link register receives the program
/// counter, which moves by a six-bit immediate.
pub open spec fn jal_lines() -> ControlLines {
    ControlLines {
        register_write: true,
        register_write_select: RegisterWriteSelect::Source,
        left: LeftSelect::ProgramCounter,
        right: RightSelect::Immediate,
        source: ctrl::LINK_REGISTER,
        destination: ctrl::LINK_REGISTER,
        immediate: ctrl::immediate_format::SIX,
        function: ctrl::functions::ADD,
        memory_read: ctrl::memory_read::SIGN_EXTEND,
        write_back: ctrl::write_back::PROGRAM_COUNTER,
        ..default_lines()
    }
}

/// Control lines of LD: load a word from source plus immediate.
pub open spec fn ld_lines(inst: u16) -> ControlLines {
    ControlLines {
        register_write: true,
        right: RightSelect::Immediate,
        source: register_of(inst, isa::fields::source()),
        destination: register_of(inst, isa::fields::destination()),
        function: ctrl::functions::ADD,
        write_back: ctrl::write_back::MEMORY_READ,
        ..default_lines()
    }
}

/// Control lines of LD8: load a zero-extended byte.
pub open spec fn ld8_lines(inst: u16) -> ControlLines {
    ControlLines { memory_read: ctrl::memory_read::ZERO_EXTEND, ..ld_lines(inst) }
}

/// Control lines of ST: write memory at source plus immediate.
pub open spec fn st_lines(inst: u16) -> ControlLines {
    ControlLines {
        right: RightSelect::Immediate,
        source: register_of(inst, isa::fields::source()),
        destination: register_of(inst, isa::fields::destination()),
        function: ctrl::functions::ADD,
        memory_write: true,
        memory_read: ctrl::memory_read::ZERO_EXTEND,
        write_back: ctrl::write_back::MEMORY_READ,
        ..default_lines()
    }
}

/// Control lines of ST8: the same as those of ST.
pub open spec fn st8_lines(inst: u16) -> ControlLines {
    st_lines(inst)
}

/// Control lines of LD8S: as they stand, a memory write with sign-extended
/// reads and no register write.
pub open spec fn ld8s_lines(inst: u16) -> ControlLines {
    ControlLines {
        condition: ctrl::conditions::NEVER,
        register_write: false,
        register_write_select: RegisterWriteSelect::Destination,
        left: LeftSelect::Source,
        right: RightSelect::Immediate,
        source: register_of(inst, isa::fields::source()),
        destination: register_of(inst, isa::fields::destination()),
        immediate: ctrl::immediate_format::FOUR,
        function: ctrl::functions::ADD,
        memory_write: true,
        memory_read: ctrl::memory_read::SIGN_EXTEND,
        write_back: ctrl::write_back::MEMORY_READ,
    }
}

/// The jump condition of a jump kind (JR and JRAL always jump).
pub open spec fn jump_condition(kind: u16) -> u32 {
    if kind == isa::jumps::EQ {
        ctrl::conditions::EQ
    } else if kind == isa::jumps::NE {
        ctrl::conditions::NE
    } else if kind == isa::jumps::LT {
        ctrl::conditions::LT
    } else if kind == isa::jumps::GE {
        ctrl::conditions::GE
    } else if kind == isa::jumps::LTS {
        ctrl::conditions::LTS
    } else if kind == isa::jumps::GES {
        ctrl::conditions::GES
    } else {
        ctrl::conditions::ALWAYS
    }
}

/// Control lines of JMP: the program counter moves by a nine-bit immediate
/// under the jump kind's condition; JRAL also writes the link register.
pub open spec fn jmp_lines(inst: u16) -> ControlLines {
    let kind = field_of(inst, isa::fields::jump_type());
    ControlLines {
        condition: jump_condition(kind),
        register_write: kind == isa::jumps::JRAL,
        left: LeftSelect::ProgramCounter,
        right: RightSelect::Immediate,
        source: ctrl::LINK_REGISTER,
        destination: ctrl::LINK_REGISTER,
        immediate: ctrl::immediate_format::NINE,
        function: ctrl::functions::ADD,
        write_back: ctrl::write_back::PROGRAM_COUNTER,
        ..default_lines()
    }
}

/// Control lines of LUI: the destination register receives a ten-bit
/// immediate through the ALU's RIGHT operation.
pub open spec fn lui_lines(inst: u16) -> ControlLines {
    let destination = register_of(inst, isa::fields::destination());
    ControlLines {
        register_write: true,
        right: RightSelect::Immediate,
        source: destination,
        destination,
        immediate: ctrl::immediate_format::TEN,
        function: ctrl::functions::RIGHT,
        ..default_lines()
    }
}

/// Control lines of AUIPC: the destination register receives the program
/// counter plus a ten-bit immediate.
pub open spec fn auipc_lines(inst: u16) -> ControlLines {
    let destination = register_of(inst, isa::fields::destination());
    ControlLines {
        register_write: true,
        left: LeftSelect::ProgramCounter,
        right: RightSelect::Immediate,
        source: destination,
        destination,
        immediate: ctrl::immediate_format::TEN,
        function: ctrl::functions::ADD,
        ..default_lines()
    }
}

/// Control lines of any instruction: LUI and AUIPC are told by the low two
/// bits, every other opcode by the low four bits.
pub open spec fn instruction_lines(inst: u16) -> ControlLines {
    let two_bits = bits_of(inst, 2, 0);
    let four_bits = field_of(inst, isa::fields::opcode());
    if two_bits == isa::opcodes::LUI {
        lui_lines(inst)
    } else if two_bits == isa::opcodes::AUIPC {
        auipc_lines(inst)
    } else if four_bits == isa::opcodes::ALU {
        alu_lines(inst)
    } else if four_bits == isa::opcodes::IMM {
        imm_lines(inst)
    } else if four_bits == isa::opcodes::LD {
        ld_lines(inst)
    } else if four_bits == isa::opcodes::LD8 {
        ld8_lines(inst)
    } else if four_bits == isa::opcodes::LD8S {
        ld8s_lines(inst)
    } else if four_bits == isa::opcodes::ST {
        st_lines(inst)
    } else if four_bits == isa::opcodes::ST8 {
        st8_lines(inst)
    } else {
        jmp_lines(inst)
    }
}

/// The control word of an instruction.
pub open spec fn instruction_word(inst: u16) -> u32 {
    control_word_of(instruction_lines(inst))
}

/// Decodes an ALU instruction.
pub fn decode_alu(inst: u16) -> (word: u32)
    ensures
        word == control_word_of(alu_lines(inst)),
{
    let source = get_field(inst, isa::fields::source()) as u32;
    let destination = get_field(inst, isa::fields::destination()) as u32;
    let encoded_function = get_field(inst, isa::fields::alu_function());
    let encoded_sub_function = get_field(inst, isa::fields::sub_function());

    let decoded_function: u32 = if encoded_function == isa::functions::ADD {
        ctrl::functions::ADD
    } else if encoded_function == isa::functions::SUB {
        ctrl::functions::SUB
    } else if encoded_function == isa::functions::ADDC {
        ctrl::functions::ADDC
    } else if encoded_function == isa::functions::SUBB {
        ctrl::functions::SUBB
    } else if encoded_function == isa::functions::AND {
        ctrl::functions::AND
    } else if encoded_function == isa::functions::OR {
        ctrl::functions::OR
    } else if encoded_function == isa::functions::XOR {
        ctrl::functions::XOR
    } else if encoded_function == isa::functions::SHL {
        ctrl::functions::SHL
    } else if encoded_function == isa::functions::LSR {
        ctrl::functions::LSR
    } else if encoded_function == isa::functions::ASR {
        ctrl::functions::ASR
    } else if encoded_function == isa::functions::CMP {
        ctrl::functions::SUB
    } else if encoded_function == isa::functions::MOV {
        ctrl::functions::MOV
    } else if encoded_function == isa::functions::SUB_FUNCTION {
        if encoded_sub_function == isa::sub_functions::NOT {
            ctrl::functions::NOT
        } else if encoded_sub_function == isa::sub_functions::NEG {
            ctrl::functions::NEG
        } else if encoded_sub_function == isa::sub_functions::NEGB {
            ctrl::functions::NEGB
        } else if encoded_sub_function == isa::sub_functions::CONTROL_FUNCTION {
            return decode_control(inst);
        } else {
            ctrl::functions::MOV
        }
    } else {
        ctrl::functions::MOV
    };

    let is_mv_encoded = encoded_function == isa::functions::MOV;
    let is_mv_decoded = decoded_function == ctrl::functions::MOV;

    let register_write = if is_mv_decoded && !is_mv_encoded {
        false
    } else {
        encoded_function != isa::functions::CMP
    };

    encode_control_word(
        ControlLines {
            register_write,
            source,
            destination,
            function: decoded_function,
            ..Default::default()
        },
    )
}

/// Decodes a control function. All of them decode to the default control
/// lines: their effects exist only in emulation or not yet in hardware.
pub fn decode_control(inst: u16) -> (word: u32)
    ensures
        word == control_word_of(control_lines()),
{
    let _function = get_field(inst, isa::fields::ctrl_function());
    encode_control_word(ControlLines::default())
}

/// Decodes an IMM instruction.
pub fn decode_imm(inst: u16) -> (word: u32)
    ensures
        word == control_word_of(imm_lines(inst)),
{
    let source = get_field(inst, isa::fields::source()) as u32;
    let destination = source;

    let encoded_function = get_field(inst, isa::fields::imm_function());
    let top_two = get_bits(encoded_function, 2, 14);

    let (immediate, operation): (u32, u32) = if top_two == 0b00 {
        (ctrl::immediate_format::SIX, ctrl::functions::ADD)
    } else if top_two == 0b01 {
        (ctrl::immediate_format::SIX, ctrl::functions::SUB)
    } else if top_two == 0b10 {
        return decode_jal(inst);
    } else {
        let low_two = encoded_function & 0b11;
        if low_two == 0b00 {
            (ctrl::immediate_format::FOUR, ctrl::functions::SHL)
        } else if low_two == 0b01 {
            (ctrl::immediate_format::FOUR, ctrl::functions::LSR)
        } else if low_two == 0b10 {
            (ctrl::immediate_format::FOUR, ctrl::functions::ASR)
        } else {
            (ctrl::immediate_format::FOUR, ctrl::functions::AND)
        }
    };

    let register_write = top_two != 0b01;

    encode_control_word(
        ControlLines {
            register_write,
            right: RightSelect::Immediate,
            source,
            destination,
            immediate,
            function: operation,
            ..Default::default()
        },
    )
}

/// Decodes jump-and-link.
pub fn decode_jal(_inst: u16) -> (word: u32)
    ensures
        word == control_word_of(jal_lines()),
{
    encode_control_word(
        ControlLines {
            register_write: true,
            register_write_select: RegisterWriteSelect::Source,
            left: LeftSelect::ProgramCounter,
            right: RightSelect::Immediate,
            source: ctrl::LINK_REGISTER,
            destination: ctrl::LINK_REGISTER,
            immediate: ctrl::immediate_format::SIX,
            function: ctrl::functions::ADD,
            memory_read: ctrl::memory_read::SIGN_EXTEND,
            write_back: ctrl::write_back::PROGRAM_COUNTER,
            ..Default::default()
        },
    )
}

/// Decodes an LD instruction.
pub fn decode_ld(inst: u16) -> (word: u32)
    ensures
        word == control_word_of(ld_lines(inst)),
{
    let source = get_field(inst, isa::fields::source()) as u32;
    let destination = get_field(inst, isa::fields::destination()) as u32;

    encode_control_word(
        ControlLines {
            register_write: true,
            right: RightSelect::Immediate,
            source,
            destination,
            function: ctrl::functions::ADD,
            write_back: ctrl::write_back::MEMORY_READ,
            ..Default::default()
        },
    )
}

/// Decodes an LD8 instruction.
pub fn decode_ld8(inst: u16) -> (word: u32)
    ensures
        word == control_word_of(ld8_lines(inst)),
{
    let source = get_field(inst, isa::fields::source()) as u32;
    let destination = get_field(inst, isa::fields::destination()) as u32;

    encode_control_word(
        ControlLines {
            register_write: true,
            right: RightSelect::Immediate,
            source,
            destination,
            function: ctrl::functions::ADD,
            memory_read: ctrl::memory_read::ZERO_EXTEND,
            write_back: ctrl::write_back::MEMORY_READ,
            ..Default::default()
        },
    )
}

/// Decodes an ST instruction.
pub fn decode_st(inst: u16) -> (word: u32)
    ensures
        word == control_word_of(st_lines(inst)),
{
    let source = get_field(inst, isa::fields::source()) as u32;
    let destination = get_field(inst, isa::fields::destination()) as u32;

    encode_control_word(
        ControlLines {
            right: RightSelect::Immediate,
            source,
            destination,
            function: ctrl::functions::ADD,
            memory_write: true,
            memory_read: ctrl::memory_read::ZERO_EXTEND,
            write_back: ctrl::write_back::MEMORY_READ,
            ..Default::default()
        },
    )
}

/// Decodes an ST8 instruction.
pub fn decode_st8(inst: u16) -> (word: u32)
    ensures
        word == control_word_of(st8_lines(inst)),
{
    let source = get_field(inst, isa::fields::source()) as u32;
    let destination = get_field(inst, isa::fields::destination()) as u32;

    encode_control_word(
        ControlLines {
            right: RightSelect::Immediate,
            source,
            destination,
            function: ctrl::functions::ADD,
            memory_write: true,
            memory_read: ctrl::memory_read::ZERO_EXTEND,
            write_back: ctrl::write_back::MEMORY_READ,
            ..Default::default()
        },
    )
}

/// Decodes an LD8S instruction.
pub fn decode_ld8s(inst: u16) -> (word: u32)
    ensures
        word == control_word_of(ld8s_lines(inst)),
{
    let source = get_field(inst, isa::fields::source()) as u32;
    let destination = get_field(inst, isa::fields::destination()) as u32;

    encode_control_word(
        ControlLines {
            condition: ctrl::conditions::NEVER,
            register_write: false,
            register_write_select: RegisterWriteSelect::Destination,
            left: LeftSelect::Source,
            right: RightSelect::Immediate,
            source: source,
            destination: destination,
            immediate: ctrl::immediate_format::FOUR,
            function: ctrl::functions::ADD,
            memory_write: true,
            memory_read: ctrl::memory_read::SIGN_EXTEND,
            write_back: ctrl::write_back::MEMORY_READ,
        },
    )
}

/// Decodes a JMP instruction.
pub fn decode_jmp(inst: u16) -> (word: u32)
    ensures
        word == control_word_of(jmp_lines(inst)),
{
    let jump_kind = get_field(inst, isa::fields::jump_type());

    let condition: u32 = if jump_kind == isa::jumps::EQ {
        ctrl::conditions::EQ
    } else if jump_kind == isa::jumps::NE {
        ctrl::conditions::NE
    } else if jump_kind == isa::jumps::LT {
        ctrl::conditions::LT
    } else if jump_kind == isa::jumps::GE {
        ctrl::conditions::GE
    } else if jump_kind == isa::jumps::LTS {
        ctrl::conditions::LTS
    } else if jump_kind == isa::jumps::GES {
        ctrl::conditions::GES
    } else if jump_kind == isa::jumps::JR {
        ctrl::conditions::ALWAYS
    } else {
        proof {
            lemma2_to64();
        }
        assert(jump_kind == isa::jumps::JRAL);
        ctrl::conditions::ALWAYS
    };

    let register_write = jump_kind == isa::jumps::JRAL;

    encode_control_word(
        ControlLines {
            condition,
            register_write,
            left: LeftSelect::ProgramCounter,
            right: RightSelect::Immediate,
            source: ctrl::LINK_REGISTER,
            destination: ctrl::LINK_REGISTER,
            immediate: ctrl::immediate_format::NINE,
            function: ctrl::functions::ADD,
            write_back: ctrl::write_back::PROGRAM_COUNTER,
            ..Default::default()
        },
    )
}

/// Decodes an LUI instruction.
pub fn decode_lui(inst: u16) -> (word: u32)
    ensures
        word == control_word_of(lui_lines(inst)),
{
    let destination = get_field(inst, isa::fields::destination()) as u32;
    let source = destination;

    encode_control_word(
        ControlLines {
            register_write: true,
            right: RightSelect::Immediate,
            source,
            destination,
            immediate: ctrl::immediate_format::TEN,
            function: ctrl::functions::RIGHT,
            ..Default::default()
        },
    )
}

/// Decodes an AUIPC instruction.
pub fn decode_auipc(inst: u16) -> (word: u32)
    ensures
        word == control_word_of(auipc_lines(inst)),
{
    let destination = get_field(inst, isa::fields::destination()) as u32;
    let source = destination;

    encode_control_word(
        ControlLines {
            register_write: true,
            left: LeftSelect::ProgramCounter,
            right: RightSelect::Immediate,
            source,
            destination,
            immediate: ctrl::immediate_format::TEN,
            function: ctrl::functions::ADD,
            ..Default::default()
        },
    )
}

/// Every instruction decodes to control lines that fit their places in the
/// control word.
pub proof fn lemma_instruction_lines_wf(inst: u16)
    ensures
        instruction_lines(inst).wf(),
{
    lemma2_to64();
}

/// The field of an IMM instruction that selects the operation is four bits
/// wide, so its top two bits as a sixteen-bit number are zero: every IMM
/// instruction adds a six-bit immediate to its source register and writes
/// the sum back to it.
pub proof fn lemma_imm_adds_immediate(inst: u16)
    ensures
        imm_lines(inst) == (ControlLines {
            register_write: true,
            right: RightSelect::Immediate,
            source: register_of(inst, isa::fields::source()),
            destination: register_of(inst, isa::fields::source()),
            immediate: ctrl::immediate_format::SIX,
            function: ctrl::functions::ADD,
            ..default_lines()
        }),
{
    lemma2_to64();
    let function = field_of(inst, isa::fields::imm_function());
    assert(function < 16);
    assert(function as nat / pow2(14) == 0);
}

/// Decodes any instruction into the control word that executes it. The
/// control lines read back from the word are those of the instruction, and
/// the word fits in 27 bits.
pub fn decode_instruction(inst: u16) -> (word: u32)
    ensures
        word == instruction_word(inst),
        lines_of_word(word) == instruction_lines(inst),
        word < 0x800_0000,
{
    proof {
        lemma_instruction_lines_wf(inst);
        lemma_control_word_round_trip(instruction_lines(inst));
    }
    let four_bits = get_field(inst, isa::fields::opcode());
    let two_bits = get_bits(inst, 2, 0);

    if two_bits == isa::opcodes::LUI {
        decode_lui(inst)
    } else if two_bits == isa::opcodes::AUIPC {
        decode_auipc(inst)
    } else if four_bits == isa::opcodes::ALU {
        decode_alu(inst)
    } else if four_bits == isa::opcodes::IMM {
        decode_imm(inst)
    } else if four_bits == isa::opcodes::LD {
        decode_ld(inst)
    } else if four_bits == isa::opcodes::LD8 {
        decode_ld8(inst)
    } else if four_bits == isa::opcodes::LD8S {
        decode_ld8s(inst)
    } else if four_bits == isa::opcodes::ST {
        decode_st(inst)
    } else if four_bits == isa::opcodes::ST8 {
        decode_st8(inst)
    } else {
        proof {
            lemma2_to64();
            assert(inst as nat / 1 == inst as nat);
            assert(four_bits == inst % 16);
            assert(two_bits == inst % 4);
            assert(four_bits == 14) by (bit_vector)
                requires
                    four_bits == inst % 16,
                    two_bits == inst % 4,
                    two_bits != 1,
                    two_bits != 3,
                    four_bits != 0,
                    four_bits != 8,
                    four_bits != 2,
                    four_bits != 10,
                    four_bits != 6,
                    four_bits != 4,
                    four_bits != 12,
            ;
        }
        assert(four_bits == isa::opcodes::JMP);
        decode_jmp(inst)
    }
}

} // verus!
