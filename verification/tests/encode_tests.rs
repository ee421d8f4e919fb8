use bwb16::ctrl::{conditions, functions, immediate_format, memory_read, write_back};
use bwb16::ctrl::{ControlLines, LeftSelect, RegisterWriteSelect, RightSelect};
use bwb16::ctrl::{DEFAULT_REGISTER, LINK_REGISTER};
use bwb16::encode::encode_control_word;

#[test]
fn default_control_lines() {
    let lines = ControlLines::default();
    assert_eq!(lines.condition, conditions::NEVER);
    assert!(!lines.register_write);
    assert_eq!(lines.register_write_select, RegisterWriteSelect::Destination);
    assert_eq!(lines.left, LeftSelect::Source);
    assert_eq!(lines.right, RightSelect::Destination);
    assert_eq!(lines.source, DEFAULT_REGISTER);
    assert_eq!(lines.destination, DEFAULT_REGISTER);
    assert_eq!(lines.immediate, immediate_format::FOUR);
    assert_eq!(lines.function, functions::MOV);
    assert!(!lines.memory_write);
    assert_eq!(lines.memory_read, memory_read::WORD);
    assert_eq!(lines.write_back, write_back::ALU_RESULT);
}

#[test]
fn default_control_word() {
    assert_eq!(encode_control_word(ControlLines::default()), 0x0314_0000);
}

#[test]
fn selections_convert_to_bits() {
    assert_eq!(u32::from(LeftSelect::Source), 0);
    assert_eq!(u32::from(LeftSelect::ProgramCounter), 1);
    let right: u32 = RightSelect::Destination.into();
    assert_eq!(right, 0);
    let right: u32 = RightSelect::Immediate.into();
    assert_eq!(right, 1);
    let select: u32 = RegisterWriteSelect::Destination.into();
    assert_eq!(select, 0);
    let select: u32 = RegisterWriteSelect::Source.into();
    assert_eq!(select, 1);
}

#[test]
fn every_line_set_to_its_maximum() {
    let lines = ControlLines {
        condition: conditions::ALWAYS,
        register_write: true,
        register_write_select: RegisterWriteSelect::Source,
        left: LeftSelect::ProgramCounter,
        right: RightSelect::Immediate,
        source: LINK_REGISTER,
        destination: LINK_REGISTER,
        immediate: immediate_format::TEN,
        function: 0b1111,
        memory_write: true,
        memory_read: memory_read::ZERO_EXTEND,
        write_back: 0b11,
    };
    assert_eq!(encode_control_word(lines), 0x07bf_ffff);
}

#[test]
fn lines_read_back_from_their_bits() {
    let lines = ControlLines {
        condition: conditions::LTS,
        register_write: false,
        register_write_select: RegisterWriteSelect::Source,
        left: LeftSelect::Source,
        right: RightSelect::Immediate,
        source: 9,
        destination: 4,
        immediate: immediate_format::NINE,
        function: functions::XOR,
        memory_write: true,
        memory_read: memory_read::SIGN_EXTEND,
        write_back: write_back::PROGRAM_COUNTER,
    };
    let word = encode_control_word(lines);
    assert_eq!(word, 0x042d_24d5);
    assert_eq!(word & 7, conditions::LTS);
    assert_eq!((word >> 3) & 1, 0);
    assert_eq!((word >> 4) & 1, 1);
    assert_eq!((word >> 5) & 1, 0);
    assert_eq!((word >> 6) & 1, 1);
    assert_eq!((word >> 7) & 15, 9);
    assert_eq!((word >> 11) & 15, 4);
    assert_eq!((word >> 15) & 3, immediate_format::NINE);
    assert_eq!((word >> 17) & 15, functions::XOR);
    assert_eq!((word >> 21) & 1, 1);
    assert_eq!((word >> 23) & 3, memory_read::SIGN_EXTEND);
    assert_eq!((word >> 25) & 3, write_back::PROGRAM_COUNTER);
    let sum = 5 + 0x10 + 0x40 + 9 * 0x80 + 4 * 0x800 + 2 * 0x8000 + 6 * 0x2_0000 + 0x20_0000
        + 2 * 0x200_0000;
    assert_eq!(word, sum);
}

fn lines_from_word(word: u32) -> ControlLines {
    ControlLines {
        condition: word & 7,
        register_write: (word >> 3) & 1 == 1,
        register_write_select: if (word >> 4) & 1 == 1 {
            RegisterWriteSelect::Source
        } else {
            RegisterWriteSelect::Destination
        },
        left: if (word >> 5) & 1 == 1 { LeftSelect::ProgramCounter } else { LeftSelect::Source },
        right: if (word >> 6) & 1 == 1 { RightSelect::Immediate } else { RightSelect::Destination },
        source: (word >> 7) & 15,
        destination: (word >> 11) & 15,
        immediate: (word >> 15) & 3,
        function: (word >> 17) & 15,
        memory_write: (word >> 21) & 1 == 1,
        memory_read: (word >> 23) & 3,
        write_back: (word >> 25) & 3,
    }
}

#[test]
fn words_round_trip_through_lines() {
    for word in [0u32, 0x0314_0000, 0x042d_24d5, 0x07bf_ffff, 0x0501_7fef, 0x0012_3456, 0x07a5_a5a5] {
        assert_eq!((word >> 22) & 1, 0);
        assert_eq!(encode_control_word(lines_from_word(word)), word);
    }
}
