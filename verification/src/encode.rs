//! Packing the control lines into a control word.
use vstd::prelude::*;
use crate::ctrl;
use crate::ctrl::{ControlLines, LeftSelect, RightSelect, RegisterWriteSelect};

verus! {

/// The bit that encodes a boolean line.
pub open spec fn bool_bit(b: bool) -> u32 {
    if b {
        1
    } else {
        0
    }
}

/// The control word of a set of control lines: each line shifted to its
/// place, all of them or-ed together.
pub open spec fn control_word_of(lines: ControlLines) -> u32 {
    (lines.condition << 0u32) | (bool_bit(lines.register_write) << 3u32) | (
    lines.register_write_select.bit() << 4u32) | (lines.left.bit() << 5u32) | (lines.right.bit()
        << 6u32) | (lines.source << 7u32) | (lines.destination << 11u32) | (lines.immediate
        << 15u32) | (lines.function << 17u32) | (bool_bit(lines.memory_write) << 21u32) | (
    lines.memory_read << 23u32) | (lines.write_back << 25u32)
}

/// The control lines read back from a control word, each from its own bits.
pub open spec fn lines_of_word(word: u32) -> ControlLines {
    ControlLines {
        condition: word & 7,
        register_write: (word >> 3u32) & 1 == 1,
        register_write_select: if (word >> 4u32) & 1 == 1 {
            RegisterWriteSelect::Source
        } else {
            RegisterWriteSelect::Destination
        },
        left: if (word >> 5u32) & 1 == 1 {
            LeftSelect::ProgramCounter
        } else {
            LeftSelect::Source
        },
        right: if (word >> 6u32) & 1 == 1 {
            RightSelect::Immediate
        } else {
            RightSelect::Destination
        },
        source: (word >> 7u32) & 15,
        destination: (word >> 11u32) & 15,
        immediate: (word >> 15u32) & 3,
        function: (word >> 17u32) & 15,
        memory_write: (word >> 21u32) & 1 == 1,
        memory_read: (word >> 23u32) & 3,
        write_back: (word >> 25u32) & 3,
    }
}

/// The control word as a number: each line weighted by its place.
pub open spec fn packed_value(lines: ControlLines) -> int {
    lines.condition + bool_bit(lines.register_write) * 0x8 + lines.register_write_select.bit()
        * 0x10 + lines.left.bit() * 0x20 + lines.right.bit() * 0x40 + lines.source * 0x80
        + lines.destination * 0x800 + lines.immediate * 0x8000 + lines.function * 0x2_0000
        + bool_bit(lines.memory_write) * 0x20_0000 + lines.memory_read * 0x80_0000
        + lines.write_back * 0x200_0000
}

proof fn lemma_pack_bits(
    w: u32,
    c: u32,
    rw: u32,
    rws: u32,
    l: u32,
    r: u32,
    s: u32,
    d: u32,
    i: u32,
    f: u32,
    mw: u32,
    mr: u32,
    wb: u32,
) by (bit_vector)
    requires
        c < 8,
        rw < 2,
        rws < 2,
        l < 2,
        r < 2,
        s < 16,
        d < 16,
        i < 4,
        f < 16,
        mw < 2,
        mr < 4,
        wb < 4,
        w == (c << 0u32) | (rw << 3u32) | (rws << 4u32) | (l << 5u32) | (r << 6u32) | (s << 7u32)
            | (d << 11u32) | (i << 15u32) | (f << 17u32) | (mw << 21u32) | (mr << 23u32) | (wb
            << 25u32),
    ensures
        w & 7 == c,
        (w >> 3u32) & 1 == rw,
        (w >> 4u32) & 1 == rws,
        (w >> 5u32) & 1 == l,
        (w >> 6u32) & 1 == r,
        (w >> 7u32) & 15 == s,
        (w >> 11u32) & 15 == d,
        (w >> 15u32) & 3 == i,
        (w >> 17u32) & 15 == f,
        (w >> 21u32) & 1 == mw,
        (w >> 23u32) & 3 == mr,
        (w >> 25u32) & 3 == wb,
        w == c + rw * 0x8 + rws * 0x10 + l * 0x20 + r * 0x40 + s * 0x80 + d * 0x800 + i * 0x8000
            + f * 0x2_0000 + mw * 0x20_0000 + mr * 0x80_0000 + wb * 0x200_0000,
        w < 0x800_0000,
{
}

/// Well-formed control lines survive the trip through the control word:
/// every line is read back from its own bits, the lines do not overlap (the
/// word is the sum of the lines, each weighted by its place), and the word
/// fits in 27 bits.
pub proof fn lemma_control_word_round_trip(lines: ControlLines)
    requires
        lines.wf(),
    ensures
        lines_of_word(control_word_of(lines)) == lines,
        control_word_of(lines) as int == packed_value(lines),
        control_word_of(lines) as int == lines.condition + (if lines.register_write {
            0x8int
        } else {
            0
        }) + (if lines.register_write_select == RegisterWriteSelect::Source {
            0x10int
        } else {
            0
        }) + (if lines.left == LeftSelect::ProgramCounter {
            0x20int
        } else {
            0
        }) + (if lines.right == RightSelect::Immediate {
            0x40int
        } else {
            0
        }) + lines.source * 0x80 + lines.destination * 0x800 + lines.immediate * 0x8000
            + lines.function * 0x2_0000 + (if lines.memory_write {
            0x20_0000int
        } else {
            0
        }) + lines.memory_read * 0x80_0000 + lines.write_back * 0x200_0000,
        control_word_of(lines) < 0x800_0000,
{
    lemma_pack_bits(
        control_word_of(lines),
        lines.condition,
        bool_bit(lines.register_write),
        lines.register_write_select.bit(),
        lines.left.bit(),
        lines.right.bit(),
        lines.source,
        lines.destination,
        lines.immediate,
        lines.function,
        bool_bit(lines.memory_write),
        lines.memory_read,
        lines.write_back,
    );
}

proof fn lemma_unpack_bits(w: u32) by (bit_vector)
    requires
        w < 0x800_0000,
        (w >> 22u32) & 1 == 0,
    ensures
        w == ((w & 7) << 0u32) | (((w >> 3u32) & 1) << 3u32) | (((w >> 4u32) & 1) << 4u32) | (((w
            >> 5u32) & 1) << 5u32) | (((w >> 6u32) & 1) << 6u32) | (((w >> 7u32) & 15) << 7u32) | (
        ((w >> 11u32) & 15) << 11u32) | (((w >> 15u32) & 3) << 15u32) | (((w >> 17u32) & 15)
            << 17u32) | (((w >> 21u32) & 1) << 21u32) | (((w >> 23u32) & 3) << 23u32) | (((w
            >> 25u32) & 3) << 25u32),
        (w >> 3u32) & 1 < 2,
        (w >> 4u32) & 1 < 2,
        (w >> 5u32) & 1 < 2,
        (w >> 6u32) & 1 < 2,
        (w >> 21u32) & 1 < 2,
{
}

/// Every word of 27 bits whose unused bit 22 is clear is the control word
/// of the lines read back from it: the control word format wastes no value.
pub proof fn lemma_word_round_trip(word: u32)
    requires
        word < 0x800_0000,
        (word >> 22u32) & 1 == 0,
    ensures
        control_word_of(lines_of_word(word)) == word,
        lines_of_word(word).wf(),
{
    lemma_unpack_bits(word);
    let lines = lines_of_word(word);
    assert(bool_bit(lines.register_write) == (word >> 3u32) & 1);
    assert(lines.register_write_select.bit() == (word >> 4u32) & 1);
    assert(lines.left.bit() == (word >> 5u32) & 1);
    assert(lines.right.bit() == (word >> 6u32) & 1);
    assert(bool_bit(lines.memory_write) == (word >> 21u32) & 1);
    assert(word & 7 < 8 && (word >> 7u32) & 15 < 16 && (word >> 11u32) & 15 < 16 && (word >> 15u32)
        & 3 < 4 && (word >> 17u32) & 15 < 16 && (word >> 23u32) & 3 < 4 && (word >> 25u32) & 3 < 4)
        by (bit_vector);
}

/// Packs the control lines into a control word.
pub fn encode_control_word(lines: ControlLines) -> (word: u32)
    ensures
        word == control_word_of(lines),
        lines.wf() ==> lines_of_word(word) == lines,
        lines.wf() ==> word as int == packed_value(lines),
{
    let register_write = lines.register_write as u32;
    let memory_write = lines.memory_write as u32;

    let left: u32 = lines.left.into();
    let right: u32 = lines.right.into();
    let register_write_select: u32 = lines.register_write_select.into();

    proof {
        if lines.wf() {
            lemma_control_word_round_trip(lines);
        }
    }
    (lines.condition << ctrl::fields::condition().shift) | (register_write
        << ctrl::fields::register_write().shift) | (register_write_select
        << ctrl::fields::register_write_select().shift) | (left << ctrl::fields::left().shift) | (
    right << ctrl::fields::right().shift) | (lines.source << ctrl::fields::source().shift) | (
    lines.destination << ctrl::fields::destination().shift) | (lines.immediate
        << ctrl::fields::immediate().shift) | (lines.function << ctrl::fields::function().shift)
        | (memory_write << ctrl::fields::memory_write().shift) | (lines.memory_read
        << ctrl::fields::memory_read().shift) | (lines.write_back
        << ctrl::fields::write_back().shift)
}

} // verus!
