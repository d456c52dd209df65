//! The fixed opcode table: every 8-bit opcode maps to a mnemonic and an
//! addressing mode, with unassigned slots tagged unsupported so that they
//! fail loudly instead of silently continuing.

use vstd::prelude::*;

use crate::addr::{spec_mode_len, AddressingMode};
use crate::inst::Instruction;

verus! {

/// One table entry: a mnemonic and the addressing mode its encoding uses.
#[derive(Clone, Copy, Debug, PartialEq, Eq, Structural)]
pub struct Opcode(pub Instruction, pub AddressingMode);

/// The fixed decode table.
pub open spec fn spec_decode(op: u8) -> Opcode {
    match op {
        0x08 => Opcode(Instruction::PHP, AddressingMode::Implied),
        0x09 => Opcode(Instruction::ORA, AddressingMode::Immediate),
        0x0a => Opcode(Instruction::ASL, AddressingMode::Accumulator),
        0x10 => Opcode(Instruction::BPL, AddressingMode::Relative),
        0x18 => Opcode(Instruction::CLC, AddressingMode::Implied),
        0x20 => Opcode(Instruction::JSR, AddressingMode::Absolute),
        0x24 => Opcode(Instruction::BIT, AddressingMode::ZeroPageIndexed),
        0x28 => Opcode(Instruction::PLP, AddressingMode::Implied),
        0x29 => Opcode(Instruction::AND, AddressingMode::Immediate),
        0x30 => Opcode(Instruction::BMI, AddressingMode::Relative),
        0x38 => Opcode(Instruction::SEC, AddressingMode::Implied),
        0x40 => Opcode(Instruction::RTI, AddressingMode::Implied),
        0x48 => Opcode(Instruction::PHA, AddressingMode::Implied),
        0x49 => Opcode(Instruction::EOR, AddressingMode::Immediate),
        0x4c => Opcode(Instruction::JMP, AddressingMode::Absolute),
        0x50 => Opcode(Instruction::BVC, AddressingMode::Relative),
        0x60 => Opcode(Instruction::RTS, AddressingMode::Implied),
        0x61 => Opcode(Instruction::ADC, AddressingMode::IndexedIndirect),
        0x65 => Opcode(Instruction::ADC, AddressingMode::ZeroPageIndexed),
        0x68 => Opcode(Instruction::PLA, AddressingMode::Implied),
        0x69 => Opcode(Instruction::ADC, AddressingMode::Immediate),
        0x6c => Opcode(Instruction::JMP, AddressingMode::Indirect),
        0x6d => Opcode(Instruction::ADC, AddressingMode::Absolute),
        0x70 => Opcode(Instruction::BVS, AddressingMode::Relative),
        0x71 => Opcode(Instruction::ADC, AddressingMode::IndirectIndexed),
        0x75 => Opcode(Instruction::ADC, AddressingMode::ZeroPageX),
        0x78 => Opcode(Instruction::SEI, AddressingMode::Implied),
        0x79 => Opcode(Instruction::ADC, AddressingMode::AbsoluteY),
        0x7d => Opcode(Instruction::ADC, AddressingMode::AbsoluteX),
        0x84 => Opcode(Instruction::STY, AddressingMode::ZeroPageIndexed),
        0x85 => Opcode(Instruction::STA, AddressingMode::ZeroPageIndexed),
        0x86 => Opcode(Instruction::STX, AddressingMode::ZeroPageIndexed),
        0x88 => Opcode(Instruction::DEY, AddressingMode::Implied),
        0x8a => Opcode(Instruction::TXA, AddressingMode::Implied),
        0x8d => Opcode(Instruction::STA, AddressingMode::Absolute),
        0x8e => Opcode(Instruction::STX, AddressingMode::Absolute),
        0x90 => Opcode(Instruction::BCC, AddressingMode::Relative),
        0x98 => Opcode(Instruction::TYA, AddressingMode::Implied),
        0x9a => Opcode(Instruction::TXS, AddressingMode::Implied),
        0xa0 => Opcode(Instruction::LDY, AddressingMode::Immediate),
        0xa1 => Opcode(Instruction::LDA, AddressingMode::IndexedIndirect),
        0xa2 => Opcode(Instruction::LDX, AddressingMode::Immediate),
        0xa5 => Opcode(Instruction::LDA, AddressingMode::ZeroPageIndexed),
        0xa8 => Opcode(Instruction::TAY, AddressingMode::Implied),
        0xa9 => Opcode(Instruction::LDA, AddressingMode::Immediate),
        0xaa => Opcode(Instruction::TAX, AddressingMode::Implied),
        0xad => Opcode(Instruction::LDA, AddressingMode::Absolute),
        0xae => Opcode(Instruction::LDX, AddressingMode::Absolute),
        0xb0 => Opcode(Instruction::BCS, AddressingMode::Relative),
        0xb1 => Opcode(Instruction::LDA, AddressingMode::IndirectIndexed),
        0xb5 => Opcode(Instruction::LDA, AddressingMode::ZeroPageX),
        0xb8 => Opcode(Instruction::CLV, AddressingMode::Implied),
        0xb9 => Opcode(Instruction::LDA, AddressingMode::AbsoluteY),
        0xba => Opcode(Instruction::TSX, AddressingMode::Implied),
        0xbd => Opcode(Instruction::LDA, AddressingMode::AbsoluteX),
        0xc0 => Opcode(Instruction::CPY, AddressingMode::Immediate),
        0xc5 => Opcode(Instruction::CMP, AddressingMode::ZeroPageIndexed),
        0xc8 => Opcode(Instruction::INY, AddressingMode::Implied),
        0xc9 => Opcode(Instruction::CMP, AddressingMode::Immediate),
        0xca => Opcode(Instruction::DEX, AddressingMode::Implied),
        0xd0 => Opcode(Instruction::BNE, AddressingMode::Relative),
        0xd8 => Opcode(Instruction::CLD, AddressingMode::Implied),
        0xe0 => Opcode(Instruction::CPX, AddressingMode::Immediate),
        0xe6 => Opcode(Instruction::INC, AddressingMode::ZeroPageIndexed),
        0xe8 => Opcode(Instruction::INX, AddressingMode::Implied),
        0xe9 => Opcode(Instruction::SBC, AddressingMode::Immediate),
        0xea => Opcode(Instruction::NOP, AddressingMode::Implied),
        0xf0 => Opcode(Instruction::BEQ, AddressingMode::Relative),
        0xf8 => Opcode(Instruction::SED, AddressingMode::Implied),
        _ => Opcode(Instruction::Unsupported, AddressingMode::Unsupported),
    }
}

/// Documented base cycle count of each supported opcode (penalties for page
/// crossing and taken branches come on top); zero for unassigned slots.
pub open spec fn spec_base_cycles(op: u8) -> u64 {
    match op {
        0x08 => 3,
        0x09 => 2,
        0x0a => 2,
        0x10 => 2,
        0x18 => 2,
        0x20 => 6,
        0x24 => 3,
        0x28 => 4,
        0x29 => 2,
        0x30 => 2,
        0x38 => 2,
        0x40 => 6,
        0x48 => 3,
        0x49 => 2,
        0x4c => 3,
        0x50 => 2,
        0x60 => 6,
        0x61 => 6,
        0x65 => 3,
        0x68 => 4,
        0x69 => 2,
        0x6c => 5,
        0x6d => 4,
        0x70 => 2,
        0x71 => 5,
        0x75 => 4,
        0x78 => 2,
        0x79 => 4,
        0x7d => 4,
        0x84 => 3,
        0x85 => 3,
        0x86 => 3,
        0x88 => 2,
        0x8a => 2,
        0x8d => 4,
        0x8e => 4,
        0x90 => 2,
        0x98 => 2,
        0x9a => 2,
        0xa0 => 2,
        0xa1 => 6,
        0xa2 => 2,
        0xa5 => 3,
        0xa8 => 2,
        0xa9 => 2,
        0xaa => 2,
        0xad => 4,
        0xae => 4,
        0xb0 => 2,
        0xb1 => 5,
        0xb5 => 4,
        0xb8 => 2,
        0xb9 => 4,
        0xba => 2,
        0xbd => 4,
        0xc0 => 2,
        0xc5 => 3,
        0xc8 => 2,
        0xc9 => 2,
        0xca => 2,
        0xd0 => 2,
        0xd8 => 2,
        0xe0 => 2,
        0xe6 => 5,
        0xe8 => 2,
        0xe9 => 2,
        0xea => 2,
        0xf0 => 2,
        0xf8 => 2,
        _ => 0,
    }
}

impl Opcode {
    /// Decode one opcode byte against the fixed table.
    pub fn lookup(op: u8) -> (r: Opcode)
        ensures
            r == spec_decode(op),
    {
        match op {
            0x08 => Opcode(Instruction::PHP, AddressingMode::Implied),
            0x09 => Opcode(Instruction::ORA, AddressingMode::Immediate),
            0x0a => Opcode(Instruction::ASL, AddressingMode::Accumulator),
            0x10 => Opcode(Instruction::BPL, AddressingMode::Relative),
            0x18 => Opcode(Instruction::CLC, AddressingMode::Implied),
            0x20 => Opcode(Instruction::JSR, AddressingMode::Absolute),
            0x24 => Opcode(Instruction::BIT, AddressingMode::ZeroPageIndexed),
            0x28 => Opcode(Instruction::PLP, AddressingMode::Implied),
            0x29 => Opcode(Instruction::AND, AddressingMode::Immediate),
            0x30 => Opcode(Instruction::BMI, AddressingMode::Relative),
            0x38 => Opcode(Instruction::SEC, AddressingMode::Implied),
            0x40 => Opcode(Instruction::RTI, AddressingMode::Implied),
            0x48 => Opcode(Instruction::PHA, AddressingMode::Implied),
            0x49 => Opcode(Instruction::EOR, AddressingMode::Immediate),
            0x4c => Opcode(Instruction::JMP, AddressingMode::Absolute),
            0x50 => Opcode(Instruction::BVC, AddressingMode::Relative),
            0x60 => Opcode(Instruction::RTS, AddressingMode::Implied),
            0x61 => Opcode(Instruction::ADC, AddressingMode::IndexedIndirect),
            0x65 => Opcode(Instruction::ADC, AddressingMode::ZeroPageIndexed),
            0x68 => Opcode(Instruction::PLA, AddressingMode::Implied),
            0x69 => Opcode(Instruction::ADC, AddressingMode::Immediate),
            0x6c => Opcode(Instruction::JMP, AddressingMode::Indirect),
            0x6d => Opcode(Instruction::ADC, AddressingMode::Absolute),
            0x70 => Opcode(Instruction::BVS, AddressingMode::Relative),
            0x71 => Opcode(Instruction::ADC, AddressingMode::IndirectIndexed),
            0x75 => Opcode(Instruction::ADC, AddressingMode::ZeroPageX),
            0x78 => Opcode(Instruction::SEI, AddressingMode::Implied),
            0x79 => Opcode(Instruction::ADC, AddressingMode::AbsoluteY),
            0x7d => Opcode(Instruction::ADC, AddressingMode::AbsoluteX),
            0x84 => Opcode(Instruction::STY, AddressingMode::ZeroPageIndexed),
            0x85 => Opcode(Instruction::STA, AddressingMode::ZeroPageIndexed),
            0x86 => Opcode(Instruction::STX, AddressingMode::ZeroPageIndexed),
            0x88 => Opcode(Instruction::DEY, AddressingMode::Implied),
            0x8a => Opcode(Instruction::TXA, AddressingMode::Implied),
            0x8d => Opcode(Instruction::STA, AddressingMode::Absolute),
            0x8e => Opcode(Instruction::STX, AddressingMode::Absolute),
            0x90 => Opcode(Instruction::BCC, AddressingMode::Relative),
            0x98 => Opcode(Instruction::TYA, AddressingMode::Implied),
            0x9a => Opcode(Instruction::TXS, AddressingMode::Implied),
            0xa0 => Opcode(Instruction::LDY, AddressingMode::Immediate),
            0xa1 => Opcode(Instruction::LDA, AddressingMode::IndexedIndirect),
            0xa2 => Opcode(Instruction::LDX, AddressingMode::Immediate),
            0xa5 => Opcode(Instruction::LDA, AddressingMode::ZeroPageIndexed),
            0xa8 => Opcode(Instruction::TAY, AddressingMode::Implied),
            0xa9 => Opcode(Instruction::LDA, AddressingMode::Immediate),
            0xaa => Opcode(Instruction::TAX, AddressingMode::Implied),
            0xad => Opcode(Instruction::LDA, AddressingMode::Absolute),
            0xae => Opcode(Instruction::LDX, AddressingMode::Absolute),
            0xb0 => Opcode(Instruction::BCS, AddressingMode::Relative),
            0xb1 => Opcode(Instruction::LDA, AddressingMode::IndirectIndexed),
            0xb5 => Opcode(Instruction::LDA, AddressingMode::ZeroPageX),
            0xb8 => Opcode(Instruction::CLV, AddressingMode::Implied),
            0xb9 => Opcode(Instruction::LDA, AddressingMode::AbsoluteY),
            0xba => Opcode(Instruction::TSX, AddressingMode::Implied),
            0xbd => Opcode(Instruction::LDA, AddressingMode::AbsoluteX),
            0xc0 => Opcode(Instruction::CPY, AddressingMode::Immediate),
            0xc5 => Opcode(Instruction::CMP, AddressingMode::ZeroPageIndexed),
            0xc8 => Opcode(Instruction::INY, AddressingMode::Implied),
            0xc9 => Opcode(Instruction::CMP, AddressingMode::Immediate),
            0xca => Opcode(Instruction::DEX, AddressingMode::Implied),
            0xd0 => Opcode(Instruction::BNE, AddressingMode::Relative),
            0xd8 => Opcode(Instruction::CLD, AddressingMode::Implied),
            0xe0 => Opcode(Instruction::CPX, AddressingMode::Immediate),
            0xe6 => Opcode(Instruction::INC, AddressingMode::ZeroPageIndexed),
            0xe8 => Opcode(Instruction::INX, AddressingMode::Implied),
            0xe9 => Opcode(Instruction::SBC, AddressingMode::Immediate),
            0xea => Opcode(Instruction::NOP, AddressingMode::Implied),
            0xf0 => Opcode(Instruction::BEQ, AddressingMode::Relative),
            0xf8 => Opcode(Instruction::SED, AddressingMode::Implied),
            _ => Opcode(Instruction::Unsupported, AddressingMode::Unsupported),
        }
    }

    /// Base cycle count of one opcode, before penalties.
    pub fn base_cycles(op: u8) -> (r: u64)
        ensures
            r == spec_base_cycles(op),
    {
        match op {
            0x08 => 3,
            0x09 => 2,
            0x0a => 2,
            0x10 => 2,
            0x18 => 2,
            0x20 => 6,
            0x24 => 3,
            0x28 => 4,
            0x29 => 2,
            0x30 => 2,
            0x38 => 2,
            0x40 => 6,
            0x48 => 3,
            0x49 => 2,
            0x4c => 3,
            0x50 => 2,
            0x60 => 6,
            0x61 => 6,
            0x65 => 3,
            0x68 => 4,
            0x69 => 2,
            0x6c => 5,
            0x6d => 4,
            0x70 => 2,
            0x71 => 5,
            0x75 => 4,
            0x78 => 2,
            0x79 => 4,
            0x7d => 4,
            0x84 => 3,
            0x85 => 3,
            0x86 => 3,
            0x88 => 2,
            0x8a => 2,
            0x8d => 4,
            0x8e => 4,
            0x90 => 2,
            0x98 => 2,
            0x9a => 2,
            0xa0 => 2,
            0xa1 => 6,
            0xa2 => 2,
            0xa5 => 3,
            0xa8 => 2,
            0xa9 => 2,
            0xaa => 2,
            0xad => 4,
            0xae => 4,
            0xb0 => 2,
            0xb1 => 5,
            0xb5 => 4,
            0xb8 => 2,
            0xb9 => 4,
            0xba => 2,
            0xbd => 4,
            0xc0 => 2,
            0xc5 => 3,
            0xc8 => 2,
            0xc9 => 2,
            0xca => 2,
            0xd0 => 2,
            0xd8 => 2,
            0xe0 => 2,
            0xe6 => 5,
            0xe8 => 2,
            0xe9 => 2,
            0xea => 2,
            0xf0 => 2,
            0xf8 => 2,
            _ => 0,
        }
    }
}

/// Every opcode the table assigns an instruction also has an addressing mode
/// with a defined encoded length, and that length is one to three bytes.
pub proof fn lemma_opcode_lengths()
    ensures
        forall|op: u8|
            (#[trigger] spec_decode(op)).0 != Instruction::Unsupported ==> {
                &&& spec_mode_len(spec_decode(op).1) is Ok
                &&& 1 <= spec_mode_len(spec_decode(op).1)->Ok_0 <= 3
            },
{
}

} // verus!
