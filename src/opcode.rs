//! The documented 6502 opcodes: for each opcode byte, its instruction,
//! addressing mode, length in bytes and base cycle cost.
use vstd::prelude::*;

verus! {

/// How an instruction finds its operand.
///
/// `NoneAddressing` covers implied operands, the relative offset of a
/// branch and the pointer of an indirect `JMP`, which the instruction reads
/// itself.
#[allow(non_camel_case_types)]
#[derive(Clone, Copy, Debug, PartialEq, Eq, Structural)]
pub enum AddressingMode {
    Immediate,
    ZeroPage,
    ZeroPage_X,
    ZeroPage_Y,
    Absolute,
    Absolute_X,
    Absolute_Y,
    Indirect_X,
    Indirect_Y,
    NoneAddressing,
    Accumulator,
}

/// The 56 documented instructions.
#[derive(Clone, Copy, Debug, PartialEq, Eq, Structural)]
pub enum Mnemonic {
    ADC,
    AND,
    ASL,
    BCC,
    BCS,
    BEQ,
    BIT,
    BMI,
    BNE,
    BPL,
    BRK,
    BVC,
    BVS,
    CLC,
    CLD,
    CLI,
    CLV,
    CMP,
    CPX,
    CPY,
    DEC,
    DEX,
    DEY,
    EOR,
    INC,
    INX,
    INY,
    JMP,
    JSR,
    LDA,
    LDX,
    LDY,
    LSR,
    NOP,
    ORA,
    PHA,
    PHP,
    PLA,
    PLP,
    ROL,
    ROR,
    RTI,
    RTS,
    SBC,
    SEC,
    SED,
    SEI,
    STA,
    STX,
    STY,
    TAX,
    TAY,
    TSX,
    TXA,
    TXS,
    TYA,
}

/// One row of the opcode table.
#[derive(Clone, Copy, Debug, PartialEq, Eq, Structural)]
pub struct OpCode {
    pub code: u8,
    pub mnemonic: Mnemonic,
    pub mode: AddressingMode,
    /// Length of the instruction, opcode byte included.
    pub bytes: u8,
    /// Cycles taken, before the extra cycles of a taken branch.
    pub cycles: u8,
}

pub open spec fn op(code: u8, mnemonic: Mnemonic, mode: AddressingMode, bytes: u8, cycles: u8) -> OpCode {
    OpCode { code, mnemonic, mode, bytes, cycles }
}

/// The opcode table; bytes that are no documented opcode have no row.
pub open spec fn opcode_table(code: u8) -> Option<OpCode> {
    match code {
        0x00 => Some(op(0x00, Mnemonic::BRK, AddressingMode::NoneAddressing, 1, 7)),
        0x01 => Some(op(0x01, Mnemonic::ORA, AddressingMode::Indirect_X, 2, 6)),
        0x05 => Some(op(0x05, Mnemonic::ORA, AddressingMode::ZeroPage, 2, 3)),
        0x06 => Some(op(0x06, Mnemonic::ASL, AddressingMode::ZeroPage, 2, 5)),
        0x08 => Some(op(0x08, Mnemonic::PHP, AddressingMode::NoneAddressing, 1, 3)),
        0x09 => Some(op(0x09, Mnemonic::ORA, AddressingMode::Immediate, 2, 2)),
        0x0a => Some(op(0x0a, Mnemonic::ASL, AddressingMode::Accumulator, 1, 2)),
        0x0d => Some(op(0x0d, Mnemonic::ORA, AddressingMode::Absolute, 3, 4)),
        0x0e => Some(op(0x0e, Mnemonic::ASL, AddressingMode::Absolute, 3, 6)),
        0x10 => Some(op(0x10, Mnemonic::BPL, AddressingMode::NoneAddressing, 2, 2)),
        0x11 => Some(op(0x11, Mnemonic::ORA, AddressingMode::Indirect_Y, 2, 5)),
        0x15 => Some(op(0x15, Mnemonic::ORA, AddressingMode::ZeroPage_X, 2, 4)),
        0x16 => Some(op(0x16, Mnemonic::ASL, AddressingMode::ZeroPage_X, 2, 6)),
        0x18 => Some(op(0x18, Mnemonic::CLC, AddressingMode::NoneAddressing, 1, 2)),
        0x19 => Some(op(0x19, Mnemonic::ORA, AddressingMode::Absolute_Y, 3, 4)),
        0x1d => Some(op(0x1d, Mnemonic::ORA, AddressingMode::Absolute_X, 3, 4)),
        0x1e => Some(op(0x1e, Mnemonic::ASL, AddressingMode::Absolute_X, 3, 7)),
        0x20 => Some(op(0x20, Mnemonic::JSR, AddressingMode::Absolute, 3, 6)),
        0x21 => Some(op(0x21, Mnemonic::AND, AddressingMode::Indirect_X, 2, 6)),
        0x24 => Some(op(0x24, Mnemonic::BIT, AddressingMode::ZeroPage, 2, 3)),
        0x25 => Some(op(0x25, Mnemonic::AND, AddressingMode::ZeroPage, 2, 3)),
        0x26 => Some(op(0x26, Mnemonic::ROL, AddressingMode::ZeroPage, 2, 5)),
        0x28 => Some(op(0x28, Mnemonic::PLP, AddressingMode::NoneAddressing, 1, 4)),
        0x29 => Some(op(0x29, Mnemonic::AND, AddressingMode::Immediate, 2, 2)),
        0x2a => Some(op(0x2a, Mnemonic::ROL, AddressingMode::Accumulator, 1, 2)),
        0x2c => Some(op(0x2c, Mnemonic::BIT, AddressingMode::Absolute, 3, 4)),
        0x2d => Some(op(0x2d, Mnemonic::AND, AddressingMode::Absolute, 3, 4)),
        0x2e => Some(op(0x2e, Mnemonic::ROL, AddressingMode::Absolute, 3, 6)),
        0x30 => Some(op(0x30, Mnemonic::BMI, AddressingMode::NoneAddressing, 2, 2)),
        0x31 => Some(op(0x31, Mnemonic::AND, AddressingMode::Indirect_Y, 2, 5)),
        0x35 => Some(op(0x35, Mnemonic::AND, AddressingMode::ZeroPage_X, 2, 4)),
        0x36 => Some(op(0x36, Mnemonic::ROL, AddressingMode::ZeroPage_X, 2, 6)),
        0x38 => Some(op(0x38, Mnemonic::SEC, AddressingMode::NoneAddressing, 1, 2)),
        0x39 => Some(op(0x39, Mnemonic::AND, AddressingMode::Absolute_Y, 3, 4)),
        0x3d => Some(op(0x3d, Mnemonic::AND, AddressingMode::Absolute_X, 3, 4)),
        0x3e => Some(op(0x3e, Mnemonic::ROL, AddressingMode::Absolute_X, 3, 7)),
        0x40 => Some(op(0x40, Mnemonic::RTI, AddressingMode::NoneAddressing, 1, 6)),
        0x41 => Some(op(0x41, Mnemonic::EOR, AddressingMode::Indirect_X, 2, 6)),
        0x45 => Some(op(0x45, Mnemonic::EOR, AddressingMode::ZeroPage, 2, 3)),
        0x46 => Some(op(0x46, Mnemonic::LSR, AddressingMode::ZeroPage, 2, 5)),
        0x48 => Some(op(0x48, Mnemonic::PHA, AddressingMode::NoneAddressing, 1, 3)),
        0x49 => Some(op(0x49, Mnemonic::EOR, AddressingMode::Immediate, 2, 2)),
        0x4a => Some(op(0x4a, Mnemonic::LSR, AddressingMode::Accumulator, 1, 2)),
        0x4c => Some(op(0x4c, Mnemonic::JMP, AddressingMode::Absolute, 3, 3)),
        0x4d => Some(op(0x4d, Mnemonic::EOR, AddressingMode::Absolute, 3, 4)),
        0x4e => Some(op(0x4e, Mnemonic::LSR, AddressingMode::Absolute, 3, 6)),
        0x50 => Some(op(0x50, Mnemonic::BVC, AddressingMode::NoneAddressing, 2, 2)),
        0x51 => Some(op(0x51, Mnemonic::EOR, AddressingMode::Indirect_Y, 2, 5)),
        0x55 => Some(op(0x55, Mnemonic::EOR, AddressingMode::ZeroPage_X, 2, 4)),
        0x56 => Some(op(0x56, Mnemonic::LSR, AddressingMode::ZeroPage_X, 2, 6)),
        0x58 => Some(op(0x58, Mnemonic::CLI, AddressingMode::NoneAddressing, 1, 2)),
        0x59 => Some(op(0x59, Mnemonic::EOR, AddressingMode::Absolute_Y, 3, 4)),
        0x5d => Some(op(0x5d, Mnemonic::EOR, AddressingMode::Absolute_X, 3, 4)),
        0x5e => Some(op(0x5e, Mnemonic::LSR, AddressingMode::Absolute_X, 3, 7)),
        0x60 => Some(op(0x60, Mnemonic::RTS, AddressingMode::NoneAddressing, 1, 6)),
        0x61 => Some(op(0x61, Mnemonic::ADC, AddressingMode::Indirect_X, 2, 6)),
        0x65 => Some(op(0x65, Mnemonic::ADC, AddressingMode::ZeroPage, 2, 3)),
        0x66 => Some(op(0x66, Mnemonic::ROR, AddressingMode::ZeroPage, 2, 5)),
        0x68 => Some(op(0x68, Mnemonic::PLA, AddressingMode::NoneAddressing, 1, 4)),
        0x69 => Some(op(0x69, Mnemonic::ADC, AddressingMode::Immediate, 2, 2)),
        0x6a => Some(op(0x6a, Mnemonic::ROR, AddressingMode::Accumulator, 1, 2)),
        0x6c => Some(op(0x6c, Mnemonic::JMP, AddressingMode::NoneAddressing, 3, 5)),
        0x6d => Some(op(0x6d, Mnemonic::ADC, AddressingMode::Absolute, 3, 4)),
        0x6e => Some(op(0x6e, Mnemonic::ROR, AddressingMode::Absolute, 3, 6)),
        0x70 => Some(op(0x70, Mnemonic::BVS, AddressingMode::NoneAddressing, 2, 2)),
        0x71 => Some(op(0x71, Mnemonic::ADC, AddressingMode::Indirect_Y, 2, 5)),
        0x75 => Some(op(0x75, Mnemonic::ADC, AddressingMode::ZeroPage_X, 2, 4)),
        0x76 => Some(op(0x76, Mnemonic::ROR, AddressingMode::ZeroPage_X, 2, 6)),
        0x78 => Some(op(0x78, Mnemonic::SEI, AddressingMode::NoneAddressing, 1, 2)),
        0x79 => Some(op(0x79, Mnemonic::ADC, AddressingMode::Absolute_Y, 3, 4)),
        0x7d => Some(op(0x7d, Mnemonic::ADC, AddressingMode::Absolute_X, 3, 4)),
        0x7e => Some(op(0x7e, Mnemonic::ROR, AddressingMode::Absolute_X, 3, 7)),
        0x81 => Some(op(0x81, Mnemonic::STA, AddressingMode::Indirect_X, 2, 6)),
        0x84 => Some(op(0x84, Mnemonic::STY, AddressingMode::ZeroPage, 2, 3)),
        0x85 => Some(op(0x85, Mnemonic::STA, AddressingMode::ZeroPage, 2, 3)),
        0x86 => Some(op(0x86, Mnemonic::STX, AddressingMode::ZeroPage, 2, 3)),
        0x88 => Some(op(0x88, Mnemonic::DEY, AddressingMode::NoneAddressing, 1, 2)),
        0x8a => Some(op(0x8a, Mnemonic::TXA, AddressingMode::NoneAddressing, 1, 2)),
        0x8c => Some(op(0x8c, Mnemonic::STY, AddressingMode::Absolute, 3, 4)),
        0x8d => Some(op(0x8d, Mnemonic::STA, AddressingMode::Absolute, 3, 4)),
        0x8e => Some(op(0x8e, Mnemonic::STX, AddressingMode::Absolute, 3, 4)),
        0x90 => Some(op(0x90, Mnemonic::BCC, AddressingMode::NoneAddressing, 2, 2)),
        0x91 => Some(op(0x91, Mnemonic::STA, AddressingMode::Indirect_Y, 2, 6)),
        0x94 => Some(op(0x94, Mnemonic::STY, AddressingMode::ZeroPage_X, 2, 4)),
        0x95 => Some(op(0x95, Mnemonic::STA, AddressingMode::ZeroPage_X, 2, 4)),
        0x96 => Some(op(0x96, Mnemonic::STX, AddressingMode::ZeroPage_Y, 2, 4)),
        0x98 => Some(op(0x98, Mnemonic::TYA, AddressingMode::NoneAddressing, 1, 2)),
        0x99 => Some(op(0x99, Mnemonic::STA, AddressingMode::Absolute_Y, 3, 5)),
        0x9a => Some(op(0x9a, Mnemonic::TXS, AddressingMode::NoneAddressing, 1, 2)),
        0x9d => Some(op(0x9d, Mnemonic::STA, AddressingMode::Absolute_X, 3, 5)),
        0xa0 => Some(op(0xa0, Mnemonic::LDY, AddressingMode::Immediate, 2, 2)),
        0xa1 => Some(op(0xa1, Mnemonic::LDA, AddressingMode::Indirect_X, 2, 6)),
        0xa2 => Some(op(0xa2, Mnemonic::LDX, AddressingMode::Immediate, 2, 2)),
        0xa4 => Some(op(0xa4, Mnemonic::LDY, AddressingMode::ZeroPage, 2, 3)),
        0xa5 => Some(op(0xa5, Mnemonic::LDA, AddressingMode::ZeroPage, 2, 3)),
        0xa6 => Some(op(0xa6, Mnemonic::LDX, AddressingMode::ZeroPage, 2, 3)),
        0xa8 => Some(op(0xa8, Mnemonic::TAY, AddressingMode::NoneAddressing, 1, 2)),
        0xa9 => Some(op(0xa9, Mnemonic::LDA, AddressingMode::Immediate, 2, 2)),
        0xaa => Some(op(0xaa, Mnemonic::TAX, AddressingMode::NoneAddressing, 1, 2)),
        0xac => Some(op(0xac, Mnemonic::LDY, AddressingMode::Absolute, 3, 4)),
        0xad => Some(op(0xad, Mnemonic::LDA, AddressingMode::Absolute, 3, 4)),
        0xae => Some(op(0xae, Mnemonic::LDX, AddressingMode::Absolute, 3, 4)),
        0xb0 => Some(op(0xb0, Mnemonic::BCS, AddressingMode::NoneAddressing, 2, 2)),
        0xb1 => Some(op(0xb1, Mnemonic::LDA, AddressingMode::Indirect_Y, 2, 5)),
        0xb4 => Some(op(0xb4, Mnemonic::LDY, AddressingMode::ZeroPage_X, 2, 4)),
        0xb5 => Some(op(0xb5, Mnemonic::LDA, AddressingMode::ZeroPage_X, 2, 4)),
        0xb6 => Some(op(0xb6, Mnemonic::LDX, AddressingMode::ZeroPage_Y, 2, 4)),
        0xb8 => Some(op(0xb8, Mnemonic::CLV, AddressingMode::NoneAddressing, 1, 2)),
        0xb9 => Some(op(0xb9, Mnemonic::LDA, AddressingMode::Absolute_Y, 3, 4)),
        0xba => Some(op(0xba, Mnemonic::TSX, AddressingMode::NoneAddressing, 1, 2)),
        0xbc => Some(op(0xbc, Mnemonic::LDY, AddressingMode::Absolute_X, 3, 4)),
        0xbd => Some(op(0xbd, Mnemonic::LDA, AddressingMode::Absolute_X, 3, 4)),
        0xbe => Some(op(0xbe, Mnemonic::LDX, AddressingMode::Absolute_Y, 3, 4)),
        0xc0 => Some(op(0xc0, Mnemonic::CPY, AddressingMode::Immediate, 2, 2)),
        0xc1 => Some(op(0xc1, Mnemonic::CMP, AddressingMode::Indirect_X, 2, 6)),
        0xc4 => Some(op(0xc4, Mnemonic::CPY, AddressingMode::ZeroPage, 2, 3)),
        0xc5 => Some(op(0xc5, Mnemonic::CMP, AddressingMode::ZeroPage, 2, 3)),
        0xc6 => Some(op(0xc6, Mnemonic::DEC, AddressingMode::ZeroPage, 2, 5)),
        0xc8 => Some(op(0xc8, Mnemonic::INY, AddressingMode::NoneAddressing, 1, 2)),
        0xc9 => Some(op(0xc9, Mnemonic::CMP, AddressingMode::Immediate, 2, 2)),
        0xca => Some(op(0xca, Mnemonic::DEX, AddressingMode::NoneAddressing, 1, 2)),
        0xcc => Some(op(0xcc, Mnemonic::CPY, AddressingMode::Absolute, 3, 4)),
        0xcd => Some(op(0xcd, Mnemonic::CMP, AddressingMode::Absolute, 3, 4)),
        0xce => Some(op(0xce, Mnemonic::DEC, AddressingMode::Absolute, 3, 6)),
        0xd0 => Some(op(0xd0, Mnemonic::BNE, AddressingMode::NoneAddressing, 2, 2)),
        0xd1 => Some(op(0xd1, Mnemonic::CMP, AddressingMode::Indirect_Y, 2, 5)),
        0xd5 => Some(op(0xd5, Mnemonic::CMP, AddressingMode::ZeroPage_X, 2, 4)),
        0xd6 => Some(op(0xd6, Mnemonic::DEC, AddressingMode::ZeroPage_X, 2, 6)),
        0xd8 => Some(op(0xd8, Mnemonic::CLD, AddressingMode::NoneAddressing, 1, 2)),
        0xd9 => Some(op(0xd9, Mnemonic::CMP, AddressingMode::Absolute_Y, 3, 4)),
        0xdd => Some(op(0xdd, Mnemonic::CMP, AddressingMode::Absolute_X, 3, 4)),
        0xde => Some(op(0xde, Mnemonic::DEC, AddressingMode::Absolute_X, 3, 7)),
        0xe0 => Some(op(0xe0, Mnemonic::CPX, AddressingMode::Immediate, 2, 2)),
        0xe1 => Some(op(0xe1, Mnemonic::SBC, AddressingMode::Indirect_X, 2, 6)),
        0xe4 => Some(op(0xe4, Mnemonic::CPX, AddressingMode::ZeroPage, 2, 3)),
        0xe5 => Some(op(0xe5, Mnemonic::SBC, AddressingMode::ZeroPage, 2, 3)),
        0xe6 => Some(op(0xe6, Mnemonic::INC, AddressingMode::ZeroPage, 2, 5)),
        0xe8 => Some(op(0xe8, Mnemonic::INX, AddressingMode::NoneAddressing, 1, 2)),
        0xe9 => Some(op(0xe9, Mnemonic::SBC, AddressingMode::Immediate, 2, 2)),
        0xea => Some(op(0xea, Mnemonic::NOP, AddressingMode::NoneAddressing, 1, 2)),
        0xec => Some(op(0xec, Mnemonic::CPX, AddressingMode::Absolute, 3, 4)),
        0xed => Some(op(0xed, Mnemonic::SBC, AddressingMode::Absolute, 3, 4)),
        0xee => Some(op(0xee, Mnemonic::INC, AddressingMode::Absolute, 3, 6)),
        0xf0 => Some(op(0xf0, Mnemonic::BEQ, AddressingMode::NoneAddressing, 2, 2)),
        0xf1 => Some(op(0xf1, Mnemonic::SBC, AddressingMode::Indirect_Y, 2, 5)),
        0xf5 => Some(op(0xf5, Mnemonic::SBC, AddressingMode::ZeroPage_X, 2, 4)),
        0xf6 => Some(op(0xf6, Mnemonic::INC, AddressingMode::ZeroPage_X, 2, 6)),
        0xf8 => Some(op(0xf8, Mnemonic::SED, AddressingMode::NoneAddressing, 1, 2)),
        0xf9 => Some(op(0xf9, Mnemonic::SBC, AddressingMode::Absolute_Y, 3, 4)),
        0xfd => Some(op(0xfd, Mnemonic::SBC, AddressingMode::Absolute_X, 3, 4)),
        0xfe => Some(op(0xfe, Mnemonic::INC, AddressingMode::Absolute_X, 3, 7)),
        _ => None,
    }
}

/// Looks up the row of `code` in the opcode table.
pub fn decode(code: u8) -> (r: Option<OpCode>)
    ensures
        r == opcode_table(code),
{
    let row = |code: u8, mnemonic: Mnemonic, mode: AddressingMode, bytes: u8, cycles: u8| -> (r: OpCode)
        ensures
            r == op(code, mnemonic, mode, bytes, cycles),
        { OpCode { code, mnemonic, mode, bytes, cycles } };
    match code {
        0x00 => Some(row(0x00, Mnemonic::BRK, AddressingMode::NoneAddressing, 1, 7)),
        0x01 => Some(row(0x01, Mnemonic::ORA, AddressingMode::Indirect_X, 2, 6)),
        0x05 => Some(row(0x05, Mnemonic::ORA, AddressingMode::ZeroPage, 2, 3)),
        0x06 => Some(row(0x06, Mnemonic::ASL, AddressingMode::ZeroPage, 2, 5)),
        0x08 => Some(row(0x08, Mnemonic::PHP, AddressingMode::NoneAddressing, 1, 3)),
        0x09 => Some(row(0x09, Mnemonic::ORA, AddressingMode::Immediate, 2, 2)),
        0x0a => Some(row(0x0a, Mnemonic::ASL, AddressingMode::Accumulator, 1, 2)),
        0x0d => Some(row(0x0d, Mnemonic::ORA, AddressingMode::Absolute, 3, 4)),
        0x0e => Some(row(0x0e, Mnemonic::ASL, AddressingMode::Absolute, 3, 6)),
        0x10 => Some(row(0x10, Mnemonic::BPL, AddressingMode::NoneAddressing, 2, 2)),
        0x11 => Some(row(0x11, Mnemonic::ORA, AddressingMode::Indirect_Y, 2, 5)),
        0x15 => Some(row(0x15, Mnemonic::ORA, AddressingMode::ZeroPage_X, 2, 4)),
        0x16 => Some(row(0x16, Mnemonic::ASL, AddressingMode::ZeroPage_X, 2, 6)),
        0x18 => Some(row(0x18, Mnemonic::CLC, AddressingMode::NoneAddressing, 1, 2)),
        0x19 => Some(row(0x19, Mnemonic::ORA, AddressingMode::Absolute_Y, 3, 4)),
        0x1d => Some(row(0x1d, Mnemonic::ORA, AddressingMode::Absolute_X, 3, 4)),
        0x1e => Some(row(0x1e, Mnemonic::ASL, AddressingMode::Absolute_X, 3, 7)),
        0x20 => Some(row(0x20, Mnemonic::JSR, AddressingMode::Absolute, 3, 6)),
        0x21 => Some(row(0x21, Mnemonic::AND, AddressingMode::Indirect_X, 2, 6)),
        0x24 => Some(row(0x24, Mnemonic::BIT, AddressingMode::ZeroPage, 2, 3)),
        0x25 => Some(row(0x25, Mnemonic::AND, AddressingMode::ZeroPage, 2, 3)),
        0x26 => Some(row(0x26, Mnemonic::ROL, AddressingMode::ZeroPage, 2, 5)),
        0x28 => Some(row(0x28, Mnemonic::PLP, AddressingMode::NoneAddressing, 1, 4)),
        0x29 => Some(row(0x29, Mnemonic::AND, AddressingMode::Immediate, 2, 2)),
        0x2a => Some(row(0x2a, Mnemonic::ROL, AddressingMode::Accumulator, 1, 2)),
        0x2c => Some(row(0x2c, Mnemonic::BIT, AddressingMode::Absolute, 3, 4)),
        0x2d => Some(row(0x2d, Mnemonic::AND, AddressingMode::Absolute, 3, 4)),
        0x2e => Some(row(0x2e, Mnemonic::ROL, AddressingMode::Absolute, 3, 6)),
        0x30 => Some(row(0x30, Mnemonic::BMI, AddressingMode::NoneAddressing, 2, 2)),
        0x31 => Some(row(0x31, Mnemonic::AND, AddressingMode::Indirect_Y, 2, 5)),
        0x35 => Some(row(0x35, Mnemonic::AND, AddressingMode::ZeroPage_X, 2, 4)),
        0x36 => Some(row(0x36, Mnemonic::ROL, AddressingMode::ZeroPage_X, 2, 6)),
        0x38 => Some(row(0x38, Mnemonic::SEC, AddressingMode::NoneAddressing, 1, 2)),
        0x39 => Some(row(0x39, Mnemonic::AND, AddressingMode::Absolute_Y, 3, 4)),
        0x3d => Some(row(0x3d, Mnemonic::AND, AddressingMode::Absolute_X, 3, 4)),
        0x3e => Some(row(0x3e, Mnemonic::ROL, AddressingMode::Absolute_X, 3, 7)),
        0x40 => Some(row(0x40, Mnemonic::RTI, AddressingMode::NoneAddressing, 1, 6)),
        0x41 => Some(row(0x41, Mnemonic::EOR, AddressingMode::Indirect_X, 2, 6)),
        0x45 => Some(row(0x45, Mnemonic::EOR, AddressingMode::ZeroPage, 2, 3)),
        0x46 => Some(row(0x46, Mnemonic::LSR, AddressingMode::ZeroPage, 2, 5)),
        0x48 => Some(row(0x48, Mnemonic::PHA, AddressingMode::NoneAddressing, 1, 3)),
        0x49 => Some(row(0x49, Mnemonic::EOR, AddressingMode::Immediate, 2, 2)),
        0x4a => Some(row(0x4a, Mnemonic::LSR, AddressingMode::Accumulator, 1, 2)),
        0x4c => Some(row(0x4c, Mnemonic::JMP, AddressingMode::Absolute, 3, 3)),
        0x4d => Some(row(0x4d, Mnemonic::EOR, AddressingMode::Absolute, 3, 4)),
        0x4e => Some(row(0x4e, Mnemonic::LSR, AddressingMode::Absolute, 3, 6)),
        0x50 => Some(row(0x50, Mnemonic::BVC, AddressingMode::NoneAddressing, 2, 2)),
        0x51 => Some(row(0x51, Mnemonic::EOR, AddressingMode::Indirect_Y, 2, 5)),
        0x55 => Some(row(0x55, Mnemonic::EOR, AddressingMode::ZeroPage_X, 2, 4)),
        0x56 => Some(row(0x56, Mnemonic::LSR, AddressingMode::ZeroPage_X, 2, 6)),
        0x58 => Some(row(0x58, Mnemonic::CLI, AddressingMode::NoneAddressing, 1, 2)),
        0x59 => Some(row(0x59, Mnemonic::EOR, AddressingMode::Absolute_Y, 3, 4)),
        0x5d => Some(row(0x5d, Mnemonic::EOR, AddressingMode::Absolute_X, 3, 4)),
        0x5e => Some(row(0x5e, Mnemonic::LSR, AddressingMode::Absolute_X, 3, 7)),
        0x60 => Some(row(0x60, Mnemonic::RTS, AddressingMode::NoneAddressing, 1, 6)),
        0x61 => Some(row(0x61, Mnemonic::ADC, AddressingMode::Indirect_X, 2, 6)),
        0x65 => Some(row(0x65, Mnemonic::ADC, AddressingMode::ZeroPage, 2, 3)),
        0x66 => Some(row(0x66, Mnemonic::ROR, AddressingMode::ZeroPage, 2, 5)),
        0x68 => Some(row(0x68, Mnemonic::PLA, AddressingMode::NoneAddressing, 1, 4)),
        0x69 => Some(row(0x69, Mnemonic::ADC, AddressingMode::Immediate, 2, 2)),
        0x6a => Some(row(0x6a, Mnemonic::ROR, AddressingMode::Accumulator, 1, 2)),
        0x6c => Some(row(0x6c, Mnemonic::JMP, AddressingMode::NoneAddressing, 3, 5)),
        0x6d => Some(row(0x6d, Mnemonic::ADC, AddressingMode::Absolute, 3, 4)),
        0x6e => Some(row(0x6e, Mnemonic::ROR, AddressingMode::Absolute, 3, 6)),
        0x70 => Some(row(0x70, Mnemonic::BVS, AddressingMode::NoneAddressing, 2, 2)),
        0x71 => Some(row(0x71, Mnemonic::ADC, AddressingMode::Indirect_Y, 2, 5)),
        0x75 => Some(row(0x75, Mnemonic::ADC, AddressingMode::ZeroPage_X, 2, 4)),
        0x76 => Some(row(0x76, Mnemonic::ROR, AddressingMode::ZeroPage_X, 2, 6)),
        0x78 => Some(row(0x78, Mnemonic::SEI, AddressingMode::NoneAddressing, 1, 2)),
        0x79 => Some(row(0x79, Mnemonic::ADC, AddressingMode::Absolute_Y, 3, 4)),
        0x7d => Some(row(0x7d, Mnemonic::ADC, AddressingMode::Absolute_X, 3, 4)),
        0x7e => Some(row(0x7e, Mnemonic::ROR, AddressingMode::Absolute_X, 3, 7)),
        0x81 => Some(row(0x81, Mnemonic::STA, AddressingMode::Indirect_X, 2, 6)),
        0x84 => Some(row(0x84, Mnemonic::STY, AddressingMode::ZeroPage, 2, 3)),
        0x85 => Some(row(0x85, Mnemonic::STA, AddressingMode::ZeroPage, 2, 3)),
        0x86 => Some(row(0x86, Mnemonic::STX, AddressingMode::ZeroPage, 2, 3)),
        0x88 => Some(row(0x88, Mnemonic::DEY, AddressingMode::NoneAddressing, 1, 2)),
        0x8a => Some(row(0x8a, Mnemonic::TXA, AddressingMode::NoneAddressing, 1, 2)),
        0x8c => Some(row(0x8c, Mnemonic::STY, AddressingMode::Absolute, 3, 4)),
        0x8d => Some(row(0x8d, Mnemonic::STA, AddressingMode::Absolute, 3, 4)),
        0x8e => Some(row(0x8e, Mnemonic::STX, AddressingMode::Absolute, 3, 4)),
        0x90 => Some(row(0x90, Mnemonic::BCC, AddressingMode::NoneAddressing, 2, 2)),
        0x91 => Some(row(0x91, Mnemonic::STA, AddressingMode::Indirect_Y, 2, 6)),
        0x94 => Some(row(0x94, Mnemonic::STY, AddressingMode::ZeroPage_X, 2, 4)),
        0x95 => Some(row(0x95, Mnemonic::STA, AddressingMode::ZeroPage_X, 2, 4)),
        0x96 => Some(row(0x96, Mnemonic::STX, AddressingMode::ZeroPage_Y, 2, 4)),
        0x98 => Some(row(0x98, Mnemonic::TYA, AddressingMode::NoneAddressing, 1, 2)),
        0x99 => Some(row(0x99, Mnemonic::STA, AddressingMode::Absolute_Y, 3, 5)),
        0x9a => Some(row(0x9a, Mnemonic::TXS, AddressingMode::NoneAddressing, 1, 2)),
        0x9d => Some(row(0x9d, Mnemonic::STA, AddressingMode::Absolute_X, 3, 5)),
        0xa0 => Some(row(0xa0, Mnemonic::LDY, AddressingMode::Immediate, 2, 2)),
        0xa1 => Some(row(0xa1, Mnemonic::LDA, AddressingMode::Indirect_X, 2, 6)),
        0xa2 => Some(row(0xa2, Mnemonic::LDX, AddressingMode::Immediate, 2, 2)),
        0xa4 => Some(row(0xa4, Mnemonic::LDY, AddressingMode::ZeroPage, 2, 3)),
        0xa5 => Some(row(0xa5, Mnemonic::LDA, AddressingMode::ZeroPage, 2, 3)),
        0xa6 => Some(row(0xa6, Mnemonic::LDX, AddressingMode::ZeroPage, 2, 3)),
        0xa8 => Some(row(0xa8, Mnemonic::TAY, AddressingMode::NoneAddressing, 1, 2)),
        0xa9 => Some(row(0xa9, Mnemonic::LDA, AddressingMode::Immediate, 2, 2)),
        0xaa => Some(row(0xaa, Mnemonic::TAX, AddressingMode::NoneAddressing, 1, 2)),
        0xac => Some(row(0xac, Mnemonic::LDY, AddressingMode::Absolute, 3, 4)),
        0xad => Some(row(0xad, Mnemonic::LDA, AddressingMode::Absolute, 3, 4)),
        0xae => Some(row(0xae, Mnemonic::LDX, AddressingMode::Absolute, 3, 4)),
        0xb0 => Some(row(0xb0, Mnemonic::BCS, AddressingMode::NoneAddressing, 2, 2)),
        0xb1 => Some(row(0xb1, Mnemonic::LDA, AddressingMode::Indirect_Y, 2, 5)),
        0xb4 => Some(row(0xb4, Mnemonic::LDY, AddressingMode::ZeroPage_X, 2, 4)),
        0xb5 => Some(row(0xb5, Mnemonic::LDA, AddressingMode::ZeroPage_X, 2, 4)),
        0xb6 => Some(row(0xb6, Mnemonic::LDX, AddressingMode::ZeroPage_Y, 2, 4)),
        0xb8 => Some(row(0xb8, Mnemonic::CLV, AddressingMode::NoneAddressing, 1, 2)),
        0xb9 => Some(row(0xb9, Mnemonic::LDA, AddressingMode::Absolute_Y, 3, 4)),
        0xba => Some(row(0xba, Mnemonic::TSX, AddressingMode::NoneAddressing, 1, 2)),
        0xbc => Some(row(0xbc, Mnemonic::LDY, AddressingMode::Absolute_X, 3, 4)),
        0xbd => Some(row(0xbd, Mnemonic::LDA, AddressingMode::Absolute_X, 3, 4)),
        0xbe => Some(row(0xbe, Mnemonic::LDX, AddressingMode::Absolute_Y, 3, 4)),
        0xc0 => Some(row(0xc0, Mnemonic::CPY, AddressingMode::Immediate, 2, 2)),
        0xc1 => Some(row(0xc1, Mnemonic::CMP, AddressingMode::Indirect_X, 2, 6)),
        0xc4 => Some(row(0xc4, Mnemonic::CPY, AddressingMode::ZeroPage, 2, 3)),
        0xc5 => Some(row(0xc5, Mnemonic::CMP, AddressingMode::ZeroPage, 2, 3)),
        0xc6 => Some(row(0xc6, Mnemonic::DEC, AddressingMode::ZeroPage, 2, 5)),
        0xc8 => Some(row(0xc8, Mnemonic::INY, AddressingMode::NoneAddressing, 1, 2)),
        0xc9 => Some(row(0xc9, Mnemonic::CMP, AddressingMode::Immediate, 2, 2)),
        0xca => Some(row(0xca, Mnemonic::DEX, AddressingMode::NoneAddressing, 1, 2)),
        0xcc => Some(row(0xcc, Mnemonic::CPY, AddressingMode::Absolute, 3, 4)),
        0xcd => Some(row(0xcd, Mnemonic::CMP, AddressingMode::Absolute, 3, 4)),
        0xce => Some(row(0xce, Mnemonic::DEC, AddressingMode::Absolute, 3, 6)),
        0xd0 => Some(row(0xd0, Mnemonic::BNE, AddressingMode::NoneAddressing, 2, 2)),
        0xd1 => Some(row(0xd1, Mnemonic::CMP, AddressingMode::Indirect_Y, 2, 5)),
        0xd5 => Some(row(0xd5, Mnemonic::CMP, AddressingMode::ZeroPage_X, 2, 4)),
        0xd6 => Some(row(0xd6, Mnemonic::DEC, AddressingMode::ZeroPage_X, 2, 6)),
        0xd8 => Some(row(0xd8, Mnemonic::CLD, AddressingMode::NoneAddressing, 1, 2)),
        0xd9 => Some(row(0xd9, Mnemonic::CMP, AddressingMode::Absolute_Y, 3, 4)),
        0xdd => Some(row(0xdd, Mnemonic::CMP, AddressingMode::Absolute_X, 3, 4)),
        0xde => Some(row(0xde, Mnemonic::DEC, AddressingMode::Absolute_X, 3, 7)),
        0xe0 => Some(row(0xe0, Mnemonic::CPX, AddressingMode::Immediate, 2, 2)),
        0xe1 => Some(row(0xe1, Mnemonic::SBC, AddressingMode::Indirect_X, 2, 6)),
        0xe4 => Some(row(0xe4, Mnemonic::CPX, AddressingMode::ZeroPage, 2, 3)),
        0xe5 => Some(row(0xe5, Mnemonic::SBC, AddressingMode::ZeroPage, 2, 3)),
        0xe6 => Some(row(0xe6, Mnemonic::INC, AddressingMode::ZeroPage, 2, 5)),
        0xe8 => Some(row(0xe8, Mnemonic::INX, AddressingMode::NoneAddressing, 1, 2)),
        0xe9 => Some(row(0xe9, Mnemonic::SBC, AddressingMode::Immediate, 2, 2)),
        0xea => Some(row(0xea, Mnemonic::NOP, AddressingMode::NoneAddressing, 1, 2)),
        0xec => Some(row(0xec, Mnemonic::CPX, AddressingMode::Absolute, 3, 4)),
        0xed => Some(row(0xed, Mnemonic::SBC, AddressingMode::Absolute, 3, 4)),
        0xee => Some(row(0xee, Mnemonic::INC, AddressingMode::Absolute, 3, 6)),
        0xf0 => Some(row(0xf0, Mnemonic::BEQ, AddressingMode::NoneAddressing, 2, 2)),
        0xf1 => Some(row(0xf1, Mnemonic::SBC, AddressingMode::Indirect_Y, 2, 5)),
        0xf5 => Some(row(0xf5, Mnemonic::SBC, AddressingMode::ZeroPage_X, 2, 4)),
        0xf6 => Some(row(0xf6, Mnemonic::INC, AddressingMode::ZeroPage_X, 2, 6)),
        0xf8 => Some(row(0xf8, Mnemonic::SED, AddressingMode::NoneAddressing, 1, 2)),
        0xf9 => Some(row(0xf9, Mnemonic::SBC, AddressingMode::Absolute_Y, 3, 4)),
        0xfd => Some(row(0xfd, Mnemonic::SBC, AddressingMode::Absolute_X, 3, 4)),
        0xfe => Some(row(0xfe, Mnemonic::INC, AddressingMode::Absolute_X, 3, 7)),
        _ => None,
    }
}

} // verus!
