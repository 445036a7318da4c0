//! The decode table of the 151 official opcodes: mnemonic, operand width,
//! base cycle count and addressing mode, keyed by opcode byte.

use vstd::prelude::*;

verus! {

use std::collections::HashMap;

broadcast use vstd::std_specs::hash::group_hash_axioms;

/// How an instruction locates its operand.
#[derive(Clone, Copy, Debug, PartialEq, Eq, Structural)]
pub enum AddressingMode {
    Accumulator,
    Implicit,
    Relative,
    Immediate,
    ZeroPage,
    ZeroPageX,
    ZeroPageY,
    Absolute,
    AbsoluteX,
    AbsoluteY,
    Indirect,
    IndirectX,
    IndirectY,
}

/// The mnemonics of all official instructions.
#[derive(Clone, Copy, Debug, PartialEq, Eq, Structural)]
pub enum OpcodeName {
    Lda,
    Ldx,
    Ldy,
    Sta,
    Stx,
    Sty,
    Tax,
    Tay,
    Txa,
    Tya,
    Adc,
    Sbc,
    Inc,
    Dec,
    Inx,
    Dex,
    Iny,
    Dey,
    Asl,
    Lsr,
    Rol,
    Ror,
    And,
    Ora,
    Eor,
    Bit,
    Cmp,
    Cpx,
    Cpy,
    Bcc,
    Bcs,
    Beq,
    Bne,
    Bpl,
    Bmi,
    Bvc,
    Bvs,
    Jmp,
    Jsr,
    Rts,
    Brk,
    Rti,
    Pha,
    Pla,
    Php,
    Plp,
    Txs,
    Tsx,
    Clc,
    Sec,
    Cli,
    Sei,
    Cld,
    Sed,
    Clv,
    Nop,
}

impl OpcodeName {
    /// The conventional three-letter spelling of the mnemonic.
    pub fn as_str(&self) -> &'static str {
        match *self {
            OpcodeName::Lda => "LDA",
            OpcodeName::Ldx => "LDX",
            OpcodeName::Ldy => "LDY",
            OpcodeName::Sta => "STA",
            OpcodeName::Stx => "STX",
            OpcodeName::Sty => "STY",
            OpcodeName::Tax => "TAX",
            OpcodeName::Tay => "TAY",
            OpcodeName::Txa => "TXA",
            OpcodeName::Tya => "TYA",
            OpcodeName::Adc => "ADC",
            OpcodeName::Sbc => "SBC",
            OpcodeName::Inc => "INC",
            OpcodeName::Dec => "DEC",
            OpcodeName::Inx => "INX",
            OpcodeName::Dex => "DEX",
            OpcodeName::Iny => "INY",
            OpcodeName::Dey => "DEY",
            OpcodeName::Asl => "ASL",
            OpcodeName::Lsr => "LSR",
            OpcodeName::Rol => "ROL",
            OpcodeName::Ror => "ROR",
            OpcodeName::And => "AND",
            OpcodeName::Ora => "ORA",
            OpcodeName::Eor => "EOR",
            OpcodeName::Bit => "BIT",
            OpcodeName::Cmp => "CMP",
            OpcodeName::Cpx => "CPX",
            OpcodeName::Cpy => "CPY",
            OpcodeName::Bcc => "BCC",
            OpcodeName::Bcs => "BCS",
            OpcodeName::Beq => "BEQ",
            OpcodeName::Bne => "BNE",
            OpcodeName::Bpl => "BPL",
            OpcodeName::Bmi => "BMI",
            OpcodeName::Bvc => "BVC",
            OpcodeName::Bvs => "BVS",
            OpcodeName::Jmp => "JMP",
            OpcodeName::Jsr => "JSR",
            OpcodeName::Rts => "RTS",
            OpcodeName::Brk => "BRK",
            OpcodeName::Rti => "RTI",
            OpcodeName::Pha => "PHA",
            OpcodeName::Pla => "PLA",
            OpcodeName::Php => "PHP",
            OpcodeName::Plp => "PLP",
            OpcodeName::Txs => "TXS",
            OpcodeName::Tsx => "TSX",
            OpcodeName::Clc => "CLC",
            OpcodeName::Sec => "SEC",
            OpcodeName::Cli => "CLI",
            OpcodeName::Sei => "SEI",
            OpcodeName::Cld => "CLD",
            OpcodeName::Sed => "SED",
            OpcodeName::Clv => "CLV",
            OpcodeName::Nop => "NOP",
        }
    }
}

/// One entry of the decode table.
#[derive(Clone, Copy, Debug, PartialEq, Eq, Structural)]
pub struct Opcode {
    /// The opcode byte.
    pub code: u8,
    /// The mnemonic.
    pub name: OpcodeName,
    /// Total instruction width in bytes, opcode byte included.
    pub bytes: u16,
    /// Base cycle cost, before page-cross and branch penalties.
    pub cycles: usize,
    /// The addressing mode.
    pub mode: AddressingMode,
}

/// The decode-table entry for `code`, or `None` for an unofficial opcode.
pub open spec fn spec_decode(code: u8) -> Option<Opcode> {
    if code == 0xA9 {
        Some(Opcode { code: 0xA9, name: OpcodeName::Lda, bytes: 2, cycles: 2, mode: AddressingMode::Immediate })
    } else if code == 0xA5 {
        Some(Opcode { code: 0xA5, name: OpcodeName::Lda, bytes: 2, cycles: 3, mode: AddressingMode::ZeroPage })
    } else if code == 0xB5 {
        Some(Opcode { code: 0xB5, name: OpcodeName::Lda, bytes: 2, cycles: 4, mode: AddressingMode::ZeroPageX })
    } else if code == 0xAD {
        Some(Opcode { code: 0xAD, name: OpcodeName::Lda, bytes: 3, cycles: 4, mode: AddressingMode::Absolute })
    } else if code == 0xBD {
        Some(Opcode { code: 0xBD, name: OpcodeName::Lda, bytes: 3, cycles: 4, mode: AddressingMode::AbsoluteX })
    } else if code == 0xB9 {
        Some(Opcode { code: 0xB9, name: OpcodeName::Lda, bytes: 3, cycles: 4, mode: AddressingMode::AbsoluteY })
    } else if code == 0xA1 {
        Some(Opcode { code: 0xA1, name: OpcodeName::Lda, bytes: 2, cycles: 6, mode: AddressingMode::IndirectX })
    } else if code == 0xB1 {
        Some(Opcode { code: 0xB1, name: OpcodeName::Lda, bytes: 2, cycles: 5, mode: AddressingMode::IndirectY })
    } else if code == 0xA2 {
        Some(Opcode { code: 0xA2, name: OpcodeName::Ldx, bytes: 2, cycles: 2, mode: AddressingMode::Immediate })
    } else if code == 0xA6 {
        Some(Opcode { code: 0xA6, name: OpcodeName::Ldx, bytes: 2, cycles: 3, mode: AddressingMode::ZeroPage })
    } else if code == 0xB6 {
        Some(Opcode { code: 0xB6, name: OpcodeName::Ldx, bytes: 2, cycles: 4, mode: AddressingMode::ZeroPageY })
    } else if code == 0xAE {
        Some(Opcode { code: 0xAE, name: OpcodeName::Ldx, bytes: 3, cycles: 4, mode: AddressingMode::Absolute })
    } else if code == 0xBE {
        Some(Opcode { code: 0xBE, name: OpcodeName::Ldx, bytes: 3, cycles: 4, mode: AddressingMode::AbsoluteY })
    } else if code == 0xA0 {
        Some(Opcode { code: 0xA0, name: OpcodeName::Ldy, bytes: 2, cycles: 2, mode: AddressingMode::Immediate })
    } else if code == 0xA4 {
        Some(Opcode { code: 0xA4, name: OpcodeName::Ldy, bytes: 2, cycles: 3, mode: AddressingMode::ZeroPage })
    } else if code == 0xB4 {
        Some(Opcode { code: 0xB4, name: OpcodeName::Ldy, bytes: 2, cycles: 4, mode: AddressingMode::ZeroPageX })
    } else if code == 0xAC {
        Some(Opcode { code: 0xAC, name: OpcodeName::Ldy, bytes: 3, cycles: 4, mode: AddressingMode::Absolute })
    } else if code == 0xBC {
        Some(Opcode { code: 0xBC, name: OpcodeName::Ldy, bytes: 3, cycles: 4, mode: AddressingMode::AbsoluteX })
    } else if code == 0x85 {
        Some(Opcode { code: 0x85, name: OpcodeName::Sta, bytes: 2, cycles: 3, mode: AddressingMode::ZeroPage })
    } else if code == 0x95 {
        Some(Opcode { code: 0x95, name: OpcodeName::Sta, bytes: 2, cycles: 4, mode: AddressingMode::ZeroPageX })
    } else if code == 0x8D {
        Some(Opcode { code: 0x8D, name: OpcodeName::Sta, bytes: 3, cycles: 4, mode: AddressingMode::Absolute })
    } else if code == 0x9D {
        Some(Opcode { code: 0x9D, name: OpcodeName::Sta, bytes: 3, cycles: 5, mode: AddressingMode::AbsoluteX })
    } else if code == 0x99 {
        Some(Opcode { code: 0x99, name: OpcodeName::Sta, bytes: 3, cycles: 5, mode: AddressingMode::AbsoluteY })
    } else if code == 0x81 {
        Some(Opcode { code: 0x81, name: OpcodeName::Sta, bytes: 2, cycles: 6, mode: AddressingMode::IndirectX })
    } else if code == 0x91 {
        Some(Opcode { code: 0x91, name: OpcodeName::Sta, bytes: 2, cycles: 6, mode: AddressingMode::IndirectY })
    } else if code == 0x86 {
        Some(Opcode { code: 0x86, name: OpcodeName::Stx, bytes: 2, cycles: 3, mode: AddressingMode::ZeroPage })
    } else if code == 0x96 {
        Some(Opcode { code: 0x96, name: OpcodeName::Stx, bytes: 2, cycles: 4, mode: AddressingMode::ZeroPageY })
    } else if code == 0x8E {
        Some(Opcode { code: 0x8E, name: OpcodeName::Stx, bytes: 3, cycles: 4, mode: AddressingMode::Absolute })
    } else if code == 0x84 {
        Some(Opcode { code: 0x84, name: OpcodeName::Sty, bytes: 2, cycles: 3, mode: AddressingMode::ZeroPage })
    } else if code == 0x94 {
        Some(Opcode { code: 0x94, name: OpcodeName::Sty, bytes: 2, cycles: 4, mode: AddressingMode::ZeroPageX })
    } else if code == 0x8C {
        Some(Opcode { code: 0x8C, name: OpcodeName::Sty, bytes: 3, cycles: 4, mode: AddressingMode::Absolute })
    } else if code == 0xAA {
        Some(Opcode { code: 0xAA, name: OpcodeName::Tax, bytes: 1, cycles: 2, mode: AddressingMode::Implicit })
    } else if code == 0xA8 {
        Some(Opcode { code: 0xA8, name: OpcodeName::Tay, bytes: 1, cycles: 2, mode: AddressingMode::Implicit })
    } else if code == 0x8A {
        Some(Opcode { code: 0x8A, name: OpcodeName::Txa, bytes: 1, cycles: 2, mode: AddressingMode::Implicit })
    } else if code == 0x98 {
        Some(Opcode { code: 0x98, name: OpcodeName::Tya, bytes: 1, cycles: 2, mode: AddressingMode::Implicit })
    } else if code == 0x69 {
        Some(Opcode { code: 0x69, name: OpcodeName::Adc, bytes: 2, cycles: 2, mode: AddressingMode::Immediate })
    } else if code == 0x65 {
        Some(Opcode { code: 0x65, name: OpcodeName::Adc, bytes: 2, cycles: 3, mode: AddressingMode::ZeroPage })
    } else if code == 0x75 {
        Some(Opcode { code: 0x75, name: OpcodeName::Adc, bytes: 2, cycles: 4, mode: AddressingMode::ZeroPageX })
    } else if code == 0x6D {
        Some(Opcode { code: 0x6D, name: OpcodeName::Adc, bytes: 3, cycles: 4, mode: AddressingMode::Absolute })
    } else if code == 0x7D {
        Some(Opcode { code: 0x7D, name: OpcodeName::Adc, bytes: 3, cycles: 4, mode: AddressingMode::AbsoluteX })
    } else if code == 0x79 {
        Some(Opcode { code: 0x79, name: OpcodeName::Adc, bytes: 3, cycles: 4, mode: AddressingMode::AbsoluteY })
    } else if code == 0x61 {
        Some(Opcode { code: 0x61, name: OpcodeName::Adc, bytes: 2, cycles: 6, mode: AddressingMode::IndirectX })
    } else if code == 0x71 {
        Some(Opcode { code: 0x71, name: OpcodeName::Adc, bytes: 2, cycles: 5, mode: AddressingMode::IndirectY })
    } else if code == 0xE9 {
        Some(Opcode { code: 0xE9, name: OpcodeName::Sbc, bytes: 2, cycles: 2, mode: AddressingMode::Immediate })
    } else if code == 0xE5 {
        Some(Opcode { code: 0xE5, name: OpcodeName::Sbc, bytes: 2, cycles: 3, mode: AddressingMode::ZeroPage })
    } else if code == 0xF5 {
        Some(Opcode { code: 0xF5, name: OpcodeName::Sbc, bytes: 2, cycles: 4, mode: AddressingMode::ZeroPageX })
    } else if code == 0xED {
        Some(Opcode { code: 0xED, name: OpcodeName::Sbc, bytes: 3, cycles: 4, mode: AddressingMode::Absolute })
    } else if code == 0xFD {
        Some(Opcode { code: 0xFD, name: OpcodeName::Sbc, bytes: 3, cycles: 4, mode: AddressingMode::AbsoluteX })
    } else if code == 0xF9 {
        Some(Opcode { code: 0xF9, name: OpcodeName::Sbc, bytes: 3, cycles: 4, mode: AddressingMode::AbsoluteY })
    } else if code == 0xE1 {
        Some(Opcode { code: 0xE1, name: OpcodeName::Sbc, bytes: 2, cycles: 6, mode: AddressingMode::IndirectX })
    } else if code == 0xF1 {
        Some(Opcode { code: 0xF1, name: OpcodeName::Sbc, bytes: 2, cycles: 5, mode: AddressingMode::IndirectY })
    } else if code == 0xE6 {
        Some(Opcode { code: 0xE6, name: OpcodeName::Inc, bytes: 2, cycles: 5, mode: AddressingMode::ZeroPage })
    } else if code == 0xF6 {
        Some(Opcode { code: 0xF6, name: OpcodeName::Inc, bytes: 2, cycles: 6, mode: AddressingMode::ZeroPageX })
    } else if code == 0xEE {
        Some(Opcode { code: 0xEE, name: OpcodeName::Inc, bytes: 3, cycles: 6, mode: AddressingMode::Absolute })
    } else if code == 0xFE {
        Some(Opcode { code: 0xFE, name: OpcodeName::Inc, bytes: 3, cycles: 7, mode: AddressingMode::AbsoluteX })
    } else if code == 0xC6 {
        Some(Opcode { code: 0xC6, name: OpcodeName::Dec, bytes: 2, cycles: 5, mode: AddressingMode::ZeroPage })
    } else if code == 0xD6 {
        Some(Opcode { code: 0xD6, name: OpcodeName::Dec, bytes: 2, cycles: 6, mode: AddressingMode::ZeroPageX })
    } else if code == 0xCE {
        Some(Opcode { code: 0xCE, name: OpcodeName::Dec, bytes: 3, cycles: 6, mode: AddressingMode::Absolute })
    } else if code == 0xDE {
        Some(Opcode { code: 0xDE, name: OpcodeName::Dec, bytes: 3, cycles: 7, mode: AddressingMode::AbsoluteX })
    } else if code == 0xE8 {
        Some(Opcode { code: 0xE8, name: OpcodeName::Inx, bytes: 1, cycles: 2, mode: AddressingMode::Implicit })
    } else if code == 0xCA {
        Some(Opcode { code: 0xCA, name: OpcodeName::Dex, bytes: 1, cycles: 2, mode: AddressingMode::Implicit })
    } else if code == 0xC8 {
        Some(Opcode { code: 0xC8, name: OpcodeName::Iny, bytes: 1, cycles: 2, mode: AddressingMode::Implicit })
    } else if code == 0x88 {
        Some(Opcode { code: 0x88, name: OpcodeName::Dey, bytes: 1, cycles: 2, mode: AddressingMode::Implicit })
    } else if code == 0x0A {
        Some(Opcode { code: 0x0A, name: OpcodeName::Asl, bytes: 1, cycles: 2, mode: AddressingMode::Accumulator })
    } else if code == 0x06 {
        Some(Opcode { code: 0x06, name: OpcodeName::Asl, bytes: 2, cycles: 5, mode: AddressingMode::ZeroPage })
    } else if code == 0x16 {
        Some(Opcode { code: 0x16, name: OpcodeName::Asl, bytes: 2, cycles: 6, mode: AddressingMode::ZeroPageX })
    } else if code == 0x0E {
        Some(Opcode { code: 0x0E, name: OpcodeName::Asl, bytes: 3, cycles: 6, mode: AddressingMode::Absolute })
    } else if code == 0x1E {
        Some(Opcode { code: 0x1E, name: OpcodeName::Asl, bytes: 3, cycles: 7, mode: AddressingMode::AbsoluteX })
    } else if code == 0x4A {
        Some(Opcode { code: 0x4A, name: OpcodeName::Lsr, bytes: 1, cycles: 2, mode: AddressingMode::Accumulator })
    } else if code == 0x46 {
        Some(Opcode { code: 0x46, name: OpcodeName::Lsr, bytes: 2, cycles: 5, mode: AddressingMode::ZeroPage })
    } else if code == 0x56 {
        Some(Opcode { code: 0x56, name: OpcodeName::Lsr, bytes: 2, cycles: 6, mode: AddressingMode::ZeroPageX })
    } else if code == 0x4E {
        Some(Opcode { code: 0x4E, name: OpcodeName::Lsr, bytes: 3, cycles: 6, mode: AddressingMode::Absolute })
    } else if code == 0x5E {
        Some(Opcode { code: 0x5E, name: OpcodeName::Lsr, bytes: 3, cycles: 7, mode: AddressingMode::AbsoluteX })
    } else if code == 0x2A {
        Some(Opcode { code: 0x2A, name: OpcodeName::Rol, bytes: 1, cycles: 2, mode: AddressingMode::Accumulator })
    } else if code == 0x26 {
        Some(Opcode { code: 0x26, name: OpcodeName::Rol, bytes: 2, cycles: 5, mode: AddressingMode::ZeroPage })
    } else if code == 0x36 {
        Some(Opcode { code: 0x36, name: OpcodeName::Rol, bytes: 2, cycles: 6, mode: AddressingMode::ZeroPageX })
    } else if code == 0x2E {
        Some(Opcode { code: 0x2E, name: OpcodeName::Rol, bytes: 3, cycles: 6, mode: AddressingMode::Absolute })
    } else if code == 0x3E {
        Some(Opcode { code: 0x3E, name: OpcodeName::Rol, bytes: 3, cycles: 7, mode: AddressingMode::AbsoluteX })
    } else if code == 0x6A {
        Some(Opcode { code: 0x6A, name: OpcodeName::Ror, bytes: 1, cycles: 2, mode: AddressingMode::Accumulator })
    } else if code == 0x66 {
        Some(Opcode { code: 0x66, name: OpcodeName::Ror, bytes: 2, cycles: 5, mode: AddressingMode::ZeroPage })
    } else if code == 0x76 {
        Some(Opcode { code: 0x76, name: OpcodeName::Ror, bytes: 2, cycles: 6, mode: AddressingMode::ZeroPageX })
    } else if code == 0x6E {
        Some(Opcode { code: 0x6E, name: OpcodeName::Ror, bytes: 3, cycles: 6, mode: AddressingMode::Absolute })
    } else if code == 0x7E {
        Some(Opcode { code: 0x7E, name: OpcodeName::Ror, bytes: 3, cycles: 7, mode: AddressingMode::AbsoluteX })
    } else if code == 0x29 {
        Some(Opcode { code: 0x29, name: OpcodeName::And, bytes: 2, cycles: 2, mode: AddressingMode::Immediate })
    } else if code == 0x25 {
        Some(Opcode { code: 0x25, name: OpcodeName::And, bytes: 2, cycles: 3, mode: AddressingMode::ZeroPage })
    } else if code == 0x35 {
        Some(Opcode { code: 0x35, name: OpcodeName::And, bytes: 2, cycles: 4, mode: AddressingMode::ZeroPageX })
    } else if code == 0x2D {
        Some(Opcode { code: 0x2D, name: OpcodeName::And, bytes: 3, cycles: 4, mode: AddressingMode::Absolute })
    } else if code == 0x3D {
        Some(Opcode { code: 0x3D, name: OpcodeName::And, bytes: 3, cycles: 4, mode: AddressingMode::AbsoluteX })
    } else if code == 0x39 {
        Some(Opcode { code: 0x39, name: OpcodeName::And, bytes: 3, cycles: 4, mode: AddressingMode::AbsoluteY })
    } else if code == 0x21 {
        Some(Opcode { code: 0x21, name: OpcodeName::And, bytes: 2, cycles: 6, mode: AddressingMode::IndirectX })
    } else if code == 0x31 {
        Some(Opcode { code: 0x31, name: OpcodeName::And, bytes: 2, cycles: 5, mode: AddressingMode::IndirectY })
    } else if code == 0x09 {
        Some(Opcode { code: 0x09, name: OpcodeName::Ora, bytes: 2, cycles: 2, mode: AddressingMode::Immediate })
    } else if code == 0x05 {
        Some(Opcode { code: 0x05, name: OpcodeName::Ora, bytes: 2, cycles: 3, mode: AddressingMode::ZeroPage })
    } else if code == 0x15 {
        Some(Opcode { code: 0x15, name: OpcodeName::Ora, bytes: 2, cycles: 4, mode: AddressingMode::ZeroPageX })
    } else if code == 0x0D {
        Some(Opcode { code: 0x0D, name: OpcodeName::Ora, bytes: 3, cycles: 4, mode: AddressingMode::Absolute })
    } else if code == 0x1D {
        Some(Opcode { code: 0x1D, name: OpcodeName::Ora, bytes: 3, cycles: 4, mode: AddressingMode::AbsoluteX })
    } else if code == 0x19 {
        Some(Opcode { code: 0x19, name: OpcodeName::Ora, bytes: 3, cycles: 4, mode: AddressingMode::AbsoluteY })
    } else if code == 0x01 {
        Some(Opcode { code: 0x01, name: OpcodeName::Ora, bytes: 2, cycles: 6, mode: AddressingMode::IndirectX })
    } else if code == 0x11 {
        Some(Opcode { code: 0x11, name: OpcodeName::Ora, bytes: 2, cycles: 5, mode: AddressingMode::IndirectY })
    } else if code == 0x49 {
        Some(Opcode { code: 0x49, name: OpcodeName::Eor, bytes: 2, cycles: 2, mode: AddressingMode::Immediate })
    } else if code == 0x45 {
        Some(Opcode { code: 0x45, name: OpcodeName::Eor, bytes: 2, cycles: 3, mode: AddressingMode::ZeroPage })
    } else if code == 0x55 {
        Some(Opcode { code: 0x55, name: OpcodeName::Eor, bytes: 2, cycles: 4, mode: AddressingMode::ZeroPageX })
    } else if code == 0x4D {
        Some(Opcode { code: 0x4D, name: OpcodeName::Eor, bytes: 3, cycles: 4, mode: AddressingMode::Absolute })
    } else if code == 0x5D {
        Some(Opcode { code: 0x5D, name: OpcodeName::Eor, bytes: 3, cycles: 4, mode: AddressingMode::AbsoluteX })
    } else if code == 0x59 {
        Some(Opcode { code: 0x59, name: OpcodeName::Eor, bytes: 3, cycles: 4, mode: AddressingMode::AbsoluteY })
    } else if code == 0x41 {
        Some(Opcode { code: 0x41, name: OpcodeName::Eor, bytes: 2, cycles: 6, mode: AddressingMode::IndirectX })
    } else if code == 0x51 {
        Some(Opcode { code: 0x51, name: OpcodeName::Eor, bytes: 2, cycles: 5, mode: AddressingMode::IndirectY })
    } else if code == 0x24 {
        Some(Opcode { code: 0x24, name: OpcodeName::Bit, bytes: 2, cycles: 3, mode: AddressingMode::ZeroPage })
    } else if code == 0x2C {
        Some(Opcode { code: 0x2C, name: OpcodeName::Bit, bytes: 3, cycles: 4, mode: AddressingMode::Absolute })
    } else if code == 0xC9 {
        Some(Opcode { code: 0xC9, name: OpcodeName::Cmp, bytes: 2, cycles: 2, mode: AddressingMode::Immediate })
    } else if code == 0xC5 {
        Some(Opcode { code: 0xC5, name: OpcodeName::Cmp, bytes: 2, cycles: 3, mode: AddressingMode::ZeroPage })
    } else if code == 0xD5 {
        Some(Opcode { code: 0xD5, name: OpcodeName::Cmp, bytes: 2, cycles: 4, mode: AddressingMode::ZeroPageX })
    } else if code == 0xCD {
        Some(Opcode { code: 0xCD, name: OpcodeName::Cmp, bytes: 3, cycles: 4, mode: AddressingMode::Absolute })
    } else if code == 0xDD {
        Some(Opcode { code: 0xDD, name: OpcodeName::Cmp, bytes: 3, cycles: 4, mode: AddressingMode::AbsoluteX })
    } else if code == 0xD9 {
        Some(Opcode { code: 0xD9, name: OpcodeName::Cmp, bytes: 3, cycles: 4, mode: AddressingMode::AbsoluteY })
    } else if code == 0xC1 {
        Some(Opcode { code: 0xC1, name: OpcodeName::Cmp, bytes: 2, cycles: 6, mode: AddressingMode::IndirectX })
    } else if code == 0xD1 {
        Some(Opcode { code: 0xD1, name: OpcodeName::Cmp, bytes: 2, cycles: 5, mode: AddressingMode::IndirectY })
    } else if code == 0xE0 {
        Some(Opcode { code: 0xE0, name: OpcodeName::Cpx, bytes: 2, cycles: 2, mode: AddressingMode::Immediate })
    } else if code == 0xE4 {
        Some(Opcode { code: 0xE4, name: OpcodeName::Cpx, bytes: 2, cycles: 3, mode: AddressingMode::ZeroPage })
    } else if code == 0xEC {
        Some(Opcode { code: 0xEC, name: OpcodeName::Cpx, bytes: 3, cycles: 4, mode: AddressingMode::Absolute })
    } else if code == 0xC0 {
        Some(Opcode { code: 0xC0, name: OpcodeName::Cpy, bytes: 2, cycles: 2, mode: AddressingMode::Immediate })
    } else if code == 0xC4 {
        Some(Opcode { code: 0xC4, name: OpcodeName::Cpy, bytes: 2, cycles: 3, mode: AddressingMode::ZeroPage })
    } else if code == 0xCC {
        Some(Opcode { code: 0xCC, name: OpcodeName::Cpy, bytes: 3, cycles: 4, mode: AddressingMode::Absolute })
    } else if code == 0x90 {
        Some(Opcode { code: 0x90, name: OpcodeName::Bcc, bytes: 2, cycles: 2, mode: AddressingMode::Relative })
    } else if code == 0xB0 {
        Some(Opcode { code: 0xB0, name: OpcodeName::Bcs, bytes: 2, cycles: 2, mode: AddressingMode::Relative })
    } else if code == 0xF0 {
        Some(Opcode { code: 0xF0, name: OpcodeName::Beq, bytes: 2, cycles: 2, mode: AddressingMode::Relative })
    } else if code == 0xD0 {
        Some(Opcode { code: 0xD0, name: OpcodeName::Bne, bytes: 2, cycles: 2, mode: AddressingMode::Relative })
    } else if code == 0x10 {
        Some(Opcode { code: 0x10, name: OpcodeName::Bpl, bytes: 2, cycles: 2, mode: AddressingMode::Relative })
    } else if code == 0x30 {
        Some(Opcode { code: 0x30, name: OpcodeName::Bmi, bytes: 2, cycles: 2, mode: AddressingMode::Relative })
    } else if code == 0x50 {
        Some(Opcode { code: 0x50, name: OpcodeName::Bvc, bytes: 2, cycles: 2, mode: AddressingMode::Relative })
    } else if code == 0x70 {
        Some(Opcode { code: 0x70, name: OpcodeName::Bvs, bytes: 2, cycles: 2, mode: AddressingMode::Relative })
    } else if code == 0x4C {
        Some(Opcode { code: 0x4C, name: OpcodeName::Jmp, bytes: 3, cycles: 3, mode: AddressingMode::Absolute })
    } else if code == 0x6C {
        Some(Opcode { code: 0x6C, name: OpcodeName::Jmp, bytes: 3, cycles: 5, mode: AddressingMode::Indirect })
    } else if code == 0x20 {
        Some(Opcode { code: 0x20, name: OpcodeName::Jsr, bytes: 3, cycles: 6, mode: AddressingMode::Absolute })
    } else if code == 0x60 {
        Some(Opcode { code: 0x60, name: OpcodeName::Rts, bytes: 1, cycles: 6, mode: AddressingMode::Implicit })
    } else if code == 0x00 {
        Some(Opcode { code: 0x00, name: OpcodeName::Brk, bytes: 1, cycles: 7, mode: AddressingMode::Implicit })
    } else if code == 0x40 {
        Some(Opcode { code: 0x40, name: OpcodeName::Rti, bytes: 1, cycles: 6, mode: AddressingMode::Implicit })
    } else if code == 0x48 {
        Some(Opcode { code: 0x48, name: OpcodeName::Pha, bytes: 1, cycles: 3, mode: AddressingMode::Implicit })
    } else if code == 0x68 {
        Some(Opcode { code: 0x68, name: OpcodeName::Pla, bytes: 1, cycles: 4, mode: AddressingMode::Implicit })
    } else if code == 0x08 {
        Some(Opcode { code: 0x08, name: OpcodeName::Php, bytes: 1, cycles: 3, mode: AddressingMode::Implicit })
    } else if code == 0x28 {
        Some(Opcode { code: 0x28, name: OpcodeName::Plp, bytes: 1, cycles: 4, mode: AddressingMode::Implicit })
    } else if code == 0x9A {
        Some(Opcode { code: 0x9A, name: OpcodeName::Txs, bytes: 1, cycles: 2, mode: AddressingMode::Implicit })
    } else if code == 0xBA {
        Some(Opcode { code: 0xBA, name: OpcodeName::Tsx, bytes: 1, cycles: 2, mode: AddressingMode::Implicit })
    } else if code == 0x18 {
        Some(Opcode { code: 0x18, name: OpcodeName::Clc, bytes: 1, cycles: 2, mode: AddressingMode::Implicit })
    } else if code == 0x38 {
        Some(Opcode { code: 0x38, name: OpcodeName::Sec, bytes: 1, cycles: 2, mode: AddressingMode::Implicit })
    } else if code == 0x58 {
        Some(Opcode { code: 0x58, name: OpcodeName::Cli, bytes: 1, cycles: 2, mode: AddressingMode::Implicit })
    } else if code == 0x78 {
        Some(Opcode { code: 0x78, name: OpcodeName::Sei, bytes: 1, cycles: 2, mode: AddressingMode::Implicit })
    } else if code == 0xD8 {
        Some(Opcode { code: 0xD8, name: OpcodeName::Cld, bytes: 1, cycles: 2, mode: AddressingMode::Implicit })
    } else if code == 0xF8 {
        Some(Opcode { code: 0xF8, name: OpcodeName::Sed, bytes: 1, cycles: 2, mode: AddressingMode::Implicit })
    } else if code == 0xB8 {
        Some(Opcode { code: 0xB8, name: OpcodeName::Clv, bytes: 1, cycles: 2, mode: AddressingMode::Implicit })
    } else if code == 0xEA {
        Some(Opcode { code: 0xEA, name: OpcodeName::Nop, bytes: 1, cycles: 2, mode: AddressingMode::Implicit })
    } else {
        None
    }
}

/// Whether the table entry's addressing mode fits its mnemonic: the
/// memory-operand instructions never carry a register-only or relative mode,
/// and the shifts never carry an implicit or relative one.
pub open spec fn op_mode_ok(op: Opcode) -> bool {
    match op.name {
        OpcodeName::Lda | OpcodeName::Ldx | OpcodeName::Ldy | OpcodeName::Sta | OpcodeName::Stx
            | OpcodeName::Sty | OpcodeName::Adc | OpcodeName::Sbc | OpcodeName::Inc
            | OpcodeName::Dec | OpcodeName::And | OpcodeName::Ora | OpcodeName::Eor
            | OpcodeName::Bit | OpcodeName::Cmp | OpcodeName::Cpx | OpcodeName::Cpy
            | OpcodeName::Jmp => !(op.mode is Accumulator || op.mode is Implicit
            || op.mode is Relative),
        OpcodeName::Asl | OpcodeName::Lsr | OpcodeName::Rol | OpcodeName::Ror => !(
        op.mode is Implicit || op.mode is Relative),
        _ => true,
    }
}

impl Opcode {
    /// A table entry built from its parts.
    pub fn new(code: u8, name: OpcodeName, bytes: u16, cycles: usize, mode: AddressingMode) -> (r:
        Opcode)
        ensures
            r == (Opcode { code, name, bytes, cycles, mode }),
    {
        Opcode { code, name, bytes, cycles, mode }
    }

    /// Look up the decode-table entry for `code`.
    pub fn decode(code: u8) -> (r: Option<Opcode>)
        ensures
            r == spec_decode(code),
            r matches Some(op) ==> op.code == code && 1 <= op.bytes <= 3 && 2 <= op.cycles <= 7
                && op_mode_ok(op),
    {
        match code {
            0xA9 => Some(Opcode::new(0xA9, OpcodeName::Lda, 2, 2, AddressingMode::Immediate)),
            0xA5 => Some(Opcode::new(0xA5, OpcodeName::Lda, 2, 3, AddressingMode::ZeroPage)),
            0xB5 => Some(Opcode::new(0xB5, OpcodeName::Lda, 2, 4, AddressingMode::ZeroPageX)),
            0xAD => Some(Opcode::new(0xAD, OpcodeName::Lda, 3, 4, AddressingMode::Absolute)),
            0xBD => Some(Opcode::new(0xBD, OpcodeName::Lda, 3, 4, AddressingMode::AbsoluteX)),
            0xB9 => Some(Opcode::new(0xB9, OpcodeName::Lda, 3, 4, AddressingMode::AbsoluteY)),
            0xA1 => Some(Opcode::new(0xA1, OpcodeName::Lda, 2, 6, AddressingMode::IndirectX)),
            0xB1 => Some(Opcode::new(0xB1, OpcodeName::Lda, 2, 5, AddressingMode::IndirectY)),
            0xA2 => Some(Opcode::new(0xA2, OpcodeName::Ldx, 2, 2, AddressingMode::Immediate)),
            0xA6 => Some(Opcode::new(0xA6, OpcodeName::Ldx, 2, 3, AddressingMode::ZeroPage)),
            0xB6 => Some(Opcode::new(0xB6, OpcodeName::Ldx, 2, 4, AddressingMode::ZeroPageY)),
            0xAE => Some(Opcode::new(0xAE, OpcodeName::Ldx, 3, 4, AddressingMode::Absolute)),
            0xBE => Some(Opcode::new(0xBE, OpcodeName::Ldx, 3, 4, AddressingMode::AbsoluteY)),
            0xA0 => Some(Opcode::new(0xA0, OpcodeName::Ldy, 2, 2, AddressingMode::Immediate)),
            0xA4 => Some(Opcode::new(0xA4, OpcodeName::Ldy, 2, 3, AddressingMode::ZeroPage)),
            0xB4 => Some(Opcode::new(0xB4, OpcodeName::Ldy, 2, 4, AddressingMode::ZeroPageX)),
            0xAC => Some(Opcode::new(0xAC, OpcodeName::Ldy, 3, 4, AddressingMode::Absolute)),
            0xBC => Some(Opcode::new(0xBC, OpcodeName::Ldy, 3, 4, AddressingMode::AbsoluteX)),
            0x85 => Some(Opcode::new(0x85, OpcodeName::Sta, 2, 3, AddressingMode::ZeroPage)),
            0x95 => Some(Opcode::new(0x95, OpcodeName::Sta, 2, 4, AddressingMode::ZeroPageX)),
            0x8D => Some(Opcode::new(0x8D, OpcodeName::Sta, 3, 4, AddressingMode::Absolute)),
            0x9D => Some(Opcode::new(0x9D, OpcodeName::Sta, 3, 5, AddressingMode::AbsoluteX)),
            0x99 => Some(Opcode::new(0x99, OpcodeName::Sta, 3, 5, AddressingMode::AbsoluteY)),
            0x81 => Some(Opcode::new(0x81, OpcodeName::Sta, 2, 6, AddressingMode::IndirectX)),
            0x91 => Some(Opcode::new(0x91, OpcodeName::Sta, 2, 6, AddressingMode::IndirectY)),
            0x86 => Some(Opcode::new(0x86, OpcodeName::Stx, 2, 3, AddressingMode::ZeroPage)),
            0x96 => Some(Opcode::new(0x96, OpcodeName::Stx, 2, 4, AddressingMode::ZeroPageY)),
            0x8E => Some(Opcode::new(0x8E, OpcodeName::Stx, 3, 4, AddressingMode::Absolute)),
            0x84 => Some(Opcode::new(0x84, OpcodeName::Sty, 2, 3, AddressingMode::ZeroPage)),
            0x94 => Some(Opcode::new(0x94, OpcodeName::Sty, 2, 4, AddressingMode::ZeroPageX)),
            0x8C => Some(Opcode::new(0x8C, OpcodeName::Sty, 3, 4, AddressingMode::Absolute)),
            0xAA => Some(Opcode::new(0xAA, OpcodeName::Tax, 1, 2, AddressingMode::Implicit)),
            0xA8 => Some(Opcode::new(0xA8, OpcodeName::Tay, 1, 2, AddressingMode::Implicit)),
            0x8A => Some(Opcode::new(0x8A, OpcodeName::Txa, 1, 2, AddressingMode::Implicit)),
            0x98 => Some(Opcode::new(0x98, OpcodeName::Tya, 1, 2, AddressingMode::Implicit)),
            0x69 => Some(Opcode::new(0x69, OpcodeName::Adc, 2, 2, AddressingMode::Immediate)),
            0x65 => Some(Opcode::new(0x65, OpcodeName::Adc, 2, 3, AddressingMode::ZeroPage)),
            0x75 => Some(Opcode::new(0x75, OpcodeName::Adc, 2, 4, AddressingMode::ZeroPageX)),
            0x6D => Some(Opcode::new(0x6D, OpcodeName::Adc, 3, 4, AddressingMode::Absolute)),
            0x7D => Some(Opcode::new(0x7D, OpcodeName::Adc, 3, 4, AddressingMode::AbsoluteX)),
            0x79 => Some(Opcode::new(0x79, OpcodeName::Adc, 3, 4, AddressingMode::AbsoluteY)),
            0x61 => Some(Opcode::new(0x61, OpcodeName::Adc, 2, 6, AddressingMode::IndirectX)),
            0x71 => Some(Opcode::new(0x71, OpcodeName::Adc, 2, 5, AddressingMode::IndirectY)),
            0xE9 => Some(Opcode::new(0xE9, OpcodeName::Sbc, 2, 2, AddressingMode::Immediate)),
            0xE5 => Some(Opcode::new(0xE5, OpcodeName::Sbc, 2, 3, AddressingMode::ZeroPage)),
            0xF5 => Some(Opcode::new(0xF5, OpcodeName::Sbc, 2, 4, AddressingMode::ZeroPageX)),
            0xED => Some(Opcode::new(0xED, OpcodeName::Sbc, 3, 4, AddressingMode::Absolute)),
            0xFD => Some(Opcode::new(0xFD, OpcodeName::Sbc, 3, 4, AddressingMode::AbsoluteX)),
            0xF9 => Some(Opcode::new(0xF9, OpcodeName::Sbc, 3, 4, AddressingMode::AbsoluteY)),
            0xE1 => Some(Opcode::new(0xE1, OpcodeName::Sbc, 2, 6, AddressingMode::IndirectX)),
            0xF1 => Some(Opcode::new(0xF1, OpcodeName::Sbc, 2, 5, AddressingMode::IndirectY)),
            0xE6 => Some(Opcode::new(0xE6, OpcodeName::Inc, 2, 5, AddressingMode::ZeroPage)),
            0xF6 => Some(Opcode::new(0xF6, OpcodeName::Inc, 2, 6, AddressingMode::ZeroPageX)),
            0xEE => Some(Opcode::new(0xEE, OpcodeName::Inc, 3, 6, AddressingMode::Absolute)),
            0xFE => Some(Opcode::new(0xFE, OpcodeName::Inc, 3, 7, AddressingMode::AbsoluteX)),
            0xC6 => Some(Opcode::new(0xC6, OpcodeName::Dec, 2, 5, AddressingMode::ZeroPage)),
            0xD6 => Some(Opcode::new(0xD6, OpcodeName::Dec, 2, 6, AddressingMode::ZeroPageX)),
            0xCE => Some(Opcode::new(0xCE, OpcodeName::Dec, 3, 6, AddressingMode::Absolute)),
            0xDE => Some(Opcode::new(0xDE, OpcodeName::Dec, 3, 7, AddressingMode::AbsoluteX)),
            0xE8 => Some(Opcode::new(0xE8, OpcodeName::Inx, 1, 2, AddressingMode::Implicit)),
            0xCA => Some(Opcode::new(0xCA, OpcodeName::Dex, 1, 2, AddressingMode::Implicit)),
            0xC8 => Some(Opcode::new(0xC8, OpcodeName::Iny, 1, 2, AddressingMode::Implicit)),
            0x88 => Some(Opcode::new(0x88, OpcodeName::Dey, 1, 2, AddressingMode::Implicit)),
            0x0A => Some(Opcode::new(0x0A, OpcodeName::Asl, 1, 2, AddressingMode::Accumulator)),
            0x06 => Some(Opcode::new(0x06, OpcodeName::Asl, 2, 5, AddressingMode::ZeroPage)),
            0x16 => Some(Opcode::new(0x16, OpcodeName::Asl, 2, 6, AddressingMode::ZeroPageX)),
            0x0E => Some(Opcode::new(0x0E, OpcodeName::Asl, 3, 6, AddressingMode::Absolute)),
            0x1E => Some(Opcode::new(0x1E, OpcodeName::Asl, 3, 7, AddressingMode::AbsoluteX)),
            0x4A => Some(Opcode::new(0x4A, OpcodeName::Lsr, 1, 2, AddressingMode::Accumulator)),
            0x46 => Some(Opcode::new(0x46, OpcodeName::Lsr, 2, 5, AddressingMode::ZeroPage)),
            0x56 => Some(Opcode::new(0x56, OpcodeName::Lsr, 2, 6, AddressingMode::ZeroPageX)),
            0x4E => Some(Opcode::new(0x4E, OpcodeName::Lsr, 3, 6, AddressingMode::Absolute)),
            0x5E => Some(Opcode::new(0x5E, OpcodeName::Lsr, 3, 7, AddressingMode::AbsoluteX)),
            0x2A => Some(Opcode::new(0x2A, OpcodeName::Rol, 1, 2, AddressingMode::Accumulator)),
            0x26 => Some(Opcode::new(0x26, OpcodeName::Rol, 2, 5, AddressingMode::ZeroPage)),
            0x36 => Some(Opcode::new(0x36, OpcodeName::Rol, 2, 6, AddressingMode::ZeroPageX)),
            0x2E => Some(Opcode::new(0x2E, OpcodeName::Rol, 3, 6, AddressingMode::Absolute)),
            0x3E => Some(Opcode::new(0x3E, OpcodeName::Rol, 3, 7, AddressingMode::AbsoluteX)),
            0x6A => Some(Opcode::new(0x6A, OpcodeName::Ror, 1, 2, AddressingMode::Accumulator)),
            0x66 => Some(Opcode::new(0x66, OpcodeName::Ror, 2, 5, AddressingMode::ZeroPage)),
            0x76 => Some(Opcode::new(0x76, OpcodeName::Ror, 2, 6, AddressingMode::ZeroPageX)),
            0x6E => Some(Opcode::new(0x6E, OpcodeName::Ror, 3, 6, AddressingMode::Absolute)),
            0x7E => Some(Opcode::new(0x7E, OpcodeName::Ror, 3, 7, AddressingMode::AbsoluteX)),
            0x29 => Some(Opcode::new(0x29, OpcodeName::And, 2, 2, AddressingMode::Immediate)),
            0x25 => Some(Opcode::new(0x25, OpcodeName::And, 2, 3, AddressingMode::ZeroPage)),
            0x35 => Some(Opcode::new(0x35, OpcodeName::And, 2, 4, AddressingMode::ZeroPageX)),
            0x2D => Some(Opcode::new(0x2D, OpcodeName::And, 3, 4, AddressingMode::Absolute)),
            0x3D => Some(Opcode::new(0x3D, OpcodeName::And, 3, 4, AddressingMode::AbsoluteX)),
            0x39 => Some(Opcode::new(0x39, OpcodeName::And, 3, 4, AddressingMode::AbsoluteY)),
            0x21 => Some(Opcode::new(0x21, OpcodeName::And, 2, 6, AddressingMode::IndirectX)),
            0x31 => Some(Opcode::new(0x31, OpcodeName::And, 2, 5, AddressingMode::IndirectY)),
            0x09 => Some(Opcode::new(0x09, OpcodeName::Ora, 2, 2, AddressingMode::Immediate)),
            0x05 => Some(Opcode::new(0x05, OpcodeName::Ora, 2, 3, AddressingMode::ZeroPage)),
            0x15 => Some(Opcode::new(0x15, OpcodeName::Ora, 2, 4, AddressingMode::ZeroPageX)),
            0x0D => Some(Opcode::new(0x0D, OpcodeName::Ora, 3, 4, AddressingMode::Absolute)),
            0x1D => Some(Opcode::new(0x1D, OpcodeName::Ora, 3, 4, AddressingMode::AbsoluteX)),
            0x19 => Some(Opcode::new(0x19, OpcodeName::Ora, 3, 4, AddressingMode::AbsoluteY)),
            0x01 => Some(Opcode::new(0x01, OpcodeName::Ora, 2, 6, AddressingMode::IndirectX)),
            0x11 => Some(Opcode::new(0x11, OpcodeName::Ora, 2, 5, AddressingMode::IndirectY)),
            0x49 => Some(Opcode::new(0x49, OpcodeName::Eor, 2, 2, AddressingMode::Immediate)),
            0x45 => Some(Opcode::new(0x45, OpcodeName::Eor, 2, 3, AddressingMode::ZeroPage)),
            0x55 => Some(Opcode::new(0x55, OpcodeName::Eor, 2, 4, AddressingMode::ZeroPageX)),
            0x4D => Some(Opcode::new(0x4D, OpcodeName::Eor, 3, 4, AddressingMode::Absolute)),
            0x5D => Some(Opcode::new(0x5D, OpcodeName::Eor, 3, 4, AddressingMode::AbsoluteX)),
            0x59 => Some(Opcode::new(0x59, OpcodeName::Eor, 3, 4, AddressingMode::AbsoluteY)),
            0x41 => Some(Opcode::new(0x41, OpcodeName::Eor, 2, 6, AddressingMode::IndirectX)),
            0x51 => Some(Opcode::new(0x51, OpcodeName::Eor, 2, 5, AddressingMode::IndirectY)),
            0x24 => Some(Opcode::new(0x24, OpcodeName::Bit, 2, 3, AddressingMode::ZeroPage)),
            0x2C => Some(Opcode::new(0x2C, OpcodeName::Bit, 3, 4, AddressingMode::Absolute)),
            0xC9 => Some(Opcode::new(0xC9, OpcodeName::Cmp, 2, 2, AddressingMode::Immediate)),
            0xC5 => Some(Opcode::new(0xC5, OpcodeName::Cmp, 2, 3, AddressingMode::ZeroPage)),
            0xD5 => Some(Opcode::new(0xD5, OpcodeName::Cmp, 2, 4, AddressingMode::ZeroPageX)),
            0xCD => Some(Opcode::new(0xCD, OpcodeName::Cmp, 3, 4, AddressingMode::Absolute)),
            0xDD => Some(Opcode::new(0xDD, OpcodeName::Cmp, 3, 4, AddressingMode::AbsoluteX)),
            0xD9 => Some(Opcode::new(0xD9, OpcodeName::Cmp, 3, 4, AddressingMode::AbsoluteY)),
            0xC1 => Some(Opcode::new(0xC1, OpcodeName::Cmp, 2, 6, AddressingMode::IndirectX)),
            0xD1 => Some(Opcode::new(0xD1, OpcodeName::Cmp, 2, 5, AddressingMode::IndirectY)),
            0xE0 => Some(Opcode::new(0xE0, OpcodeName::Cpx, 2, 2, AddressingMode::Immediate)),
            0xE4 => Some(Opcode::new(0xE4, OpcodeName::Cpx, 2, 3, AddressingMode::ZeroPage)),
            0xEC => Some(Opcode::new(0xEC, OpcodeName::Cpx, 3, 4, AddressingMode::Absolute)),
            0xC0 => Some(Opcode::new(0xC0, OpcodeName::Cpy, 2, 2, AddressingMode::Immediate)),
            0xC4 => Some(Opcode::new(0xC4, OpcodeName::Cpy, 2, 3, AddressingMode::ZeroPage)),
            0xCC => Some(Opcode::new(0xCC, OpcodeName::Cpy, 3, 4, AddressingMode::Absolute)),
            0x90 => Some(Opcode::new(0x90, OpcodeName::Bcc, 2, 2, AddressingMode::Relative)),
            0xB0 => Some(Opcode::new(0xB0, OpcodeName::Bcs, 2, 2, AddressingMode::Relative)),
            0xF0 => Some(Opcode::new(0xF0, OpcodeName::Beq, 2, 2, AddressingMode::Relative)),
            0xD0 => Some(Opcode::new(0xD0, OpcodeName::Bne, 2, 2, AddressingMode::Relative)),
            0x10 => Some(Opcode::new(0x10, OpcodeName::Bpl, 2, 2, AddressingMode::Relative)),
            0x30 => Some(Opcode::new(0x30, OpcodeName::Bmi, 2, 2, AddressingMode::Relative)),
            0x50 => Some(Opcode::new(0x50, OpcodeName::Bvc, 2, 2, AddressingMode::Relative)),
            0x70 => Some(Opcode::new(0x70, OpcodeName::Bvs, 2, 2, AddressingMode::Relative)),
            0x4C => Some(Opcode::new(0x4C, OpcodeName::Jmp, 3, 3, AddressingMode::Absolute)),
            0x6C => Some(Opcode::new(0x6C, OpcodeName::Jmp, 3, 5, AddressingMode::Indirect)),
            0x20 => Some(Opcode::new(0x20, OpcodeName::Jsr, 3, 6, AddressingMode::Absolute)),
            0x60 => Some(Opcode::new(0x60, OpcodeName::Rts, 1, 6, AddressingMode::Implicit)),
            0x00 => Some(Opcode::new(0x00, OpcodeName::Brk, 1, 7, AddressingMode::Implicit)),
            0x40 => Some(Opcode::new(0x40, OpcodeName::Rti, 1, 6, AddressingMode::Implicit)),
            0x48 => Some(Opcode::new(0x48, OpcodeName::Pha, 1, 3, AddressingMode::Implicit)),
            0x68 => Some(Opcode::new(0x68, OpcodeName::Pla, 1, 4, AddressingMode::Implicit)),
            0x08 => Some(Opcode::new(0x08, OpcodeName::Php, 1, 3, AddressingMode::Implicit)),
            0x28 => Some(Opcode::new(0x28, OpcodeName::Plp, 1, 4, AddressingMode::Implicit)),
            0x9A => Some(Opcode::new(0x9A, OpcodeName::Txs, 1, 2, AddressingMode::Implicit)),
            0xBA => Some(Opcode::new(0xBA, OpcodeName::Tsx, 1, 2, AddressingMode::Implicit)),
            0x18 => Some(Opcode::new(0x18, OpcodeName::Clc, 1, 2, AddressingMode::Implicit)),
            0x38 => Some(Opcode::new(0x38, OpcodeName::Sec, 1, 2, AddressingMode::Implicit)),
            0x58 => Some(Opcode::new(0x58, OpcodeName::Cli, 1, 2, AddressingMode::Implicit)),
            0x78 => Some(Opcode::new(0x78, OpcodeName::Sei, 1, 2, AddressingMode::Implicit)),
            0xD8 => Some(Opcode::new(0xD8, OpcodeName::Cld, 1, 2, AddressingMode::Implicit)),
            0xF8 => Some(Opcode::new(0xF8, OpcodeName::Sed, 1, 2, AddressingMode::Implicit)),
            0xB8 => Some(Opcode::new(0xB8, OpcodeName::Clv, 1, 2, AddressingMode::Implicit)),
            0xEA => Some(Opcode::new(0xEA, OpcodeName::Nop, 1, 2, AddressingMode::Implicit)),
            _ => None,
        }
    }

    /// The full decode table as a map keyed by opcode byte, holding exactly
    /// the official opcodes.
    pub fn get_opcode_map() -> (r: HashMap<u8, Opcode>)
        ensures
            forall|code: u8| #[trigger] r@.contains_key(code) == (spec_decode(code) is Some),
            forall|code: u8| #[trigger]
                spec_decode(code) is Some ==> r@.contains_key(code) && r@[code] == spec_decode(
                    code,
                )->Some_0,
    {
        let mut map: HashMap<u8, Opcode> = HashMap::new();
        let mut i: usize = 0;
        while i < 256
            invariant
                i <= 256,
                forall|code: u8|
                    code < i ==> #[trigger] map@.contains_key(code) == (spec_decode(code) is Some),
                forall|code: u8|
                    code < i && spec_decode(code) is Some ==> map@.contains_key(code)
                        && #[trigger] map@[code] == spec_decode(code)->Some_0,
                forall|code: u8| code >= i ==> !(#[trigger] map@.contains_key(code)),
            decreases 256 - i,
        {
            let code = i as u8;
            match Opcode::decode(code) {
                Some(op) => {
                    map.insert(code, op);
                },
                None => {},
            }
            i = i + 1;
        }
        map
    }

    /// The mnemonic.
    pub fn name(&self) -> (r: OpcodeName)
        ensures
            r == self.name,
    {
        self.name
    }

    /// The addressing mode.
    pub fn mode(&self) -> (r: AddressingMode)
        ensures
            r == self.mode,
    {
        self.mode
    }

    /// Base cycle cost.
    pub fn cycles(&self) -> (r: usize)
        ensures
            r == self.cycles,
    {
        self.cycles
    }

    /// Instruction width in bytes.
    pub fn bytes(&self) -> (r: u16)
        ensures
            r == self.bytes,
    {
        self.bytes
    }
}

} // verus!
