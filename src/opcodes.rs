use vstd::prelude::*;

verus! {

/// How an instruction finds its operand.
#[allow(non_camel_case_types)]
#[derive(Clone, Copy, Debug, PartialEq, Eq, Structural)]
pub enum AddressingMode {
    Immediate,
    ZeroPage,
    ZeroPage_X,
    ZeroPage_Y,
    Absolute,
    Absolute_X,
    Absolute_Y,
    Indirect_X,
    Indirect_Y,
    NoneAddressing,
}

/// The operation an opcode performs, documented and undocumented ones alike.
#[derive(Clone, Copy, Debug, PartialEq, Eq, Structural)]
pub enum Mnemonic {
    Aax,
    Adc,
    And,
    Asl,
    Bcc,
    Bcs,
    Beq,
    Bit,
    Bmi,
    Bne,
    Bpl,
    Brk,
    Bvc,
    Bvs,
    Clc,
    Cld,
    Cli,
    Clv,
    Cmp,
    Cpx,
    Cpy,
    Dcp,
    Dec,
    Dex,
    Dey,
    Dop,
    Eor,
    Inc,
    Inx,
    Iny,
    Isb,
    Jmp,
    Jsr,
    Lax,
    Lda,
    Ldx,
    Ldy,
    Lsr,
    Nop,
    Ora,
    Pha,
    Php,
    Pla,
    Plp,
    Rla,
    Rol,
    Ror,
    Rra,
    Rti,
    Rts,
    Sbc,
    Sec,
    Sed,
    Sei,
    Slo,
    Sre,
    Sta,
    Stx,
    Sty,
    Tax,
    Tay,
    Top,
    Tsx,
    Txa,
    Txs,
    Tya,
}

/// One row of the instruction table.
#[derive(Clone, Copy, Debug, PartialEq, Eq, Structural)]
pub struct Opcode {
    pub code: u8,
    pub mnemonic: Mnemonic,
    pub len: u8,
    pub cycles: u8,
    pub mode: AddressingMode,
}

impl Opcode {
    pub fn new(code: u8, mnemonic: Mnemonic, len: u8, cycles: u8, mode: AddressingMode) -> (r: Opcode)
        ensures
            r == (Opcode { code, mnemonic, len, cycles, mode }),
    {
        Opcode { code, mnemonic, len, cycles, mode }
    }
}

/// The instruction table: opcode byte to mnemonic, length in bytes, base cycles and mode.
pub open spec fn opcode_table(code: u8) -> Option<Opcode> {
    let row = |m: Mnemonic, len: u8, cycles: u8, mode: AddressingMode|
        Some(Opcode { code, mnemonic: m, len, cycles, mode });
    match code {
        0x00 => row(Mnemonic::Brk, 1, 7, AddressingMode::NoneAddressing),
        0x01 => row(Mnemonic::Ora, 2, 6, AddressingMode::Indirect_X),
        0x03 => row(Mnemonic::Slo, 2, 8, AddressingMode::Indirect_X),
        0x04 => row(Mnemonic::Dop, 2, 3, AddressingMode::ZeroPage),
        0x05 => row(Mnemonic::Ora, 2, 3, AddressingMode::ZeroPage),
        0x06 => row(Mnemonic::Asl, 2, 5, AddressingMode::ZeroPage),
        0x07 => row(Mnemonic::Slo, 2, 5, AddressingMode::ZeroPage),
        0x08 => row(Mnemonic::Php, 1, 3, AddressingMode::NoneAddressing),
        0x09 => row(Mnemonic::Ora, 2, 2, AddressingMode::Immediate),
        0x0A => row(Mnemonic::Asl, 1, 2, AddressingMode::NoneAddressing),
        0x0C => row(Mnemonic::Top, 3, 4, AddressingMode::Absolute),
        0x0D => row(Mnemonic::Ora, 3, 4, AddressingMode::Absolute),
        0x0E => row(Mnemonic::Asl, 3, 6, AddressingMode::Absolute),
        0x0F => row(Mnemonic::Slo, 3, 6, AddressingMode::Absolute),
        0x10 => row(Mnemonic::Bpl, 2, 2, AddressingMode::NoneAddressing),
        0x11 => row(Mnemonic::Ora, 2, 5, AddressingMode::Indirect_Y),
        0x13 => row(Mnemonic::Slo, 2, 8, AddressingMode::Indirect_Y),
        0x14 => row(Mnemonic::Dop, 2, 4, AddressingMode::ZeroPage_X),
        0x15 => row(Mnemonic::Ora, 2, 4, AddressingMode::ZeroPage_X),
        0x16 => row(Mnemonic::Asl, 2, 6, AddressingMode::ZeroPage_X),
        0x17 => row(Mnemonic::Slo, 2, 6, AddressingMode::ZeroPage_X),
        0x18 => row(Mnemonic::Clc, 1, 0, AddressingMode::NoneAddressing),
        0x19 => row(Mnemonic::Ora, 3, 4, AddressingMode::Absolute_Y),
        0x1A => row(Mnemonic::Nop, 1, 2, AddressingMode::NoneAddressing),
        0x1B => row(Mnemonic::Slo, 3, 7, AddressingMode::Absolute_Y),
        0x1C => row(Mnemonic::Top, 3, 4, AddressingMode::Absolute_X),
        0x1D => row(Mnemonic::Ora, 3, 4, AddressingMode::Absolute_X),
        0x1E => row(Mnemonic::Asl, 3, 7, AddressingMode::Absolute_X),
        0x1F => row(Mnemonic::Slo, 3, 7, AddressingMode::Absolute_X),
        0x20 => row(Mnemonic::Jsr, 3, 6, AddressingMode::Absolute),
        0x21 => row(Mnemonic::And, 2, 6, AddressingMode::Indirect_X),
        0x23 => row(Mnemonic::Rla, 2, 8, AddressingMode::Indirect_X),
        0x24 => row(Mnemonic::Bit, 2, 3, AddressingMode::ZeroPage),
        0x25 => row(Mnemonic::And, 2, 3, AddressingMode::ZeroPage),
        0x26 => row(Mnemonic::Rol, 2, 5, AddressingMode::ZeroPage),
        0x27 => row(Mnemonic::Rla, 2, 5, AddressingMode::ZeroPage),
        0x28 => row(Mnemonic::Plp, 1, 4, AddressingMode::NoneAddressing),
        0x29 => row(Mnemonic::And, 2, 2, AddressingMode::Immediate),
        0x2A => row(Mnemonic::Rol, 1, 2, AddressingMode::NoneAddressing),
        0x2C => row(Mnemonic::Bit, 3, 4, AddressingMode::Absolute),
        0x2D => row(Mnemonic::And, 3, 4, AddressingMode::Absolute),
        0x2E => row(Mnemonic::Rol, 3, 6, AddressingMode::Absolute),
        0x2F => row(Mnemonic::Rla, 3, 6, AddressingMode::Absolute),
        0x30 => row(Mnemonic::Bmi, 2, 2, AddressingMode::NoneAddressing),
        0x31 => row(Mnemonic::And, 2, 5, AddressingMode::Indirect_Y),
        0x33 => row(Mnemonic::Rla, 2, 8, AddressingMode::Indirect_Y),
        0x34 => row(Mnemonic::Dop, 2, 4, AddressingMode::ZeroPage_X),
        0x35 => row(Mnemonic::And, 2, 4, AddressingMode::ZeroPage_X),
        0x36 => row(Mnemonic::Rol, 2, 6, AddressingMode::ZeroPage_X),
        0x37 => row(Mnemonic::Rla, 2, 6, AddressingMode::ZeroPage_X),
        0x38 => row(Mnemonic::Sec, 1, 0, AddressingMode::NoneAddressing),
        0x39 => row(Mnemonic::And, 3, 4, AddressingMode::Absolute_Y),
        0x3A => row(Mnemonic::Nop, 1, 2, AddressingMode::NoneAddressing),
        0x3B => row(Mnemonic::Rla, 3, 7, AddressingMode::Absolute_Y),
        0x3C => row(Mnemonic::Top, 3, 4, AddressingMode::Absolute_X),
        0x3D => row(Mnemonic::And, 3, 4, AddressingMode::Absolute_X),
        0x3E => row(Mnemonic::Rol, 3, 7, AddressingMode::Absolute_X),
        0x3F => row(Mnemonic::Rla, 3, 7, AddressingMode::Absolute_X),
        0x40 => row(Mnemonic::Rti, 1, 6, AddressingMode::NoneAddressing),
        0x41 => row(Mnemonic::Eor, 2, 6, AddressingMode::Indirect_X),
        0x43 => row(Mnemonic::Sre, 2, 8, AddressingMode::Indirect_X),
        0x44 => row(Mnemonic::Dop, 2, 3, AddressingMode::ZeroPage),
        0x45 => row(Mnemonic::Eor, 2, 3, AddressingMode::ZeroPage),
        0x46 => row(Mnemonic::Lsr, 2, 5, AddressingMode::ZeroPage),
        0x47 => row(Mnemonic::Sre, 2, 5, AddressingMode::ZeroPage),
        0x48 => row(Mnemonic::Pha, 1, 0, AddressingMode::NoneAddressing),
        0x49 => row(Mnemonic::Eor, 2, 2, AddressingMode::Immediate),
        0x4A => row(Mnemonic::Lsr, 1, 2, AddressingMode::NoneAddressing),
        0x4C => row(Mnemonic::Jmp, 3, 3, AddressingMode::Absolute),
        0x4D => row(Mnemonic::Eor, 3, 4, AddressingMode::Absolute),
        0x4E => row(Mnemonic::Lsr, 3, 6, AddressingMode::Absolute),
        0x4F => row(Mnemonic::Sre, 3, 6, AddressingMode::Absolute),
        0x50 => row(Mnemonic::Bvc, 2, 2, AddressingMode::NoneAddressing),
        0x51 => row(Mnemonic::Eor, 2, 5, AddressingMode::Indirect_Y),
        0x53 => row(Mnemonic::Sre, 2, 8, AddressingMode::Indirect_Y),
        0x54 => row(Mnemonic::Dop, 2, 4, AddressingMode::ZeroPage_X),
        0x55 => row(Mnemonic::Eor, 2, 4, AddressingMode::ZeroPage_X),
        0x56 => row(Mnemonic::Lsr, 2, 6, AddressingMode::ZeroPage_X),
        0x57 => row(Mnemonic::Sre, 2, 6, AddressingMode::ZeroPage_X),
        0x58 => row(Mnemonic::Cli, 1, 0, AddressingMode::NoneAddressing),
        0x59 => row(Mnemonic::Eor, 3, 4, AddressingMode::Absolute_Y),
        0x5A => row(Mnemonic::Nop, 1, 2, AddressingMode::NoneAddressing),
        0x5B => row(Mnemonic::Sre, 3, 7, AddressingMode::Absolute_Y),
        0x5C => row(Mnemonic::Top, 3, 4, AddressingMode::Absolute_X),
        0x5D => row(Mnemonic::Eor, 3, 4, AddressingMode::Absolute_X),
        0x5E => row(Mnemonic::Lsr, 3, 7, AddressingMode::Absolute_X),
        0x5F => row(Mnemonic::Sre, 3, 7, AddressingMode::Absolute_X),
        0x60 => row(Mnemonic::Rts, 1, 6, AddressingMode::NoneAddressing),
        0x61 => row(Mnemonic::Adc, 2, 6, AddressingMode::Indirect_X),
        0x63 => row(Mnemonic::Rra, 2, 8, AddressingMode::Indirect_X),
        0x64 => row(Mnemonic::Dop, 2, 3, AddressingMode::ZeroPage),
        0x65 => row(Mnemonic::Adc, 2, 3, AddressingMode::ZeroPage),
        0x66 => row(Mnemonic::Ror, 2, 5, AddressingMode::ZeroPage),
        0x67 => row(Mnemonic::Rra, 2, 5, AddressingMode::ZeroPage),
        0x68 => row(Mnemonic::Pla, 1, 0, AddressingMode::NoneAddressing),
        0x69 => row(Mnemonic::Adc, 2, 2, AddressingMode::Immediate),
        0x6A => row(Mnemonic::Ror, 1, 2, AddressingMode::NoneAddressing),
        0x6C => row(Mnemonic::Jmp, 3, 5, AddressingMode::NoneAddressing),
        0x6D => row(Mnemonic::Adc, 3, 4, AddressingMode::Absolute),
        0x6E => row(Mnemonic::Ror, 3, 6, AddressingMode::Absolute),
        0x6F => row(Mnemonic::Rra, 3, 6, AddressingMode::Absolute),
        0x70 => row(Mnemonic::Bvs, 2, 2, AddressingMode::NoneAddressing),
        0x71 => row(Mnemonic::Adc, 2, 5, AddressingMode::Indirect_Y),
        0x73 => row(Mnemonic::Rra, 2, 8, AddressingMode::Indirect_Y),
        0x74 => row(Mnemonic::Dop, 2, 4, AddressingMode::ZeroPage_X),
        0x75 => row(Mnemonic::Adc, 2, 4, AddressingMode::ZeroPage_X),
        0x76 => row(Mnemonic::Ror, 2, 6, AddressingMode::ZeroPage_X),
        0x77 => row(Mnemonic::Rra, 2, 6, AddressingMode::ZeroPage_X),
        0x78 => row(Mnemonic::Sei, 1, 0, AddressingMode::NoneAddressing),
        0x79 => row(Mnemonic::Adc, 3, 4, AddressingMode::Absolute_Y),
        0x7A => row(Mnemonic::Nop, 1, 2, AddressingMode::NoneAddressing),
        0x7B => row(Mnemonic::Rra, 3, 7, AddressingMode::Absolute_Y),
        0x7C => row(Mnemonic::Top, 3, 4, AddressingMode::Absolute_X),
        0x7D => row(Mnemonic::Adc, 3, 4, AddressingMode::Absolute_X),
        0x7E => row(Mnemonic::Ror, 3, 7, AddressingMode::Absolute_X),
        0x7F => row(Mnemonic::Rra, 3, 7, AddressingMode::Absolute_X),
        0x80 => row(Mnemonic::Dop, 2, 2, AddressingMode::Immediate),
        0x81 => row(Mnemonic::Sta, 2, 6, AddressingMode::Indirect_X),
        0x82 => row(Mnemonic::Dop, 2, 2, AddressingMode::Immediate),
        0x83 => row(Mnemonic::Aax, 2, 6, AddressingMode::Indirect_X),
        0x84 => row(Mnemonic::Sty, 2, 3, AddressingMode::ZeroPage),
        0x85 => row(Mnemonic::Sta, 2, 3, AddressingMode::ZeroPage),
        0x86 => row(Mnemonic::Stx, 2, 3, AddressingMode::ZeroPage),
        0x87 => row(Mnemonic::Aax, 2, 3, AddressingMode::ZeroPage),
        0x88 => row(Mnemonic::Dey, 1, 2, AddressingMode::NoneAddressing),
        0x89 => row(Mnemonic::Dop, 2, 2, AddressingMode::Immediate),
        0x8A => row(Mnemonic::Txa, 1, 2, AddressingMode::NoneAddressing),
        0x8C => row(Mnemonic::Sty, 3, 4, AddressingMode::Absolute),
        0x8D => row(Mnemonic::Sta, 3, 4, AddressingMode::Absolute),
        0x8E => row(Mnemonic::Stx, 3, 4, AddressingMode::Absolute),
        0x8F => row(Mnemonic::Aax, 3, 4, AddressingMode::Absolute),
        0x90 => row(Mnemonic::Bcc, 2, 2, AddressingMode::NoneAddressing),
        0x91 => row(Mnemonic::Sta, 2, 6, AddressingMode::Indirect_Y),
        0x94 => row(Mnemonic::Sty, 2, 4, AddressingMode::ZeroPage_X),
        0x95 => row(Mnemonic::Sta, 2, 4, AddressingMode::ZeroPage_X),
        0x96 => row(Mnemonic::Stx, 2, 4, AddressingMode::ZeroPage_Y),
        0x97 => row(Mnemonic::Aax, 2, 4, AddressingMode::ZeroPage_Y),
        0x98 => row(Mnemonic::Tya, 1, 2, AddressingMode::NoneAddressing),
        0x99 => row(Mnemonic::Sta, 3, 5, AddressingMode::Absolute_Y),
        0x9A => row(Mnemonic::Txs, 1, 2, AddressingMode::NoneAddressing),
        0x9D => row(Mnemonic::Sta, 3, 5, AddressingMode::Absolute_X),
        0xA0 => row(Mnemonic::Ldy, 2, 2, AddressingMode::Immediate),
        0xA1 => row(Mnemonic::Lda, 2, 6, AddressingMode::Indirect_X),
        0xA2 => row(Mnemonic::Ldx, 2, 2, AddressingMode::Immediate),
        0xA3 => row(Mnemonic::Lax, 2, 6, AddressingMode::Indirect_X),
        0xA4 => row(Mnemonic::Ldy, 2, 3, AddressingMode::ZeroPage),
        0xA5 => row(Mnemonic::Lda, 2, 3, AddressingMode::ZeroPage),
        0xA6 => row(Mnemonic::Ldx, 2, 3, AddressingMode::ZeroPage),
        0xA7 => row(Mnemonic::Lax, 2, 3, AddressingMode::ZeroPage),
        0xA8 => row(Mnemonic::Tay, 1, 2, AddressingMode::NoneAddressing),
        0xA9 => row(Mnemonic::Lda, 2, 2, AddressingMode::Immediate),
        0xAA => row(Mnemonic::Tax, 1, 2, AddressingMode::NoneAddressing),
        0xAC => row(Mnemonic::Ldy, 3, 4, AddressingMode::Absolute),
        0xAD => row(Mnemonic::Lda, 3, 4, AddressingMode::Absolute),
        0xAE => row(Mnemonic::Ldx, 3, 4, AddressingMode::Absolute),
        0xAF => row(Mnemonic::Lax, 3, 4, AddressingMode::Absolute),
        0xB0 => row(Mnemonic::Bcs, 2, 2, AddressingMode::NoneAddressing),
        0xB1 => row(Mnemonic::Lda, 2, 5, AddressingMode::Indirect_Y),
        0xB3 => row(Mnemonic::Lax, 2, 5, AddressingMode::Indirect_Y),
        0xB4 => row(Mnemonic::Ldy, 2, 4, AddressingMode::ZeroPage_X),
        0xB5 => row(Mnemonic::Lda, 2, 4, AddressingMode::ZeroPage_X),
        0xB6 => row(Mnemonic::Ldx, 2, 4, AddressingMode::ZeroPage_Y),
        0xB7 => row(Mnemonic::Lax, 2, 4, AddressingMode::ZeroPage_Y),
        0xB8 => row(Mnemonic::Clv, 1, 0, AddressingMode::NoneAddressing),
        0xB9 => row(Mnemonic::Lda, 3, 4, AddressingMode::Absolute_Y),
        0xBA => row(Mnemonic::Tsx, 1, 2, AddressingMode::NoneAddressing),
        0xBC => row(Mnemonic::Ldy, 3, 4, AddressingMode::Absolute_X),
        0xBD => row(Mnemonic::Lda, 3, 4, AddressingMode::Absolute_X),
        0xBE => row(Mnemonic::Ldx, 3, 4, AddressingMode::Absolute_Y),
        0xBF => row(Mnemonic::Lax, 3, 4, AddressingMode::Absolute_Y),
        0xC0 => row(Mnemonic::Cpy, 2, 2, AddressingMode::Immediate),
        0xC1 => row(Mnemonic::Cmp, 2, 6, AddressingMode::Indirect_X),
        0xC2 => row(Mnemonic::Dop, 2, 2, AddressingMode::Immediate),
        0xC3 => row(Mnemonic::Dcp, 2, 8, AddressingMode::Indirect_X),
        0xC4 => row(Mnemonic::Cpy, 2, 3, AddressingMode::ZeroPage),
        0xC5 => row(Mnemonic::Cmp, 2, 3, AddressingMode::ZeroPage),
        0xC6 => row(Mnemonic::Dec, 2, 5, AddressingMode::ZeroPage),
        0xC7 => row(Mnemonic::Dcp, 2, 5, AddressingMode::ZeroPage),
        0xC8 => row(Mnemonic::Iny, 1, 2, AddressingMode::NoneAddressing),
        0xC9 => row(Mnemonic::Cmp, 2, 2, AddressingMode::Immediate),
        0xCA => row(Mnemonic::Dex, 1, 2, AddressingMode::NoneAddressing),
        0xCC => row(Mnemonic::Cpy, 3, 4, AddressingMode::Absolute),
        0xCD => row(Mnemonic::Cmp, 3, 4, AddressingMode::Absolute),
        0xCE => row(Mnemonic::Dec, 3, 6, AddressingMode::Absolute),
        0xCF => row(Mnemonic::Dcp, 3, 6, AddressingMode::Absolute),
        0xD0 => row(Mnemonic::Bne, 2, 2, AddressingMode::NoneAddressing),
        0xD1 => row(Mnemonic::Cmp, 2, 5, AddressingMode::Indirect_Y),
        0xD3 => row(Mnemonic::Dcp, 2, 8, AddressingMode::Indirect_Y),
        0xD4 => row(Mnemonic::Dop, 2, 4, AddressingMode::ZeroPage_X),
        0xD5 => row(Mnemonic::Cmp, 2, 4, AddressingMode::ZeroPage_X),
        0xD6 => row(Mnemonic::Dec, 2, 6, AddressingMode::ZeroPage_X),
        0xD7 => row(Mnemonic::Dcp, 2, 6, AddressingMode::ZeroPage_X),
        0xD8 => row(Mnemonic::Cld, 1, 0, AddressingMode::NoneAddressing),
        0xD9 => row(Mnemonic::Cmp, 3, 4, AddressingMode::Absolute_Y),
        0xDA => row(Mnemonic::Nop, 1, 2, AddressingMode::NoneAddressing),
        0xDB => row(Mnemonic::Dcp, 3, 7, AddressingMode::Absolute_Y),
        0xDC => row(Mnemonic::Top, 3, 4, AddressingMode::Absolute_X),
        0xDD => row(Mnemonic::Cmp, 3, 4, AddressingMode::Absolute_X),
        0xDE => row(Mnemonic::Dec, 3, 7, AddressingMode::Absolute_X),
        0xDF => row(Mnemonic::Dcp, 3, 7, AddressingMode::Absolute_X),
        0xE0 => row(Mnemonic::Cpx, 2, 2, AddressingMode::Immediate),
        0xE1 => row(Mnemonic::Sbc, 2, 6, AddressingMode::Indirect_X),
        0xE2 => row(Mnemonic::Dop, 2, 2, AddressingMode::Immediate),
        0xE3 => row(Mnemonic::Isb, 2, 8, AddressingMode::Indirect_X),
        0xE4 => row(Mnemonic::Cpx, 2, 3, AddressingMode::ZeroPage),
        0xE5 => row(Mnemonic::Sbc, 2, 3, AddressingMode::ZeroPage),
        0xE6 => row(Mnemonic::Inc, 2, 5, AddressingMode::ZeroPage),
        0xE7 => row(Mnemonic::Isb, 2, 5, AddressingMode::ZeroPage),
        0xE8 => row(Mnemonic::Inx, 1, 2, AddressingMode::NoneAddressing),
        0xE9 => row(Mnemonic::Sbc, 2, 2, AddressingMode::Immediate),
        0xEA => row(Mnemonic::Nop, 1, 2, AddressingMode::NoneAddressing),
        0xEB => row(Mnemonic::Sbc, 2, 2, AddressingMode::Immediate),
        0xEC => row(Mnemonic::Cpx, 3, 4, AddressingMode::Absolute),
        0xED => row(Mnemonic::Sbc, 3, 4, AddressingMode::Absolute),
        0xEE => row(Mnemonic::Inc, 3, 6, AddressingMode::Absolute),
        0xEF => row(Mnemonic::Isb, 3, 6, AddressingMode::Absolute),
        0xF0 => row(Mnemonic::Beq, 2, 2, AddressingMode::NoneAddressing),
        0xF1 => row(Mnemonic::Sbc, 2, 5, AddressingMode::Indirect_Y),
        0xF3 => row(Mnemonic::Isb, 2, 8, AddressingMode::Indirect_Y),
        0xF4 => row(Mnemonic::Dop, 2, 4, AddressingMode::ZeroPage_X),
        0xF5 => row(Mnemonic::Sbc, 2, 4, AddressingMode::ZeroPage_X),
        0xF6 => row(Mnemonic::Inc, 2, 6, AddressingMode::ZeroPage_X),
        0xF7 => row(Mnemonic::Isb, 2, 6, AddressingMode::ZeroPage_X),
        0xF8 => row(Mnemonic::Sed, 1, 0, AddressingMode::NoneAddressing),
        0xF9 => row(Mnemonic::Sbc, 3, 4, AddressingMode::Absolute_Y),
        0xFA => row(Mnemonic::Nop, 1, 2, AddressingMode::NoneAddressing),
        0xFB => row(Mnemonic::Isb, 3, 7, AddressingMode::Absolute_Y),
        0xFC => row(Mnemonic::Top, 3, 4, AddressingMode::Absolute_X),
        0xFD => row(Mnemonic::Sbc, 3, 4, AddressingMode::Absolute_X),
        0xFE => row(Mnemonic::Inc, 3, 7, AddressingMode::Absolute_X),
        0xFF => row(Mnemonic::Isb, 3, 7, AddressingMode::Absolute_X),
        _ => None,
    }
}

/// Looks an opcode byte up in the instruction table.
pub fn lookup(code: u8) -> (r: Option<Opcode>)
    ensures
        r == opcode_table(code),
{
    let row = |m: Mnemonic, len: u8, cycles: u8, mode: AddressingMode| -> (o: Option<Opcode>)
        ensures
            o == Some(Opcode { code, mnemonic: m, len, cycles, mode }),
        { Some(Opcode::new(code, m, len, cycles, mode)) };
    match code {
        0x00 => row(Mnemonic::Brk, 1, 7, AddressingMode::NoneAddressing),
        0x01 => row(Mnemonic::Ora, 2, 6, AddressingMode::Indirect_X),
        0x03 => row(Mnemonic::Slo, 2, 8, AddressingMode::Indirect_X),
        0x04 => row(Mnemonic::Dop, 2, 3, AddressingMode::ZeroPage),
        0x05 => row(Mnemonic::Ora, 2, 3, AddressingMode::ZeroPage),
        0x06 => row(Mnemonic::Asl, 2, 5, AddressingMode::ZeroPage),
        0x07 => row(Mnemonic::Slo, 2, 5, AddressingMode::ZeroPage),
        0x08 => row(Mnemonic::Php, 1, 3, AddressingMode::NoneAddressing),
        0x09 => row(Mnemonic::Ora, 2, 2, AddressingMode::Immediate),
        0x0A => row(Mnemonic::Asl, 1, 2, AddressingMode::NoneAddressing),
        0x0C => row(Mnemonic::Top, 3, 4, AddressingMode::Absolute),
        0x0D => row(Mnemonic::Ora, 3, 4, AddressingMode::Absolute),
        0x0E => row(Mnemonic::Asl, 3, 6, AddressingMode::Absolute),
        0x0F => row(Mnemonic::Slo, 3, 6, AddressingMode::Absolute),
        0x10 => row(Mnemonic::Bpl, 2, 2, AddressingMode::NoneAddressing),
        0x11 => row(Mnemonic::Ora, 2, 5, AddressingMode::Indirect_Y),
        0x13 => row(Mnemonic::Slo, 2, 8, AddressingMode::Indirect_Y),
        0x14 => row(Mnemonic::Dop, 2, 4, AddressingMode::ZeroPage_X),
        0x15 => row(Mnemonic::Ora, 2, 4, AddressingMode::ZeroPage_X),
        0x16 => row(Mnemonic::Asl, 2, 6, AddressingMode::ZeroPage_X),
        0x17 => row(Mnemonic::Slo, 2, 6, AddressingMode::ZeroPage_X),
        0x18 => row(Mnemonic::Clc, 1, 0, AddressingMode::NoneAddressing),
        0x19 => row(Mnemonic::Ora, 3, 4, AddressingMode::Absolute_Y),
        0x1A => row(Mnemonic::Nop, 1, 2, AddressingMode::NoneAddressing),
        0x1B => row(Mnemonic::Slo, 3, 7, AddressingMode::Absolute_Y),
        0x1C => row(Mnemonic::Top, 3, 4, AddressingMode::Absolute_X),
        0x1D => row(Mnemonic::Ora, 3, 4, AddressingMode::Absolute_X),
        0x1E => row(Mnemonic::Asl, 3, 7, AddressingMode::Absolute_X),
        0x1F => row(Mnemonic::Slo, 3, 7, AddressingMode::Absolute_X),
        0x20 => row(Mnemonic::Jsr, 3, 6, AddressingMode::Absolute),
        0x21 => row(Mnemonic::And, 2, 6, AddressingMode::Indirect_X),
        0x23 => row(Mnemonic::Rla, 2, 8, AddressingMode::Indirect_X),
        0x24 => row(Mnemonic::Bit, 2, 3, AddressingMode::ZeroPage),
        0x25 => row(Mnemonic::And, 2, 3, AddressingMode::ZeroPage),
        0x26 => row(Mnemonic::Rol, 2, 5, AddressingMode::ZeroPage),
        0x27 => row(Mnemonic::Rla, 2, 5, AddressingMode::ZeroPage),
        0x28 => row(Mnemonic::Plp, 1, 4, AddressingMode::NoneAddressing),
        0x29 => row(Mnemonic::And, 2, 2, AddressingMode::Immediate),
        0x2A => row(Mnemonic::Rol, 1, 2, AddressingMode::NoneAddressing),
        0x2C => row(Mnemonic::Bit, 3, 4, AddressingMode::Absolute),
        0x2D => row(Mnemonic::And, 3, 4, AddressingMode::Absolute),
        0x2E => row(Mnemonic::Rol, 3, 6, AddressingMode::Absolute),
        0x2F => row(Mnemonic::Rla, 3, 6, AddressingMode::Absolute),
        0x30 => row(Mnemonic::Bmi, 2, 2, AddressingMode::NoneAddressing),
        0x31 => row(Mnemonic::And, 2, 5, AddressingMode::Indirect_Y),
        0x33 => row(Mnemonic::Rla, 2, 8, AddressingMode::Indirect_Y),
        0x34 => row(Mnemonic::Dop, 2, 4, AddressingMode::ZeroPage_X),
        0x35 => row(Mnemonic::And, 2, 4, AddressingMode::ZeroPage_X),
        0x36 => row(Mnemonic::Rol, 2, 6, AddressingMode::ZeroPage_X),
        0x37 => row(Mnemonic::Rla, 2, 6, AddressingMode::ZeroPage_X),
        0x38 => row(Mnemonic::Sec, 1, 0, AddressingMode::NoneAddressing),
        0x39 => row(Mnemonic::And, 3, 4, AddressingMode::Absolute_Y),
        0x3A => row(Mnemonic::Nop, 1, 2, AddressingMode::NoneAddressing),
        0x3B => row(Mnemonic::Rla, 3, 7, AddressingMode::Absolute_Y),
        0x3C => row(Mnemonic::Top, 3, 4, AddressingMode::Absolute_X),
        0x3D => row(Mnemonic::And, 3, 4, AddressingMode::Absolute_X),
        0x3E => row(Mnemonic::Rol, 3, 7, AddressingMode::Absolute_X),
        0x3F => row(Mnemonic::Rla, 3, 7, AddressingMode::Absolute_X),
        0x40 => row(Mnemonic::Rti, 1, 6, AddressingMode::NoneAddressing),
        0x41 => row(Mnemonic::Eor, 2, 6, AddressingMode::Indirect_X),
        0x43 => row(Mnemonic::Sre, 2, 8, AddressingMode::Indirect_X),
        0x44 => row(Mnemonic::Dop, 2, 3, AddressingMode::ZeroPage),
        0x45 => row(Mnemonic::Eor, 2, 3, AddressingMode::ZeroPage),
        0x46 => row(Mnemonic::Lsr, 2, 5, AddressingMode::ZeroPage),
        0x47 => row(Mnemonic::Sre, 2, 5, AddressingMode::ZeroPage),
        0x48 => row(Mnemonic::Pha, 1, 0, AddressingMode::NoneAddressing),
        0x49 => row(Mnemonic::Eor, 2, 2, AddressingMode::Immediate),
        0x4A => row(Mnemonic::Lsr, 1, 2, AddressingMode::NoneAddressing),
        0x4C => row(Mnemonic::Jmp, 3, 3, AddressingMode::Absolute),
        0x4D => row(Mnemonic::Eor, 3, 4, AddressingMode::Absolute),
        0x4E => row(Mnemonic::Lsr, 3, 6, AddressingMode::Absolute),
        0x4F => row(Mnemonic::Sre, 3, 6, AddressingMode::Absolute),
        0x50 => row(Mnemonic::Bvc, 2, 2, AddressingMode::NoneAddressing),
        0x51 => row(Mnemonic::Eor, 2, 5, AddressingMode::Indirect_Y),
        0x53 => row(Mnemonic::Sre, 2, 8, AddressingMode::Indirect_Y),
        0x54 => row(Mnemonic::Dop, 2, 4, AddressingMode::ZeroPage_X),
        0x55 => row(Mnemonic::Eor, 2, 4, AddressingMode::ZeroPage_X),
        0x56 => row(Mnemonic::Lsr, 2, 6, AddressingMode::ZeroPage_X),
        0x57 => row(Mnemonic::Sre, 2, 6, AddressingMode::ZeroPage_X),
        0x58 => row(Mnemonic::Cli, 1, 0, AddressingMode::NoneAddressing),
        0x59 => row(Mnemonic::Eor, 3, 4, AddressingMode::Absolute_Y),
        0x5A => row(Mnemonic::Nop, 1, 2, AddressingMode::NoneAddressing),
        0x5B => row(Mnemonic::Sre, 3, 7, AddressingMode::Absolute_Y),
        0x5C => row(Mnemonic::Top, 3, 4, AddressingMode::Absolute_X),
        0x5D => row(Mnemonic::Eor, 3, 4, AddressingMode::Absolute_X),
        0x5E => row(Mnemonic::Lsr, 3, 7, AddressingMode::Absolute_X),
        0x5F => row(Mnemonic::Sre, 3, 7, AddressingMode::Absolute_X),
        0x60 => row(Mnemonic::Rts, 1, 6, AddressingMode::NoneAddressing),
        0x61 => row(Mnemonic::Adc, 2, 6, AddressingMode::Indirect_X),
        0x63 => row(Mnemonic::Rra, 2, 8, AddressingMode::Indirect_X),
        0x64 => row(Mnemonic::Dop, 2, 3, AddressingMode::ZeroPage),
        0x65 => row(Mnemonic::Adc, 2, 3, AddressingMode::ZeroPage),
        0x66 => row(Mnemonic::Ror, 2, 5, AddressingMode::ZeroPage),
        0x67 => row(Mnemonic::Rra, 2, 5, AddressingMode::ZeroPage),
        0x68 => row(Mnemonic::Pla, 1, 0, AddressingMode::NoneAddressing),
        0x69 => row(Mnemonic::Adc, 2, 2, AddressingMode::Immediate),
        0x6A => row(Mnemonic::Ror, 1, 2, AddressingMode::NoneAddressing),
        0x6C => row(Mnemonic::Jmp, 3, 5, AddressingMode::NoneAddressing),
        0x6D => row(Mnemonic::Adc, 3, 4, AddressingMode::Absolute),
        0x6E => row(Mnemonic::Ror, 3, 6, AddressingMode::Absolute),
        0x6F => row(Mnemonic::Rra, 3, 6, AddressingMode::Absolute),
        0x70 => row(Mnemonic::Bvs, 2, 2, AddressingMode::NoneAddressing),
        0x71 => row(Mnemonic::Adc, 2, 5, AddressingMode::Indirect_Y),
        0x73 => row(Mnemonic::Rra, 2, 8, AddressingMode::Indirect_Y),
        0x74 => row(Mnemonic::Dop, 2, 4, AddressingMode::ZeroPage_X),
        0x75 => row(Mnemonic::Adc, 2, 4, AddressingMode::ZeroPage_X),
        0x76 => row(Mnemonic::Ror, 2, 6, AddressingMode::ZeroPage_X),
        0x77 => row(Mnemonic::Rra, 2, 6, AddressingMode::ZeroPage_X),
        0x78 => row(Mnemonic::Sei, 1, 0, AddressingMode::NoneAddressing),
        0x79 => row(Mnemonic::Adc, 3, 4, AddressingMode::Absolute_Y),
        0x7A => row(Mnemonic::Nop, 1, 2, AddressingMode::NoneAddressing),
        0x7B => row(Mnemonic::Rra, 3, 7, AddressingMode::Absolute_Y),
        0x7C => row(Mnemonic::Top, 3, 4, AddressingMode::Absolute_X),
        0x7D => row(Mnemonic::Adc, 3, 4, AddressingMode::Absolute_X),
        0x7E => row(Mnemonic::Ror, 3, 7, AddressingMode::Absolute_X),
        0x7F => row(Mnemonic::Rra, 3, 7, AddressingMode::Absolute_X),
        0x80 => row(Mnemonic::Dop, 2, 2, AddressingMode::Immediate),
        0x81 => row(Mnemonic::Sta, 2, 6, AddressingMode::Indirect_X),
        0x82 => row(Mnemonic::Dop, 2, 2, AddressingMode::Immediate),
        0x83 => row(Mnemonic::Aax, 2, 6, AddressingMode::Indirect_X),
        0x84 => row(Mnemonic::Sty, 2, 3, AddressingMode::ZeroPage),
        0x85 => row(Mnemonic::Sta, 2, 3, AddressingMode::ZeroPage),
        0x86 => row(Mnemonic::Stx, 2, 3, AddressingMode::ZeroPage),
        0x87 => row(Mnemonic::Aax, 2, 3, AddressingMode::ZeroPage),
        0x88 => row(Mnemonic::Dey, 1, 2, AddressingMode::NoneAddressing),
        0x89 => row(Mnemonic::Dop, 2, 2, AddressingMode::Immediate),
        0x8A => row(Mnemonic::Txa, 1, 2, AddressingMode::NoneAddressing),
        0x8C => row(Mnemonic::Sty, 3, 4, AddressingMode::Absolute),
        0x8D => row(Mnemonic::Sta, 3, 4, AddressingMode::Absolute),
        0x8E => row(Mnemonic::Stx, 3, 4, AddressingMode::Absolute),
        0x8F => row(Mnemonic::Aax, 3, 4, AddressingMode::Absolute),
        0x90 => row(Mnemonic::Bcc, 2, 2, AddressingMode::NoneAddressing),
        0x91 => row(Mnemonic::Sta, 2, 6, AddressingMode::Indirect_Y),
        0x94 => row(Mnemonic::Sty, 2, 4, AddressingMode::ZeroPage_X),
        0x95 => row(Mnemonic::Sta, 2, 4, AddressingMode::ZeroPage_X),
        0x96 => row(Mnemonic::Stx, 2, 4, AddressingMode::ZeroPage_Y),
        0x97 => row(Mnemonic::Aax, 2, 4, AddressingMode::ZeroPage_Y),
        0x98 => row(Mnemonic::Tya, 1, 2, AddressingMode::NoneAddressing),
        0x99 => row(Mnemonic::Sta, 3, 5, AddressingMode::Absolute_Y),
        0x9A => row(Mnemonic::Txs, 1, 2, AddressingMode::NoneAddressing),
        0x9D => row(Mnemonic::Sta, 3, 5, AddressingMode::Absolute_X),
        0xA0 => row(Mnemonic::Ldy, 2, 2, AddressingMode::Immediate),
        0xA1 => row(Mnemonic::Lda, 2, 6, AddressingMode::Indirect_X),
        0xA2 => row(Mnemonic::Ldx, 2, 2, AddressingMode::Immediate),
        0xA3 => row(Mnemonic::Lax, 2, 6, AddressingMode::Indirect_X),
        0xA4 => row(Mnemonic::Ldy, 2, 3, AddressingMode::ZeroPage),
        0xA5 => row(Mnemonic::Lda, 2, 3, AddressingMode::ZeroPage),
        0xA6 => row(Mnemonic::Ldx, 2, 3, AddressingMode::ZeroPage),
        0xA7 => row(Mnemonic::Lax, 2, 3, AddressingMode::ZeroPage),
        0xA8 => row(Mnemonic::Tay, 1, 2, AddressingMode::NoneAddressing),
        0xA9 => row(Mnemonic::Lda, 2, 2, AddressingMode::Immediate),
        0xAA => row(Mnemonic::Tax, 1, 2, AddressingMode::NoneAddressing),
        0xAC => row(Mnemonic::Ldy, 3, 4, AddressingMode::Absolute),
        0xAD => row(Mnemonic::Lda, 3, 4, AddressingMode::Absolute),
        0xAE => row(Mnemonic::Ldx, 3, 4, AddressingMode::Absolute),
        0xAF => row(Mnemonic::Lax, 3, 4, AddressingMode::Absolute),
        0xB0 => row(Mnemonic::Bcs, 2, 2, AddressingMode::NoneAddressing),
        0xB1 => row(Mnemonic::Lda, 2, 5, AddressingMode::Indirect_Y),
        0xB3 => row(Mnemonic::Lax, 2, 5, AddressingMode::Indirect_Y),
        0xB4 => row(Mnemonic::Ldy, 2, 4, AddressingMode::ZeroPage_X),
        0xB5 => row(Mnemonic::Lda, 2, 4, AddressingMode::ZeroPage_X),
        0xB6 => row(Mnemonic::Ldx, 2, 4, AddressingMode::ZeroPage_Y),
        0xB7 => row(Mnemonic::Lax, 2, 4, AddressingMode::ZeroPage_Y),
        0xB8 => row(Mnemonic::Clv, 1, 0, AddressingMode::NoneAddressing),
        0xB9 => row(Mnemonic::Lda, 3, 4, AddressingMode::Absolute_Y),
        0xBA => row(Mnemonic::Tsx, 1, 2, AddressingMode::NoneAddressing),
        0xBC => row(Mnemonic::Ldy, 3, 4, AddressingMode::Absolute_X),
        0xBD => row(Mnemonic::Lda, 3, 4, AddressingMode::Absolute_X),
        0xBE => row(Mnemonic::Ldx, 3, 4, AddressingMode::Absolute_Y),
        0xBF => row(Mnemonic::Lax, 3, 4, AddressingMode::Absolute_Y),
        0xC0 => row(Mnemonic::Cpy, 2, 2, AddressingMode::Immediate),
        0xC1 => row(Mnemonic::Cmp, 2, 6, AddressingMode::Indirect_X),
        0xC2 => row(Mnemonic::Dop, 2, 2, AddressingMode::Immediate),
        0xC3 => row(Mnemonic::Dcp, 2, 8, AddressingMode::Indirect_X),
        0xC4 => row(Mnemonic::Cpy, 2, 3, AddressingMode::ZeroPage),
        0xC5 => row(Mnemonic::Cmp, 2, 3, AddressingMode::ZeroPage),
        0xC6 => row(Mnemonic::Dec, 2, 5, AddressingMode::ZeroPage),
        0xC7 => row(Mnemonic::Dcp, 2, 5, AddressingMode::ZeroPage),
        0xC8 => row(Mnemonic::Iny, 1, 2, AddressingMode::NoneAddressing),
        0xC9 => row(Mnemonic::Cmp, 2, 2, AddressingMode::Immediate),
        0xCA => row(Mnemonic::Dex, 1, 2, AddressingMode::NoneAddressing),
        0xCC => row(Mnemonic::Cpy, 3, 4, AddressingMode::Absolute),
        0xCD => row(Mnemonic::Cmp, 3, 4, AddressingMode::Absolute),
        0xCE => row(Mnemonic::Dec, 3, 6, AddressingMode::Absolute),
        0xCF => row(Mnemonic::Dcp, 3, 6, AddressingMode::Absolute),
        0xD0 => row(Mnemonic::Bne, 2, 2, AddressingMode::NoneAddressing),
        0xD1 => row(Mnemonic::Cmp, 2, 5, AddressingMode::Indirect_Y),
        0xD3 => row(Mnemonic::Dcp, 2, 8, AddressingMode::Indirect_Y),
        0xD4 => row(Mnemonic::Dop, 2, 4, AddressingMode::ZeroPage_X),
        0xD5 => row(Mnemonic::Cmp, 2, 4, AddressingMode::ZeroPage_X),
        0xD6 => row(Mnemonic::Dec, 2, 6, AddressingMode::ZeroPage_X),
        0xD7 => row(Mnemonic::Dcp, 2, 6, AddressingMode::ZeroPage_X),
        0xD8 => row(Mnemonic::Cld, 1, 0, AddressingMode::NoneAddressing),
        0xD9 => row(Mnemonic::Cmp, 3, 4, AddressingMode::Absolute_Y),
        0xDA => row(Mnemonic::Nop, 1, 2, AddressingMode::NoneAddressing),
        0xDB => row(Mnemonic::Dcp, 3, 7, AddressingMode::Absolute_Y),
        0xDC => row(Mnemonic::Top, 3, 4, AddressingMode::Absolute_X),
        0xDD => row(Mnemonic::Cmp, 3, 4, AddressingMode::Absolute_X),
        0xDE => row(Mnemonic::Dec, 3, 7, AddressingMode::Absolute_X),
        0xDF => row(Mnemonic::Dcp, 3, 7, AddressingMode::Absolute_X),
        0xE0 => row(Mnemonic::Cpx, 2, 2, AddressingMode::Immediate),
        0xE1 => row(Mnemonic::Sbc, 2, 6, AddressingMode::Indirect_X),
        0xE2 => row(Mnemonic::Dop, 2, 2, AddressingMode::Immediate),
        0xE3 => row(Mnemonic::Isb, 2, 8, AddressingMode::Indirect_X),
        0xE4 => row(Mnemonic::Cpx, 2, 3, AddressingMode::ZeroPage),
        0xE5 => row(Mnemonic::Sbc, 2, 3, AddressingMode::ZeroPage),
        0xE6 => row(Mnemonic::Inc, 2, 5, AddressingMode::ZeroPage),
        0xE7 => row(Mnemonic::Isb, 2, 5, AddressingMode::ZeroPage),
        0xE8 => row(Mnemonic::Inx, 1, 2, AddressingMode::NoneAddressing),
        0xE9 => row(Mnemonic::Sbc, 2, 2, AddressingMode::Immediate),
        0xEA => row(Mnemonic::Nop, 1, 2, AddressingMode::NoneAddressing),
        0xEB => row(Mnemonic::Sbc, 2, 2, AddressingMode::Immediate),
        0xEC => row(Mnemonic::Cpx, 3, 4, AddressingMode::Absolute),
        0xED => row(Mnemonic::Sbc, 3, 4, AddressingMode::Absolute),
        0xEE => row(Mnemonic::Inc, 3, 6, AddressingMode::Absolute),
        0xEF => row(Mnemonic::Isb, 3, 6, AddressingMode::Absolute),
        0xF0 => row(Mnemonic::Beq, 2, 2, AddressingMode::NoneAddressing),
        0xF1 => row(Mnemonic::Sbc, 2, 5, AddressingMode::Indirect_Y),
        0xF3 => row(Mnemonic::Isb, 2, 8, AddressingMode::Indirect_Y),
        0xF4 => row(Mnemonic::Dop, 2, 4, AddressingMode::ZeroPage_X),
        0xF5 => row(Mnemonic::Sbc, 2, 4, AddressingMode::ZeroPage_X),
        0xF6 => row(Mnemonic::Inc, 2, 6, AddressingMode::ZeroPage_X),
        0xF7 => row(Mnemonic::Isb, 2, 6, AddressingMode::ZeroPage_X),
        0xF8 => row(Mnemonic::Sed, 1, 0, AddressingMode::NoneAddressing),
        0xF9 => row(Mnemonic::Sbc, 3, 4, AddressingMode::Absolute_Y),
        0xFA => row(Mnemonic::Nop, 1, 2, AddressingMode::NoneAddressing),
        0xFB => row(Mnemonic::Isb, 3, 7, AddressingMode::Absolute_Y),
        0xFC => row(Mnemonic::Top, 3, 4, AddressingMode::Absolute_X),
        0xFD => row(Mnemonic::Sbc, 3, 4, AddressingMode::Absolute_X),
        0xFE => row(Mnemonic::Inc, 3, 7, AddressingMode::Absolute_X),
        0xFF => row(Mnemonic::Isb, 3, 7, AddressingMode::Absolute_X),
        _ => None,
    }
}

} // verus!
