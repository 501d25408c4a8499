use vstd::prelude::*;

verus! {

/// An 8-bit operand: one of the seven registers or the byte at the address in HL.
#[derive(Debug, Clone, Copy, PartialEq, Eq, Structural)]
pub enum Operand8 {
    A,
    B,
    C,
    D,
    E,
    H,
    L,
    AtHl,
}

/// A 16-bit register: one of the pairs BC, DE, HL, or the stack pointer.
#[derive(Debug, Clone, Copy, PartialEq, Eq, Structural)]
pub enum Reg16 {
    Bc,
    De,
    Hl,
    Sp,
}

/// A register pair moved by PUSH and POP.
#[derive(Debug, Clone, Copy, PartialEq, Eq, Structural)]
pub enum StackPair {
    Bc,
    De,
    Hl,
    Af,
}

/// The address that a load between A and memory goes through.
#[derive(Debug, Clone, Copy, PartialEq, Eq, Structural)]
pub enum Indirect {
    /// The address in BC.
    Bc,
    /// The address in DE.
    De,
    /// 0xFF00 plus C.
    HighC,
    /// 0xFF00 plus an immediate byte.
    HighImm,
    /// An immediate 16-bit address, low byte first.
    Absolute,
    /// The address in HL, which is then incremented.
    HlInc,
    /// The address in HL, which is then decremented.
    HlDec,
}

/// An 8-bit operation of the accumulator with an operand.
#[derive(Debug, Clone, Copy, PartialEq, Eq, Structural)]
pub enum AluOp {
    Add,
    Adc,
    Sub,
    Sbc,
    And,
    Xor,
    Or,
    Cp,
}

/// The flag test that gates a jump, call or return.
#[derive(Debug, Clone, Copy, PartialEq, Eq, Structural)]
pub enum Cond {
    Always,
    NotZero,
    Zero,
    NotCarry,
    Carry,
}

/// A primary operation: what one opcode byte does. Each opcode byte that has an operation
/// maps to exactly one of these.
#[derive(Debug, Clone, Copy, PartialEq, Eq, Structural)]
pub enum Operation {
    /// LD dest, src between registers and the byte at HL.
    Ld(Operand8, Operand8),
    /// LD dest, n.
    LdImm(Operand8),
    /// LD A, (address).
    LdAFrom(Indirect),
    /// LD (address), A.
    LdAInto(Indirect),
    /// LD rr, nn.
    Ld16Imm(Reg16),
    /// LD SP, HL.
    LdSpHl,
    Push(StackPair),
    Pop(StackPair),
    /// LD HL, SP + e.
    LdHlSpOffset,
    /// LD (nn), SP.
    StoreSp,
    /// An operation of A with a register or the byte at HL.
    Alu(AluOp, Operand8),
    /// An operation of A with an immediate byte.
    AluImm(AluOp),
    Inc(Operand8),
    Dec(Operand8),
    /// ADD HL, rr.
    AddHl(Reg16),
    /// ADD SP, e.
    AddSpOffset,
    Inc16(Reg16),
    Dec16(Reg16),
    Rlca,
    Rla,
    Rrca,
    Rra,
    /// The escape into the secondary table: the next byte selects the operation.
    Prefix,
    /// JP cc, nn.
    Jp(Cond),
    /// JR cc, e.
    Jr(Cond),
    /// JP (HL): PC takes the value of HL.
    JpHl,
    /// CALL cc, nn.
    Call(Cond),
    /// RET cc.
    Ret(Cond),
    Reti,
    /// RST to the given address.
    Rst(u8),
    Daa,
    Cpl,
    Nop,
    Halt,
    Stop,
    Ei,
    Di,
}

/// A byte at PC that has no primary operation; it stops the run loop.
#[derive(Debug, Clone, Copy, PartialEq, Eq, Structural)]
pub struct DecodeError {
    pub opcode: u8,
    pub pc: u16,
}

/// The escape opcode into the secondary table.
pub const PREFIX_OPCODE: u8 = 0xCB;

/// The primary opcode table: the operation of each opcode byte, or none.
pub open spec fn decode_spec(b: u8) -> Option<Operation> {
    match b {
        0x00 => Some(Operation::Nop),
        0x01 => Some(Operation::Ld16Imm(Reg16::Bc)),
        0x02 => Some(Operation::LdAInto(Indirect::Bc)),
        0x03 => Some(Operation::Inc16(Reg16::Bc)),
        0x04 => Some(Operation::Inc(Operand8::B)),
        0x05 => Some(Operation::Dec(Operand8::B)),
        0x06 => Some(Operation::LdImm(Operand8::B)),
        0x07 => Some(Operation::Rlca),
        0x08 => Some(Operation::StoreSp),
        0x09 => Some(Operation::AddHl(Reg16::Bc)),
        0x0A => Some(Operation::LdAFrom(Indirect::Bc)),
        0x0B => Some(Operation::Dec16(Reg16::Bc)),
        0x0C => Some(Operation::Inc(Operand8::C)),
        0x0D => Some(Operation::Dec(Operand8::C)),
        0x0E => Some(Operation::LdImm(Operand8::C)),
        0x0F => Some(Operation::Rrca),
        0x10 => Some(Operation::Stop),
        0x11 => Some(Operation::Ld16Imm(Reg16::De)),
        0x12 => Some(Operation::LdAInto(Indirect::De)),
        0x13 => Some(Operation::Inc16(Reg16::De)),
        0x14 => Some(Operation::Inc(Operand8::D)),
        0x15 => Some(Operation::Dec(Operand8::D)),
        0x16 => Some(Operation::LdImm(Operand8::D)),
        0x17 => Some(Operation::Rla),
        0x18 => Some(Operation::Jr(Cond::Always)),
        0x19 => Some(Operation::AddHl(Reg16::De)),
        0x1A => Some(Operation::LdAFrom(Indirect::De)),
        0x1B => Some(Operation::Dec16(Reg16::De)),
        0x1C => Some(Operation::Inc(Operand8::E)),
        0x1D => Some(Operation::Dec(Operand8::E)),
        0x1E => Some(Operation::LdImm(Operand8::E)),
        0x1F => Some(Operation::Rra),
        0x20 => Some(Operation::Jr(Cond::NotZero)),
        0x21 => Some(Operation::Ld16Imm(Reg16::Hl)),
        0x22 => Some(Operation::LdAInto(Indirect::HlInc)),
        0x23 => Some(Operation::Inc16(Reg16::Hl)),
        0x24 => Some(Operation::Inc(Operand8::H)),
        0x25 => Some(Operation::Dec(Operand8::H)),
        0x26 => Some(Operation::LdImm(Operand8::H)),
        0x27 => Some(Operation::Daa),
        0x28 => Some(Operation::Jr(Cond::Zero)),
        0x29 => Some(Operation::AddHl(Reg16::Hl)),
        0x2A => Some(Operation::LdAFrom(Indirect::HlInc)),
        0x2B => Some(Operation::Dec16(Reg16::Hl)),
        0x2C => Some(Operation::Inc(Operand8::L)),
        0x2D => Some(Operation::Dec(Operand8::L)),
        0x2E => Some(Operation::LdImm(Operand8::L)),
        0x2F => Some(Operation::Cpl),
        0x30 => Some(Operation::Jr(Cond::NotCarry)),
        0x31 => Some(Operation::Ld16Imm(Reg16::Sp)),
        0x32 => Some(Operation::LdAInto(Indirect::HlDec)),
        0x33 => Some(Operation::Inc16(Reg16::Sp)),
        0x34 => Some(Operation::Inc(Operand8::AtHl)),
        0x35 => Some(Operation::Dec(Operand8::AtHl)),
        0x36 => Some(Operation::LdImm(Operand8::AtHl)),
        0x38 => Some(Operation::Jr(Cond::Carry)),
        0x39 => Some(Operation::AddHl(Reg16::Sp)),
        0x3A => Some(Operation::LdAFrom(Indirect::HlDec)),
        0x3B => Some(Operation::Dec16(Reg16::Sp)),
        0x3C => Some(Operation::Inc(Operand8::A)),
        0x3D => Some(Operation::Dec(Operand8::A)),
        0x3E => Some(Operation::LdImm(Operand8::A)),
        0x40 => Some(Operation::Ld(Operand8::B, Operand8::B)),
        0x41 => Some(Operation::Ld(Operand8::B, Operand8::C)),
        0x42 => Some(Operation::Ld(Operand8::B, Operand8::D)),
        0x43 => Some(Operation::Ld(Operand8::B, Operand8::E)),
        0x44 => Some(Operation::Ld(Operand8::B, Operand8::H)),
        0x45 => Some(Operation::Ld(Operand8::B, Operand8::L)),
        0x46 => Some(Operation::Ld(Operand8::B, Operand8::AtHl)),
        0x47 => Some(Operation::Ld(Operand8::B, Operand8::A)),
        0x48 => Some(Operation::Ld(Operand8::C, Operand8::B)),
        0x49 => Some(Operation::Ld(Operand8::C, Operand8::C)),
        0x4A => Some(Operation::Ld(Operand8::C, Operand8::D)),
        0x4B => Some(Operation::Ld(Operand8::C, Operand8::E)),
        0x4C => Some(Operation::Ld(Operand8::C, Operand8::H)),
        0x4D => Some(Operation::Ld(Operand8::C, Operand8::L)),
        0x4E => Some(Operation::Ld(Operand8::C, Operand8::AtHl)),
        0x4F => Some(Operation::Ld(Operand8::C, Operand8::A)),
        0x50 => Some(Operation::Ld(Operand8::D, Operand8::B)),
        0x51 => Some(Operation::Ld(Operand8::D, Operand8::C)),
        0x52 => Some(Operation::Ld(Operand8::D, Operand8::D)),
        0x53 => Some(Operation::Ld(Operand8::D, Operand8::E)),
        0x54 => Some(Operation::Ld(Operand8::D, Operand8::H)),
        0x55 => Some(Operation::Ld(Operand8::D, Operand8::L)),
        0x56 => Some(Operation::Ld(Operand8::D, Operand8::AtHl)),
        0x57 => Some(Operation::Ld(Operand8::D, Operand8::A)),
        0x58 => Some(Operation::Ld(Operand8::E, Operand8::B)),
        0x59 => Some(Operation::Ld(Operand8::E, Operand8::C)),
        0x5A => Some(Operation::Ld(Operand8::E, Operand8::D)),
        0x5B => Some(Operation::Ld(Operand8::E, Operand8::E)),
        0x5C => Some(Operation::Ld(Operand8::E, Operand8::H)),
        0x5D => Some(Operation::Ld(Operand8::E, Operand8::L)),
        0x5E => Some(Operation::Ld(Operand8::E, Operand8::AtHl)),
        0x5F => Some(Operation::Ld(Operand8::E, Operand8::A)),
        0x60 => Some(Operation::Ld(Operand8::H, Operand8::B)),
        0x61 => Some(Operation::Ld(Operand8::H, Operand8::C)),
        0x62 => Some(Operation::Ld(Operand8::H, Operand8::D)),
        0x63 => Some(Operation::Ld(Operand8::H, Operand8::E)),
        0x64 => Some(Operation::Ld(Operand8::H, Operand8::H)),
        0x65 => Some(Operation::Ld(Operand8::H, Operand8::L)),
        0x66 => Some(Operation::Ld(Operand8::H, Operand8::AtHl)),
        0x67 => Some(Operation::Ld(Operand8::H, Operand8::A)),
        0x68 => Some(Operation::Ld(Operand8::L, Operand8::B)),
        0x69 => Some(Operation::Ld(Operand8::L, Operand8::C)),
        0x6A => Some(Operation::Ld(Operand8::L, Operand8::D)),
        0x6B => Some(Operation::Ld(Operand8::L, Operand8::E)),
        0x6C => Some(Operation::Ld(Operand8::L, Operand8::H)),
        0x6D => Some(Operation::Ld(Operand8::L, Operand8::L)),
        0x6E => Some(Operation::Ld(Operand8::L, Operand8::AtHl)),
        0x6F => Some(Operation::Ld(Operand8::L, Operand8::A)),
        0x70 => Some(Operation::Ld(Operand8::AtHl, Operand8::B)),
        0x71 => Some(Operation::Ld(Operand8::AtHl, Operand8::C)),
        0x72 => Some(Operation::Ld(Operand8::AtHl, Operand8::D)),
        0x73 => Some(Operation::Ld(Operand8::AtHl, Operand8::E)),
        0x74 => Some(Operation::Ld(Operand8::AtHl, Operand8::H)),
        0x75 => Some(Operation::Ld(Operand8::AtHl, Operand8::L)),
        0x76 => Some(Operation::Halt),
        0x77 => Some(Operation::Ld(Operand8::AtHl, Operand8::A)),
        0x78 => Some(Operation::Ld(Operand8::A, Operand8::B)),
        0x79 => Some(Operation::Ld(Operand8::A, Operand8::C)),
        0x7A => Some(Operation::Ld(Operand8::A, Operand8::D)),
        0x7B => Some(Operation::Ld(Operand8::A, Operand8::E)),
        0x7C => Some(Operation::Ld(Operand8::A, Operand8::H)),
        0x7D => Some(Operation::Ld(Operand8::A, Operand8::L)),
        0x7E => Some(Operation::Ld(Operand8::A, Operand8::AtHl)),
        0x7F => Some(Operation::Ld(Operand8::A, Operand8::A)),
        0x80 => Some(Operation::Alu(AluOp::Add, Operand8::B)),
        0x81 => Some(Operation::Alu(AluOp::Add, Operand8::C)),
        0x82 => Some(Operation::Alu(AluOp::Add, Operand8::D)),
        0x83 => Some(Operation::Alu(AluOp::Add, Operand8::E)),
        0x84 => Some(Operation::Alu(AluOp::Add, Operand8::H)),
        0x85 => Some(Operation::Alu(AluOp::Add, Operand8::L)),
        0x86 => Some(Operation::Alu(AluOp::Add, Operand8::AtHl)),
        0x87 => Some(Operation::Alu(AluOp::Add, Operand8::A)),
        0x88 => Some(Operation::Alu(AluOp::Adc, Operand8::B)),
        0x89 => Some(Operation::Alu(AluOp::Adc, Operand8::C)),
        0x8A => Some(Operation::Alu(AluOp::Adc, Operand8::D)),
        0x8B => Some(Operation::Alu(AluOp::Adc, Operand8::E)),
        0x8C => Some(Operation::Alu(AluOp::Adc, Operand8::H)),
        0x8D => Some(Operation::Alu(AluOp::Adc, Operand8::L)),
        0x8E => Some(Operation::Alu(AluOp::Adc, Operand8::AtHl)),
        0x8F => Some(Operation::Alu(AluOp::Adc, Operand8::A)),
        0x90 => Some(Operation::Alu(AluOp::Sub, Operand8::B)),
        0x91 => Some(Operation::Alu(AluOp::Sub, Operand8::C)),
        0x92 => Some(Operation::Alu(AluOp::Sub, Operand8::D)),
        0x93 => Some(Operation::Alu(AluOp::Sub, Operand8::E)),
        0x94 => Some(Operation::Alu(AluOp::Sub, Operand8::H)),
        0x95 => Some(Operation::Alu(AluOp::Sub, Operand8::L)),
        0x96 => Some(Operation::Alu(AluOp::Sub, Operand8::AtHl)),
        0x97 => Some(Operation::Alu(AluOp::Sub, Operand8::A)),
        0x98 => Some(Operation::Alu(AluOp::Sbc, Operand8::B)),
        0x99 => Some(Operation::Alu(AluOp::Sbc, Operand8::C)),
        0x9A => Some(Operation::Alu(AluOp::Sbc, Operand8::D)),
        0x9B => Some(Operation::Alu(AluOp::Sbc, Operand8::E)),
        0x9C => Some(Operation::Alu(AluOp::Sbc, Operand8::H)),
        0x9D => Some(Operation::Alu(AluOp::Sbc, Operand8::L)),
        0x9E => Some(Operation::Alu(AluOp::Sbc, Operand8::AtHl)),
        0x9F => Some(Operation::Alu(AluOp::Sbc, Operand8::A)),
        0xA0 => Some(Operation::Alu(AluOp::And, Operand8::B)),
        0xA1 => Some(Operation::Alu(AluOp::And, Operand8::C)),
        0xA2 => Some(Operation::Alu(AluOp::And, Operand8::D)),
        0xA3 => Some(Operation::Alu(AluOp::And, Operand8::E)),
        0xA4 => Some(Operation::Alu(AluOp::And, Operand8::H)),
        0xA5 => Some(Operation::Alu(AluOp::And, Operand8::L)),
        0xA6 => Some(Operation::Alu(AluOp::And, Operand8::AtHl)),
        0xA7 => Some(Operation::Alu(AluOp::And, Operand8::A)),
        0xA8 => Some(Operation::Alu(AluOp::Xor, Operand8::B)),
        0xA9 => Some(Operation::Alu(AluOp::Xor, Operand8::C)),
        0xAA => Some(Operation::Alu(AluOp::Xor, Operand8::D)),
        0xAB => Some(Operation::Alu(AluOp::Xor, Operand8::E)),
        0xAC => Some(Operation::Alu(AluOp::Xor, Operand8::H)),
        0xAD => Some(Operation::Alu(AluOp::Xor, Operand8::L)),
        0xAE => Some(Operation::Alu(AluOp::Xor, Operand8::AtHl)),
        0xAF => Some(Operation::Alu(AluOp::Xor, Operand8::A)),
        0xB0 => Some(Operation::Alu(AluOp::Or, Operand8::B)),
        0xB1 => Some(Operation::Alu(AluOp::Or, Operand8::C)),
        0xB2 => Some(Operation::Alu(AluOp::Or, Operand8::D)),
        0xB3 => Some(Operation::Alu(AluOp::Or, Operand8::E)),
        0xB4 => Some(Operation::Alu(AluOp::Or, Operand8::H)),
        0xB5 => Some(Operation::Alu(AluOp::Or, Operand8::L)),
        0xB6 => Some(Operation::Alu(AluOp::Or, Operand8::AtHl)),
        0xB7 => Some(Operation::Alu(AluOp::Or, Operand8::A)),
        0xB8 => Some(Operation::Alu(AluOp::Cp, Operand8::B)),
        0xB9 => Some(Operation::Alu(AluOp::Cp, Operand8::C)),
        0xBA => Some(Operation::Alu(AluOp::Cp, Operand8::D)),
        0xBB => Some(Operation::Alu(AluOp::Cp, Operand8::E)),
        0xBC => Some(Operation::Alu(AluOp::Cp, Operand8::H)),
        0xBD => Some(Operation::Alu(AluOp::Cp, Operand8::L)),
        0xBE => Some(Operation::Alu(AluOp::Cp, Operand8::AtHl)),
        0xBF => Some(Operation::Alu(AluOp::Cp, Operand8::A)),
        0xC0 => Some(Operation::Ret(Cond::NotZero)),
        0xC1 => Some(Operation::Pop(StackPair::Bc)),
        0xC2 => Some(Operation::Jp(Cond::NotZero)),
        0xC3 => Some(Operation::Jp(Cond::Always)),
        0xC4 => Some(Operation::Call(Cond::NotZero)),
        0xC5 => Some(Operation::Push(StackPair::Bc)),
        0xC6 => Some(Operation::AluImm(AluOp::Add)),
        0xC7 => Some(Operation::Rst(0x00)),
        0xC8 => Some(Operation::Ret(Cond::Zero)),
        0xC9 => Some(Operation::Ret(Cond::Always)),
        0xCA => Some(Operation::Jp(Cond::Zero)),
        0xCB => Some(Operation::Prefix),
        0xCC => Some(Operation::Call(Cond::Zero)),
        0xCD => Some(Operation::Call(Cond::Always)),
        0xCE => Some(Operation::AluImm(AluOp::Adc)),
        0xCF => Some(Operation::Rst(0x08)),
        0xD0 => Some(Operation::Ret(Cond::NotCarry)),
        0xD1 => Some(Operation::Pop(StackPair::De)),
        0xD2 => Some(Operation::Jp(Cond::NotCarry)),
        0xD4 => Some(Operation::Call(Cond::NotCarry)),
        0xD5 => Some(Operation::Push(StackPair::De)),
        0xD6 => Some(Operation::AluImm(AluOp::Sub)),
        0xD7 => Some(Operation::Rst(0x10)),
        0xD8 => Some(Operation::Ret(Cond::Carry)),
        0xD9 => Some(Operation::Reti),
        0xDA => Some(Operation::Jp(Cond::Carry)),
        0xDC => Some(Operation::Call(Cond::Carry)),
        0xDE => Some(Operation::AluImm(AluOp::Sbc)),
        0xDF => Some(Operation::Rst(0x18)),
        0xE0 => Some(Operation::LdAInto(Indirect::HighImm)),
        0xE1 => Some(Operation::Pop(StackPair::Hl)),
        0xE2 => Some(Operation::LdAInto(Indirect::HighC)),
        0xE5 => Some(Operation::Push(StackPair::Hl)),
        0xE6 => Some(Operation::AluImm(AluOp::And)),
        0xE7 => Some(Operation::Rst(0x20)),
        0xE8 => Some(Operation::AddSpOffset),
        0xE9 => Some(Operation::JpHl),
        0xEA => Some(Operation::LdAInto(Indirect::Absolute)),
        0xEE => Some(Operation::AluImm(AluOp::Xor)),
        0xEF => Some(Operation::Rst(0x28)),
        0xF0 => Some(Operation::LdAFrom(Indirect::HighImm)),
        0xF1 => Some(Operation::Pop(StackPair::Af)),
        0xF2 => Some(Operation::LdAFrom(Indirect::HighC)),
        0xF3 => Some(Operation::Ei),
        0xF5 => Some(Operation::Push(StackPair::Af)),
        0xF6 => Some(Operation::AluImm(AluOp::Or)),
        0xF7 => Some(Operation::Rst(0x30)),
        0xF8 => Some(Operation::LdHlSpOffset),
        0xF9 => Some(Operation::LdSpHl),
        0xFA => Some(Operation::LdAFrom(Indirect::Absolute)),
        0xFB => Some(Operation::Di),
        0xFE => Some(Operation::AluImm(AluOp::Cp)),
        0xFF => Some(Operation::Rst(0x38)),
        _ => None,
    }
}

pub open spec fn operand_index(o: Operand8) -> int {
    match o {
        Operand8::B => 0,
        Operand8::C => 1,
        Operand8::D => 2,
        Operand8::E => 3,
        Operand8::H => 4,
        Operand8::L => 5,
        Operand8::AtHl => 6,
        Operand8::A => 7,
    }
}

pub open spec fn alu_index(op: AluOp) -> int {
    match op {
        AluOp::Add => 0,
        AluOp::Adc => 1,
        AluOp::Sub => 2,
        AluOp::Sbc => 3,
        AluOp::And => 4,
        AluOp::Xor => 5,
        AluOp::Or => 6,
        AluOp::Cp => 7,
    }
}

pub open spec fn reg16_index(p: Reg16) -> int {
    match p {
        Reg16::Bc => 0,
        Reg16::De => 1,
        Reg16::Hl => 2,
        Reg16::Sp => 3,
    }
}

pub open spec fn stack_pair_index(p: StackPair) -> int {
    match p {
        StackPair::Bc => 0,
        StackPair::De => 1,
        StackPair::Hl => 2,
        StackPair::Af => 3,
    }
}

/// The index of a flag test in the opcode grid; `Always` has opcodes of its own.
pub open spec fn cond_index(c: Cond) -> int {
    match c {
        Cond::NotZero => 0,
        Cond::Zero => 1,
        Cond::NotCarry => 2,
        Cond::Carry => 3,
        Cond::Always => 0,
    }
}

pub open spec fn load_a_from_code(ind: Indirect) -> int {
    match ind {
        Indirect::Bc => 0x0A,
        Indirect::De => 0x1A,
        Indirect::HighC => 0xF2,
        Indirect::HighImm => 0xF0,
        Indirect::Absolute => 0xFA,
        Indirect::HlInc => 0x2A,
        Indirect::HlDec => 0x3A,
    }
}

pub open spec fn load_a_into_code(ind: Indirect) -> int {
    match ind {
        Indirect::Bc => 0x02,
        Indirect::De => 0x12,
        Indirect::HighC => 0xE2,
        Indirect::HighImm => 0xE0,
        Indirect::Absolute => 0xEA,
        Indirect::HlInc => 0x22,
        Indirect::HlDec => 0x32,
    }
}

/// The opcode byte of an operation, from the regular layout of the opcode grid: operands
/// in the order B, C, D, E, H, L, (HL), A; pairs in the order BC, DE, HL, SP (AF for the
/// stack); flag tests in the order NZ, Z, NC, C.
pub open spec fn opcode_of(op: Operation) -> int {
    match op {
        Operation::Ld(d, s) => 0x40 + 8 * operand_index(d) + operand_index(s),
        Operation::LdImm(d) => 0x06 + 8 * operand_index(d),
        Operation::LdAFrom(ind) => load_a_from_code(ind),
        Operation::LdAInto(ind) => load_a_into_code(ind),
        Operation::Ld16Imm(p) => 0x01 + 16 * reg16_index(p),
        Operation::LdSpHl => 0xF9,
        Operation::Push(p) => 0xC5 + 16 * stack_pair_index(p),
        Operation::Pop(p) => 0xC1 + 16 * stack_pair_index(p),
        Operation::LdHlSpOffset => 0xF8,
        Operation::StoreSp => 0x08,
        Operation::Alu(op, o) => 0x80 + 8 * alu_index(op) + operand_index(o),
        Operation::AluImm(op) => 0xC6 + 8 * alu_index(op),
        Operation::Inc(o) => 0x04 + 8 * operand_index(o),
        Operation::Dec(o) => 0x05 + 8 * operand_index(o),
        Operation::AddHl(p) => 0x09 + 16 * reg16_index(p),
        Operation::AddSpOffset => 0xE8,
        Operation::Inc16(p) => 0x03 + 16 * reg16_index(p),
        Operation::Dec16(p) => 0x0B + 16 * reg16_index(p),
        Operation::Rlca => 0x07,
        Operation::Rla => 0x17,
        Operation::Rrca => 0x0F,
        Operation::Rra => 0x1F,
        Operation::Prefix => PREFIX_OPCODE as int,
        Operation::Jp(c) => if c == Cond::Always {
            0xC3
        } else {
            0xC2 + 8 * cond_index(c)
        },
        Operation::Jr(c) => if c == Cond::Always {
            0x18
        } else {
            0x20 + 8 * cond_index(c)
        },
        Operation::JpHl => 0xE9,
        Operation::Call(c) => if c == Cond::Always {
            0xCD
        } else {
            0xC4 + 8 * cond_index(c)
        },
        Operation::Ret(c) => if c == Cond::Always {
            0xC9
        } else {
            0xC0 + 8 * cond_index(c)
        },
        Operation::Reti => 0xD9,
        Operation::Rst(t) => 0xC7 + t,
        Operation::Daa => 0x27,
        Operation::Cpl => 0x2F,
        Operation::Nop => 0x00,
        Operation::Halt => 0x76,
        Operation::Stop => 0x10,
        Operation::Ei => 0xF3,
        Operation::Di => 0xFB,
    }
}

/// The primary table is one-to-one: each operation it holds comes from a single opcode byte,
/// the one the grid layout gives it.
#[verifier::rlimit(100)]
pub proof fn lemma_decode_one_to_one(b1: u8, b2: u8)
    ensures
        decode_spec(b1) matches Some(op) ==> opcode_of(op) == b1,
        decode_spec(b1) is Some && decode_spec(b1) == decode_spec(b2) ==> b1 == b2,
{
}

impl Operation {
    /// Decodes a primary opcode byte; `None` for a byte that has no operation.
    pub fn from_u8(b: u8) -> (r: Option<Operation>)
        ensures
            r == decode_spec(b),
    {
        match b {
            0x00 => Some(Operation::Nop),
            0x01 => Some(Operation::Ld16Imm(Reg16::Bc)),
            0x02 => Some(Operation::LdAInto(Indirect::Bc)),
            0x03 => Some(Operation::Inc16(Reg16::Bc)),
            0x04 => Some(Operation::Inc(Operand8::B)),
            0x05 => Some(Operation::Dec(Operand8::B)),
            0x06 => Some(Operation::LdImm(Operand8::B)),
            0x07 => Some(Operation::Rlca),
            0x08 => Some(Operation::StoreSp),
            0x09 => Some(Operation::AddHl(Reg16::Bc)),
            0x0A => Some(Operation::LdAFrom(Indirect::Bc)),
            0x0B => Some(Operation::Dec16(Reg16::Bc)),
            0x0C => Some(Operation::Inc(Operand8::C)),
            0x0D => Some(Operation::Dec(Operand8::C)),
            0x0E => Some(Operation::LdImm(Operand8::C)),
            0x0F => Some(Operation::Rrca),
            0x10 => Some(Operation::Stop),
            0x11 => Some(Operation::Ld16Imm(Reg16::De)),
            0x12 => Some(Operation::LdAInto(Indirect::De)),
            0x13 => Some(Operation::Inc16(Reg16::De)),
            0x14 => Some(Operation::Inc(Operand8::D)),
            0x15 => Some(Operation::Dec(Operand8::D)),
            0x16 => Some(Operation::LdImm(Operand8::D)),
            0x17 => Some(Operation::Rla),
            0x18 => Some(Operation::Jr(Cond::Always)),
            0x19 => Some(Operation::AddHl(Reg16::De)),
            0x1A => Some(Operation::LdAFrom(Indirect::De)),
            0x1B => Some(Operation::Dec16(Reg16::De)),
            0x1C => Some(Operation::Inc(Operand8::E)),
            0x1D => Some(Operation::Dec(Operand8::E)),
            0x1E => Some(Operation::LdImm(Operand8::E)),
            0x1F => Some(Operation::Rra),
            0x20 => Some(Operation::Jr(Cond::NotZero)),
            0x21 => Some(Operation::Ld16Imm(Reg16::Hl)),
            0x22 => Some(Operation::LdAInto(Indirect::HlInc)),
            0x23 => Some(Operation::Inc16(Reg16::Hl)),
            0x24 => Some(Operation::Inc(Operand8::H)),
            0x25 => Some(Operation::Dec(Operand8::H)),
            0x26 => Some(Operation::LdImm(Operand8::H)),
            0x27 => Some(Operation::Daa),
            0x28 => Some(Operation::Jr(Cond::Zero)),
            0x29 => Some(Operation::AddHl(Reg16::Hl)),
            0x2A => Some(Operation::LdAFrom(Indirect::HlInc)),
            0x2B => Some(Operation::Dec16(Reg16::Hl)),
            0x2C => Some(Operation::Inc(Operand8::L)),
            0x2D => Some(Operation::Dec(Operand8::L)),
            0x2E => Some(Operation::LdImm(Operand8::L)),
            0x2F => Some(Operation::Cpl),
            0x30 => Some(Operation::Jr(Cond::NotCarry)),
            0x31 => Some(Operation::Ld16Imm(Reg16::Sp)),
            0x32 => Some(Operation::LdAInto(Indirect::HlDec)),
            0x33 => Some(Operation::Inc16(Reg16::Sp)),
            0x34 => Some(Operation::Inc(Operand8::AtHl)),
            0x35 => Some(Operation::Dec(Operand8::AtHl)),
            0x36 => Some(Operation::LdImm(Operand8::AtHl)),
            0x38 => Some(Operation::Jr(Cond::Carry)),
            0x39 => Some(Operation::AddHl(Reg16::Sp)),
            0x3A => Some(Operation::LdAFrom(Indirect::HlDec)),
            0x3B => Some(Operation::Dec16(Reg16::Sp)),
            0x3C => Some(Operation::Inc(Operand8::A)),
            0x3D => Some(Operation::Dec(Operand8::A)),
            0x3E => Some(Operation::LdImm(Operand8::A)),
            0x40 => Some(Operation::Ld(Operand8::B, Operand8::B)),
            0x41 => Some(Operation::Ld(Operand8::B, Operand8::C)),
            0x42 => Some(Operation::Ld(Operand8::B, Operand8::D)),
            0x43 => Some(Operation::Ld(Operand8::B, Operand8::E)),
            0x44 => Some(Operation::Ld(Operand8::B, Operand8::H)),
            0x45 => Some(Operation::Ld(Operand8::B, Operand8::L)),
            0x46 => Some(Operation::Ld(Operand8::B, Operand8::AtHl)),
            0x47 => Some(Operation::Ld(Operand8::B, Operand8::A)),
            0x48 => Some(Operation::Ld(Operand8::C, Operand8::B)),
            0x49 => Some(Operation::Ld(Operand8::C, Operand8::C)),
            0x4A => Some(Operation::Ld(Operand8::C, Operand8::D)),
            0x4B => Some(Operation::Ld(Operand8::C, Operand8::E)),
            0x4C => Some(Operation::Ld(Operand8::C, Operand8::H)),
            0x4D => Some(Operation::Ld(Operand8::C, Operand8::L)),
            0x4E => Some(Operation::Ld(Operand8::C, Operand8::AtHl)),
            0x4F => Some(Operation::Ld(Operand8::C, Operand8::A)),
            0x50 => Some(Operation::Ld(Operand8::D, Operand8::B)),
            0x51 => Some(Operation::Ld(Operand8::D, Operand8::C)),
            0x52 => Some(Operation::Ld(Operand8::D, Operand8::D)),
            0x53 => Some(Operation::Ld(Operand8::D, Operand8::E)),
            0x54 => Some(Operation::Ld(Operand8::D, Operand8::H)),
            0x55 => Some(Operation::Ld(Operand8::D, Operand8::L)),
            0x56 => Some(Operation::Ld(Operand8::D, Operand8::AtHl)),
            0x57 => Some(Operation::Ld(Operand8::D, Operand8::A)),
            0x58 => Some(Operation::Ld(Operand8::E, Operand8::B)),
            0x59 => Some(Operation::Ld(Operand8::E, Operand8::C)),
            0x5A => Some(Operation::Ld(Operand8::E, Operand8::D)),
            0x5B => Some(Operation::Ld(Operand8::E, Operand8::E)),
            0x5C => Some(Operation::Ld(Operand8::E, Operand8::H)),
            0x5D => Some(Operation::Ld(Operand8::E, Operand8::L)),
            0x5E => Some(Operation::Ld(Operand8::E, Operand8::AtHl)),
            0x5F => Some(Operation::Ld(Operand8::E, Operand8::A)),
            0x60 => Some(Operation::Ld(Operand8::H, Operand8::B)),
            0x61 => Some(Operation::Ld(Operand8::H, Operand8::C)),
            0x62 => Some(Operation::Ld(Operand8::H, Operand8::D)),
            0x63 => Some(Operation::Ld(Operand8::H, Operand8::E)),
            0x64 => Some(Operation::Ld(Operand8::H, Operand8::H)),
            0x65 => Some(Operation::Ld(Operand8::H, Operand8::L)),
            0x66 => Some(Operation::Ld(Operand8::H, Operand8::AtHl)),
            0x67 => Some(Operation::Ld(Operand8::H, Operand8::A)),
            0x68 => Some(Operation::Ld(Operand8::L, Operand8::B)),
            0x69 => Some(Operation::Ld(Operand8::L, Operand8::C)),
            0x6A => Some(Operation::Ld(Operand8::L, Operand8::D)),
            0x6B => Some(Operation::Ld(Operand8::L, Operand8::E)),
            0x6C => Some(Operation::Ld(Operand8::L, Operand8::H)),
            0x6D => Some(Operation::Ld(Operand8::L, Operand8::L)),
            0x6E => Some(Operation::Ld(Operand8::L, Operand8::AtHl)),
            0x6F => Some(Operation::Ld(Operand8::L, Operand8::A)),
            0x70 => Some(Operation::Ld(Operand8::AtHl, Operand8::B)),
            0x71 => Some(Operation::Ld(Operand8::AtHl, Operand8::C)),
            0x72 => Some(Operation::Ld(Operand8::AtHl, Operand8::D)),
            0x73 => Some(Operation::Ld(Operand8::AtHl, Operand8::E)),
            0x74 => Some(Operation::Ld(Operand8::AtHl, Operand8::H)),
            0x75 => Some(Operation::Ld(Operand8::AtHl, Operand8::L)),
            0x76 => Some(Operation::Halt),
            0x77 => Some(Operation::Ld(Operand8::AtHl, Operand8::A)),
            0x78 => Some(Operation::Ld(Operand8::A, Operand8::B)),
            0x79 => Some(Operation::Ld(Operand8::A, Operand8::C)),
            0x7A => Some(Operation::Ld(Operand8::A, Operand8::D)),
            0x7B => Some(Operation::Ld(Operand8::A, Operand8::E)),
            0x7C => Some(Operation::Ld(Operand8::A, Operand8::H)),
            0x7D => Some(Operation::Ld(Operand8::A, Operand8::L)),
            0x7E => Some(Operation::Ld(Operand8::A, Operand8::AtHl)),
            0x7F => Some(Operation::Ld(Operand8::A, Operand8::A)),
            0x80 => Some(Operation::Alu(AluOp::Add, Operand8::B)),
            0x81 => Some(Operation::Alu(AluOp::Add, Operand8::C)),
            0x82 => Some(Operation::Alu(AluOp::Add, Operand8::D)),
            0x83 => Some(Operation::Alu(AluOp::Add, Operand8::E)),
            0x84 => Some(Operation::Alu(AluOp::Add, Operand8::H)),
            0x85 => Some(Operation::Alu(AluOp::Add, Operand8::L)),
            0x86 => Some(Operation::Alu(AluOp::Add, Operand8::AtHl)),
            0x87 => Some(Operation::Alu(AluOp::Add, Operand8::A)),
            0x88 => Some(Operation::Alu(AluOp::Adc, Operand8::B)),
            0x89 => Some(Operation::Alu(AluOp::Adc, Operand8::C)),
            0x8A => Some(Operation::Alu(AluOp::Adc, Operand8::D)),
            0x8B => Some(Operation::Alu(AluOp::Adc, Operand8::E)),
            0x8C => Some(Operation::Alu(AluOp::Adc, Operand8::H)),
            0x8D => Some(Operation::Alu(AluOp::Adc, Operand8::L)),
            0x8E => Some(Operation::Alu(AluOp::Adc, Operand8::AtHl)),
            0x8F => Some(Operation::Alu(AluOp::Adc, Operand8::A)),
            0x90 => Some(Operation::Alu(AluOp::Sub, Operand8::B)),
            0x91 => Some(Operation::Alu(AluOp::Sub, Operand8::C)),
            0x92 => Some(Operation::Alu(AluOp::Sub, Operand8::D)),
            0x93 => Some(Operation::Alu(AluOp::Sub, Operand8::E)),
            0x94 => Some(Operation::Alu(AluOp::Sub, Operand8::H)),
            0x95 => Some(Operation::Alu(AluOp::Sub, Operand8::L)),
            0x96 => Some(Operation::Alu(AluOp::Sub, Operand8::AtHl)),
            0x97 => Some(Operation::Alu(AluOp::Sub, Operand8::A)),
            0x98 => Some(Operation::Alu(AluOp::Sbc, Operand8::B)),
            0x99 => Some(Operation::Alu(AluOp::Sbc, Operand8::C)),
            0x9A => Some(Operation::Alu(AluOp::Sbc, Operand8::D)),
            0x9B => Some(Operation::Alu(AluOp::Sbc, Operand8::E)),
            0x9C => Some(Operation::Alu(AluOp::Sbc, Operand8::H)),
            0x9D => Some(Operation::Alu(AluOp::Sbc, Operand8::L)),
            0x9E => Some(Operation::Alu(AluOp::Sbc, Operand8::AtHl)),
            0x9F => Some(Operation::Alu(AluOp::Sbc, Operand8::A)),
            0xA0 => Some(Operation::Alu(AluOp::And, Operand8::B)),
            0xA1 => Some(Operation::Alu(AluOp::And, Operand8::C)),
            0xA2 => Some(Operation::Alu(AluOp::And, Operand8::D)),
            0xA3 => Some(Operation::Alu(AluOp::And, Operand8::E)),
            0xA4 => Some(Operation::Alu(AluOp::And, Operand8::H)),
            0xA5 => Some(Operation::Alu(AluOp::And, Operand8::L)),
            0xA6 => Some(Operation::Alu(AluOp::And, Operand8::AtHl)),
            0xA7 => Some(Operation::Alu(AluOp::And, Operand8::A)),
            0xA8 => Some(Operation::Alu(AluOp::Xor, Operand8::B)),
            0xA9 => Some(Operation::Alu(AluOp::Xor, Operand8::C)),
            0xAA => Some(Operation::Alu(AluOp::Xor, Operand8::D)),
            0xAB => Some(Operation::Alu(AluOp::Xor, Operand8::E)),
            0xAC => Some(Operation::Alu(AluOp::Xor, Operand8::H)),
            0xAD => Some(Operation::Alu(AluOp::Xor, Operand8::L)),
            0xAE => Some(Operation::Alu(AluOp::Xor, Operand8::AtHl)),
            0xAF => Some(Operation::Alu(AluOp::Xor, Operand8::A)),
            0xB0 => Some(Operation::Alu(AluOp::Or, Operand8::B)),
            0xB1 => Some(Operation::Alu(AluOp::Or, Operand8::C)),
            0xB2 => Some(Operation::Alu(AluOp::Or, Operand8::D)),
            0xB3 => Some(Operation::Alu(AluOp::Or, Operand8::E)),
            0xB4 => Some(Operation::Alu(AluOp::Or, Operand8::H)),
            0xB5 => Some(Operation::Alu(AluOp::Or, Operand8::L)),
            0xB6 => Some(Operation::Alu(AluOp::Or, Operand8::AtHl)),
            0xB7 => Some(Operation::Alu(AluOp::Or, Operand8::A)),
            0xB8 => Some(Operation::Alu(AluOp::Cp, Operand8::B)),
            0xB9 => Some(Operation::Alu(AluOp::Cp, Operand8::C)),
            0xBA => Some(Operation::Alu(AluOp::Cp, Operand8::D)),
            0xBB => Some(Operation::Alu(AluOp::Cp, Operand8::E)),
            0xBC => Some(Operation::Alu(AluOp::Cp, Operand8::H)),
            0xBD => Some(Operation::Alu(AluOp::Cp, Operand8::L)),
            0xBE => Some(Operation::Alu(AluOp::Cp, Operand8::AtHl)),
            0xBF => Some(Operation::Alu(AluOp::Cp, Operand8::A)),
            0xC0 => Some(Operation::Ret(Cond::NotZero)),
            0xC1 => Some(Operation::Pop(StackPair::Bc)),
            0xC2 => Some(Operation::Jp(Cond::NotZero)),
            0xC3 => Some(Operation::Jp(Cond::Always)),
            0xC4 => Some(Operation::Call(Cond::NotZero)),
            0xC5 => Some(Operation::Push(StackPair::Bc)),
            0xC6 => Some(Operation::AluImm(AluOp::Add)),
            0xC7 => Some(Operation::Rst(0x00)),
            0xC8 => Some(Operation::Ret(Cond::Zero)),
            0xC9 => Some(Operation::Ret(Cond::Always)),
            0xCA => Some(Operation::Jp(Cond::Zero)),
            0xCB => Some(Operation::Prefix),
            0xCC => Some(Operation::Call(Cond::Zero)),
            0xCD => Some(Operation::Call(Cond::Always)),
            0xCE => Some(Operation::AluImm(AluOp::Adc)),
            0xCF => Some(Operation::Rst(0x08)),
            0xD0 => Some(Operation::Ret(Cond::NotCarry)),
            0xD1 => Some(Operation::Pop(StackPair::De)),
            0xD2 => Some(Operation::Jp(Cond::NotCarry)),
            0xD4 => Some(Operation::Call(Cond::NotCarry)),
            0xD5 => Some(Operation::Push(StackPair::De)),
            0xD6 => Some(Operation::AluImm(AluOp::Sub)),
            0xD7 => Some(Operation::Rst(0x10)),
            0xD8 => Some(Operation::Ret(Cond::Carry)),
            0xD9 => Some(Operation::Reti),
            0xDA => Some(Operation::Jp(Cond::Carry)),
            0xDC => Some(Operation::Call(Cond::Carry)),
            0xDE => Some(Operation::AluImm(AluOp::Sbc)),
            0xDF => Some(Operation::Rst(0x18)),
            0xE0 => Some(Operation::LdAInto(Indirect::HighImm)),
            0xE1 => Some(Operation::Pop(StackPair::Hl)),
            0xE2 => Some(Operation::LdAInto(Indirect::HighC)),
            0xE5 => Some(Operation::Push(StackPair::Hl)),
            0xE6 => Some(Operation::AluImm(AluOp::And)),
            0xE7 => Some(Operation::Rst(0x20)),
            0xE8 => Some(Operation::AddSpOffset),
            0xE9 => Some(Operation::JpHl),
            0xEA => Some(Operation::LdAInto(Indirect::Absolute)),
            0xEE => Some(Operation::AluImm(AluOp::Xor)),
            0xEF => Some(Operation::Rst(0x28)),
            0xF0 => Some(Operation::LdAFrom(Indirect::HighImm)),
            0xF1 => Some(Operation::Pop(StackPair::Af)),
            0xF2 => Some(Operation::LdAFrom(Indirect::HighC)),
            0xF3 => Some(Operation::Ei),
            0xF5 => Some(Operation::Push(StackPair::Af)),
            0xF6 => Some(Operation::AluImm(AluOp::Or)),
            0xF7 => Some(Operation::Rst(0x30)),
            0xF8 => Some(Operation::LdHlSpOffset),
            0xF9 => Some(Operation::LdSpHl),
            0xFA => Some(Operation::LdAFrom(Indirect::Absolute)),
            0xFB => Some(Operation::Di),
            0xFE => Some(Operation::AluImm(AluOp::Cp)),
            0xFF => Some(Operation::Rst(0x38)),
            _ => None,
        }
    }
}

/// The class of a secondary operation, from bits 7-6 of its byte.
#[allow(non_camel_case_types)]
#[derive(Debug, Clone, Copy, PartialEq, Eq, Structural)]
pub enum SecondOpType {
    ROTATE_SHIFT,
    BIT_CHECK,
    RESET,
    SET,
}

pub open spec fn second_op_type_spec(val: u8) -> SecondOpType {
    if val / 64 == 0 {
        SecondOpType::ROTATE_SHIFT
    } else if val / 64 == 1 {
        SecondOpType::BIT_CHECK
    } else if val / 64 == 2 {
        SecondOpType::RESET
    } else {
        SecondOpType::SET
    }
}

impl SecondOpType {
    pub fn from_u8(val: u8) -> (r: Self)
        ensures
            r == second_op_type_spec(val),
    {
        let bits = val / 64;
        if bits == 0 {
            SecondOpType::ROTATE_SHIFT
        } else if bits == 1 {
            SecondOpType::BIT_CHECK
        } else if bits == 2 {
            SecondOpType::RESET
        } else {
            SecondOpType::SET
        }
    }
}

/// The rotate or shift of a secondary operation, from bits 5-3 of its byte.
#[derive(Debug, Clone, Copy, PartialEq, Eq, Structural)]
pub enum SecondOpAction {
    RLC,
    RRC,
    RL,
    RR,
    SLA,
    SRA,
    SWAP,
    SRL,
}

/// Bits 5-3 of a secondary opcode byte: the rotate or shift, or the bit index.
pub open spec fn middle_field(val: u8) -> u8 {
    (val / 8) % 8
}

pub open spec fn second_op_action_spec(val: u8) -> SecondOpAction {
    let bits = middle_field(val);
    if bits == 0 {
        SecondOpAction::RLC
    } else if bits == 1 {
        SecondOpAction::RRC
    } else if bits == 2 {
        SecondOpAction::RL
    } else if bits == 3 {
        SecondOpAction::RR
    } else if bits == 4 {
        SecondOpAction::SLA
    } else if bits == 5 {
        SecondOpAction::SRA
    } else if bits == 6 {
        SecondOpAction::SWAP
    } else {
        SecondOpAction::SRL
    }
}

impl SecondOpAction {
    pub fn from_u8(val: u8) -> (r: SecondOpAction)
        ensures
            r == second_op_action_spec(val),
    {
        let bits = (val / 8) % 8;
        if bits == 0 {
            SecondOpAction::RLC
        } else if bits == 1 {
            SecondOpAction::RRC
        } else if bits == 2 {
            SecondOpAction::RL
        } else if bits == 3 {
            SecondOpAction::RR
        } else if bits == 4 {
            SecondOpAction::SLA
        } else if bits == 5 {
            SecondOpAction::SRA
        } else if bits == 6 {
            SecondOpAction::SWAP
        } else {
            SecondOpAction::SRL
        }
    }
}

/// The target of a secondary operation, from bits 2-0 of its byte.
#[allow(non_camel_case_types)]
#[derive(Debug, Clone, Copy, PartialEq, Eq, Structural)]
pub enum SecondOpRegister {
    B,
    C,
    D,
    E,
    H,
    L,
    mHL,
    A,
}

pub open spec fn second_op_register_spec(val: u8) -> SecondOpRegister {
    let bits = val % 8;
    if bits == 0 {
        SecondOpRegister::B
    } else if bits == 1 {
        SecondOpRegister::C
    } else if bits == 2 {
        SecondOpRegister::D
    } else if bits == 3 {
        SecondOpRegister::E
    } else if bits == 4 {
        SecondOpRegister::H
    } else if bits == 5 {
        SecondOpRegister::L
    } else if bits == 6 {
        SecondOpRegister::mHL
    } else {
        SecondOpRegister::A
    }
}

pub open spec fn target_operand(r: SecondOpRegister) -> Operand8 {
    match r {
        SecondOpRegister::B => Operand8::B,
        SecondOpRegister::C => Operand8::C,
        SecondOpRegister::D => Operand8::D,
        SecondOpRegister::E => Operand8::E,
        SecondOpRegister::H => Operand8::H,
        SecondOpRegister::L => Operand8::L,
        SecondOpRegister::mHL => Operand8::AtHl,
        SecondOpRegister::A => Operand8::A,
    }
}

impl SecondOpRegister {
    pub fn from_u8(val: u8) -> (r: Self)
        ensures
            r == second_op_register_spec(val),
    {
        let bits = val % 8;
        if bits == 0 {
            SecondOpRegister::B
        } else if bits == 1 {
            SecondOpRegister::C
        } else if bits == 2 {
            SecondOpRegister::D
        } else if bits == 3 {
            SecondOpRegister::E
        } else if bits == 4 {
            SecondOpRegister::H
        } else if bits == 5 {
            SecondOpRegister::L
        } else if bits == 6 {
            SecondOpRegister::mHL
        } else {
            SecondOpRegister::A
        }
    }

    /// The operand this target names.
    pub fn operand(self) -> (r: Operand8)
        ensures
            r == target_operand(self),
    {
        match self {
            SecondOpRegister::B => Operand8::B,
            SecondOpRegister::C => Operand8::C,
            SecondOpRegister::D => Operand8::D,
            SecondOpRegister::E => Operand8::E,
            SecondOpRegister::H => Operand8::H,
            SecondOpRegister::L => Operand8::L,
            SecondOpRegister::mHL => Operand8::AtHl,
            SecondOpRegister::A => Operand8::A,
        }
    }
}

} // verus!
