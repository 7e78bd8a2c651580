//! The instruction set by opcode byte: what each byte of the primary and
//! of the prefixed table stands for, with its operands and its m-cycles.
//! Immediate operands carry zero here; the decoder fills them in.
use vstd::prelude::*;
use crate::cpu::isa::{Cond, Instr, Opcode, Operand, Reg};

verus! {

/// The 8-bit operand that the low three bits of an opcode select.
pub open spec fn spec_r8(code: u8) -> Operand {
    match code % 8 {
        0 => Operand::Reg(Reg::B),
        1 => Operand::Reg(Reg::C),
        2 => Operand::Reg(Reg::D),
        3 => Operand::Reg(Reg::E),
        4 => Operand::Reg(Reg::H),
        5 => Operand::Reg(Reg::L),
        6 => Operand::RegMem(Reg::HL),
        _ => Operand::Reg(Reg::A),
    }
}

pub fn r8(code: u8) -> (o: Operand)
    ensures
        o == spec_r8(code),
{
    match code % 8 {
        0 => Operand::Reg(Reg::B),
        1 => Operand::Reg(Reg::C),
        2 => Operand::Reg(Reg::D),
        3 => Operand::Reg(Reg::E),
        4 => Operand::Reg(Reg::H),
        5 => Operand::Reg(Reg::L),
        6 => Operand::RegMem(Reg::HL),
        _ => Operand::Reg(Reg::A),
    }
}

/// The arithmetic operation that bits 3 to 5 of an opcode select.
pub open spec fn spec_alu_op(code: u8) -> Opcode {
    match (code / 8) % 8 {
        0 => Opcode::Add,
        1 => Opcode::Adc,
        2 => Opcode::Sub,
        3 => Opcode::Sbc,
        4 => Opcode::And,
        5 => Opcode::Xor,
        6 => Opcode::Or,
        _ => Opcode::Cp,
    }
}

pub fn alu_op(code: u8) -> (o: Opcode)
    ensures
        o == spec_alu_op(code),
{
    match (code / 8) % 8 {
        0 => Opcode::Add,
        1 => Opcode::Adc,
        2 => Opcode::Sub,
        3 => Opcode::Sbc,
        4 => Opcode::And,
        5 => Opcode::Xor,
        6 => Opcode::Or,
        _ => Opcode::Cp,
    }
}

/// The shift or rotation that bits 3 to 5 of a prefixed opcode select.
pub open spec fn spec_shift_op(code: u8) -> Opcode {
    match (code / 8) % 8 {
        0 => Opcode::Rlc,
        1 => Opcode::Rrc,
        2 => Opcode::Rl,
        3 => Opcode::Rr,
        4 => Opcode::Sla,
        5 => Opcode::Sra,
        6 => Opcode::Swap,
        _ => Opcode::Srl,
    }
}

pub fn shift_op(code: u8) -> (o: Opcode)
    ensures
        o == spec_shift_op(code),
{
    match (code / 8) % 8 {
        0 => Opcode::Rlc,
        1 => Opcode::Rrc,
        2 => Opcode::Rl,
        3 => Opcode::Rr,
        4 => Opcode::Sla,
        5 => Opcode::Sra,
        6 => Opcode::Swap,
        _ => Opcode::Srl,
    }
}

/// The instructions of the rows 0x40 to 0xBF of the primary table: loads
/// between 8-bit operands, HALT in the place of `LD [HL], [HL]`, and
/// arithmetic on A. An operand in memory costs one more m-cycle.
pub open spec fn spec_regular_instr(code: u8) -> Instr {
    let mem: u8 = if code % 8 == 6 {
        2
    } else {
        1
    };
    if code == 0x76 {
        Instr {
            op: Opcode::Halt,
            op1: Operand::Absent,
            op2: Operand::Absent,
            mcycles: 1,
            branch_mcycles: 1,
        }
    } else if code < 0x80 {
        let m: u8 = if (code / 8) % 8 == 6 {
            2
        } else {
            mem
        };
        Instr {
            op: Opcode::Ld,
            op1: spec_r8((code / 8) as u8),
            op2: spec_r8(code),
            mcycles: m,
            branch_mcycles: m,
        }
    } else {
        Instr {
            op: spec_alu_op(code),
            op1: Operand::Reg(Reg::A),
            op2: spec_r8(code),
            mcycles: mem,
            branch_mcycles: mem,
        }
    }
}

fn regular_instr(code: u8) -> (ins: Instr)
    ensures
        ins == spec_regular_instr(code),
{
    let mem: u8 = if code % 8 == 6 {
        2
    } else {
        1
    };
    if code == 0x76 {
        Instr {
            op: Opcode::Halt,
            op1: Operand::Absent,
            op2: Operand::Absent,
            mcycles: 1,
            branch_mcycles: 1,
        }
    } else if code < 0x80 {
        let m: u8 = if (code / 8) % 8 == 6 {
            2
        } else {
            mem
        };
        Instr { op: Opcode::Ld, op1: r8(code / 8), op2: r8(code), mcycles: m, branch_mcycles: m }
    } else {
        Instr {
            op: alu_op(code),
            op1: Operand::Reg(Reg::A),
            op2: r8(code),
            mcycles: mem,
            branch_mcycles: mem,
        }
    }
}

/// The instruction that byte `code` of the primary table stands for.
/// `mcycles` is what it takes when a branch is not taken, `branch_mcycles`
/// what it takes when it is.
pub open spec fn spec_instr(code: u8) -> Instr {
    match code {
        0x00 => Instr { op: Opcode::Nop, op1: Operand::Absent, op2: Operand::Absent, mcycles: 1, branch_mcycles: 1 },
        0x01 => Instr { op: Opcode::Ld, op1: Operand::Reg(Reg::BC), op2: Operand::U16(0), mcycles: 3, branch_mcycles: 3 },
        0x02 => Instr { op: Opcode::Ld, op1: Operand::RegMem(Reg::BC), op2: Operand::Reg(Reg::A), mcycles: 2, branch_mcycles: 2 },
        0x03 => Instr { op: Opcode::Inc, op1: Operand::Reg(Reg::BC), op2: Operand::Absent, mcycles: 2, branch_mcycles: 2 },
        0x04 => Instr { op: Opcode::Inc, op1: Operand::Reg(Reg::B), op2: Operand::Absent, mcycles: 1, branch_mcycles: 1 },
        0x05 => Instr { op: Opcode::Dec, op1: Operand::Reg(Reg::B), op2: Operand::Absent, mcycles: 1, branch_mcycles: 1 },
        0x06 => Instr { op: Opcode::Ld, op1: Operand::Reg(Reg::B), op2: Operand::U8(0), mcycles: 2, branch_mcycles: 2 },
        0x07 => Instr { op: Opcode::Rlca, op1: Operand::Absent, op2: Operand::Absent, mcycles: 1, branch_mcycles: 1 },
        0x08 => Instr { op: Opcode::Ld, op1: Operand::A16(0), op2: Operand::Reg(Reg::SP), mcycles: 5, branch_mcycles: 5 },
        0x09 => Instr { op: Opcode::Add, op1: Operand::Reg(Reg::HL), op2: Operand::Reg(Reg::BC), mcycles: 2, branch_mcycles: 2 },
        0x0A => Instr { op: Opcode::Ld, op1: Operand::Reg(Reg::A), op2: Operand::RegMem(Reg::BC), mcycles: 2, branch_mcycles: 2 },
        0x0B => Instr { op: Opcode::Dec, op1: Operand::Reg(Reg::BC), op2: Operand::Absent, mcycles: 2, branch_mcycles: 2 },
        0x0C => Instr { op: Opcode::Inc, op1: Operand::Reg(Reg::C), op2: Operand::Absent, mcycles: 1, branch_mcycles: 1 },
        0x0D => Instr { op: Opcode::Dec, op1: Operand::Reg(Reg::C), op2: Operand::Absent, mcycles: 1, branch_mcycles: 1 },
        0x0E => Instr { op: Opcode::Ld, op1: Operand::Reg(Reg::C), op2: Operand::U8(0), mcycles: 2, branch_mcycles: 2 },
        0x0F => Instr { op: Opcode::Rrca, op1: Operand::Absent, op2: Operand::Absent, mcycles: 1, branch_mcycles: 1 },
        0x10 => Instr { op: Opcode::Stop, op1: Operand::U8(0), op2: Operand::Absent, mcycles: 1, branch_mcycles: 1 },
        0x11 => Instr { op: Opcode::Ld, op1: Operand::Reg(Reg::DE), op2: Operand::U16(0), mcycles: 3, branch_mcycles: 3 },
        0x12 => Instr { op: Opcode::Ld, op1: Operand::RegMem(Reg::DE), op2: Operand::Reg(Reg::A), mcycles: 2, branch_mcycles: 2 },
        0x13 => Instr { op: Opcode::Inc, op1: Operand::Reg(Reg::DE), op2: Operand::Absent, mcycles: 2, branch_mcycles: 2 },
        0x14 => Instr { op: Opcode::Inc, op1: Operand::Reg(Reg::D), op2: Operand::Absent, mcycles: 1, branch_mcycles: 1 },
        0x15 => Instr { op: Opcode::Dec, op1: Operand::Reg(Reg::D), op2: Operand::Absent, mcycles: 1, branch_mcycles: 1 },
        0x16 => Instr { op: Opcode::Ld, op1: Operand::Reg(Reg::D), op2: Operand::U8(0), mcycles: 2, branch_mcycles: 2 },
        0x17 => Instr { op: Opcode::Rla, op1: Operand::Absent, op2: Operand::Absent, mcycles: 1, branch_mcycles: 1 },
        0x18 => Instr { op: Opcode::Jr, op1: Operand::I8(0), op2: Operand::Absent, mcycles: 3, branch_mcycles: 3 },
        0x19 => Instr { op: Opcode::Add, op1: Operand::Reg(Reg::HL), op2: Operand::Reg(Reg::DE), mcycles: 2, branch_mcycles: 2 },
        0x1A => Instr { op: Opcode::Ld, op1: Operand::Reg(Reg::A), op2: Operand::RegMem(Reg::DE), mcycles: 2, branch_mcycles: 2 },
        0x1B => Instr { op: Opcode::Dec, op1: Operand::Reg(Reg::DE), op2: Operand::Absent, mcycles: 2, branch_mcycles: 2 },
        0x1C => Instr { op: Opcode::Inc, op1: Operand::Reg(Reg::E), op2: Operand::Absent, mcycles: 1, branch_mcycles: 1 },
        0x1D => Instr { op: Opcode::Dec, op1: Operand::Reg(Reg::E), op2: Operand::Absent, mcycles: 1, branch_mcycles: 1 },
        0x1E => Instr { op: Opcode::Ld, op1: Operand::Reg(Reg::E), op2: Operand::U8(0), mcycles: 2, branch_mcycles: 2 },
        0x1F => Instr { op: Opcode::Rra, op1: Operand::Absent, op2: Operand::Absent, mcycles: 1, branch_mcycles: 1 },
        0x20 => Instr { op: Opcode::Jr, op1: Operand::Cond(Cond::NZ), op2: Operand::I8(0), mcycles: 2, branch_mcycles: 3 },
        0x21 => Instr { op: Opcode::Ld, op1: Operand::Reg(Reg::HL), op2: Operand::U16(0), mcycles: 3, branch_mcycles: 3 },
        0x22 => Instr { op: Opcode::Ld, op1: Operand::RegMem(Reg::HLinc), op2: Operand::Reg(Reg::A), mcycles: 2, branch_mcycles: 2 },
        0x23 => Instr { op: Opcode::Inc, op1: Operand::Reg(Reg::HL), op2: Operand::Absent, mcycles: 2, branch_mcycles: 2 },
        0x24 => Instr { op: Opcode::Inc, op1: Operand::Reg(Reg::H), op2: Operand::Absent, mcycles: 1, branch_mcycles: 1 },
        0x25 => Instr { op: Opcode::Dec, op1: Operand::Reg(Reg::H), op2: Operand::Absent, mcycles: 1, branch_mcycles: 1 },
        0x26 => Instr { op: Opcode::Ld, op1: Operand::Reg(Reg::H), op2: Operand::U8(0), mcycles: 2, branch_mcycles: 2 },
        0x27 => Instr { op: Opcode::Daa, op1: Operand::Absent, op2: Operand::Absent, mcycles: 1, branch_mcycles: 1 },
        0x28 => Instr { op: Opcode::Jr, op1: Operand::Cond(Cond::Z), op2: Operand::I8(0), mcycles: 2, branch_mcycles: 3 },
        0x29 => Instr { op: Opcode::Add, op1: Operand::Reg(Reg::HL), op2: Operand::Reg(Reg::HL), mcycles: 2, branch_mcycles: 2 },
        0x2A => Instr { op: Opcode::Ld, op1: Operand::Reg(Reg::A), op2: Operand::RegMem(Reg::HLinc), mcycles: 2, branch_mcycles: 2 },
        0x2B => Instr { op: Opcode::Dec, op1: Operand::Reg(Reg::HL), op2: Operand::Absent, mcycles: 2, branch_mcycles: 2 },
        0x2C => Instr { op: Opcode::Inc, op1: Operand::Reg(Reg::L), op2: Operand::Absent, mcycles: 1, branch_mcycles: 1 },
        0x2D => Instr { op: Opcode::Dec, op1: Operand::Reg(Reg::L), op2: Operand::Absent, mcycles: 1, branch_mcycles: 1 },
        0x2E => Instr { op: Opcode::Ld, op1: Operand::Reg(Reg::L), op2: Operand::U8(0), mcycles: 2, branch_mcycles: 2 },
        0x2F => Instr { op: Opcode::Cpl, op1: Operand::Absent, op2: Operand::Absent, mcycles: 1, branch_mcycles: 1 },
        0x30 => Instr { op: Opcode::Jr, op1: Operand::Cond(Cond::NC), op2: Operand::I8(0), mcycles: 2, branch_mcycles: 3 },
        0x31 => Instr { op: Opcode::Ld, op1: Operand::Reg(Reg::SP), op2: Operand::U16(0), mcycles: 3, branch_mcycles: 3 },
        0x32 => Instr { op: Opcode::Ld, op1: Operand::RegMem(Reg::HLdec), op2: Operand::Reg(Reg::A), mcycles: 2, branch_mcycles: 2 },
        0x33 => Instr { op: Opcode::Inc, op1: Operand::Reg(Reg::SP), op2: Operand::Absent, mcycles: 2, branch_mcycles: 2 },
        0x34 => Instr { op: Opcode::Inc, op1: Operand::RegMem(Reg::HL), op2: Operand::Absent, mcycles: 3, branch_mcycles: 3 },
        0x35 => Instr { op: Opcode::Dec, op1: Operand::RegMem(Reg::HL), op2: Operand::Absent, mcycles: 3, branch_mcycles: 3 },
        0x36 => Instr { op: Opcode::Ld, op1: Operand::RegMem(Reg::HL), op2: Operand::U8(0), mcycles: 3, branch_mcycles: 3 },
        0x37 => Instr { op: Opcode::Scf, op1: Operand::Absent, op2: Operand::Absent, mcycles: 1, branch_mcycles: 1 },
        0x38 => Instr { op: Opcode::Jr, op1: Operand::Cond(Cond::C), op2: Operand::I8(0), mcycles: 2, branch_mcycles: 3 },
        0x39 => Instr { op: Opcode::Add, op1: Operand::Reg(Reg::HL), op2: Operand::Reg(Reg::SP), mcycles: 2, branch_mcycles: 2 },
        0x3A => Instr { op: Opcode::Ld, op1: Operand::Reg(Reg::A), op2: Operand::RegMem(Reg::HLdec), mcycles: 2, branch_mcycles: 2 },
        0x3B => Instr { op: Opcode::Dec, op1: Operand::Reg(Reg::SP), op2: Operand::Absent, mcycles: 2, branch_mcycles: 2 },
        0x3C => Instr { op: Opcode::Inc, op1: Operand::Reg(Reg::A), op2: Operand::Absent, mcycles: 1, branch_mcycles: 1 },
        0x3D => Instr { op: Opcode::Dec, op1: Operand::Reg(Reg::A), op2: Operand::Absent, mcycles: 1, branch_mcycles: 1 },
        0x3E => Instr { op: Opcode::Ld, op1: Operand::Reg(Reg::A), op2: Operand::U8(0), mcycles: 2, branch_mcycles: 2 },
        0x3F => Instr { op: Opcode::Ccf, op1: Operand::Absent, op2: Operand::Absent, mcycles: 1, branch_mcycles: 1 },
        0xC0 => Instr { op: Opcode::Ret, op1: Operand::Cond(Cond::NZ), op2: Operand::Absent, mcycles: 2, branch_mcycles: 5 },
        0xC1 => Instr { op: Opcode::Pop, op1: Operand::Reg(Reg::BC), op2: Operand::Absent, mcycles: 3, branch_mcycles: 3 },
        0xC2 => Instr { op: Opcode::Jp, op1: Operand::Cond(Cond::NZ), op2: Operand::U16(0), mcycles: 3, branch_mcycles: 4 },
        0xC3 => Instr { op: Opcode::Jp, op1: Operand::U16(0), op2: Operand::Absent, mcycles: 4, branch_mcycles: 4 },
        0xC4 => Instr { op: Opcode::Call, op1: Operand::Cond(Cond::NZ), op2: Operand::U16(0), mcycles: 3, branch_mcycles: 6 },
        0xC5 => Instr { op: Opcode::Push, op1: Operand::Reg(Reg::BC), op2: Operand::Absent, mcycles: 4, branch_mcycles: 4 },
        0xC6 => Instr { op: Opcode::Add, op1: Operand::Reg(Reg::A), op2: Operand::U8(0), mcycles: 2, branch_mcycles: 2 },
        0xC7 => Instr { op: Opcode::Rst, op1: Operand::Tgt(0x00), op2: Operand::Absent, mcycles: 4, branch_mcycles: 4 },
        0xC8 => Instr { op: Opcode::Ret, op1: Operand::Cond(Cond::Z), op2: Operand::Absent, mcycles: 2, branch_mcycles: 5 },
        0xC9 => Instr { op: Opcode::Ret, op1: Operand::Absent, op2: Operand::Absent, mcycles: 4, branch_mcycles: 4 },
        0xCA => Instr { op: Opcode::Jp, op1: Operand::Cond(Cond::Z), op2: Operand::U16(0), mcycles: 3, branch_mcycles: 4 },
        0xCB => Instr { op: Opcode::Prefix, op1: Operand::Absent, op2: Operand::Absent, mcycles: 1, branch_mcycles: 1 },
        0xCC => Instr { op: Opcode::Call, op1: Operand::Cond(Cond::Z), op2: Operand::U16(0), mcycles: 3, branch_mcycles: 6 },
        0xCD => Instr { op: Opcode::Call, op1: Operand::U16(0), op2: Operand::Absent, mcycles: 6, branch_mcycles: 6 },
        0xCE => Instr { op: Opcode::Adc, op1: Operand::Reg(Reg::A), op2: Operand::U8(0), mcycles: 2, branch_mcycles: 2 },
        0xCF => Instr { op: Opcode::Rst, op1: Operand::Tgt(0x08), op2: Operand::Absent, mcycles: 4, branch_mcycles: 4 },
        0xD0 => Instr { op: Opcode::Ret, op1: Operand::Cond(Cond::NC), op2: Operand::Absent, mcycles: 2, branch_mcycles: 5 },
        0xD1 => Instr { op: Opcode::Pop, op1: Operand::Reg(Reg::DE), op2: Operand::Absent, mcycles: 3, branch_mcycles: 3 },
        0xD2 => Instr { op: Opcode::Jp, op1: Operand::Cond(Cond::NC), op2: Operand::U16(0), mcycles: 3, branch_mcycles: 4 },
        0xD3 => Instr { op: Opcode::Illegal, op1: Operand::Absent, op2: Operand::Absent, mcycles: 1, branch_mcycles: 1 },
        0xD4 => Instr { op: Opcode::Call, op1: Operand::Cond(Cond::NC), op2: Operand::U16(0), mcycles: 3, branch_mcycles: 6 },
        0xD5 => Instr { op: Opcode::Push, op1: Operand::Reg(Reg::DE), op2: Operand::Absent, mcycles: 4, branch_mcycles: 4 },
        0xD6 => Instr { op: Opcode::Sub, op1: Operand::Reg(Reg::A), op2: Operand::U8(0), mcycles: 2, branch_mcycles: 2 },
        0xD7 => Instr { op: Opcode::Rst, op1: Operand::Tgt(0x10), op2: Operand::Absent, mcycles: 4, branch_mcycles: 4 },
        0xD8 => Instr { op: Opcode::Ret, op1: Operand::Cond(Cond::C), op2: Operand::Absent, mcycles: 2, branch_mcycles: 5 },
        0xD9 => Instr { op: Opcode::Reti, op1: Operand::Absent, op2: Operand::Absent, mcycles: 4, branch_mcycles: 4 },
        0xDA => Instr { op: Opcode::Jp, op1: Operand::Cond(Cond::C), op2: Operand::U16(0), mcycles: 3, branch_mcycles: 4 },
        0xDB => Instr { op: Opcode::Illegal, op1: Operand::Absent, op2: Operand::Absent, mcycles: 1, branch_mcycles: 1 },
        0xDC => Instr { op: Opcode::Call, op1: Operand::Cond(Cond::C), op2: Operand::U16(0), mcycles: 3, branch_mcycles: 6 },
        0xDD => Instr { op: Opcode::Illegal, op1: Operand::Absent, op2: Operand::Absent, mcycles: 1, branch_mcycles: 1 },
        0xDE => Instr { op: Opcode::Sbc, op1: Operand::Reg(Reg::A), op2: Operand::U8(0), mcycles: 2, branch_mcycles: 2 },
        0xDF => Instr { op: Opcode::Rst, op1: Operand::Tgt(0x18), op2: Operand::Absent, mcycles: 4, branch_mcycles: 4 },
        0xE0 => Instr { op: Opcode::Ldh, op1: Operand::A8(0), op2: Operand::Reg(Reg::A), mcycles: 3, branch_mcycles: 3 },
        0xE1 => Instr { op: Opcode::Pop, op1: Operand::Reg(Reg::HL), op2: Operand::Absent, mcycles: 3, branch_mcycles: 3 },
        0xE2 => Instr { op: Opcode::Ld, op1: Operand::RegMem(Reg::C), op2: Operand::Reg(Reg::A), mcycles: 2, branch_mcycles: 2 },
        0xE3 => Instr { op: Opcode::Illegal, op1: Operand::Absent, op2: Operand::Absent, mcycles: 1, branch_mcycles: 1 },
        0xE4 => Instr { op: Opcode::Illegal, op1: Operand::Absent, op2: Operand::Absent, mcycles: 1, branch_mcycles: 1 },
        0xE5 => Instr { op: Opcode::Push, op1: Operand::Reg(Reg::HL), op2: Operand::Absent, mcycles: 4, branch_mcycles: 4 },
        0xE6 => Instr { op: Opcode::And, op1: Operand::Reg(Reg::A), op2: Operand::U8(0), mcycles: 2, branch_mcycles: 2 },
        0xE7 => Instr { op: Opcode::Rst, op1: Operand::Tgt(0x20), op2: Operand::Absent, mcycles: 4, branch_mcycles: 4 },
        0xE8 => Instr { op: Opcode::Add, op1: Operand::Reg(Reg::SP), op2: Operand::I8(0), mcycles: 4, branch_mcycles: 4 },
        0xE9 => Instr { op: Opcode::Jp, op1: Operand::Reg(Reg::HL), op2: Operand::Absent, mcycles: 1, branch_mcycles: 1 },
        0xEA => Instr { op: Opcode::Ld, op1: Operand::A16(0), op2: Operand::Reg(Reg::A), mcycles: 4, branch_mcycles: 4 },
        0xEB => Instr { op: Opcode::Illegal, op1: Operand::Absent, op2: Operand::Absent, mcycles: 1, branch_mcycles: 1 },
        0xEC => Instr { op: Opcode::Illegal, op1: Operand::Absent, op2: Operand::Absent, mcycles: 1, branch_mcycles: 1 },
        0xED => Instr { op: Opcode::Illegal, op1: Operand::Absent, op2: Operand::Absent, mcycles: 1, branch_mcycles: 1 },
        0xEE => Instr { op: Opcode::Xor, op1: Operand::Reg(Reg::A), op2: Operand::U8(0), mcycles: 2, branch_mcycles: 2 },
        0xEF => Instr { op: Opcode::Rst, op1: Operand::Tgt(0x28), op2: Operand::Absent, mcycles: 4, branch_mcycles: 4 },
        0xF0 => Instr { op: Opcode::Ldh, op1: Operand::Reg(Reg::A), op2: Operand::A8(0), mcycles: 3, branch_mcycles: 3 },
        0xF1 => Instr { op: Opcode::Pop, op1: Operand::Reg(Reg::AF), op2: Operand::Absent, mcycles: 3, branch_mcycles: 3 },
        0xF2 => Instr { op: Opcode::Ld, op1: Operand::Reg(Reg::A), op2: Operand::RegMem(Reg::C), mcycles: 2, branch_mcycles: 2 },
        0xF3 => Instr { op: Opcode::Di, op1: Operand::Absent, op2: Operand::Absent, mcycles: 1, branch_mcycles: 1 },
        0xF4 => Instr { op: Opcode::Illegal, op1: Operand::Absent, op2: Operand::Absent, mcycles: 1, branch_mcycles: 1 },
        0xF5 => Instr { op: Opcode::Push, op1: Operand::Reg(Reg::AF), op2: Operand::Absent, mcycles: 4, branch_mcycles: 4 },
        0xF6 => Instr { op: Opcode::Or, op1: Operand::Reg(Reg::A), op2: Operand::U8(0), mcycles: 2, branch_mcycles: 2 },
        0xF7 => Instr { op: Opcode::Rst, op1: Operand::Tgt(0x30), op2: Operand::Absent, mcycles: 4, branch_mcycles: 4 },
        0xF8 => Instr { op: Opcode::Ld, op1: Operand::Reg(Reg::HL), op2: Operand::SPplusI8(0), mcycles: 3, branch_mcycles: 3 },
        0xF9 => Instr { op: Opcode::Ld, op1: Operand::Reg(Reg::SP), op2: Operand::Reg(Reg::HL), mcycles: 2, branch_mcycles: 2 },
        0xFA => Instr { op: Opcode::Ld, op1: Operand::Reg(Reg::A), op2: Operand::A16(0), mcycles: 4, branch_mcycles: 4 },
        0xFB => Instr { op: Opcode::Ei, op1: Operand::Absent, op2: Operand::Absent, mcycles: 1, branch_mcycles: 1 },
        0xFC => Instr { op: Opcode::Illegal, op1: Operand::Absent, op2: Operand::Absent, mcycles: 1, branch_mcycles: 1 },
        0xFD => Instr { op: Opcode::Illegal, op1: Operand::Absent, op2: Operand::Absent, mcycles: 1, branch_mcycles: 1 },
        0xFE => Instr { op: Opcode::Cp, op1: Operand::Reg(Reg::A), op2: Operand::U8(0), mcycles: 2, branch_mcycles: 2 },
        0xFF => Instr { op: Opcode::Rst, op1: Operand::Tgt(0x38), op2: Operand::Absent, mcycles: 4, branch_mcycles: 4 },
        _ => spec_regular_instr(code),
    }
}

pub fn instr_table(code: u8) -> (ins: Instr)
    ensures
        ins == spec_instr(code),
{
    match code {
        0x00 => Instr { op: Opcode::Nop, op1: Operand::Absent, op2: Operand::Absent, mcycles: 1, branch_mcycles: 1 },
        0x01 => Instr { op: Opcode::Ld, op1: Operand::Reg(Reg::BC), op2: Operand::U16(0), mcycles: 3, branch_mcycles: 3 },
        0x02 => Instr { op: Opcode::Ld, op1: Operand::RegMem(Reg::BC), op2: Operand::Reg(Reg::A), mcycles: 2, branch_mcycles: 2 },
        0x03 => Instr { op: Opcode::Inc, op1: Operand::Reg(Reg::BC), op2: Operand::Absent, mcycles: 2, branch_mcycles: 2 },
        0x04 => Instr { op: Opcode::Inc, op1: Operand::Reg(Reg::B), op2: Operand::Absent, mcycles: 1, branch_mcycles: 1 },
        0x05 => Instr { op: Opcode::Dec, op1: Operand::Reg(Reg::B), op2: Operand::Absent, mcycles: 1, branch_mcycles: 1 },
        0x06 => Instr { op: Opcode::Ld, op1: Operand::Reg(Reg::B), op2: Operand::U8(0), mcycles: 2, branch_mcycles: 2 },
        0x07 => Instr { op: Opcode::Rlca, op1: Operand::Absent, op2: Operand::Absent, mcycles: 1, branch_mcycles: 1 },
        0x08 => Instr { op: Opcode::Ld, op1: Operand::A16(0), op2: Operand::Reg(Reg::SP), mcycles: 5, branch_mcycles: 5 },
        0x09 => Instr { op: Opcode::Add, op1: Operand::Reg(Reg::HL), op2: Operand::Reg(Reg::BC), mcycles: 2, branch_mcycles: 2 },
        0x0A => Instr { op: Opcode::Ld, op1: Operand::Reg(Reg::A), op2: Operand::RegMem(Reg::BC), mcycles: 2, branch_mcycles: 2 },
        0x0B => Instr { op: Opcode::Dec, op1: Operand::Reg(Reg::BC), op2: Operand::Absent, mcycles: 2, branch_mcycles: 2 },
        0x0C => Instr { op: Opcode::Inc, op1: Operand::Reg(Reg::C), op2: Operand::Absent, mcycles: 1, branch_mcycles: 1 },
        0x0D => Instr { op: Opcode::Dec, op1: Operand::Reg(Reg::C), op2: Operand::Absent, mcycles: 1, branch_mcycles: 1 },
        0x0E => Instr { op: Opcode::Ld, op1: Operand::Reg(Reg::C), op2: Operand::U8(0), mcycles: 2, branch_mcycles: 2 },
        0x0F => Instr { op: Opcode::Rrca, op1: Operand::Absent, op2: Operand::Absent, mcycles: 1, branch_mcycles: 1 },
        0x10 => Instr { op: Opcode::Stop, op1: Operand::U8(0), op2: Operand::Absent, mcycles: 1, branch_mcycles: 1 },
        0x11 => Instr { op: Opcode::Ld, op1: Operand::Reg(Reg::DE), op2: Operand::U16(0), mcycles: 3, branch_mcycles: 3 },
        0x12 => Instr { op: Opcode::Ld, op1: Operand::RegMem(Reg::DE), op2: Operand::Reg(Reg::A), mcycles: 2, branch_mcycles: 2 },
        0x13 => Instr { op: Opcode::Inc, op1: Operand::Reg(Reg::DE), op2: Operand::Absent, mcycles: 2, branch_mcycles: 2 },
        0x14 => Instr { op: Opcode::Inc, op1: Operand::Reg(Reg::D), op2: Operand::Absent, mcycles: 1, branch_mcycles: 1 },
        0x15 => Instr { op: Opcode::Dec, op1: Operand::Reg(Reg::D), op2: Operand::Absent, mcycles: 1, branch_mcycles: 1 },
        0x16 => Instr { op: Opcode::Ld, op1: Operand::Reg(Reg::D), op2: Operand::U8(0), mcycles: 2, branch_mcycles: 2 },
        0x17 => Instr { op: Opcode::Rla, op1: Operand::Absent, op2: Operand::Absent, mcycles: 1, branch_mcycles: 1 },
        0x18 => Instr { op: Opcode::Jr, op1: Operand::I8(0), op2: Operand::Absent, mcycles: 3, branch_mcycles: 3 },
        0x19 => Instr { op: Opcode::Add, op1: Operand::Reg(Reg::HL), op2: Operand::Reg(Reg::DE), mcycles: 2, branch_mcycles: 2 },
        0x1A => Instr { op: Opcode::Ld, op1: Operand::Reg(Reg::A), op2: Operand::RegMem(Reg::DE), mcycles: 2, branch_mcycles: 2 },
        0x1B => Instr { op: Opcode::Dec, op1: Operand::Reg(Reg::DE), op2: Operand::Absent, mcycles: 2, branch_mcycles: 2 },
        0x1C => Instr { op: Opcode::Inc, op1: Operand::Reg(Reg::E), op2: Operand::Absent, mcycles: 1, branch_mcycles: 1 },
        0x1D => Instr { op: Opcode::Dec, op1: Operand::Reg(Reg::E), op2: Operand::Absent, mcycles: 1, branch_mcycles: 1 },
        0x1E => Instr { op: Opcode::Ld, op1: Operand::Reg(Reg::E), op2: Operand::U8(0), mcycles: 2, branch_mcycles: 2 },
        0x1F => Instr { op: Opcode::Rra, op1: Operand::Absent, op2: Operand::Absent, mcycles: 1, branch_mcycles: 1 },
        0x20 => Instr { op: Opcode::Jr, op1: Operand::Cond(Cond::NZ), op2: Operand::I8(0), mcycles: 2, branch_mcycles: 3 },
        0x21 => Instr { op: Opcode::Ld, op1: Operand::Reg(Reg::HL), op2: Operand::U16(0), mcycles: 3, branch_mcycles: 3 },
        0x22 => Instr { op: Opcode::Ld, op1: Operand::RegMem(Reg::HLinc), op2: Operand::Reg(Reg::A), mcycles: 2, branch_mcycles: 2 },
        0x23 => Instr { op: Opcode::Inc, op1: Operand::Reg(Reg::HL), op2: Operand::Absent, mcycles: 2, branch_mcycles: 2 },
        0x24 => Instr { op: Opcode::Inc, op1: Operand::Reg(Reg::H), op2: Operand::Absent, mcycles: 1, branch_mcycles: 1 },
        0x25 => Instr { op: Opcode::Dec, op1: Operand::Reg(Reg::H), op2: Operand::Absent, mcycles: 1, branch_mcycles: 1 },
        0x26 => Instr { op: Opcode::Ld, op1: Operand::Reg(Reg::H), op2: Operand::U8(0), mcycles: 2, branch_mcycles: 2 },
        0x27 => Instr { op: Opcode::Daa, op1: Operand::Absent, op2: Operand::Absent, mcycles: 1, branch_mcycles: 1 },
        0x28 => Instr { op: Opcode::Jr, op1: Operand::Cond(Cond::Z), op2: Operand::I8(0), mcycles: 2, branch_mcycles: 3 },
        0x29 => Instr { op: Opcode::Add, op1: Operand::Reg(Reg::HL), op2: Operand::Reg(Reg::HL), mcycles: 2, branch_mcycles: 2 },
        0x2A => Instr { op: Opcode::Ld, op1: Operand::Reg(Reg::A), op2: Operand::RegMem(Reg::HLinc), mcycles: 2, branch_mcycles: 2 },
        0x2B => Instr { op: Opcode::Dec, op1: Operand::Reg(Reg::HL), op2: Operand::Absent, mcycles: 2, branch_mcycles: 2 },
        0x2C => Instr { op: Opcode::Inc, op1: Operand::Reg(Reg::L), op2: Operand::Absent, mcycles: 1, branch_mcycles: 1 },
        0x2D => Instr { op: Opcode::Dec, op1: Operand::Reg(Reg::L), op2: Operand::Absent, mcycles: 1, branch_mcycles: 1 },
        0x2E => Instr { op: Opcode::Ld, op1: Operand::Reg(Reg::L), op2: Operand::U8(0), mcycles: 2, branch_mcycles: 2 },
        0x2F => Instr { op: Opcode::Cpl, op1: Operand::Absent, op2: Operand::Absent, mcycles: 1, branch_mcycles: 1 },
        0x30 => Instr { op: Opcode::Jr, op1: Operand::Cond(Cond::NC), op2: Operand::I8(0), mcycles: 2, branch_mcycles: 3 },
        0x31 => Instr { op: Opcode::Ld, op1: Operand::Reg(Reg::SP), op2: Operand::U16(0), mcycles: 3, branch_mcycles: 3 },
        0x32 => Instr { op: Opcode::Ld, op1: Operand::RegMem(Reg::HLdec), op2: Operand::Reg(Reg::A), mcycles: 2, branch_mcycles: 2 },
        0x33 => Instr { op: Opcode::Inc, op1: Operand::Reg(Reg::SP), op2: Operand::Absent, mcycles: 2, branch_mcycles: 2 },
        0x34 => Instr { op: Opcode::Inc, op1: Operand::RegMem(Reg::HL), op2: Operand::Absent, mcycles: 3, branch_mcycles: 3 },
        0x35 => Instr { op: Opcode::Dec, op1: Operand::RegMem(Reg::HL), op2: Operand::Absent, mcycles: 3, branch_mcycles: 3 },
        0x36 => Instr { op: Opcode::Ld, op1: Operand::RegMem(Reg::HL), op2: Operand::U8(0), mcycles: 3, branch_mcycles: 3 },
        0x37 => Instr { op: Opcode::Scf, op1: Operand::Absent, op2: Operand::Absent, mcycles: 1, branch_mcycles: 1 },
        0x38 => Instr { op: Opcode::Jr, op1: Operand::Cond(Cond::C), op2: Operand::I8(0), mcycles: 2, branch_mcycles: 3 },
        0x39 => Instr { op: Opcode::Add, op1: Operand::Reg(Reg::HL), op2: Operand::Reg(Reg::SP), mcycles: 2, branch_mcycles: 2 },
        0x3A => Instr { op: Opcode::Ld, op1: Operand::Reg(Reg::A), op2: Operand::RegMem(Reg::HLdec), mcycles: 2, branch_mcycles: 2 },
        0x3B => Instr { op: Opcode::Dec, op1: Operand::Reg(Reg::SP), op2: Operand::Absent, mcycles: 2, branch_mcycles: 2 },
        0x3C => Instr { op: Opcode::Inc, op1: Operand::Reg(Reg::A), op2: Operand::Absent, mcycles: 1, branch_mcycles: 1 },
        0x3D => Instr { op: Opcode::Dec, op1: Operand::Reg(Reg::A), op2: Operand::Absent, mcycles: 1, branch_mcycles: 1 },
        0x3E => Instr { op: Opcode::Ld, op1: Operand::Reg(Reg::A), op2: Operand::U8(0), mcycles: 2, branch_mcycles: 2 },
        0x3F => Instr { op: Opcode::Ccf, op1: Operand::Absent, op2: Operand::Absent, mcycles: 1, branch_mcycles: 1 },
        0xC0 => Instr { op: Opcode::Ret, op1: Operand::Cond(Cond::NZ), op2: Operand::Absent, mcycles: 2, branch_mcycles: 5 },
        0xC1 => Instr { op: Opcode::Pop, op1: Operand::Reg(Reg::BC), op2: Operand::Absent, mcycles: 3, branch_mcycles: 3 },
        0xC2 => Instr { op: Opcode::Jp, op1: Operand::Cond(Cond::NZ), op2: Operand::U16(0), mcycles: 3, branch_mcycles: 4 },
        0xC3 => Instr { op: Opcode::Jp, op1: Operand::U16(0), op2: Operand::Absent, mcycles: 4, branch_mcycles: 4 },
        0xC4 => Instr { op: Opcode::Call, op1: Operand::Cond(Cond::NZ), op2: Operand::U16(0), mcycles: 3, branch_mcycles: 6 },
        0xC5 => Instr { op: Opcode::Push, op1: Operand::Reg(Reg::BC), op2: Operand::Absent, mcycles: 4, branch_mcycles: 4 },
        0xC6 => Instr { op: Opcode::Add, op1: Operand::Reg(Reg::A), op2: Operand::U8(0), mcycles: 2, branch_mcycles: 2 },
        0xC7 => Instr { op: Opcode::Rst, op1: Operand::Tgt(0x00), op2: Operand::Absent, mcycles: 4, branch_mcycles: 4 },
        0xC8 => Instr { op: Opcode::Ret, op1: Operand::Cond(Cond::Z), op2: Operand::Absent, mcycles: 2, branch_mcycles: 5 },
        0xC9 => Instr { op: Opcode::Ret, op1: Operand::Absent, op2: Operand::Absent, mcycles: 4, branch_mcycles: 4 },
        0xCA => Instr { op: Opcode::Jp, op1: Operand::Cond(Cond::Z), op2: Operand::U16(0), mcycles: 3, branch_mcycles: 4 },
        0xCB => Instr { op: Opcode::Prefix, op1: Operand::Absent, op2: Operand::Absent, mcycles: 1, branch_mcycles: 1 },
        0xCC => Instr { op: Opcode::Call, op1: Operand::Cond(Cond::Z), op2: Operand::U16(0), mcycles: 3, branch_mcycles: 6 },
        0xCD => Instr { op: Opcode::Call, op1: Operand::U16(0), op2: Operand::Absent, mcycles: 6, branch_mcycles: 6 },
        0xCE => Instr { op: Opcode::Adc, op1: Operand::Reg(Reg::A), op2: Operand::U8(0), mcycles: 2, branch_mcycles: 2 },
        0xCF => Instr { op: Opcode::Rst, op1: Operand::Tgt(0x08), op2: Operand::Absent, mcycles: 4, branch_mcycles: 4 },
        0xD0 => Instr { op: Opcode::Ret, op1: Operand::Cond(Cond::NC), op2: Operand::Absent, mcycles: 2, branch_mcycles: 5 },
        0xD1 => Instr { op: Opcode::Pop, op1: Operand::Reg(Reg::DE), op2: Operand::Absent, mcycles: 3, branch_mcycles: 3 },
        0xD2 => Instr { op: Opcode::Jp, op1: Operand::Cond(Cond::NC), op2: Operand::U16(0), mcycles: 3, branch_mcycles: 4 },
        0xD3 => Instr { op: Opcode::Illegal, op1: Operand::Absent, op2: Operand::Absent, mcycles: 1, branch_mcycles: 1 },
        0xD4 => Instr { op: Opcode::Call, op1: Operand::Cond(Cond::NC), op2: Operand::U16(0), mcycles: 3, branch_mcycles: 6 },
        0xD5 => Instr { op: Opcode::Push, op1: Operand::Reg(Reg::DE), op2: Operand::Absent, mcycles: 4, branch_mcycles: 4 },
        0xD6 => Instr { op: Opcode::Sub, op1: Operand::Reg(Reg::A), op2: Operand::U8(0), mcycles: 2, branch_mcycles: 2 },
        0xD7 => Instr { op: Opcode::Rst, op1: Operand::Tgt(0x10), op2: Operand::Absent, mcycles: 4, branch_mcycles: 4 },
        0xD8 => Instr { op: Opcode::Ret, op1: Operand::Cond(Cond::C), op2: Operand::Absent, mcycles: 2, branch_mcycles: 5 },
        0xD9 => Instr { op: Opcode::Reti, op1: Operand::Absent, op2: Operand::Absent, mcycles: 4, branch_mcycles: 4 },
        0xDA => Instr { op: Opcode::Jp, op1: Operand::Cond(Cond::C), op2: Operand::U16(0), mcycles: 3, branch_mcycles: 4 },
        0xDB => Instr { op: Opcode::Illegal, op1: Operand::Absent, op2: Operand::Absent, mcycles: 1, branch_mcycles: 1 },
        0xDC => Instr { op: Opcode::Call, op1: Operand::Cond(Cond::C), op2: Operand::U16(0), mcycles: 3, branch_mcycles: 6 },
        0xDD => Instr { op: Opcode::Illegal, op1: Operand::Absent, op2: Operand::Absent, mcycles: 1, branch_mcycles: 1 },
        0xDE => Instr { op: Opcode::Sbc, op1: Operand::Reg(Reg::A), op2: Operand::U8(0), mcycles: 2, branch_mcycles: 2 },
        0xDF => Instr { op: Opcode::Rst, op1: Operand::Tgt(0x18), op2: Operand::Absent, mcycles: 4, branch_mcycles: 4 },
        0xE0 => Instr { op: Opcode::Ldh, op1: Operand::A8(0), op2: Operand::Reg(Reg::A), mcycles: 3, branch_mcycles: 3 },
        0xE1 => Instr { op: Opcode::Pop, op1: Operand::Reg(Reg::HL), op2: Operand::Absent, mcycles: 3, branch_mcycles: 3 },
        0xE2 => Instr { op: Opcode::Ld, op1: Operand::RegMem(Reg::C), op2: Operand::Reg(Reg::A), mcycles: 2, branch_mcycles: 2 },
        0xE3 => Instr { op: Opcode::Illegal, op1: Operand::Absent, op2: Operand::Absent, mcycles: 1, branch_mcycles: 1 },
        0xE4 => Instr { op: Opcode::Illegal, op1: Operand::Absent, op2: Operand::Absent, mcycles: 1, branch_mcycles: 1 },
        0xE5 => Instr { op: Opcode::Push, op1: Operand::Reg(Reg::HL), op2: Operand::Absent, mcycles: 4, branch_mcycles: 4 },
        0xE6 => Instr { op: Opcode::And, op1: Operand::Reg(Reg::A), op2: Operand::U8(0), mcycles: 2, branch_mcycles: 2 },
        0xE7 => Instr { op: Opcode::Rst, op1: Operand::Tgt(0x20), op2: Operand::Absent, mcycles: 4, branch_mcycles: 4 },
        0xE8 => Instr { op: Opcode::Add, op1: Operand::Reg(Reg::SP), op2: Operand::I8(0), mcycles: 4, branch_mcycles: 4 },
        0xE9 => Instr { op: Opcode::Jp, op1: Operand::Reg(Reg::HL), op2: Operand::Absent, mcycles: 1, branch_mcycles: 1 },
        0xEA => Instr { op: Opcode::Ld, op1: Operand::A16(0), op2: Operand::Reg(Reg::A), mcycles: 4, branch_mcycles: 4 },
        0xEB => Instr { op: Opcode::Illegal, op1: Operand::Absent, op2: Operand::Absent, mcycles: 1, branch_mcycles: 1 },
        0xEC => Instr { op: Opcode::Illegal, op1: Operand::Absent, op2: Operand::Absent, mcycles: 1, branch_mcycles: 1 },
        0xED => Instr { op: Opcode::Illegal, op1: Operand::Absent, op2: Operand::Absent, mcycles: 1, branch_mcycles: 1 },
        0xEE => Instr { op: Opcode::Xor, op1: Operand::Reg(Reg::A), op2: Operand::U8(0), mcycles: 2, branch_mcycles: 2 },
        0xEF => Instr { op: Opcode::Rst, op1: Operand::Tgt(0x28), op2: Operand::Absent, mcycles: 4, branch_mcycles: 4 },
        0xF0 => Instr { op: Opcode::Ldh, op1: Operand::Reg(Reg::A), op2: Operand::A8(0), mcycles: 3, branch_mcycles: 3 },
        0xF1 => Instr { op: Opcode::Pop, op1: Operand::Reg(Reg::AF), op2: Operand::Absent, mcycles: 3, branch_mcycles: 3 },
        0xF2 => Instr { op: Opcode::Ld, op1: Operand::Reg(Reg::A), op2: Operand::RegMem(Reg::C), mcycles: 2, branch_mcycles: 2 },
        0xF3 => Instr { op: Opcode::Di, op1: Operand::Absent, op2: Operand::Absent, mcycles: 1, branch_mcycles: 1 },
        0xF4 => Instr { op: Opcode::Illegal, op1: Operand::Absent, op2: Operand::Absent, mcycles: 1, branch_mcycles: 1 },
        0xF5 => Instr { op: Opcode::Push, op1: Operand::Reg(Reg::AF), op2: Operand::Absent, mcycles: 4, branch_mcycles: 4 },
        0xF6 => Instr { op: Opcode::Or, op1: Operand::Reg(Reg::A), op2: Operand::U8(0), mcycles: 2, branch_mcycles: 2 },
        0xF7 => Instr { op: Opcode::Rst, op1: Operand::Tgt(0x30), op2: Operand::Absent, mcycles: 4, branch_mcycles: 4 },
        0xF8 => Instr { op: Opcode::Ld, op1: Operand::Reg(Reg::HL), op2: Operand::SPplusI8(0), mcycles: 3, branch_mcycles: 3 },
        0xF9 => Instr { op: Opcode::Ld, op1: Operand::Reg(Reg::SP), op2: Operand::Reg(Reg::HL), mcycles: 2, branch_mcycles: 2 },
        0xFA => Instr { op: Opcode::Ld, op1: Operand::Reg(Reg::A), op2: Operand::A16(0), mcycles: 4, branch_mcycles: 4 },
        0xFB => Instr { op: Opcode::Ei, op1: Operand::Absent, op2: Operand::Absent, mcycles: 1, branch_mcycles: 1 },
        0xFC => Instr { op: Opcode::Illegal, op1: Operand::Absent, op2: Operand::Absent, mcycles: 1, branch_mcycles: 1 },
        0xFD => Instr { op: Opcode::Illegal, op1: Operand::Absent, op2: Operand::Absent, mcycles: 1, branch_mcycles: 1 },
        0xFE => Instr { op: Opcode::Cp, op1: Operand::Reg(Reg::A), op2: Operand::U8(0), mcycles: 2, branch_mcycles: 2 },
        0xFF => Instr { op: Opcode::Rst, op1: Operand::Tgt(0x38), op2: Operand::Absent, mcycles: 4, branch_mcycles: 4 },
        _ => regular_instr(code),
    }
}

/// The instruction that byte `code` stands for after the prefix 0xCB:
/// shifts and rotations in the first quarter, then BIT, RES and SET with
/// the bit number in bits 3 to 5. The m-cycles include the fetch of the
/// prefix.
pub open spec fn spec_pref_instr(code: u8) -> Instr {
    let mem = code % 8 == 6;
    if code < 0x40 {
        let m: u8 = if mem {
            4
        } else {
            2
        };
        Instr {
            op: spec_shift_op(code),
            op1: spec_r8(code),
            op2: Operand::Absent,
            mcycles: m,
            branch_mcycles: m,
        }
    } else {
        let m: u8 = if !mem {
            2
        } else if code < 0x80 {
            3
        } else {
            4
        };
        Instr {
            op: if code < 0x80 {
                Opcode::Bit
            } else if code < 0xC0 {
                Opcode::Res
            } else {
                Opcode::SetBit
            },
            op1: Operand::B3(((code / 8) % 8) as u8),
            op2: spec_r8(code),
            mcycles: m,
            branch_mcycles: m,
        }
    }
}

pub fn pref_instr_table(code: u8) -> (ins: Instr)
    ensures
        ins == spec_pref_instr(code),
{
    let mem = code % 8 == 6;
    if code < 0x40 {
        let m: u8 = if mem {
            4
        } else {
            2
        };
        Instr { op: shift_op(code), op1: r8(code), op2: Operand::Absent, mcycles: m, branch_mcycles: m }
    } else {
        let m: u8 = if !mem {
            2
        } else if code < 0x80 {
            3
        } else {
            4
        };
        Instr {
            op: if code < 0x80 {
                Opcode::Bit
            } else if code < 0xC0 {
                Opcode::Res
            } else {
                Opcode::SetBit
            },
            op1: Operand::B3((code / 8) % 8),
            op2: r8(code),
            mcycles: m,
            branch_mcycles: m,
        }
    }
}

} // verus!
