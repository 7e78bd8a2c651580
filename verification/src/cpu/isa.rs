//! Instructions as the interpreter sees them.
use vstd::prelude::*;

verus! {

/// A decoded instruction. Every instruction takes at least the m-cycle of
/// its fetch; immediates and operands in memory cost more, and a branch
/// that is taken costs more than one that is not.
#[derive(Clone, Copy, Debug, PartialEq, Eq, Structural)]
pub struct Instr {
    pub op: Opcode,
    pub op1: Operand,
    pub op2: Operand,
    /// M-cycles of the instruction; of a branch, when it is not taken.
    pub mcycles: u8,
    /// M-cycles of a branch that is taken.
    pub branch_mcycles: u8,
}

#[derive(Clone, Copy, Debug, PartialEq, Eq, Structural)]
pub enum Operand {
    /// No operand.
    Absent,
    /// The value of a register.
    Reg(Reg),
    /// The byte in memory that a register points to.
    RegMem(Reg),
    /// A branch condition.
    Cond(Cond),
    /// A bit number.
    B3(u8),
    /// The target of an RST.
    Tgt(u8),
    /// An unsigned 8-bit immediate.
    U8(u8),
    /// A signed 8-bit immediate.
    I8(i8),
    /// A 16-bit immediate.
    U16(u16),
    /// The byte in memory at 0xFF00 plus an 8-bit immediate.
    A8(u8),
    /// The byte in memory at a 16-bit immediate address.
    A16(u16),
    /// SP plus a signed 8-bit immediate.
    SPplusI8(i8),
}

/// What an instruction does; the values have nothing to do with opcode bytes.
#[derive(Clone, Copy, Debug, PartialEq, Eq, Structural)]
pub enum Opcode {
    Ld,
    /// A load whose address operands count from 0xFF00.
    Ldh,
    Push,
    Pop,
    Inc,
    Dec,
    Add,
    Adc,
    Sub,
    Sbc,
    And,
    Xor,
    Or,
    Cp,
    Rla,
    Rlca,
    Rra,
    Rrca,
    Rlc,
    Rrc,
    Rl,
    Rr,
    Sla,
    Sra,
    Srl,
    Swap,
    Bit,
    Res,
    SetBit,
    Jr,
    Jp,
    Call,
    Ret,
    Reti,
    Rst,
    Di,
    Ei,
    Halt,
    Stop,
    Cpl,
    Ccf,
    Scf,
    Nop,
    Daa,
    Prefix,
    Illegal,
}

/// The registers, 8-bit and 16-bit, and the two forms of HL that move it
/// after the access.
#[derive(Clone, Copy, Debug, PartialEq, Eq, Structural)]
pub enum Reg {
    A,
    B,
    C,
    D,
    E,
    H,
    L,
    AF,
    BC,
    DE,
    HL,
    HLinc,
    HLdec,
    SP,
}

#[derive(Clone, Copy, Debug, PartialEq, Eq, Structural)]
pub enum Cond {
    NZ,
    Z,
    NC,
    C,
}

impl Instr {
    pub open spec fn nop() -> Instr {
        Instr {
            op: Opcode::Nop,
            op1: Operand::Absent,
            op2: Operand::Absent,
            mcycles: 1,
            branch_mcycles: 1,
        }
    }
}

impl Default for Instr {
    fn default() -> (i: Instr)
        ensures
            i == Instr::nop(),
    {
        Instr {
            op: Opcode::Nop,
            op1: Operand::Absent,
            op2: Operand::Absent,
            mcycles: 1,
            branch_mcycles: 1,
        }
    }
}

impl Operand {
    /// Bytes that the operand takes after the opcode.
    pub open spec fn imm_size(self) -> int {
        match self {
            Operand::A16(_) | Operand::U16(_) => 2,
            Operand::A8(_) | Operand::U8(_) | Operand::I8(_) | Operand::SPplusI8(_) => 1,
            _ => 0,
        }
    }
}

} // verus!
