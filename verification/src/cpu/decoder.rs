//! Decoding: from the bytes at the program counter to an instruction.
use vstd::prelude::*;
use crate::cpu::alu::{add16, as_signed, spec_as_signed, wrap_add16};
use crate::cpu::isa::{Instr, Opcode, Operand};
use crate::cpu::table::{instr_table, pref_instr_table, spec_instr, spec_pref_instr};
use crate::mmu::{Mmu, MmuView};

verus! {

/// The 16-bit value stored at `pc`, low byte first.
pub open spec fn word_at(mmu: MmuView, pc: u16) -> u16 {
    (mmu.read(pc) + 256 * mmu.read(wrap_add16(pc, 1))) as u16
}

/// An operand with its immediate read from the bytes at `pc`, and the
/// address after them. Operands without an immediate stay as they are.
pub open spec fn spec_fill_in_if_imm(operand: Operand, mmu: MmuView, pc: u16) -> (Operand, u16) {
    match operand {
        Operand::A16(_) => (Operand::A16(word_at(mmu, pc)), wrap_add16(pc, 2)),
        Operand::U16(_) => (Operand::U16(word_at(mmu, pc)), wrap_add16(pc, 2)),
        Operand::A8(_) => (Operand::A8(mmu.read(pc)), wrap_add16(pc, 1)),
        Operand::U8(_) => (Operand::U8(mmu.read(pc)), wrap_add16(pc, 1)),
        Operand::I8(_) => (Operand::I8(spec_as_signed(mmu.read(pc))), wrap_add16(pc, 1)),
        Operand::SPplusI8(_) => (
            Operand::SPplusI8(spec_as_signed(mmu.read(pc))),
            wrap_add16(pc, 1),
        ),
        _ => (operand, pc),
    }
}

/// The instruction whose opcode byte is at `pc`, looked up in the primary
/// or in the prefixed table, with its immediates, and the address of the
/// byte after it.
pub open spec fn spec_decode_one(prefixed: bool, mmu: MmuView, pc: u16) -> (Instr, u16) {
    let ins = if prefixed {
        spec_pref_instr(mmu.read(pc))
    } else {
        spec_instr(mmu.read(pc))
    };
    let (op1, pc1) = spec_fill_in_if_imm(ins.op1, mmu, wrap_add16(pc, 1));
    let (op2, pc2) = spec_fill_in_if_imm(ins.op2, mmu, pc1);
    (Instr { op1, op2, ..ins }, pc2)
}

/// The instruction at `pc` and the address of the next one. The byte 0xCB
/// is a prefix: the byte after it is looked up in the prefixed table.
pub open spec fn spec_decode(mmu: MmuView, pc: u16) -> (Instr, u16) {
    let (ins, next) = spec_decode_one(false, mmu, pc);
    if ins.op == Opcode::Prefix {
        spec_decode_one(true, mmu, next)
    } else {
        (ins, next)
    }
}

pub fn decode(mmu: &Mmu, pc: u16) -> (r: (Instr, u16))
    requires
        mmu.wf(),
    ensures
        r == spec_decode(mmu@, pc),
{
    let (ins, pc) = decode_one(false, mmu, pc);
    if let Opcode::Prefix = ins.op {
        decode_one(true, mmu, pc)
    } else {
        (ins, pc)
    }
}

pub fn decode_one(prefixed: bool, mmu: &Mmu, pc: u16) -> (r: (Instr, u16))
    requires
        mmu.wf(),
    ensures
        r == spec_decode_one(prefixed, mmu@, pc),
{
    let code = mmu.read(pc);
    let mut ins = if prefixed {
        pref_instr_table(code)
    } else {
        instr_table(code)
    };
    let pc = add16(pc, 1);
    let (op1, pc) = fill_in_if_imm(ins.op1, mmu, pc);
    let (op2, pc) = fill_in_if_imm(ins.op2, mmu, pc);
    ins.op1 = op1;
    ins.op2 = op2;
    (ins, pc)
}

pub fn fill_in_if_imm(operand: Operand, mmu: &Mmu, pc: u16) -> (r: (Operand, u16))
    requires
        mmu.wf(),
    ensures
        r == spec_fill_in_if_imm(operand, mmu@, pc),
{
    match operand {
        Operand::A16(_) => (Operand::A16(read_word(mmu, pc)), add16(pc, 2)),
        Operand::U16(_) => (Operand::U16(read_word(mmu, pc)), add16(pc, 2)),
        Operand::A8(_) => (Operand::A8(mmu.read(pc)), add16(pc, 1)),
        Operand::U8(_) => (Operand::U8(mmu.read(pc)), add16(pc, 1)),
        Operand::I8(_) => (Operand::I8(as_signed(mmu.read(pc))), add16(pc, 1)),
        Operand::SPplusI8(_) => (Operand::SPplusI8(as_signed(mmu.read(pc))), add16(pc, 1)),
        _ => (operand, pc),
    }
}

fn read_word(mmu: &Mmu, pc: u16) -> (w: u16)
    requires
        mmu.wf(),
    ensures
        w == word_at(mmu@, pc),
{
    mmu.read(pc) as u16 + 256 * (mmu.read(add16(pc, 1)) as u16)
}

/// Bytes of the instruction that `ins` of a table stands for, its opcode
/// byte included.
pub open spec fn instr_len(ins: Instr) -> int {
    1 + ins.op1.imm_size() + ins.op2.imm_size()
}

/// Decoding keeps what the table says and reads nothing but the
/// immediates: operation and m-cycles are those of the table entry of the
/// opcode byte, the operands are the entry's with their immediates taken
/// from the bytes that follow, and the address moves on by the length of
/// the instruction, modulo 2^16.
pub proof fn lemma_decode_one(prefixed: bool, mmu: MmuView, pc: u16)
    ensures
        ({
            let entry = if prefixed {
                spec_pref_instr(mmu.read(pc))
            } else {
                spec_instr(mmu.read(pc))
            };
            let (ins, next) = spec_decode_one(prefixed, mmu, pc);
            &&& ins.op == entry.op
            &&& ins.mcycles == entry.mcycles
            &&& ins.branch_mcycles == entry.branch_mcycles
            &&& ins.op1.imm_size() == entry.op1.imm_size()
            &&& ins.op2.imm_size() == entry.op2.imm_size()
            &&& entry.op1.imm_size() == 0 ==> ins.op1 == entry.op1
            &&& entry.op2.imm_size() == 0 ==> ins.op2 == entry.op2
            &&& next == (pc + instr_len(entry)) % 0x10000
            &&& 1 <= instr_len(entry) <= 5
        }),
{
}

} // verus!
