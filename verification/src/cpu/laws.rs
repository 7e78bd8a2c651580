//! What holds of the instruction set as a whole.
use vstd::prelude::*;
use crate::cpu::alu::{spec_as_signed, wrap_add16};
use crate::cpu::decoder::{spec_decode, spec_decode_one, spec_fill_in_if_imm, word_at};
use crate::cpu::isa::{Instr, Opcode, Operand, Reg};
use crate::cpu::table::{spec_instr, spec_pref_instr};
use crate::cpu::{spec_op_group, CpuRegs, CpuView, OpGroup};
use crate::mmu::MmuView;

verus! {

/// The byte that reads as the signed number `i`.
pub open spec fn as_unsigned(i: i8) -> u8 {
    if i >= 0 {
        i as u8
    } else {
        (i + 256) as u8
    }
}

/// The bytes that carry the immediate of an operand, the low byte first.
pub open spec fn imm_bytes(op: Operand) -> Seq<u8> {
    match op {
        Operand::A16(v) => seq![(v % 256) as u8, (v / 256) as u8],
        Operand::U16(v) => seq![(v % 256) as u8, (v / 256) as u8],
        Operand::A8(v) => seq![v],
        Operand::U8(v) => seq![v],
        Operand::I8(i) => seq![as_unsigned(i)],
        Operand::SPplusI8(i) => seq![as_unsigned(i)],
        _ => Seq::empty(),
    }
}

/// Operand `a` is operand `e` of a table entry with some immediate filled in.
pub open spec fn fills(a: Operand, e: Operand) -> bool {
    match e {
        Operand::A16(_) => a is A16,
        Operand::U16(_) => a is U16,
        Operand::A8(_) => a is A8,
        Operand::U8(_) => a is U8,
        Operand::I8(_) => a is I8,
        Operand::SPplusI8(_) => a is SPplusI8,
        _ => a == e,
    }
}

/// The table entry of opcode byte `code`.
pub open spec fn entry(prefixed: bool, code: u8) -> Instr {
    if prefixed {
        spec_pref_instr(code)
    } else {
        spec_instr(code)
    }
}

/// `ins` is the instruction of opcode byte `code` with some immediates.
pub open spec fn instance_of(ins: Instr, prefixed: bool, code: u8) -> bool {
    let e = entry(prefixed, code);
    &&& ins.op == e.op
    &&& ins.mcycles == e.mcycles
    &&& ins.branch_mcycles == e.branch_mcycles
    &&& fills(ins.op1, e.op1)
    &&& fills(ins.op2, e.op2)
}

/// The bytes that stand for `ins` in memory: the prefix if it has one,
/// its opcode byte, and its immediates.
pub open spec fn encoded(ins: Instr, prefixed: bool, code: u8) -> Seq<u8> {
    (if prefixed {
        seq![0xCBu8, code]
    } else {
        seq![code]
    }) + imm_bytes(ins.op1) + imm_bytes(ins.op2)
}

/// Memory holds the bytes `bytes` from `pc` on, wrapping around at the top.
pub open spec fn holds_at(mmu: MmuView, pc: u16, bytes: Seq<u8>) -> bool {
    forall|i: int| 0 <= i < bytes.len() ==> mmu.read(((pc + i) % 0x10000) as u16) == bytes[i]
}

proof fn lemma_fill(mmu: MmuView, pc: u16, a: Operand, e: Operand)
    requires
        fills(a, e),
        holds_at(mmu, pc, imm_bytes(a)),
    ensures
        spec_fill_in_if_imm(e, mmu, pc) == (a, ((pc + imm_bytes(a).len()) % 0x10000) as u16),
        imm_bytes(a).len() <= 2,
{
    let b = imm_bytes(a);
    if b.len() >= 1 {
        assert(mmu.read(((pc + 0) % 0x10000) as u16) == b[0]);
    }
    if b.len() >= 2 {
        assert(mmu.read(((pc + 1) % 0x10000) as u16) == b[1]);
        assert(wrap_add16(pc, 1) == ((pc + 1) % 0x10000) as u16);
    }
    match a {
        Operand::I8(i) => {
            assert(spec_as_signed(as_unsigned(i)) == i);
        },
        Operand::SPplusI8(i) => {
            assert(spec_as_signed(as_unsigned(i)) == i);
        },
        Operand::A16(v) => {
            assert(word_at(mmu, pc) == v);
        },
        Operand::U16(v) => {
            assert(word_at(mmu, pc) == v);
        },
        _ => {},
    }
}

proof fn lemma_decode_one_encoded(mmu: MmuView, pc: u16, ins: Instr, prefixed: bool, code: u8)
    requires
        instance_of(ins, prefixed, code),
        holds_at(mmu, pc, seq![code] + imm_bytes(ins.op1) + imm_bytes(ins.op2)),
    ensures
        spec_decode_one(prefixed, mmu, pc) == (
            ins,
            ((pc + 1 + imm_bytes(ins.op1).len() + imm_bytes(ins.op2).len()) % 0x10000) as u16,
        ),
{
    let b1 = imm_bytes(ins.op1);
    let b2 = imm_bytes(ins.op2);
    let all = seq![code] + b1 + b2;
    let e = entry(prefixed, code);
    assert(mmu.read(((pc + 0) % 0x10000) as u16) == all[0]);
    let pc1 = wrap_add16(pc, 1);
    assert forall|i: int| 0 <= i < b1.len() implies mmu.read(((pc1 + i) % 0x10000) as u16)
        == b1[i] by {
        assert(all[1 + i] == b1[i]);
        assert(((pc1 + i) % 0x10000) as u16 == ((pc + (1 + i)) % 0x10000) as u16);
        assert(mmu.read(((pc + (1 + i)) % 0x10000) as u16) == all[1 + i]);
    }
    lemma_fill(mmu, pc1, ins.op1, e.op1);
    let pc2 = ((pc1 + b1.len()) % 0x10000) as u16;
    assert forall|i: int| 0 <= i < b2.len() implies mmu.read(((pc2 + i) % 0x10000) as u16)
        == b2[i] by {
        assert(all[1 + b1.len() + i] == b2[i]);
        assert(((pc2 + i) % 0x10000) as u16 == ((pc + (1 + b1.len() + i)) % 0x10000) as u16);
        assert(mmu.read(((pc + (1 + b1.len() + i)) % 0x10000) as u16) == all[1 + b1.len() + i]);
    }
    lemma_fill(mmu, pc2, ins.op2, e.op2);
}

/// Decoding undoes encoding: wherever memory holds the bytes of an
/// instruction, the decoder gives back that instruction, immediates
/// included, and the address right after its last byte.
pub proof fn lemma_decode_encoded(mmu: MmuView, pc: u16, ins: Instr, prefixed: bool, code: u8)
    requires
        instance_of(ins, prefixed, code),
        prefixed || code != 0xCB,
        holds_at(mmu, pc, encoded(ins, prefixed, code)),
    ensures
        spec_decode(mmu, pc) == (
            ins,
            ((pc + encoded(ins, prefixed, code).len()) % 0x10000) as u16,
        ),
{
    let all = encoded(ins, prefixed, code);
    if prefixed {
        let rest = seq![code] + imm_bytes(ins.op1) + imm_bytes(ins.op2);
        assert(mmu.read(((pc + 0) % 0x10000) as u16) == all[0]);
        let prefix = Instr { ..spec_instr(0xCB) };
        assert(spec_instr(0xCB).op == Opcode::Prefix);
        assert(spec_decode_one(false, mmu, pc) == (spec_instr(0xCB), wrap_add16(pc, 1)));
        let pc1 = wrap_add16(pc, 1);
        assert forall|i: int| 0 <= i < rest.len() implies mmu.read(((pc1 + i) % 0x10000) as u16)
            == rest[i] by {
            assert(all[1 + i] == rest[i]);
            assert(((pc1 + i) % 0x10000) as u16 == ((pc + (1 + i)) % 0x10000) as u16);
            assert(mmu.read(((pc + (1 + i)) % 0x10000) as u16) == all[1 + i]);
        }
        lemma_decode_one_encoded(mmu, pc1, ins, true, code);
        assert(spec_pref_instr(code).op != Opcode::Prefix);
    } else {
        lemma_decode_one_encoded(mmu, pc, ins, false, code);
        assert(spec_instr(code).op != Opcode::Prefix);
    }
}

/// The instruction stores nothing in AF.
pub open spec fn spares_af(ins: Instr) -> bool {
    ins.op1 != Operand::Reg(Reg::AF) && ins.op2 != Operand::Reg(Reg::AF)
}

/// The instructions that the instruction set defines to leave the flags
/// alone: loads other than `LD HL, SP+e8`, PUSH, POP, RES, SET, the
/// branches, and the instructions that control interrupts and power.
pub open spec fn keeps_flags(ins: Instr) -> bool {
    match spec_op_group(ins.op) {
        OpGroup::Load => !(ins.op2 is SPplusI8),
        OpGroup::Push => true,
        OpGroup::Pop => true,
        OpGroup::Branch => true,
        OpGroup::Bits => ins.op == Opcode::Res || ins.op == Opcode::SetBit,
        OpGroup::Arith => false,
        OpGroup::Control => ins.op != Opcode::Cpl && ins.op != Opcode::Ccf && ins.op != Opcode::Scf
            && ins.op != Opcode::Daa,
    }
}

proof fn lemma_set_op_keeps_flags(v: CpuView, op: Operand, val: u16)
    requires
        op != Operand::Reg(Reg::AF),
    ensures
        v.after_set_op(op, val).regs.flags == v.regs.flags,
        v.after_set_op(op, val).regs.pc == v.regs.pc,
{
    reveal(CpuView::after_set_op);
}

proof fn lemma_load_keeps_flags(v: CpuView, ins: Instr)
    requires
        !(ins.op2 is SPplusI8),
        spares_af(ins),
    ensures
        v.after_load(ins).regs.flags == v.regs.flags,
{
    reveal(CpuView::after_load);
    reveal(CpuRegs::after_load_effects);
    lemma_set_op_keeps_flags(v, ins.op1, v.op_val(ins.op2));
}

proof fn lemma_stack_keeps_flags(v: CpuView, ins: Instr, val: u16)
    requires
        spares_af(ins),
    ensures
        v.after_push(val).regs.flags == v.regs.flags,
        v.after_pop().0.regs.flags == v.regs.flags,
        v.after_pop().0.after_set_op(ins.op1, v.after_pop().1).regs.flags == v.regs.flags,
{
    reveal(CpuView::after_push);
    reveal(CpuView::after_pop);
    lemma_set_op_keeps_flags(v.after_pop().0, ins.op1, v.after_pop().1);
}

proof fn lemma_branch_keeps_flags(v: CpuView, op: Opcode, oa: Operand, a: u16, b: u16)
    ensures
        v.after_branch(op, oa, a, b).0.regs.flags == v.regs.flags,
{
    reveal(CpuView::after_branch);
    reveal(CpuView::after_push);
    reveal(CpuView::after_pop);
}

proof fn lemma_res_set_keep_flags(v: CpuView, ins: Instr)
    requires
        ins.op == Opcode::Res || ins.op == Opcode::SetBit,
        spares_af(ins),
    ensures
        v.after_bits(ins).regs.flags == v.regs.flags,
{
    reveal(CpuView::after_bits);
    reveal(CpuRegs::bits_outcome);
    let (flags, dst, val) = v.regs.bits_outcome(ins, v.op_val(ins.op1), v.op_val(ins.op2));
    lemma_set_op_keeps_flags(CpuView { regs: CpuRegs { flags, ..v.regs }, ..v }, dst, val);
}

proof fn lemma_control_keeps_flags(v: CpuView, ins: Instr)
    requires
        ins.op != Opcode::Cpl,
        ins.op != Opcode::Ccf,
        ins.op != Opcode::Scf,
        ins.op != Opcode::Daa,
    ensures
        v.after_control(ins).regs.flags == v.regs.flags,
{
    reveal(CpuView::after_control);
    reveal(CpuView::after_stop);
    reveal(CpuRegs::after_control);
}

/// Such an instruction leaves the flags as they are, unless it stores
/// into AF.
pub proof fn lemma_flags_kept(v: CpuView, ins: Instr)
    requires
        keeps_flags(ins),
        spares_af(ins),
    ensures
        v.after_exec(ins).0.regs.flags == v.regs.flags,
{
    reveal(CpuView::after_exec);
    match spec_op_group(ins.op) {
        OpGroup::Load => {
            lemma_load_keeps_flags(v, ins);
        },
        OpGroup::Push => {
            lemma_stack_keeps_flags(v, ins, v.op_val(ins.op1));
        },
        OpGroup::Pop => {
            lemma_stack_keeps_flags(v, ins, 0);
        },
        OpGroup::Branch => {
            lemma_branch_keeps_flags(
                v,
                ins.op,
                ins.op1,
                v.op_val(ins.op1),
                v.op_val(ins.op2),
            );
        },
        OpGroup::Bits => {
            lemma_res_set_keep_flags(v, ins);
        },
        OpGroup::Arith => {},
        OpGroup::Control => {
            lemma_control_keeps_flags(v, ins);
        },
    }
}

} // verus!
