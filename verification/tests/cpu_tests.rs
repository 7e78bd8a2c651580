use gbemu::cartridge::Cartidge;
use gbemu::cpu::alu::{
    do_8bit_arith, do_add_r16, do_daa, do_inc_dec, do_shift_or_rotate, get_hl_reg_delta, is_borrow,
    is_borrow3, is_carry, is_carry3, is_reg16, is_zero, mask_u16, sign_extend, swap_nibbles,
};
use gbemu::cpu::decoder::decode;
use gbemu::cpu::isa::{Cond, Instr, Opcode, Operand, Reg};
use gbemu::cpu::table::{instr_table, pref_instr_table};
use gbemu::cpu::{Cpu, CpuState};
use gbemu::mmu::Mmu;
use gbemu::regs::Flags;

fn machine(program: &[u8]) -> Cpu {
    let mut rom = vec![0u8; 0x8000];
    rom[0x147] = 0x03;
    rom[0x148] = 0;
    rom[0x149] = 2;
    let mut cpu = Cpu::new(Mmu::new(Cartidge::new(rom).unwrap()));
    cpu.regs.pc = 0xC000;
    cpu.regs.sp = 0xDFF0;
    for (i, b) in program.iter().enumerate() {
        cpu.mmu.write(0xC000 + i as u16, *b);
    }
    cpu
}

fn flags(z: bool, n: bool, h: bool, c: bool) -> Flags {
    Flags { z, n, h, c }
}

fn znhc(f: Flags) -> (bool, bool, bool, bool) {
    (f.z, f.n, f.h, f.c)
}

#[test]
fn carries_and_borrows() {
    assert_eq!(mask_u16(4), 0x000F);
    assert_eq!(mask_u16(8), 0x00FF);
    assert_eq!(mask_u16(12), 0x0FFF);
    assert_eq!(mask_u16(16), 0xFFFF);
    assert!(is_carry(0x0F, 0x01, 4));
    assert!(!is_carry(0x0E, 0x01, 4));
    assert!(!is_carry(0x1F0, 0x0E, 4));
    assert!(is_carry(0xFF, 0x01, 8));
    assert!(is_carry(0x0FFF, 0x0001, 12));
    assert!(is_carry(0xFFFF, 0x0001, 16));
    assert!(!is_carry(0xFFFE, 0x0001, 16));
    assert!(is_carry3(0x0E, 0x01, 1, 4));
    assert!(!is_carry3(0x0D, 0x01, 1, 4));
    assert!(is_carry3(0xFF, 0x00, 1, 8));
    assert!(is_borrow(0x10, 0x01, 4));
    assert!(!is_borrow(0x11, 0x01, 4));
    assert!(is_borrow(0x00, 0x01, 8));
    assert!(is_borrow3(0x00, 0x00, 1, 4));
    assert!(is_borrow3(0x11, 0x01, 1, 4));
    assert!(!is_borrow3(0x12, 0x01, 1, 4));
    assert!(is_zero(0));
    assert!(!is_zero(0x100));
}

#[test]
fn operand_kinds() {
    assert!(is_reg16(Operand::Reg(Reg::BC)));
    assert!(is_reg16(Operand::Reg(Reg::SP)));
    assert!(!is_reg16(Operand::Reg(Reg::AF)));
    assert!(!is_reg16(Operand::Reg(Reg::A)));
    assert!(!is_reg16(Operand::RegMem(Reg::HL)));
    assert_eq!(get_hl_reg_delta(Operand::RegMem(Reg::HLinc)), 1);
    assert_eq!(get_hl_reg_delta(Operand::RegMem(Reg::HLdec)), -1);
    assert_eq!(get_hl_reg_delta(Operand::RegMem(Reg::HL)), 0);
    assert_eq!(get_hl_reg_delta(Operand::Reg(Reg::HL)), 0);
    assert_eq!(sign_extend(-1), 0xFFFF);
    assert_eq!(sign_extend(-128), 0xFF80);
    assert_eq!(sign_extend(127), 0x007F);
}

#[test]
fn eight_bit_arithmetic_sets_the_flags() {
    let clear = flags(false, false, false, false);
    let carry = flags(false, false, false, true);
    let (r, f) = do_8bit_arith(Opcode::Add, 0x3A, 0xC6, clear);
    assert_eq!((r, znhc(f)), (0x00, (true, false, true, true)));
    let (r, f) = do_8bit_arith(Opcode::Add, 0x0F, 0x01, carry);
    assert_eq!((r, znhc(f)), (0x10, (false, false, true, false)));
    let (r, f) = do_8bit_arith(Opcode::Adc, 0xE1, 0x0F, carry);
    assert_eq!((r, znhc(f)), (0xF1, (false, false, true, false)));
    let (r, f) = do_8bit_arith(Opcode::Adc, 0xFF, 0x00, carry);
    assert_eq!((r, znhc(f)), (0x00, (true, false, true, true)));
    let (r, f) = do_8bit_arith(Opcode::Sub, 0x3E, 0x3E, carry);
    assert_eq!((r, znhc(f)), (0x00, (true, true, false, false)));
    let (r, f) = do_8bit_arith(Opcode::Sub, 0x3E, 0x0F, clear);
    assert_eq!((r, znhc(f)), (0x2F, (false, true, true, false)));
    let (r, f) = do_8bit_arith(Opcode::Sub, 0x3E, 0x40, clear);
    assert_eq!((r, znhc(f)), (0xFE, (false, true, false, true)));
    let (r, f) = do_8bit_arith(Opcode::Sbc, 0x3B, 0x2A, carry);
    assert_eq!((r, znhc(f)), (0x10, (false, true, false, false)));
    let (r, f) = do_8bit_arith(Opcode::Sbc, 0x3B, 0x4F, carry);
    assert_eq!((r, znhc(f)), (0xEB, (false, true, true, true)));
    let (r, f) = do_8bit_arith(Opcode::Sbc, 0x00, 0xFF, carry);
    assert_eq!((r, znhc(f)), (0x00, (true, true, true, true)));
    let (r, f) = do_8bit_arith(Opcode::Cp, 0x3C, 0x2F, clear);
    assert_eq!((r, znhc(f)), (0x3C, (false, true, true, false)));
    let (r, f) = do_8bit_arith(Opcode::Cp, 0x3C, 0x3C, clear);
    assert_eq!((r, znhc(f)), (0x3C, (true, true, false, false)));
    let (r, f) = do_8bit_arith(Opcode::And, 0x5A, 0x3F, carry);
    assert_eq!((r, znhc(f)), (0x1A, (false, false, true, false)));
    let (r, f) = do_8bit_arith(Opcode::And, 0x5A, 0x00, carry);
    assert_eq!((r, znhc(f)), (0x00, (true, false, true, false)));
    let (r, f) = do_8bit_arith(Opcode::Xor, 0xFF, 0xFF, carry);
    assert_eq!((r, znhc(f)), (0x00, (true, false, false, false)));
    let (r, f) = do_8bit_arith(Opcode::Or, 0x5A, 0x0F, carry);
    assert_eq!((r, znhc(f)), (0x5F, (false, false, false, false)));
    let (r, f) = do_8bit_arith(Opcode::Nop, 0x5A, 0x0F, carry);
    assert_eq!((r, f), (0x5A, carry));
}

#[test]
fn eight_bit_arithmetic_agrees_with_wide_arithmetic() {
    for a in (0..=255u16).step_by(3) {
        for b in (0..=255u16).step_by(5) {
            for c in [0u16, 1] {
                let fl = flags(false, false, false, c == 1);
                let (r, f) = do_8bit_arith(Opcode::Adc, a as u8, b as u8, fl);
                assert_eq!(r as u16, (a + b + c) & 0xFF);
                assert_eq!(f.c, a + b + c > 0xFF);
                assert_eq!(f.h, (a & 0xF) + (b & 0xF) + c > 0xF);
                assert_eq!(f.z, r == 0);
                assert!(!f.n);
                let (r, f) = do_8bit_arith(Opcode::Sbc, a as u8, b as u8, fl);
                assert_eq!(r, (a as u8).wrapping_sub(b as u8).wrapping_sub(c as u8));
                assert_eq!(f.c, b + c > a);
                assert_eq!(f.h, (b & 0xF) + c > (a & 0xF));
                assert_eq!(f.z, r == 0);
                assert!(f.n);
            }
        }
    }
}

#[test]
fn inc_and_dec() {
    let f0 = flags(false, true, false, true);
    let (r, f) = do_inc_dec(true, Operand::Reg(Reg::B), 0xFF, f0);
    assert_eq!((r, znhc(f)), (0x00, (true, false, true, true)));
    let (r, f) = do_inc_dec(true, Operand::Reg(Reg::B), 0x0F, f0);
    assert_eq!((r, znhc(f)), (0x10, (false, false, true, true)));
    let (r, f) = do_inc_dec(false, Operand::RegMem(Reg::HL), 0x00, flags(true, false, false, false));
    assert_eq!((r, znhc(f)), (0xFF, (false, true, true, false)));
    let (r, f) = do_inc_dec(false, Operand::Reg(Reg::A), 0x01, f0);
    assert_eq!((r, znhc(f)), (0x00, (true, true, false, true)));
    let (r, f) = do_inc_dec(true, Operand::Reg(Reg::HL), 0xFFFF, f0);
    assert_eq!((r, f), (0x0000, f0));
    let (r, f) = do_inc_dec(false, Operand::Reg(Reg::SP), 0x0000, f0);
    assert_eq!((r, f), (0xFFFF, f0));
}

#[test]
fn sixteen_bit_additions() {
    let z = flags(true, true, false, false);
    let (r, f) = do_add_r16(Operand::Reg(Reg::BC), 0x8A23, 0x0605, z);
    assert_eq!((r, znhc(f)), (0x9028, (true, false, true, false)));
    let (r, f) = do_add_r16(Operand::Reg(Reg::HL), 0x8A23, 0x8A23, z);
    assert_eq!((r, znhc(f)), (0x1446, (true, false, true, true)));
    let (r, f) = do_add_r16(Operand::I8(2), 0xFFF8, 0x0002, z);
    assert_eq!((r, znhc(f)), (0xFFFA, (false, false, false, false)));
    let (r, f) = do_add_r16(Operand::I8(-1), 0x0001, 0xFFFF, z);
    assert_eq!((r, znhc(f)), (0x0000, (false, false, true, true)));
}

#[test]
fn shifts_and_rotations() {
    let clear = flags(true, true, true, false);
    let carry = flags(false, false, false, true);
    let cases = [
        (Opcode::Rlca, 0x85u8, clear, 0x0Bu8, (false, false, false, true)),
        (Opcode::Rlc, 0x00, carry, 0x00, (true, false, false, false)),
        (Opcode::Rla, 0x95, carry, 0x2B, (false, false, false, true)),
        (Opcode::Rl, 0x80, clear, 0x00, (true, false, false, true)),
        (Opcode::Rla, 0x80, clear, 0x00, (false, false, false, true)),
        (Opcode::Rrca, 0x3B, clear, 0x9D, (false, false, false, true)),
        (Opcode::Rrc, 0x01, clear, 0x80, (false, false, false, true)),
        (Opcode::Rra, 0x81, clear, 0x40, (false, false, false, true)),
        (Opcode::Rr, 0x01, clear, 0x00, (true, false, false, true)),
        (Opcode::Rr, 0x8A, carry, 0xC5, (false, false, false, false)),
        (Opcode::Sla, 0xFF, clear, 0xFE, (false, false, false, true)),
        (Opcode::Sla, 0x80, clear, 0x00, (true, false, false, true)),
        (Opcode::Sra, 0x8A, clear, 0xC5, (false, false, false, false)),
        (Opcode::Sra, 0x01, clear, 0x00, (true, false, false, true)),
        (Opcode::Srl, 0xFF, clear, 0x7F, (false, false, false, true)),
        (Opcode::Srl, 0x01, clear, 0x00, (true, false, false, true)),
    ];
    for (op, a, f0, r, f) in cases {
        let (got, gf) = do_shift_or_rotate(op, a, f0);
        assert_eq!((got, znhc(gf)), (r, f), "{op:?} {a:#x}");
        assert_eq!(got, match op {
            Opcode::Rlca | Opcode::Rlc => a.rotate_left(1),
            Opcode::Rrca | Opcode::Rrc => a.rotate_right(1),
            Opcode::Rla | Opcode::Rl => a << 1 | f0.c as u8,
            Opcode::Rra | Opcode::Rr => a >> 1 | (f0.c as u8) << 7,
            Opcode::Sla => a << 1,
            Opcode::Sra => ((a as i8) >> 1) as u8,
            _ => a >> 1,
        });
    }
    assert_eq!(swap_nibbles(0xF1), 0x1F);
    assert_eq!(do_shift_or_rotate(Opcode::Nop, 7, carry), (7, carry));
}

#[test]
fn decimal_adjust() {
    let (a, f) = do_daa(0x7D, flags(false, false, false, false));
    assert_eq!((a, znhc(f)), (0x83, (false, false, false, false)));
    let (a, f) = do_daa(0x9A, flags(false, false, false, false));
    assert_eq!((a, znhc(f)), (0x00, (true, false, false, true)));
    let (a, f) = do_daa(0x4B, flags(false, true, true, false));
    assert_eq!((a, znhc(f)), (0x45, (false, true, false, false)));
    let (a, f) = do_daa(0x20, flags(false, true, false, true));
    assert_eq!((a, znhc(f)), (0xC0, (false, true, false, true)));
    let (a, f) = do_daa(0x10, flags(false, false, true, true));
    assert_eq!((a, znhc(f)), (0x76, (false, false, false, true)));
}

#[test]
fn instruction_tables() {
    let nop = instr_table(0x00);
    assert_eq!((nop.op, nop.op1, nop.op2, nop.mcycles), (Opcode::Nop, Operand::Absent, Operand::Absent, 1));
    let ld = instr_table(0x01);
    assert_eq!((ld.op, ld.op1, ld.op2, ld.mcycles), (Opcode::Ld, Operand::Reg(Reg::BC), Operand::U16(0), 3));
    let jr = instr_table(0x20);
    assert_eq!((jr.op, jr.op1, jr.op2), (Opcode::Jr, Operand::Cond(Cond::NZ), Operand::I8(0)));
    assert_eq!((jr.mcycles, jr.branch_mcycles), (2, 3));
    let call = instr_table(0xCD);
    assert_eq!((call.op, call.mcycles, call.branch_mcycles), (Opcode::Call, 6, 6));
    let ret = instr_table(0xC8);
    assert_eq!((ret.op, ret.op1, ret.mcycles, ret.branch_mcycles), (Opcode::Ret, Operand::Cond(Cond::Z), 2, 5));
    assert_eq!(instr_table(0x76).op, Opcode::Halt);
    let ld_hl = instr_table(0x70);
    assert_eq!((ld_hl.op, ld_hl.op1, ld_hl.op2, ld_hl.mcycles), (Opcode::Ld, Operand::RegMem(Reg::HL), Operand::Reg(Reg::B), 2));
    let ld_r = instr_table(0x7F);
    assert_eq!((ld_r.op1, ld_r.op2, ld_r.mcycles), (Operand::Reg(Reg::A), Operand::Reg(Reg::A), 1));
    let cp = instr_table(0xBE);
    assert_eq!((cp.op, cp.op1, cp.op2, cp.mcycles), (Opcode::Cp, Operand::Reg(Reg::A), Operand::RegMem(Reg::HL), 2));
    let ldh = instr_table(0xE0);
    assert_eq!((ldh.op, ldh.op1, ldh.op2, ldh.mcycles), (Opcode::Ldh, Operand::A8(0), Operand::Reg(Reg::A), 3));
    let rst = instr_table(0xEF);
    assert_eq!((rst.op, rst.op1, rst.mcycles), (Opcode::Rst, Operand::Tgt(0x28), 4));
    for code in [0xD3u8, 0xDB, 0xDD, 0xE3, 0xE4, 0xEB, 0xEC, 0xED, 0xF4, 0xFC, 0xFD] {
        assert_eq!(instr_table(code).op, Opcode::Illegal);
    }
    assert_eq!(instr_table(0xCB).op, Opcode::Prefix);
    let swap = pref_instr_table(0x36);
    assert_eq!((swap.op, swap.op1, swap.mcycles), (Opcode::Swap, Operand::RegMem(Reg::HL), 4));
    let bit = pref_instr_table(0x7E);
    assert_eq!((bit.op, bit.op1, bit.op2, bit.mcycles), (Opcode::Bit, Operand::B3(7), Operand::RegMem(Reg::HL), 3));
    let res = pref_instr_table(0x87);
    assert_eq!((res.op, res.op1, res.op2, res.mcycles), (Opcode::Res, Operand::B3(0), Operand::Reg(Reg::A), 2));
    let set = pref_instr_table(0xFE);
    assert_eq!((set.op, set.op1, set.op2, set.mcycles), (Opcode::SetBit, Operand::B3(7), Operand::RegMem(Reg::HL), 4));
    let srl = pref_instr_table(0x38);
    assert_eq!((srl.op, srl.op1), (Opcode::Srl, Operand::Reg(Reg::B)));
    assert_eq!(Instr::default().op, Opcode::Nop);
}

#[test]
fn decoding_reads_the_immediates_and_moves_on() {
    let cpu = machine(&[0x00, 0x3E, 0x42, 0x01, 0x34, 0x12, 0xCB, 0x37, 0x18, 0xFE, 0xF8, 0x80, 0xEA, 0xCD, 0xAB]);
    let at = |pc: u16| decode(&cpu.mmu, pc);
    let (i, pc) = at(0xC000);
    assert_eq!((i.op, pc), (Opcode::Nop, 0xC001));
    let (i, pc) = at(0xC001);
    assert_eq!((i.op, i.op1, i.op2, pc), (Opcode::Ld, Operand::Reg(Reg::A), Operand::U8(0x42), 0xC003));
    let (i, pc) = at(0xC003);
    assert_eq!((i.op, i.op1, i.op2, pc), (Opcode::Ld, Operand::Reg(Reg::BC), Operand::U16(0x1234), 0xC006));
    let (i, pc) = at(0xC006);
    assert_eq!((i.op, i.op1, i.mcycles, pc), (Opcode::Swap, Operand::Reg(Reg::A), 2, 0xC008));
    let (i, pc) = at(0xC008);
    assert_eq!((i.op, i.op1, pc), (Opcode::Jr, Operand::I8(-2), 0xC00A));
    let (i, pc) = at(0xC00A);
    assert_eq!((i.op, i.op2, pc), (Opcode::Ld, Operand::SPplusI8(-128), 0xC00C));
    let (i, pc) = at(0xC00C);
    assert_eq!((i.op, i.op1, i.op2, pc), (Opcode::Ld, Operand::A16(0xABCD), Operand::Reg(Reg::A), 0xC00F));
    let (_, pc) = at(0xFFFF);
    assert_eq!(pc, 0x0000);
}

#[test]
fn ld_hl_sp_plus_offset() {
    let mut cpu = machine(&[0xF8, 0x10, 0xF8, 0xFF, 0xF8, 0x08]);
    cpu.regs.sp = 0x0FF8;
    cpu.regs.flags = flags(true, true, false, true);
    assert_eq!(cpu.step(), 3);
    assert_eq!(cpu.regs.get_reg(Reg::HL), 0x1008);
    assert_eq!(znhc(cpu.regs.flags), (false, false, false, true));
    assert_eq!(cpu.regs.sp, 0x0FF8);
    assert_eq!(cpu.step(), 3);
    assert_eq!(cpu.regs.get_reg(Reg::HL), 0x0FF7);
    assert_eq!(znhc(cpu.regs.flags), (false, false, true, true));
    assert_eq!(cpu.step(), 3);
    assert_eq!(cpu.regs.get_reg(Reg::HL), 0x1000);
    assert_eq!(znhc(cpu.regs.flags), (false, false, true, true));
}

#[test]
fn interrupt_dispatch() {
    let mut cpu = machine(&[0x00]);
    cpu.mmu.write(0x0000, 0x0A);
    cpu.mmu.write(0xFF0F, 0x01);
    cpu.mmu.write(0xFFFF, 0x01);
    cpu.regs.ime = true;
    cpu.regs.pc = 0x1234;
    cpu.regs.sp = 0xC000;
    assert_eq!(cpu.step(), 5);
    assert!(!cpu.regs.ime);
    assert_eq!(cpu.mmu.read(0xBFFE), 0x34);
    assert_eq!(cpu.mmu.read(0xBFFF), 0x12);
    assert_eq!(cpu.regs.pc, 0x0040);
    assert_eq!(cpu.regs.sp, 0xBFFE);
    assert_eq!(cpu.mmu.read(0xFF0F) & 0x01, 0);
}

#[test]
fn interrupts_are_served_by_priority() {
    for (pending, vector, left) in [
        (0x1Fu8, 0x40u16, 0x1Eu8),
        (0x1E, 0x48, 0x1C),
        (0x1C, 0x50, 0x18),
        (0x18, 0x58, 0x10),
        (0x10, 0x60, 0x00),
    ] {
        let mut cpu = machine(&[0x00]);
        cpu.mmu.regs.iflag = gbemu::regs::IntrBits::new(pending);
        cpu.mmu.write(0xFFFF, 0x1F);
        cpu.regs.ime = true;
        assert_eq!(cpu.handle_interrupt(), Some(5));
        assert_eq!(cpu.regs.pc, vector);
        assert_eq!(cpu.mmu.regs.iflag.read(), left);
    }
}

#[test]
fn masked_or_disabled_interrupts_are_not_served() {
    let mut cpu = machine(&[0x00, 0x00]);
    cpu.mmu.write(0xFF0F, 0x04);
    cpu.mmu.write(0xFFFF, 0x01);
    cpu.regs.ime = true;
    assert_eq!(cpu.step(), 1);
    assert_eq!(cpu.regs.pc, 0xC001);
    cpu.mmu.write(0xFFFF, 0x04);
    cpu.regs.ime = false;
    assert_eq!(cpu.step(), 1);
    assert_eq!(cpu.regs.pc, 0xC002);
    assert_eq!(cpu.mmu.read(0xFF0F) & 0x04, 0x04);
}

#[test]
fn halt_waits_for_an_interrupt() {
    let mut cpu = machine(&[0x76, 0x3C]);
    assert_eq!(cpu.step(), 1);
    assert_eq!(cpu.regs.state, CpuState::Halted);
    for _ in 0..10 {
        assert_eq!(cpu.step(), 1);
        assert_eq!(cpu.regs.pc, 0xC001);
    }
    cpu.mmu.write(0xFFFF, 0x04);
    cpu.mmu.write(0xFF0F, 0x04);
    assert_eq!(cpu.step(), 1);
    assert_eq!(cpu.regs.state, CpuState::Running);
    assert_eq!(cpu.regs.a, 1);
    assert_eq!(cpu.regs.pc, 0xC002);
}

#[test]
fn stop_waits_for_the_joypad_and_resets_div() {
    let mut cpu = machine(&[0x00, 0x10, 0x00, 0x3C]);
    cpu.mmu.tick(200);
    cpu.step();
    assert_ne!(cpu.mmu.read(0xFF04), 0);
    cpu.step();
    assert_eq!(cpu.regs.state, CpuState::Stopped);
    assert_eq!(cpu.regs.pc, 0xC003);
    assert_eq!(cpu.mmu.read(0xFF04), 0);
    assert_eq!(cpu.regs.frequency, 1 << 22);
    cpu.mmu.write(0xFFFF, 0x1F);
    cpu.mmu.write(0xFF0F, 0x0F);
    cpu.step();
    assert_eq!(cpu.regs.state, CpuState::Stopped);
    cpu.mmu.write(0xFF0F, 0x10);
    cpu.step();
    assert_eq!(cpu.regs.state, CpuState::Running);
    assert_eq!(cpu.regs.a, 1);
}

#[test]
fn stop_switches_the_speed_of_a_colour_machine() {
    let mut cpu = machine(&[0x10, 0x00]);
    cpu.mmu.cart.is_cgb = true;
    cpu.mmu.write(0xFF4D, 0x01);
    cpu.step();
    assert_eq!(cpu.regs.state, CpuState::Running);
    assert_eq!(cpu.regs.frequency, 1 << 23);
    assert!(cpu.mmu.timer.is_2x && cpu.mmu.serial.is_2x);
    assert_eq!(cpu.mmu.read(0xFF4D), 0x80);
}

#[test]
fn ei_takes_effect_one_instruction_late() {
    let mut cpu = machine(&[0xFB, 0x00, 0x00, 0xF3, 0x00]);
    cpu.step();
    assert!(!cpu.regs.ime);
    assert!(cpu.regs.set_ime_later);
    cpu.step();
    assert!(cpu.regs.ime);
    assert!(!cpu.regs.set_ime_later);
    cpu.step();
    cpu.step();
    assert!(!cpu.regs.ime);
}

#[test]
fn reti_enables_interrupts_at_once() {
    let mut cpu = machine(&[0xCD, 0x10, 0xC0]);
    cpu.mmu.write(0xC010, 0xD9);
    assert_eq!(cpu.step(), 6);
    assert_eq!(cpu.regs.pc, 0xC010);
    assert_eq!(cpu.regs.sp, 0xDFEE);
    assert_eq!(cpu.mmu.read(0xDFEF), 0xC0);
    assert_eq!(cpu.mmu.read(0xDFEE), 0x03);
    assert_eq!(cpu.step(), 4);
    assert_eq!(cpu.regs.pc, 0xC003);
    assert_eq!(cpu.regs.sp, 0xDFF0);
    assert!(cpu.regs.ime);
}

#[test]
fn loads() {
    let mut cpu = machine(&[
        0x21, 0x00, 0xD0, 0x3E, 0x5A, 0x22, 0x32, 0x2A, 0x3A, 0x08, 0x10, 0xD0, 0xE0, 0x85, 0xF0,
        0x85, 0x0E, 0x86, 0xE2, 0xF2, 0x31, 0xCD, 0xAB, 0xF9, 0x36, 0x77, 0xFA, 0x00, 0xD0,
    ]);
    assert_eq!(cpu.step(), 3);
    assert_eq!(cpu.regs.get_reg(Reg::HL), 0xD000);
    assert_eq!(cpu.step(), 2);
    assert_eq!(cpu.step(), 2);
    assert_eq!(cpu.mmu.read(0xD000), 0x5A);
    assert_eq!(cpu.regs.get_reg(Reg::HL), 0xD001);
    cpu.step();
    assert_eq!(cpu.mmu.read(0xD001), 0x5A);
    assert_eq!(cpu.regs.get_reg(Reg::HL), 0xD000);
    cpu.regs.a = 0;
    cpu.step();
    assert_eq!((cpu.regs.a, cpu.regs.get_reg(Reg::HL)), (0x5A, 0xD001));
    cpu.step();
    assert_eq!(cpu.regs.get_reg(Reg::HL), 0xD000);
    assert_eq!(cpu.step(), 5);
    assert_eq!((cpu.mmu.read(0xD010), cpu.mmu.read(0xD011)), (0xF0, 0xDF));
    assert_eq!(cpu.step(), 3);
    assert_eq!(cpu.mmu.read(0xFF85), 0x5A);
    cpu.regs.a = 0;
    assert_eq!(cpu.step(), 3);
    assert_eq!(cpu.regs.a, 0x5A);
    cpu.step();
    cpu.regs.a = 0x99;
    assert_eq!(cpu.step(), 2);
    assert_eq!(cpu.mmu.read(0xFF86), 0x99);
    cpu.regs.a = 0;
    cpu.step();
    assert_eq!(cpu.regs.a, 0x99);
    cpu.step();
    assert_eq!(cpu.regs.sp, 0xABCD);
    cpu.step();
    assert_eq!(cpu.regs.sp, 0xD000);
    assert_eq!(cpu.step(), 3);
    assert_eq!(cpu.mmu.read(0xD000), 0x77);
    assert_eq!(cpu.step(), 4);
    assert_eq!(cpu.regs.a, 0x77);
}

#[test]
fn push_and_pop() {
    let mut cpu = machine(&[0x01, 0x34, 0x12, 0xC5, 0xF1, 0xF5, 0xD1]);
    cpu.step();
    assert_eq!(cpu.step(), 4);
    assert_eq!(cpu.regs.sp, 0xDFEE);
    assert_eq!((cpu.mmu.read(0xDFEF), cpu.mmu.read(0xDFEE)), (0x12, 0x34));
    assert_eq!(cpu.step(), 3);
    assert_eq!(cpu.regs.a, 0x12);
    assert_eq!(cpu.regs.flags.read(), 0x30);
    assert_eq!(cpu.regs.get_reg(Reg::AF), 0x1230);
    assert_eq!(cpu.regs.sp, 0xDFF0);
    cpu.step();
    cpu.step();
    assert_eq!(cpu.regs.get_reg(Reg::DE), 0x1230);
}

#[test]
fn branches_take_more_cycles_when_taken() {
    let mut cpu = machine(&[0x28, 0x05, 0x20, 0x02, 0x00, 0x00, 0xC2, 0x00, 0xC0, 0xCA, 0x10, 0xC0]);
    cpu.regs.flags = flags(false, false, false, false);
    assert_eq!(cpu.step(), 2);
    assert_eq!(cpu.regs.pc, 0xC002);
    assert_eq!(cpu.step(), 3);
    assert_eq!(cpu.regs.pc, 0xC006);
    cpu.regs.flags.z = true;
    assert_eq!(cpu.step(), 3);
    assert_eq!(cpu.regs.pc, 0xC009);
    assert_eq!(cpu.step(), 4);
    assert_eq!(cpu.regs.pc, 0xC010);
}

#[test]
fn calls_returns_and_restarts() {
    let mut cpu = machine(&[0xDC, 0x20, 0xC0, 0xD4, 0x20, 0xC0]);
    cpu.mmu.write(0xC020, 0xD0);
    cpu.mmu.write(0xC021, 0xD8);
    cpu.mmu.write(0xC022, 0xC9);
    cpu.regs.flags.c = false;
    assert_eq!(cpu.step(), 3);
    assert_eq!(cpu.regs.pc, 0xC003);
    assert_eq!(cpu.step(), 6);
    assert_eq!((cpu.regs.pc, cpu.regs.sp), (0xC020, 0xDFEE));
    cpu.regs.flags.c = true;
    assert_eq!(cpu.step(), 2);
    assert_eq!(cpu.step(), 5);
    assert_eq!((cpu.regs.pc, cpu.regs.sp), (0xC006, 0xDFF0));
    cpu.mmu.write(0xC006, 0xE9);
    cpu.regs.set_reg(Reg::HL, 0xC022);
    assert_eq!(cpu.step(), 1);
    assert_eq!(cpu.regs.pc, 0xC022);
    cpu.regs.sp = 0xDFF0;
    cpu.mmu.write(0xDFF0, 0x00);
    cpu.mmu.write(0xDFF1, 0xC1);
    assert_eq!(cpu.step(), 4);
    assert_eq!(cpu.regs.pc, 0xC100);
    cpu.mmu.write(0xC100, 0xEF);
    assert_eq!(cpu.step(), 4);
    assert_eq!(cpu.regs.pc, 0x0028);
    assert_eq!((cpu.mmu.read(0xDFF1), cpu.mmu.read(0xDFF0)), (0xC1, 0x01));
}

#[test]
fn relative_jumps_go_both_ways() {
    let mut cpu = machine(&[0x18, 0x02, 0x00, 0x00, 0x18, 0xFA]);
    assert_eq!(cpu.step(), 3);
    assert_eq!(cpu.regs.pc, 0xC004);
    assert_eq!(cpu.step(), 3);
    assert_eq!(cpu.regs.pc, 0xC000);
}

#[test]
fn bit_operations() {
    let mut cpu = machine(&[0xCB, 0x7F, 0xCB, 0x47, 0xCB, 0xBF, 0xCB, 0xC7, 0xCB, 0x37, 0xCB, 0xC6, 0xCB, 0x46, 0x07, 0xCB, 0x00]);
    cpu.regs.a = 0x80;
    cpu.regs.flags = flags(false, true, false, true);
    assert_eq!(cpu.step(), 2);
    assert_eq!(znhc(cpu.regs.flags), (false, false, true, true));
    cpu.step();
    assert_eq!(znhc(cpu.regs.flags), (true, false, true, true));
    cpu.step();
    assert_eq!(cpu.regs.a, 0x00);
    assert_eq!(znhc(cpu.regs.flags), (true, false, true, true));
    cpu.step();
    assert_eq!(cpu.regs.a, 0x01);
    cpu.regs.a = 0xF1;
    cpu.step();
    assert_eq!(cpu.regs.a, 0x1F);
    assert_eq!(znhc(cpu.regs.flags), (false, false, false, false));
    cpu.regs.set_reg(Reg::HL, 0xD000);
    assert_eq!(cpu.step(), 4);
    assert_eq!(cpu.mmu.read(0xD000), 0x01);
    assert_eq!(cpu.step(), 3);
    assert!(!cpu.regs.flags.z);
    cpu.regs.a = 0x80;
    assert_eq!(cpu.step(), 1);
    assert_eq!(cpu.regs.a, 0x01);
    assert_eq!(znhc(cpu.regs.flags), (false, false, false, true));
    cpu.regs.b = 0x00;
    cpu.step();
    assert_eq!(znhc(cpu.regs.flags), (true, false, false, false));
}

#[test]
fn flag_and_accumulator_operations() {
    let mut cpu = machine(&[0x2F, 0x37, 0x3F, 0x3F, 0x27, 0xD3, 0xF3]);
    cpu.regs.a = 0x35;
    cpu.regs.flags = flags(true, false, false, false);
    assert_eq!(cpu.step(), 1);
    assert_eq!(cpu.regs.a, 0xCA);
    assert_eq!(znhc(cpu.regs.flags), (true, true, true, false));
    cpu.step();
    assert_eq!(znhc(cpu.regs.flags), (true, false, false, true));
    cpu.step();
    assert_eq!(znhc(cpu.regs.flags), (true, false, false, false));
    cpu.step();
    assert_eq!(znhc(cpu.regs.flags), (true, false, false, true));
    cpu.regs.a = 0x3C;
    cpu.regs.flags = flags(false, false, false, false);
    cpu.step();
    assert_eq!(cpu.regs.a, 0x42);
    let before = cpu.regs;
    assert_eq!(cpu.step(), 1);
    assert_eq!(cpu.regs.pc, before.pc + 1);
    assert_eq!(cpu.regs.a, before.a);
    assert_eq!(cpu.regs.flags, before.flags);
}

#[test]
fn arithmetic_instructions() {
    let mut cpu = machine(&[0x3E, 0x3A, 0xC6, 0xC6, 0x04, 0x05, 0x05, 0x09, 0xE8, 0xFE, 0x34, 0x86, 0xFE, 0x01, 0x23, 0x3B]);
    cpu.step();
    assert_eq!(cpu.step(), 2);
    assert_eq!(cpu.regs.a, 0x00);
    assert_eq!(znhc(cpu.regs.flags), (true, false, true, true));
    cpu.regs.b = 0xFF;
    cpu.step();
    assert_eq!(cpu.regs.b, 0x00);
    assert_eq!(znhc(cpu.regs.flags), (true, false, true, true));
    cpu.step();
    assert_eq!(cpu.regs.b, 0xFF);
    assert_eq!(znhc(cpu.regs.flags), (false, true, true, true));
    cpu.step();
    assert_eq!(cpu.regs.b, 0xFE);
    cpu.regs.set_reg(Reg::HL, 0x8A23);
    cpu.regs.set_reg(Reg::BC, 0x0605);
    cpu.regs.flags = flags(true, true, false, false);
    assert_eq!(cpu.step(), 2);
    assert_eq!(cpu.regs.get_reg(Reg::HL), 0x9028);
    assert_eq!(znhc(cpu.regs.flags), (true, false, true, false));
    cpu.regs.sp = 0x0001;
    assert_eq!(cpu.step(), 4);
    assert_eq!(cpu.regs.sp, 0xFFFF);
    assert_eq!(znhc(cpu.regs.flags), (false, false, false, false));
    cpu.regs.set_reg(Reg::HL, 0xD000);
    cpu.mmu.write(0xD000, 0x0F);
    assert_eq!(cpu.step(), 3);
    assert_eq!(cpu.mmu.read(0xD000), 0x10);
    assert_eq!(znhc(cpu.regs.flags), (false, false, true, false));
    cpu.regs.a = 0xF0;
    assert_eq!(cpu.step(), 2);
    assert_eq!(cpu.regs.a, 0x00);
    assert_eq!(znhc(cpu.regs.flags), (true, false, false, true));
    cpu.regs.a = 0x01;
    cpu.step();
    assert_eq!(cpu.regs.a, 0x01);
    assert_eq!(znhc(cpu.regs.flags), (true, true, false, false));
    cpu.regs.set_reg(Reg::HL, 0xFFFF);
    cpu.step();
    assert_eq!(cpu.regs.get_reg(Reg::HL), 0x0000);
    assert_eq!(znhc(cpu.regs.flags), (true, true, false, false));
    cpu.regs.sp = 0;
    cpu.step();
    assert_eq!(cpu.regs.sp, 0xFFFF);
}

#[test]
fn registers_pair_up() {
    let mut cpu = machine(&[]);
    cpu.regs.set_reg(Reg::BC, 0x1234);
    cpu.regs.set_reg(Reg::DE, 0x5678);
    cpu.regs.set_reg(Reg::HL, 0x9ABC);
    cpu.regs.set_reg(Reg::AF, 0xFFFF);
    assert_eq!((cpu.regs.b, cpu.regs.c, cpu.regs.d, cpu.regs.e, cpu.regs.h, cpu.regs.l), (0x12, 0x34, 0x56, 0x78, 0x9A, 0xBC));
    assert_eq!(cpu.regs.get_reg(Reg::AF), 0xFFF0);
    cpu.regs.set_reg(Reg::A, 0x1234);
    assert_eq!(cpu.regs.get_reg(Reg::A), 0x34);
    cpu.regs.set_reg(Reg::SP, 0xABCD);
    assert_eq!(cpu.regs.get_reg(Reg::SP), 0xABCD);
    assert_eq!(cpu.regs.get_mem_addr(Reg::C), 0xFF34);
    assert_eq!(cpu.regs.get_mem_addr(Reg::HLinc), 0x9ABC);
    assert_eq!(cpu.regs.get_mem_addr(Reg::DE), 0x5678);
    assert!(cpu.check());
}

#[test]
fn every_step_reports_its_cycles_to_the_machine() {
    let mut cpu = machine(&[0x00, 0x01, 0x00, 0x00, 0xCD, 0x00, 0xC0]);
    let mut total = 0;
    for _ in 0..30 {
        let m = cpu.step();
        assert!((1..=6).contains(&m));
        total += m;
    }
    assert_eq!(cpu.mmu.timer.sys_clock as u32, total);
}

#[test]
fn halted_cpu_with_ime_serves_the_interrupt() {
    let mut cpu = machine(&[0x76, 0x00]);
    cpu.regs.ime = true;
    cpu.step();
    assert_eq!(cpu.regs.state, CpuState::Halted);
    cpu.mmu.write(0xFFFF, 0x02);
    cpu.mmu.write(0xFF0F, 0x02);
    assert_eq!(cpu.step(), 5);
    assert_eq!(cpu.regs.state, CpuState::Running);
    assert_eq!(cpu.regs.pc, 0x0048);
    assert_eq!((cpu.mmu.read(0xDFEF), cpu.mmu.read(0xDFEE)), (0xC0, 0x01));
    assert!(!cpu.regs.ime);
}

#[test]
fn program_writes_reach_the_timer_through_the_bus() {
    let mut cpu = machine(&[0x3E, 0x05, 0xE0, 0x07, 0x3E, 0xFE, 0xE0, 0x05, 0x00, 0x00, 0x00, 0x00]);
    let mut mcycles = 0;
    for _ in 0..4 {
        mcycles += cpu.step();
    }
    assert_eq!(mcycles, 10);
    assert_eq!(cpu.mmu.read(0xFF07), 0x05);
    assert_eq!(cpu.mmu.timer.sys_clock, 10);
    assert_eq!(cpu.mmu.read(0xFF05), 0xFF);
    assert_eq!(cpu.mmu.read(0xFF0F) & 0x04, 0);
    cpu.step();
    cpu.step();
    assert_eq!(cpu.mmu.read(0xFF05), 0x00);
    assert_eq!(cpu.mmu.read(0xFF0F) & 0x04, 0);
    cpu.step();
    assert_eq!(cpu.mmu.read(0xFF05), 0x00);
    assert_eq!(cpu.mmu.read(0xFF0F) & 0x04, 0x04);
}
