//! The CPU: registers, interrupt dispatch and the interpreter that
//! executes one instruction per step and hands the m-cycles it took to the
//! rest of the machine.
use vstd::prelude::*;
use crate::info::{
    FREQUENCY,
    FREQUENCY_2X,
    INT_JOYPAD_VEC,
    INT_SERIAL_VEC,
    INT_STAT_VEC,
    INT_TIMER_VEC,
    INT_VBLANK_VEC,
};
use crate::mmu::{Mmu, MmuRegs, MmuView};
use crate::regs::{Flags, IntrBits};
use alu::{
    add16,
    bit_cleared,
    bit_is_set,
    bit_raised,
    do_8bit_arith,
    do_add_r16,
    do_daa,
    do_inc_dec,
    do_shift_or_rotate,
    get_hl_reg_delta,
    is_carry,
    is_reg16,
    sign_extend,
    spec_add_r16,
    spec_arith8,
    spec_bit_cleared,
    spec_bit_is_set,
    spec_bit_raised,
    spec_cz00,
    spec_daa,
    spec_hl_reg_delta,
    spec_inc_dec,
    spec_is_reg16,
    spec_shift,
    spec_sign_extend,
    spec_swap,
    sub16,
    swap_nibbles,
    wrap_add16,
    wrap_sub16,
};
use decoder::{decode, spec_decode};
use isa::{Cond, Instr, Opcode, Operand, Reg};

pub mod alu;
pub mod decoder;
pub mod isa;
pub mod laws;
pub mod table;

verus! {

/// Offset of the addresses that LDH and `[C]` operands count from.
pub const LDH_OFFSET: u16 = 0xFF00;

/// M-cycles that the dispatch of an interrupt takes.
pub const INTERRUPT_MCYCLES: u32 = 5;

#[derive(Clone, Copy, Debug, PartialEq, Eq, Structural)]
pub enum CpuState {
    Running,
    /// Waiting for any interrupt that is enabled.
    Halted,
    /// Waiting for the joypad interrupt.
    Stopped,
}

/// The registers of the CPU.
#[derive(Clone, Copy, Debug, PartialEq, Eq, Structural)]
pub struct CpuRegs {
    pub state: CpuState,
    /// Clock rate in Hz; it doubles with the speed switch.
    pub frequency: u32,
    pub pc: u16,
    pub sp: u16,
    pub flags: Flags,
    pub a: u8,
    pub b: u8,
    pub c: u8,
    pub d: u8,
    pub e: u8,
    pub h: u8,
    pub l: u8,
    /// Interrupt master enable.
    pub ime: bool,
    /// EI was executed: IME is set once the next instruction is done.
    pub set_ime_later: bool,
}

/// The machine: the CPU owns the memory map, which owns everything else.
pub struct Cpu {
    pub regs: CpuRegs,
    pub mmu: Mmu,
}

pub struct CpuView {
    pub regs: CpuRegs,
    pub mmu: MmuView,
}

/// The 16-bit value with high byte `h` and low byte `l`.
pub open spec fn word(h: u8, l: u8) -> u16 {
    (h * 256 + l) as u16
}

fn make_word(h: u8, l: u8) -> (w: u16)
    ensures
        w == word(h, l),
{
    h as u16 * 256 + l as u16
}

/// The interrupt that is served first among `ints`: its vector and the
/// bits that remain. VBlank comes before STAT, timer, serial and joypad.
pub open spec fn first_interrupt(ints: IntrBits, iflag: IntrBits) -> (u16, IntrBits) {
    if ints.vblank {
        (INT_VBLANK_VEC, IntrBits { vblank: false, ..iflag })
    } else if ints.stat {
        (INT_STAT_VEC, IntrBits { stat: false, ..iflag })
    } else if ints.timer {
        (INT_TIMER_VEC, IntrBits { timer: false, ..iflag })
    } else if ints.serial {
        (INT_SERIAL_VEC, IntrBits { serial: false, ..iflag })
    } else {
        (INT_JOYPAD_VEC, IntrBits { joypad: false, ..iflag })
    }
}

fn pick_interrupt(ints: IntrBits, iflag: IntrBits) -> (r: (u16, IntrBits))
    ensures
        r == first_interrupt(ints, iflag),
{
    let mut iflag = iflag;
    if ints.vblank {
        iflag.vblank = false;
        (INT_VBLANK_VEC, iflag)
    } else if ints.stat {
        iflag.stat = false;
        (INT_STAT_VEC, iflag)
    } else if ints.timer {
        iflag.timer = false;
        (INT_TIMER_VEC, iflag)
    } else if ints.serial {
        iflag.serial = false;
        (INT_SERIAL_VEC, iflag)
    } else {
        iflag.joypad = false;
        (INT_JOYPAD_VEC, iflag)
    }
}

/// The kinds of instructions, by what executing them involves.
#[derive(Clone, Copy, Debug, PartialEq, Eq, Structural)]
pub enum OpGroup {
    /// LD and LDH.
    Load,
    Push,
    Pop,
    /// INC, DEC and the arithmetic and logic operations.
    Arith,
    /// Shifts, rotations, SWAP, BIT, RES and SET.
    Bits,
    /// JR, JP, CALL, RET, RETI and RST.
    Branch,
    /// Everything else: interrupt and power control, operations on the
    /// flags and the accumulator alone, NOP and the illegal opcodes.
    Control,
}

pub open spec fn spec_op_group(op: Opcode) -> OpGroup {
    match op {
        Opcode::Ld | Opcode::Ldh => OpGroup::Load,
        Opcode::Push => OpGroup::Push,
        Opcode::Pop => OpGroup::Pop,
        Opcode::Inc | Opcode::Dec | Opcode::Add | Opcode::Adc | Opcode::Sub | Opcode::Sbc
        | Opcode::Cp | Opcode::And | Opcode::Xor | Opcode::Or => OpGroup::Arith,
        Opcode::Rlca | Opcode::Rlc | Opcode::Rrca | Opcode::Rrc | Opcode::Rla | Opcode::Rl
        | Opcode::Rra | Opcode::Rr | Opcode::Sla | Opcode::Sra | Opcode::Srl | Opcode::Swap
        | Opcode::Bit | Opcode::Res | Opcode::SetBit => OpGroup::Bits,
        Opcode::Jr | Opcode::Jp | Opcode::Call | Opcode::Ret | Opcode::Reti | Opcode::Rst =>
            OpGroup::Branch,
        _ => OpGroup::Control,
    }
}

pub fn op_group(op: Opcode) -> (g: OpGroup)
    ensures
        g == spec_op_group(op),
{
    match op {
        Opcode::Ld | Opcode::Ldh => OpGroup::Load,
        Opcode::Push => OpGroup::Push,
        Opcode::Pop => OpGroup::Pop,
        Opcode::Inc | Opcode::Dec | Opcode::Add | Opcode::Adc | Opcode::Sub | Opcode::Sbc
        | Opcode::Cp | Opcode::And | Opcode::Xor | Opcode::Or => OpGroup::Arith,
        Opcode::Rlca | Opcode::Rlc | Opcode::Rrca | Opcode::Rrc | Opcode::Rla | Opcode::Rl
        | Opcode::Rra | Opcode::Rr | Opcode::Sla | Opcode::Sra | Opcode::Srl | Opcode::Swap
        | Opcode::Bit | Opcode::Res | Opcode::SetBit => OpGroup::Bits,
        Opcode::Jr | Opcode::Jp | Opcode::Call | Opcode::Ret | Opcode::Reti | Opcode::Rst =>
            OpGroup::Branch,
        _ => OpGroup::Control,
    }
}

impl CpuRegs {
    pub open spec fn initial() -> CpuRegs {
        CpuRegs {
            state: CpuState::Running,
            frequency: FREQUENCY,
            pc: 0,
            sp: 0,
            flags: Flags { c: false, h: false, n: false, z: false },
            a: 0,
            b: 0,
            c: 0,
            d: 0,
            e: 0,
            h: 0,
            l: 0,
            ime: false,
            set_ime_later: false,
        }
    }

    /// The value of a register; the two moving forms of HL read as HL.
    pub open spec fn reg(self, r: Reg) -> u16 {
        match r {
            Reg::A => self.a as u16,
            Reg::B => self.b as u16,
            Reg::C => self.c as u16,
            Reg::D => self.d as u16,
            Reg::E => self.e as u16,
            Reg::H => self.h as u16,
            Reg::L => self.l as u16,
            Reg::AF => word(self.a, self.flags.pack() as u8),
            Reg::BC => word(self.b, self.c),
            Reg::DE => word(self.d, self.e),
            Reg::HL | Reg::HLinc | Reg::HLdec => word(self.h, self.l),
            Reg::SP => self.sp,
        }
    }

    /// The registers with `v` stored in `r`. An 8-bit register takes the
    /// low byte; the low four bits of F are always zero.
    pub open spec fn with_reg(self, r: Reg, v: u16) -> CpuRegs {
        let h = (v / 256) as u8;
        let l = (v % 256) as u8;
        match r {
            Reg::A => CpuRegs { a: l, ..self },
            Reg::B => CpuRegs { b: l, ..self },
            Reg::C => CpuRegs { c: l, ..self },
            Reg::D => CpuRegs { d: l, ..self },
            Reg::E => CpuRegs { e: l, ..self },
            Reg::H => CpuRegs { h: l, ..self },
            Reg::L => CpuRegs { l, ..self },
            Reg::AF => CpuRegs { a: h, flags: Flags::unpack(l), ..self },
            Reg::BC => CpuRegs { b: h, c: l, ..self },
            Reg::DE => CpuRegs { d: h, e: l, ..self },
            Reg::HL | Reg::HLinc | Reg::HLdec => CpuRegs { h, l, ..self },
            Reg::SP => CpuRegs { sp: v, ..self },
        }
    }

    /// The address that a register points to: `[C]` counts from 0xFF00,
    /// the forms of HL point where HL does, and any other register points
    /// where its value says.
    pub open spec fn mem_addr(self, r: Reg) -> u16 {
        match r {
            Reg::C => (self.c + LDH_OFFSET) as u16,
            _ => self.reg(r),
        }
    }

    /// Whether a branch with first operand `oa` is taken.
    pub open spec fn branch_taken(self, oa: Operand) -> bool {
        match oa {
            Operand::Cond(Cond::NC) => !self.flags.c,
            Operand::Cond(Cond::NZ) => !self.flags.z,
            Operand::Cond(Cond::C) => self.flags.c,
            Operand::Cond(Cond::Z) => self.flags.z,
            _ => true,
        }
    }

    /// The registers after the side effects of a load: an operand `[HL+]`
    /// or `[HL-]` moves HL after the access, and `LD HL, SP+e8` clears
    /// zero and subtract and takes half-carry and carry from the unsigned
    /// addition of the low byte of `sp`, the stack pointer before the load.
    #[verifier::opaque]
    pub open spec fn after_load_effects(self, ins: Instr, sp: u16) -> CpuRegs {
        let d = spec_hl_reg_delta(ins.op1) + spec_hl_reg_delta(ins.op2);
        let moved = if d > 0 {
            self.with_reg(Reg::HL, wrap_add16(self.reg(Reg::HL), d as u16))
        } else if d < 0 {
            self.with_reg(Reg::HL, wrap_sub16(self.reg(Reg::HL), (-d) as u16))
        } else {
            self
        };
        match ins.op2 {
            Operand::SPplusI8(e) => CpuRegs {
                flags: Flags {
                    z: false,
                    n: false,
                    h: sp % 16 + spec_sign_extend(e) % 16 >= 16,
                    c: sp % 256 + spec_sign_extend(e) % 256 >= 256,
                },
                ..moved
            },
            _ => moved,
        }
    }

    /// Result and flags of an arithmetic instruction on operand values `a`
    /// and `b`: INC and DEC, the 16-bit additions, and the 8-bit
    /// operations on the accumulator.
    #[verifier::opaque]
    pub open spec fn arith_outcome(self, ins: Instr, a: u16, b: u16) -> (u16, Flags) {
        if ins.op == Opcode::Inc || ins.op == Opcode::Dec {
            spec_inc_dec(ins.op == Opcode::Inc, spec_is_reg16(ins.op1), a, self.flags)
        } else if ins.op == Opcode::Add && spec_is_reg16(ins.op1) {
            spec_add_r16(ins.op2 is I8, a, b, self.flags)
        } else {
            let (r, flags) = spec_arith8(ins.op, (a % 256) as u8, (b % 256) as u8, self.flags);
            (r as u16, flags)
        }
    }

    /// Flags, destination and result of a shift, a rotation, SWAP, BIT,
    /// RES or SET on operand values `a` and `b`. The four one-byte
    /// rotations work on the accumulator. BIT stores nothing: it sets zero
    /// when the bit is clear, clears subtract and sets half-carry. RES and
    /// SET touch no flag.
    #[verifier::opaque]
    pub open spec fn bits_outcome(self, ins: Instr, a: u16, b: u16) -> (Flags, Operand, u16) {
        let op = ins.op;
        let a8 = (a % 256) as u8;
        let b8 = (b % 256) as u8;
        if op == Opcode::Swap {
            (spec_cz00(false, spec_swap(a8)), ins.op1, spec_swap(a8) as u16)
        } else if op == Opcode::Bit {
            (
                Flags { z: !spec_bit_is_set(b8, a8), n: false, h: true, c: self.flags.c },
                Operand::Absent,
                0,
            )
        } else if op == Opcode::Res {
            (self.flags, ins.op2, spec_bit_cleared(b8, a8) as u16)
        } else if op == Opcode::SetBit {
            (self.flags, ins.op2, spec_bit_raised(b8, a8) as u16)
        } else if op == Opcode::Rlca || op == Opcode::Rrca || op == Opcode::Rla || op
            == Opcode::Rra {
            let (r, flags) = spec_shift(op, self.a, self.flags);
            (flags, Operand::Reg(Reg::A), r as u16)
        } else {
            let (r, flags) = spec_shift(op, a8, self.flags);
            (flags, ins.op1, r as u16)
        }
    }

    /// The registers after an instruction that only touches the CPU's own state.
    #[verifier::opaque]
    pub open spec fn after_control(self, op: Opcode) -> CpuRegs {
        let f = self.flags;
        match op {
            Opcode::Di => CpuRegs { ime: false, ..self },
            Opcode::Ei => CpuRegs { set_ime_later: true, ..self },
            Opcode::Halt => CpuRegs { state: CpuState::Halted, ..self },
            Opcode::Cpl => CpuRegs {
                a: (255 - self.a) as u8,
                flags: Flags { n: true, h: true, ..f },
                ..self
            },
            Opcode::Ccf => CpuRegs { flags: Flags { c: !f.c, n: false, h: false, ..f }, ..self },
            Opcode::Scf => CpuRegs { flags: Flags { c: true, n: false, h: false, ..f }, ..self },
            Opcode::Daa => CpuRegs { a: spec_daa(self.a, f).0, flags: spec_daa(self.a, f).1, ..self },
            _ => self,
        }
    }

    /// The state after a wake-up check with `ints` pending: any of them
    /// wakes a halted CPU, the joypad interrupt a stopped one.
    pub open spec fn woken(self, ints: IntrBits) -> CpuState {
        if (self.state == CpuState::Halted && ints.any()) || (self.state == CpuState::Stopped
            && ints.joypad) {
            CpuState::Running
        } else {
            self.state
        }
    }

    fn load_effects(self, ins: Instr, sp: u16) -> (r: CpuRegs)
        ensures
            r == self.after_load_effects(ins, sp),
    {
        reveal(CpuRegs::after_load_effects);
        let mut r = self;
        let d = get_hl_reg_delta(ins.op1) + get_hl_reg_delta(ins.op2);
        if d > 0 {
            let hl = self.get_reg(Reg::HL);
            r.set_reg(Reg::HL, add16(hl, d as u16));
        } else if d < 0 {
            let hl = self.get_reg(Reg::HL);
            r.set_reg(Reg::HL, sub16(hl, (-d) as u16));
        }
        if let Operand::SPplusI8(e) = ins.op2 {
            let v = sign_extend(e);
            r.flags = Flags { z: false, n: false, h: is_carry(sp, v, 4), c: is_carry(sp, v, 8) };
        }
        r
    }

    fn arith(&self, ins: Instr, a: u16, b: u16) -> (out: (u16, Flags))
        ensures
            out == self.arith_outcome(ins, a, b),
    {
        reveal(CpuRegs::arith_outcome);
        match ins.op {
            Opcode::Inc => do_inc_dec(true, ins.op1, a, self.flags),
            Opcode::Dec => do_inc_dec(false, ins.op1, a, self.flags),
            _ => {
                let wide = if let Opcode::Add = ins.op {
                    is_reg16(ins.op1)
                } else {
                    false
                };
                if wide {
                    do_add_r16(ins.op2, a, b, self.flags)
                } else {
                    let (r, flags) = do_8bit_arith(
                        ins.op,
                        (a % 256) as u8,
                        (b % 256) as u8,
                        self.flags,
                    );
                    (r as u16, flags)
                }
            },
        }
    }

    fn bits(&self, ins: Instr, a: u16, b: u16) -> (out: (Flags, Operand, u16))
        ensures
            out == self.bits_outcome(ins, a, b),
    {
        reveal(CpuRegs::bits_outcome);
        let a8 = (a % 256) as u8;
        let b8 = (b % 256) as u8;
        match ins.op {
            Opcode::Swap => {
                let r = swap_nibbles(a8);
                (Flags { c: false, h: false, n: false, z: r == 0 }, ins.op1, r as u16)
            },
            Opcode::Bit => (
                Flags { z: !bit_is_set(b8, a8), n: false, h: true, c: self.flags.c },
                Operand::Absent,
                0,
            ),
            Opcode::Res => (self.flags, ins.op2, bit_cleared(b8, a8) as u16),
            Opcode::SetBit => (self.flags, ins.op2, bit_raised(b8, a8) as u16),
            Opcode::Rlca | Opcode::Rrca | Opcode::Rla | Opcode::Rra => {
                let (r, flags) = do_shift_or_rotate(ins.op, self.a, self.flags);
                (flags, Operand::Reg(Reg::A), r as u16)
            },
            _ => {
                let (r, flags) = do_shift_or_rotate(ins.op, a8, self.flags);
                (flags, ins.op1, r as u16)
            },
        }
    }

    fn control(self, op: Opcode) -> (r: CpuRegs)
        ensures
            r == self.after_control(op),
    {
        reveal(CpuRegs::after_control);
        let f = self.flags;
        match op {
            Opcode::Di => CpuRegs { ime: false, ..self },
            Opcode::Ei => CpuRegs { set_ime_later: true, ..self },
            Opcode::Halt => CpuRegs { state: CpuState::Halted, ..self },
            Opcode::Cpl => CpuRegs {
                a: 255 - self.a,
                flags: Flags { n: true, h: true, ..f },
                ..self
            },
            Opcode::Ccf => CpuRegs { flags: Flags { c: !f.c, n: false, h: false, ..f }, ..self },
            Opcode::Scf => CpuRegs { flags: Flags { c: true, n: false, h: false, ..f }, ..self },
            Opcode::Daa => {
                let (a, flags) = do_daa(self.a, f);
                CpuRegs { a, flags, ..self }
            },
            _ => self,
        }
    }

    fn wake(&self, ints: IntrBits) -> (s: CpuState)
        ensures
            s == self.woken(ints),
    {
        match self.state {
            CpuState::Halted => if ints.is_any() {
                CpuState::Running
            } else {
                CpuState::Halted
            },
            CpuState::Stopped => if ints.joypad {
                CpuState::Running
            } else {
                CpuState::Stopped
            },
            CpuState::Running => CpuState::Running,
        }
    }

    pub fn get_reg(&self, r: Reg) -> (v: u16)
        ensures
            v == self.reg(r),
    {
        match r {
            Reg::A => self.a as u16,
            Reg::B => self.b as u16,
            Reg::C => self.c as u16,
            Reg::D => self.d as u16,
            Reg::E => self.e as u16,
            Reg::H => self.h as u16,
            Reg::L => self.l as u16,
            Reg::AF => make_word(self.a, self.flags.read()),
            Reg::BC => make_word(self.b, self.c),
            Reg::DE => make_word(self.d, self.e),
            Reg::HL | Reg::HLinc | Reg::HLdec => make_word(self.h, self.l),
            Reg::SP => self.sp,
        }
    }

    pub fn set_reg(&mut self, r: Reg, v: u16)
        ensures
            *final(self) == old(self).with_reg(r, v),
    {
        let h = (v / 256) as u8;
        let l = (v % 256) as u8;
        match r {
            Reg::A => self.a = l,
            Reg::B => self.b = l,
            Reg::C => self.c = l,
            Reg::D => self.d = l,
            Reg::E => self.e = l,
            Reg::H => self.h = l,
            Reg::L => self.l = l,
            Reg::AF => {
                self.a = h;
                self.flags.write(l);
            },
            Reg::BC => {
                self.b = h;
                self.c = l;
            },
            Reg::DE => {
                self.d = h;
                self.e = l;
            },
            Reg::HL | Reg::HLinc | Reg::HLdec => {
                self.h = h;
                self.l = l;
            },
            Reg::SP => self.sp = v,
        }
    }

    pub fn get_mem_addr(&self, r: Reg) -> (a: u16)
        ensures
            a == self.mem_addr(r),
    {
        match r {
            Reg::C => self.c as u16 + LDH_OFFSET,
            _ => self.get_reg(r),
        }
    }

    fn is_taken(&self, oa: Operand) -> (t: bool)
        ensures
            t == self.branch_taken(oa),
    {
        match oa {
            Operand::Cond(cc) => match cc {
                Cond::NC => !self.flags.c,
                Cond::NZ => !self.flags.z,
                Cond::C => self.flags.c,
                Cond::Z => self.flags.z,
            },
            _ => true,
        }
    }
}

impl CpuView {
    /// The value of an operand. A condition has none and reads as zero.
    #[verifier::opaque]
    pub open spec fn op_val(self, op: Operand) -> u16 {
        match op {
            Operand::Absent => 0,
            Operand::Reg(r) => self.regs.reg(r),
            Operand::RegMem(r) => self.mmu.read(self.regs.mem_addr(r)) as u16,
            Operand::Cond(_) => 0,
            Operand::B3(b) => b as u16,
            Operand::Tgt(t) => t as u16,
            Operand::I8(i) => spec_sign_extend(i),
            Operand::U8(u) => u as u16,
            Operand::U16(u) => u,
            Operand::SPplusI8(i) => wrap_add16(self.regs.sp, spec_sign_extend(i)),
            Operand::A8(u) => self.mmu.read((u + LDH_OFFSET) as u16) as u16,
            Operand::A16(u) => self.mmu.read(u) as u16,
        }
    }

    /// The machine after `val` is stored in an operand: in a register, or
    /// its low byte in memory. Operands that name no place take nothing.
    #[verifier::opaque]
    pub open spec fn after_set_op(self, op: Operand, val: u16) -> CpuView {
        let byte = (val % 256) as u8;
        match op {
            Operand::Reg(r) => CpuView { regs: self.regs.with_reg(r, val), ..self },
            Operand::RegMem(r) => CpuView {
                mmu: self.mmu.after_write(self.regs.mem_addr(r), byte),
                ..self
            },
            Operand::A8(u) => CpuView {
                mmu: self.mmu.after_write((u + LDH_OFFSET) as u16, byte),
                ..self
            },
            Operand::A16(u) => CpuView { mmu: self.mmu.after_write(u, byte), ..self },
            _ => self,
        }
    }

    /// The machine after `v` is pushed: SP goes down before each byte, and
    /// the high byte goes first.
    #[verifier::opaque]
    pub open spec fn after_push(self, v: u16) -> CpuView {
        let sp1 = wrap_sub16(self.regs.sp, 1);
        let sp2 = wrap_sub16(self.regs.sp, 2);
        CpuView {
            regs: CpuRegs { sp: sp2, ..self.regs },
            mmu: self.mmu.after_write(sp1, (v / 256) as u8).after_write(sp2, (v % 256) as u8),
        }
    }

    /// The machine after a pop, and the value popped: the low byte comes
    /// first, and SP goes up after each byte.
    #[verifier::opaque]
    pub open spec fn after_pop(self) -> (CpuView, u16) {
        (
            CpuView { regs: CpuRegs { sp: wrap_add16(self.regs.sp, 2), ..self.regs }, ..self },
            word(self.mmu.read(wrap_add16(self.regs.sp, 1)), self.mmu.read(self.regs.sp)),
        )
    }

    /// The machine after a branch instruction, and whether the branch was
    /// taken. `a` and `b` are the values of the operands; the target is
    /// the operand that is not the condition. JR counts from the address
    /// of the next instruction, CALL and RST push that address, RET and
    /// RETI pop the target, and RETI enables interrupts at once.
    #[verifier::opaque]
    pub open spec fn after_branch(self, op: Opcode, oa: Operand, a: u16, b: u16) -> (CpuView, bool) {
        if !self.regs.branch_taken(oa) {
            (self, false)
        } else {
            let target = if oa is Cond {
                b
            } else {
                a
            };
            let v = match op {
                Opcode::Jr => CpuView {
                    regs: CpuRegs { pc: wrap_add16(self.regs.pc, target), ..self.regs },
                    ..self
                },
                Opcode::Call | Opcode::Rst => {
                    let w = self.after_push(self.regs.pc);
                    CpuView { regs: CpuRegs { pc: target, ..w.regs }, ..w }
                },
                Opcode::Ret => {
                    let (w, pc) = self.after_pop();
                    CpuView { regs: CpuRegs { pc, ..w.regs }, ..w }
                },
                Opcode::Reti => {
                    let (w, pc) = self.after_pop();
                    CpuView { regs: CpuRegs { pc, ime: true, ..w.regs }, ..w }
                },
                _ => CpuView { regs: CpuRegs { pc: target, ..self.regs }, ..self },
            };
            (v, true)
        }
    }

    /// The machine after LD or LDH. `LD [a16], SP` stores both bytes of SP,
    /// the low one first. An operand `[HL+]` or `[HL-]` moves HL after the
    /// access. `LD HL, SP+e8` clears zero and subtract and takes half-carry
    /// and carry from the unsigned addition of the low byte.
    #[verifier::opaque]
    pub open spec fn after_load(self, ins: Instr) -> CpuView {
        let b = self.op_val(ins.op2);
        let stored = match (ins.op1, ins.op2) {
            (Operand::A16(addr), Operand::Reg(Reg::SP)) => CpuView {
                mmu: self.mmu.after_write(addr, (self.regs.sp % 256) as u8).after_write(
                    wrap_add16(addr, 1),
                    (self.regs.sp / 256) as u8,
                ),
                ..self
            },
            _ => self.after_set_op(ins.op1, b),
        };
        CpuView { regs: stored.regs.after_load_effects(ins, self.regs.sp), ..stored }
    }

    /// The machine after an arithmetic instruction: INC and DEC, the
    /// 16-bit additions, and the 8-bit operations on the accumulator.
    #[verifier::opaque]
    pub open spec fn after_arith(self, ins: Instr) -> CpuView {
        let (r, flags) = self.regs.arith_outcome(ins, self.op_val(ins.op1), self.op_val(ins.op2));
        (CpuView { regs: CpuRegs { flags, ..self.regs }, ..self }).after_set_op(ins.op1, r)
    }

    /// The machine after a shift, a rotation, SWAP, BIT, RES or SET: the
    /// flags change and the result, if there is one, is stored.
    #[verifier::opaque]
    pub open spec fn after_bits(self, ins: Instr) -> CpuView {
        let (flags, dst, val) = self.regs.bits_outcome(
            ins,
            self.op_val(ins.op1),
            self.op_val(ins.op2),
        );
        (CpuView { regs: CpuRegs { flags, ..self.regs }, ..self }).after_set_op(dst, val)
    }

    /// The machine after STOP: a colour machine with the speed switch
    /// armed at normal speed doubles its clock and tells timer and serial
    /// port; any other machine stops until a button is pressed. DIV is
    /// reset either way.
    #[verifier::opaque]
    pub open spec fn after_stop(self) -> CpuView {
        let switched = self.mmu.speed_switch_armed();
        CpuView {
            regs: if switched {
                CpuRegs { frequency: FREQUENCY_2X, ..self.regs }
            } else {
                CpuRegs { state: CpuState::Stopped, ..self.regs }
            },
            mmu: self.mmu.after_stop(switched),
        }
    }

    /// The machine after an instruction that only touches the CPU's own
    /// state, or after STOP. Illegal opcodes do nothing.
    #[verifier::opaque]
    pub open spec fn after_control(self, ins: Instr) -> CpuView {
        if ins.op == Opcode::Stop {
            self.after_stop()
        } else {
            CpuView { regs: self.regs.after_control(ins.op), ..self }
        }
    }

    /// The machine after a decoded instruction is executed, PC already
    /// past it, and the m-cycles the instruction took.
    #[verifier::opaque]
    pub open spec fn after_exec(self, ins: Instr) -> (CpuView, u32) {
        match spec_op_group(ins.op) {
            OpGroup::Load => (self.after_load(ins), ins.mcycles as u32),
            OpGroup::Push => (self.after_push(self.op_val(ins.op1)), ins.mcycles as u32),
            OpGroup::Pop => (
                self.after_pop().0.after_set_op(ins.op1, self.after_pop().1),
                ins.mcycles as u32,
            ),
            OpGroup::Arith => (self.after_arith(ins), ins.mcycles as u32),
            OpGroup::Bits => (self.after_bits(ins), ins.mcycles as u32),
            OpGroup::Branch => {
                let (v, taken) = self.after_branch(
                    ins.op,
                    ins.op1,
                    self.op_val(ins.op1),
                    self.op_val(ins.op2),
                );
                (
                    v,
                    if taken {
                        ins.branch_mcycles as u32
                    } else {
                        ins.mcycles as u32
                    },
                )
            },
            OpGroup::Control => (self.after_control(ins), ins.mcycles as u32),
        }
    }

    /// The machine after the instruction at PC is fetched and executed.
    #[verifier::opaque]
    pub open spec fn after_instr(self) -> (CpuView, u32) {
        let (ins, pc) = spec_decode(self.mmu, self.regs.pc);
        (CpuView { regs: CpuRegs { pc, ..self.regs }, ..self }).after_exec(ins)
    }

    /// The interrupts that are both requested and enabled.
    pub open spec fn pending(self) -> IntrBits {
        self.mmu.regs.iflag.spec_masked(self.mmu.regs.ienable)
    }

    /// The machine after the interrupt check that opens every step, and
    /// the m-cycles of a dispatch if there was one. A pending interrupt
    /// wakes a halted CPU, a pending joypad interrupt a stopped one,
    /// whatever IME says. With IME set, the first pending interrupt is
    /// served: its request is cleared, IME is cleared, PC is pushed and
    /// execution continues at its vector.
    #[verifier::opaque]
    pub open spec fn after_interrupt_check(self) -> (CpuView, Option<u32>) {
        let ints = self.pending();
        let v = CpuView { regs: CpuRegs { state: self.regs.woken(ints), ..self.regs }, ..self };
        if !self.regs.ime || !ints.any() {
            (v, None)
        } else {
            let (vector, iflag) = first_interrupt(ints, self.mmu.regs.iflag);
            let w = (CpuView {
                regs: CpuRegs { ime: false, ..v.regs },
                mmu: MmuView { regs: MmuRegs { iflag, ..self.mmu.regs }, ..self.mmu },
            }).after_push(self.regs.pc);
            (CpuView { regs: CpuRegs { pc: vector, ..w.regs }, ..w }, Some(INTERRUPT_MCYCLES))
        }
    }

    /// The part of a step that belongs to the CPU: an interrupt is
    /// dispatched, or else a running CPU executes one instruction and a
    /// halted or stopped one idles for one m-cycle.
    #[verifier::opaque]
    pub open spec fn after_cpu_step(self) -> (CpuView, u32) {
        let (v, dispatched) = self.after_interrupt_check();
        match dispatched {
            Some(c) => (v, c),
            None => match v.regs.state {
                CpuState::Running => v.after_instr(),
                _ => (v, 1u32),
            },
        }
    }

    /// One step of the machine and the m-cycles it took. An EI that was
    /// pending before the step and still is takes effect now, which makes
    /// it apply one instruction late. Then the rest of the machine runs
    /// for the m-cycles of the step.
    #[verifier::opaque]
    pub open spec fn after_step(self) -> (CpuView, u32) {
        let (v, mcycles) = self.after_cpu_step();
        let regs = if v.regs.set_ime_later && self.regs.set_ime_later {
            CpuRegs { ime: true, set_ime_later: false, ..v.regs }
        } else {
            v.regs
        };
        (CpuView { regs, mmu: v.mmu.after_tick(mcycles) }, mcycles)
    }
}

impl View for Cpu {
    type V = CpuView;

    open spec fn view(&self) -> CpuView {
        CpuView { regs: self.regs, mmu: self.mmu@ }
    }
}

impl Cpu {
    pub open spec fn wf(&self) -> bool {
        self.mmu.wf()
    }

    /// Tells whether the machine is well-formed.
    pub fn check(&self) -> (ok: bool)
        ensures
            ok == self.wf(),
    {
        self.mmu.check()
    }

    pub fn new(mmu: Mmu) -> (cpu: Cpu)
        requires
            mmu.wf(),
        ensures
            cpu@ == (CpuView { regs: CpuRegs::initial(), mmu: mmu@ }),
            cpu.wf(),
    {
        Cpu {
            mmu,
            regs: CpuRegs {
                state: CpuState::Running,
                frequency: FREQUENCY,
                pc: 0,
                sp: 0,
                flags: Flags::new(0),
                a: 0,
                b: 0,
                c: 0,
                d: 0,
                e: 0,
                h: 0,
                l: 0,
                ime: false,
                set_ime_later: false,
            },
        }
    }

    /// Executes one instruction or dispatches one interrupt, lets the rest
    /// of the machine catch up, and returns the m-cycles consumed.
    pub fn step(&mut self) -> (mcycles: u32)
        requires
            old(self).wf(),
        ensures
            (final(self)@, mcycles) == old(self)@.after_step(),
            final(self).wf(),
            1 <= mcycles <= 6,
    {
        reveal(CpuView::after_step);
        let old_set_ime = self.regs.set_ime_later;
        let mcycles = self.cpu_step();
        if self.regs.set_ime_later && old_set_ime {
            self.regs.ime = true;
            self.regs.set_ime_later = false;
        }
        self.mmu.tick(mcycles);
        mcycles
    }

    fn cpu_step(&mut self) -> (mcycles: u32)
        requires
            old(self).wf(),
        ensures
            (final(self)@, mcycles) == old(self)@.after_cpu_step(),
            final(self).wf(),
            1 <= mcycles <= 6,
    {
        reveal(CpuView::after_cpu_step);
        if let Some(c) = self.handle_interrupt() {
            return c;
        }
        match self.regs.state {
            CpuState::Running => {
                return self.exec_next_instr();
            },
            _ => {
                return 1;
            },
        }
    }

    /// Wakes the CPU if an interrupt calls for it, and dispatches the
    /// first pending interrupt if IME allows.
    pub fn handle_interrupt(&mut self) -> (r: Option<u32>)
        requires
            old(self).wf(),
        ensures
            (final(self)@, r) == old(self)@.after_interrupt_check(),
            final(self).wf(),
            r is Some ==> r->Some_0 == INTERRUPT_MCYCLES,
    {
        reveal(CpuView::after_interrupt_check);
        let (iflag, ienable) = self.mmu.interrupt_regs();
        let ints = iflag.masked(ienable);
        let pc = self.regs.pc;
        self.regs.state = self.regs.wake(ints);
        if !self.regs.ime || !ints.is_any() {
            return None;
        }
        let (new_pc, iflag) = pick_interrupt(ints, iflag);
        self.mmu.set_iflag(iflag);
        self.regs.ime = false;
        self.do_push(pc);
        self.regs.pc = new_pc;
        Some(INTERRUPT_MCYCLES)
    }

    /// Fetches the instruction at PC and executes it.
    pub fn exec_next_instr(&mut self) -> (mcycles: u32)
        requires
            old(self).wf(),
        ensures
            (final(self)@, mcycles) == old(self)@.after_instr(),
            final(self).wf(),
            1 <= mcycles <= 6,
    {
        reveal(CpuView::after_instr);
        let ins = self.fetch();
        proof {
            lemma_table_mcycles(old(self)@.mmu, old(self).regs.pc);
        }
        self.exec(ins)
    }

    /// Executes a decoded instruction.
    pub fn exec(&mut self, ins: Instr) -> (mcycles: u32)
        requires
            old(self).wf(),
        ensures
            (final(self)@, mcycles) == old(self)@.after_exec(ins),
            final(self).wf(),
            mcycles == ins.mcycles || mcycles == ins.branch_mcycles,
    {
        reveal(CpuView::after_exec);
        match op_group(ins.op) {
            OpGroup::Load => self.exec_load(ins),
            OpGroup::Push => self.exec_push(ins),
            OpGroup::Pop => self.exec_pop(ins),
            OpGroup::Arith => self.exec_arith(ins),
            OpGroup::Bits => self.exec_bits(ins),
            OpGroup::Branch => {
                return self.exec_branch(ins);
            },
            OpGroup::Control => self.exec_control(ins),
        }
        ins.mcycles as u32
    }

    fn exec_push(&mut self, ins: Instr)
        requires
            old(self).wf(),
        ensures
            final(self)@ == old(self)@.after_push(old(self)@.op_val(ins.op1)),
            final(self).wf(),
    {
        let a = self.get_op_val(ins.op1);
        self.do_push(a);
    }

    fn exec_branch(&mut self, ins: Instr) -> (mcycles: u32)
        requires
            old(self).wf(),
        ensures
            final(self)@ == old(self)@.after_branch(
                ins.op,
                ins.op1,
                old(self)@.op_val(ins.op1),
                old(self)@.op_val(ins.op2),
            ).0,
            mcycles == if old(self)@.after_branch(
                ins.op,
                ins.op1,
                old(self)@.op_val(ins.op1),
                old(self)@.op_val(ins.op2),
            ).1 {
                ins.branch_mcycles as u32
            } else {
                ins.mcycles as u32
            },
            final(self).wf(),
    {
        let a = self.get_op_val(ins.op1);
        let b = self.get_op_val(ins.op2);
        if self.do_branch(ins.op, ins.op1, a, b) {
            ins.branch_mcycles as u32
        } else {
            ins.mcycles as u32
        }
    }

    fn exec_pop(&mut self, ins: Instr)
        requires
            old(self).wf(),
        ensures
            final(self)@ == old(self)@.after_pop().0.after_set_op(ins.op1, old(self)@.after_pop().1),
            final(self).wf(),
    {
        let r = self.do_pop();
        self.set_op_val(ins.op1, r);
    }

    /// Decodes the instruction at PC and moves PC past it.
    pub fn fetch(&mut self) -> (ins: Instr)
        requires
            old(self).wf(),
        ensures
            ins == spec_decode(old(self)@.mmu, old(self).regs.pc).0,
            final(self)@ == (CpuView {
                regs: CpuRegs {
                    pc: spec_decode(old(self)@.mmu, old(self).regs.pc).1,
                    ..old(self).regs
                },
                ..old(self)@
            }),
            final(self).wf(),
    {
        let (ins, pc) = decode(&self.mmu, self.regs.pc);
        self.regs.pc = pc;
        ins
    }

    pub fn get_op_val(&self, op: Operand) -> (v: u16)
        requires
            self.wf(),
        ensures
            v == self@.op_val(op),
    {
        reveal(CpuView::op_val);
        match op {
            Operand::Absent => 0,
            Operand::Reg(r) => self.regs.get_reg(r),
            Operand::RegMem(r) => self.mmu.read(self.regs.get_mem_addr(r)) as u16,
            Operand::Cond(_) => 0,
            Operand::B3(b) => b as u16,
            Operand::Tgt(t) => t as u16,
            Operand::I8(i) => sign_extend(i),
            Operand::U8(u) => u as u16,
            Operand::U16(u) => u,
            Operand::SPplusI8(i) => add16(self.regs.sp, sign_extend(i)),
            Operand::A8(u) => self.mmu.read(u as u16 + LDH_OFFSET) as u16,
            Operand::A16(u) => self.mmu.read(u) as u16,
        }
    }

    pub fn set_op_val(&mut self, op: Operand, val: u16)
        requires
            old(self).wf(),
        ensures
            final(self)@ == old(self)@.after_set_op(op, val),
            final(self).wf(),
    {
        reveal(CpuView::after_set_op);
        let byte = (val % 256) as u8;
        match op {
            Operand::Reg(r) => {
                self.regs.set_reg(r, val);
                return ;
            },
            Operand::RegMem(r) => {
                let addr = self.regs.get_mem_addr(r);
                self.mmu.write(addr, byte);
                return ;
            },
            Operand::A8(u) => {
                self.mmu.write(u as u16 + LDH_OFFSET, byte);
                return ;
            },
            Operand::A16(u) => {
                self.mmu.write(u, byte);
                return ;
            },
            _ => {
                return ;
            },
        }
    }

    pub fn do_push(&mut self, v: u16)
        requires
            old(self).wf(),
        ensures
            final(self)@ == old(self)@.after_push(v),
            final(self).wf(),
    {
        reveal(CpuView::after_push);
        self.regs.sp = sub16(self.regs.sp, 1);
        self.mmu.write(self.regs.sp, (v / 256) as u8);
        self.regs.sp = sub16(self.regs.sp, 1);
        self.mmu.write(self.regs.sp, (v % 256) as u8);
    }

    pub fn do_pop(&mut self) -> (v: u16)
        requires
            old(self).wf(),
        ensures
            (final(self)@, v) == old(self)@.after_pop(),
            final(self).wf(),
    {
        reveal(CpuView::after_pop);
        let l = self.mmu.read(self.regs.sp);
        self.regs.sp = add16(self.regs.sp, 1);
        let h = self.mmu.read(self.regs.sp);
        self.regs.sp = add16(self.regs.sp, 1);
        make_word(h, l)
    }

    fn exec_load(&mut self, ins: Instr)
        requires
            old(self).wf(),
        ensures
            final(self)@ == old(self)@.after_load(ins),
            final(self).wf(),
    {
        reveal(CpuView::after_load);
        let sp = self.regs.sp;
        self.store_loaded(ins);
        self.regs = self.regs.load_effects(ins, sp);
    }

    /// Stores the second operand of a load in the first.
    fn store_loaded(&mut self, ins: Instr)
        requires
            old(self).wf(),
        ensures
            final(self)@ == match (ins.op1, ins.op2) {
                (Operand::A16(addr), Operand::Reg(Reg::SP)) => CpuView {
                    mmu: old(self)@.mmu.after_write(addr, (old(self).regs.sp % 256) as u8).after_write(
                        wrap_add16(addr, 1),
                        (old(self).regs.sp / 256) as u8,
                    ),
                    ..old(self)@
                },
                _ => old(self)@.after_set_op(ins.op1, old(self)@.op_val(ins.op2)),
            },
            final(self).wf(),
    {
        let sp = self.regs.sp;
        if let Operand::A16(addr) = ins.op1 {
            if let Operand::Reg(Reg::SP) = ins.op2 {
                self.mmu.write(addr, (sp % 256) as u8);
                self.mmu.write(add16(addr, 1), (sp / 256) as u8);
                return ;
            }
        }
        let b = self.get_op_val(ins.op2);
        self.set_op_val(ins.op1, b);
    }

    fn exec_arith(&mut self, ins: Instr)
        requires
            old(self).wf(),
        ensures
            final(self)@ == old(self)@.after_arith(ins),
            final(self).wf(),
    {
        reveal(CpuView::after_arith);
        let a = self.get_op_val(ins.op1);
        let b = self.get_op_val(ins.op2);
        let (r, flags) = self.regs.arith(ins, a, b);
        self.regs.flags = flags;
        self.set_op_val(ins.op1, r);
    }

    fn exec_bits(&mut self, ins: Instr)
        requires
            old(self).wf(),
        ensures
            final(self)@ == old(self)@.after_bits(ins),
            final(self).wf(),
    {
        reveal(CpuView::after_bits);
        let a = self.get_op_val(ins.op1);
        let b = self.get_op_val(ins.op2);
        let (flags, dst, val) = self.regs.bits(ins, a, b);
        self.regs.flags = flags;
        self.set_op_val(dst, val);
    }

    /// Executes JR, JP, CALL, RET, RETI or RST and tells whether the
    /// branch was taken.
    pub fn do_branch(&mut self, op: Opcode, oa: Operand, a: u16, b: u16) -> (taken: bool)
        requires
            old(self).wf(),
        ensures
            (final(self)@, taken) == old(self)@.after_branch(op, oa, a, b),
            final(self).wf(),
    {
        reveal(CpuView::after_branch);
        if !self.regs.is_taken(oa) {
            return false;
        }
        let target = if let Operand::Cond(_) = oa {
            b
        } else {
            a
        };
        let kind: u8 = match op {
            Opcode::Call | Opcode::Rst => 1,
            Opcode::Ret => 2,
            Opcode::Reti => 3,
            _ => 0,
        };
        if kind == 1 {
            self.branch_call(target);
        } else if kind >= 2 {
            self.branch_ret(kind == 3);
        } else {
            self.regs.pc = if let Opcode::Jr = op {
                add16(self.regs.pc, target)
            } else {
                target
            };
        }
        true
    }

    fn branch_call(&mut self, target: u16)
        requires
            old(self).wf(),
        ensures
            final(self)@ == ({
                let w = old(self)@.after_push(old(self).regs.pc);
                CpuView { regs: CpuRegs { pc: target, ..w.regs }, ..w }
            }),
            final(self).wf(),
    {
        let ret = self.regs.pc;
        self.do_push(ret);
        self.regs.pc = target;
    }

    fn branch_ret(&mut self, enable: bool)
        requires
            old(self).wf(),
        ensures
            final(self)@ == ({
                let (w, pc) = old(self)@.after_pop();
                CpuView {
                    regs: CpuRegs {
                        pc,
                        ime: if enable {
                            true
                        } else {
                            w.regs.ime
                        },
                        ..w.regs
                    },
                    ..w
                }
            }),
            final(self).wf(),
    {
        let pc = self.do_pop();
        self.regs.pc = pc;
        if enable {
            self.regs.ime = true;
        }
    }

    fn exec_control(&mut self, ins: Instr)
        requires
            old(self).wf(),
        ensures
            final(self)@ == old(self)@.after_control(ins),
            final(self).wf(),
    {
        reveal(CpuView::after_control);
        if let Opcode::Stop = ins.op {
            self.exec_stop();
            return ;
        }
        self.regs = self.regs.control(ins.op);
    }

    fn exec_stop(&mut self)
        requires
            old(self).wf(),
        ensures
            final(self)@ == old(self)@.after_stop(),
            final(self).wf(),
    {
        reveal(CpuView::after_stop);
        let switch = self.mmu.speed_switch_armed();
        self.regs = if switch {
            CpuRegs { frequency: FREQUENCY_2X, ..self.regs }
        } else {
            CpuRegs { state: CpuState::Stopped, ..self.regs }
        };
        self.mmu.stop(switch);
    }
}

/// Every instruction of either table takes between one and six m-cycles,
/// taken or not.
pub proof fn lemma_table_mcycles(mmu: MmuView, pc: u16)
    ensures
        1 <= spec_decode(mmu, pc).0.mcycles <= 6,
        1 <= spec_decode(mmu, pc).0.branch_mcycles <= 6,
{
    let code = mmu.read(pc);
    lemma_entry_mcycles(code);
    let (ins, next) = crate::cpu::decoder::spec_decode_one(false, mmu, pc);
    if ins.op == Opcode::Prefix {
        let code2 = mmu.read(next);
        lemma_entry_mcycles(code2);
    }
}

proof fn lemma_entry_mcycles(code: u8)
    ensures
        1 <= crate::cpu::table::spec_instr(code).mcycles <= 6,
        1 <= crate::cpu::table::spec_instr(code).branch_mcycles <= 6,
        1 <= crate::cpu::table::spec_pref_instr(code).mcycles <= 6,
        1 <= crate::cpu::table::spec_pref_instr(code).branch_mcycles <= 6,
{
}

} // verus!
