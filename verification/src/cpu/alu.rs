//! Arithmetic of the CPU with its flags, free of any machine state.
use vstd::prelude::*;
use crate::cpu::isa::{Opcode, Operand, Reg};
use crate::regs::Flags;

verus! {

/// Two to the power `bits`, for the widths at which carries are taken.
pub open spec fn carry_modulus(bits: u32) -> int {
    if bits == 4 {
        0x10
    } else if bits == 8 {
        0x100
    } else if bits == 12 {
        0x1000
    } else {
        0x10000
    }
}

pub open spec fn carry_width(bits: u32) -> bool {
    bits == 4 || bits == 8 || bits == 12 || bits == 16
}

fn modulus(bits: u32) -> (m: u32)
    requires
        carry_width(bits),
    ensures
        m == carry_modulus(bits),
{
    match bits {
        4 => 0x10,
        8 => 0x100,
        12 => 0x1000,
        _ => 0x10000,
    }
}

/// The value with its low `bits` bits set.
pub fn mask_u16(bits: u32) -> (m: u16)
    requires
        carry_width(bits),
    ensures
        m == carry_modulus(bits) - 1,
{
    match bits {
        4 => 0xF,
        8 => 0xFF,
        12 => 0xFFF,
        _ => 0xFFFF,
    }
}

/// Adding the low `bits` bits of `a` and `b` carries out of them.
pub open spec fn spec_is_carry(a: u16, b: u16, bits: u32) -> bool {
    a as int % carry_modulus(bits) + b as int % carry_modulus(bits) >= carry_modulus(bits)
}

/// Adding the low `bits` bits of `a`, `b` and `c` carries out of them.
pub open spec fn spec_is_carry3(a: u16, b: u16, c: u16, bits: u32) -> bool {
    a as int % carry_modulus(bits) + b as int % carry_modulus(bits) + c as int % carry_modulus(
        bits,
    ) >= carry_modulus(bits)
}

/// Subtracting the low `bits` bits of `b` from those of `a` borrows.
pub open spec fn spec_is_borrow(a: u16, b: u16, bits: u32) -> bool {
    (a as int % carry_modulus(bits)) < b as int % carry_modulus(bits)
}

/// Subtracting the low `bits` bits of `b` and of `c` from those of `a` borrows.
pub open spec fn spec_is_borrow3(a: u16, b: u16, c: u16, bits: u32) -> bool {
    (a as int % carry_modulus(bits)) < b as int % carry_modulus(bits) + c as int % carry_modulus(
        bits,
    )
}

pub fn is_carry(a: u16, b: u16, bits: u32) -> (r: bool)
    requires
        carry_width(bits),
    ensures
        r == spec_is_carry(a, b, bits),
{
    let m = modulus(bits);
    a as u32 % m + b as u32 % m >= m
}

pub fn is_carry3(a: u16, b: u16, c: u16, bits: u32) -> (r: bool)
    requires
        carry_width(bits),
    ensures
        r == spec_is_carry3(a, b, c, bits),
{
    let m = modulus(bits);
    a as u32 % m + b as u32 % m + c as u32 % m >= m
}

pub fn is_borrow(a: u16, b: u16, bits: u32) -> (r: bool)
    requires
        carry_width(bits),
    ensures
        r == spec_is_borrow(a, b, bits),
{
    let m = modulus(bits);
    a as u32 % m < b as u32 % m
}

pub fn is_borrow3(a: u16, b: u16, c: u16, bits: u32) -> (r: bool)
    requires
        carry_width(bits),
    ensures
        r == spec_is_borrow3(a, b, c, bits),
{
    let m = modulus(bits);
    a as u32 % m < b as u32 % m + c as u32 % m
}

pub fn is_zero(a: u16) -> (r: bool)
    ensures
        r == (a == 0),
{
    a == 0
}

pub open spec fn spec_is_reg16(op: Operand) -> bool {
    match op {
        Operand::Reg(r) => r == Reg::BC || r == Reg::DE || r == Reg::HL || r == Reg::SP,
        _ => false,
    }
}

/// The operand is one of the 16-bit registers BC, DE, HL and SP.
pub fn is_reg16(op: Operand) -> (r: bool)
    ensures
        r == spec_is_reg16(op),
{
    match op {
        Operand::Reg(r) => match r {
            Reg::BC | Reg::DE | Reg::HL | Reg::SP => true,
            _ => false,
        },
        _ => false,
    }
}

/// What an operand does to HL after its access: `[HL+]` adds one, `[HL-]` takes one.
pub open spec fn spec_hl_reg_delta(op: Operand) -> int {
    match op {
        Operand::RegMem(Reg::HLinc) => 1,
        Operand::RegMem(Reg::HLdec) => -1,
        _ => 0,
    }
}

pub fn get_hl_reg_delta(op: Operand) -> (d: i16)
    ensures
        d == spec_hl_reg_delta(op),
{
    match op {
        Operand::RegMem(r) => match r {
            Reg::HLinc => 1,
            Reg::HLdec => -1,
            _ => 0,
        },
        _ => 0,
    }
}

/// A signed byte as the 16-bit value that adds like it modulo 2^16.
pub open spec fn spec_sign_extend(i: i8) -> u16 {
    if i >= 0 {
        i as u16
    } else {
        (0x10000 + i) as u16
    }
}

pub fn sign_extend(i: i8) -> (v: u16)
    ensures
        v == spec_sign_extend(i),
{
    if i >= 0 {
        i as u16
    } else {
        (0x10000i32 + i as i32) as u16
    }
}

/// A byte read as a signed number.
pub open spec fn spec_as_signed(b: u8) -> i8 {
    if b < 128 {
        b as i8
    } else {
        (b - 256) as i8
    }
}

pub fn as_signed(b: u8) -> (i: i8)
    ensures
        i == spec_as_signed(b),
{
    if b < 128 {
        b as i8
    } else {
        (b as i16 - 256) as i8
    }
}

/// The sum of two 16-bit values modulo 2^16.
pub open spec fn wrap_add16(a: u16, b: u16) -> u16 {
    ((a + b) % 0x10000) as u16
}

pub fn add16(a: u16, b: u16) -> (r: u16)
    ensures
        r == wrap_add16(a, b),
{
    ((a as u32 + b as u32) % 0x10000) as u16
}

/// The difference of two 16-bit values modulo 2^16.
pub open spec fn wrap_sub16(a: u16, b: u16) -> u16 {
    ((a + 0x10000 - b) % 0x10000) as u16
}

pub fn sub16(a: u16, b: u16) -> (r: u16)
    ensures
        r == wrap_sub16(a, b),
{
    ((a as u32 + 0x10000 - b as u32) % 0x10000) as u16
}

/// The flags after an operation that leaves only carry and zero: the
/// carry as given, zero set for a zero result.
pub open spec fn spec_cz00(carry: bool, result: u8) -> Flags {
    Flags { c: carry, h: false, n: false, z: result == 0 }
}

/// Result and flags of an 8-bit operation on the accumulator. CP compares
/// like SUB and leaves the accumulator as it is. Operations other than the
/// eight arithmetic and logic ones change nothing.
pub open spec fn spec_arith8(op: Opcode, a: u8, b: u8, flags: Flags) -> (u8, Flags) {
    let c: int = if flags.c {
        1
    } else {
        0
    };
    match op {
        Opcode::Add => {
            let r = ((a + b) % 256) as u8;
            (r, Flags { z: r == 0, n: false, h: a % 16 + b % 16 >= 16, c: a + b >= 256 })
        },
        Opcode::Adc => {
            let r = ((a + b + c) % 256) as u8;
            (r, Flags { z: r == 0, n: false, h: a % 16 + b % 16 + c >= 16, c: a + b + c >= 256 })
        },
        Opcode::Sub => {
            let r = ((a + 256 - b) % 256) as u8;
            (r, Flags { z: r == 0, n: true, h: a % 16 < b % 16, c: a < b })
        },
        Opcode::Cp => {
            let r = ((a + 256 - b) % 256) as u8;
            (a, Flags { z: r == 0, n: true, h: a % 16 < b % 16, c: a < b })
        },
        Opcode::Sbc => {
            let r = ((a + 512 - b - c) % 256) as u8;
            (r, Flags { z: r == 0, n: true, h: a % 16 < b % 16 + c, c: a < b + c })
        },
        Opcode::And => (a & b, Flags { z: a & b == 0, n: false, h: true, c: false }),
        Opcode::Xor => (a ^ b, Flags { z: a ^ b == 0, n: false, h: false, c: false }),
        Opcode::Or => (a | b, Flags { z: a | b == 0, n: false, h: false, c: false }),
        _ => (a, flags),
    }
}

pub fn do_8bit_arith(op: Opcode, a: u8, b: u8, flags: Flags) -> (out: (u8, Flags))
    ensures
        out == spec_arith8(op, a, b, flags),
{
    let c: u16 = if flags.c {
        1
    } else {
        0
    };
    let (ax, bx) = (a as u16, b as u16);
    match op {
        Opcode::Add => {
            let r = ((ax + bx) % 256) as u8;
            (r, Flags { z: r == 0, n: false, h: is_carry(ax, bx, 4), c: is_carry(ax, bx, 8) })
        },
        Opcode::Adc => {
            let r = ((ax + bx + c) % 256) as u8;
            (
                r,
                Flags {
                    z: r == 0,
                    n: false,
                    h: is_carry3(ax, bx, c, 4),
                    c: is_carry3(ax, bx, c, 8),
                },
            )
        },
        Opcode::Sub => {
            let r = ((ax + 256 - bx) % 256) as u8;
            (r, Flags { z: r == 0, n: true, h: is_borrow(ax, bx, 4), c: is_borrow(ax, bx, 8) })
        },
        Opcode::Cp => {
            let r = ((ax + 256 - bx) % 256) as u8;
            (a, Flags { z: r == 0, n: true, h: is_borrow(ax, bx, 4), c: is_borrow(ax, bx, 8) })
        },
        Opcode::Sbc => {
            let r = ((ax + 512 - bx - c) % 256) as u8;
            (
                r,
                Flags {
                    z: r == 0,
                    n: true,
                    h: is_borrow3(ax, bx, c, 4),
                    c: is_borrow3(ax, bx, c, 8),
                },
            )
        },
        Opcode::And => (a & b, Flags { z: a & b == 0, n: false, h: true, c: false }),
        Opcode::Xor => (a ^ b, Flags { z: a ^ b == 0, n: false, h: false, c: false }),
        Opcode::Or => (a | b, Flags { z: a | b == 0, n: false, h: false, c: false }),
        _ => (a, flags),
    }
}

/// Result and flags of INC and DEC. On a 16-bit register they count
/// modulo 2^16 and leave the flags alone; else they count modulo 2^8 and
/// set zero, subtract and half-carry, leaving the carry alone.
pub open spec fn spec_inc_dec(is_inc: bool, wide: bool, a: u16, flags: Flags) -> (u16, Flags) {
    if wide {
        (
            if is_inc {
                wrap_add16(a, 1)
            } else {
                wrap_sub16(a, 1)
            },
            flags,
        )
    } else if is_inc {
        let r = ((a % 256 + 1) % 256) as u16;
        (r, Flags { z: r == 0, n: false, h: a % 16 == 15, c: flags.c })
    } else {
        let r = ((a % 256 + 255) % 256) as u16;
        (r, Flags { z: r == 0, n: true, h: a % 16 == 0, c: flags.c })
    }
}

pub fn do_inc_dec(is_inc: bool, oa: Operand, a: u16, flags: Flags) -> (out: (u16, Flags))
    ensures
        out == spec_inc_dec(is_inc, spec_is_reg16(oa), a, flags),
{
    if is_reg16(oa) {
        if is_inc {
            (add16(a, 1), flags)
        } else {
            (sub16(a, 1), flags)
        }
    } else if is_inc {
        let r = (a % 256 + 1) % 256;
        (r, Flags { z: is_zero(r), n: false, h: is_carry(a, 1, 4), c: flags.c })
    } else {
        let r = (a % 256 + 255) % 256;
        (r, Flags { z: is_zero(r), n: true, h: is_borrow(a, 1, 4), c: flags.c })
    }
}

/// Result and flags of the 16-bit additions. `ADD SP, e8` (`to_sp`) takes
/// half-carry and carry from bits 3 and 7 and clears zero; `ADD HL, r16`
/// takes them from bits 11 and 15 and leaves zero alone.
pub open spec fn spec_add_r16(to_sp: bool, a: u16, b: u16, flags: Flags) -> (u16, Flags) {
    if to_sp {
        (
            wrap_add16(a, b),
            Flags { z: false, n: false, h: a % 16 + b % 16 >= 16, c: a % 256 + b % 256 >= 256 },
        )
    } else {
        (
            wrap_add16(a, b),
            Flags { z: flags.z, n: false, h: a % 4096 + b % 4096 >= 4096, c: a + b >= 0x10000 },
        )
    }
}

pub fn do_add_r16(ob: Operand, a: u16, b: u16, flags: Flags) -> (out: (u16, Flags))
    ensures
        out == spec_add_r16(ob is I8, a, b, flags),
{
    let r = add16(a, b);
    if let Operand::I8(_) = ob {
        (r, Flags { z: false, n: false, h: is_carry(a, b, 4), c: is_carry(a, b, 8) })
    } else {
        (r, Flags { z: flags.z, n: false, h: is_carry(a, b, 12), c: is_carry(a, b, 16) })
    }
}

pub open spec fn is_shift(op: Opcode) -> bool {
    op == Opcode::Rlca || op == Opcode::Rlc || op == Opcode::Rrca || op == Opcode::Rrc || op
        == Opcode::Rla || op == Opcode::Rl || op == Opcode::Rra || op == Opcode::Rr || op
        == Opcode::Sla || op == Opcode::Sra || op == Opcode::Srl
}

/// The byte that a shift or rotation makes of `a`. The rotations through
/// the carry shift the carry flag in; SRA keeps bit 7.
pub open spec fn spec_shifted(op: Opcode, a: u8, carry: bool) -> u8 {
    let c: int = if carry {
        1
    } else {
        0
    };
    match op {
        Opcode::Rlca | Opcode::Rlc => ((a % 128) * 2 + a / 128) as u8,
        Opcode::Rrca | Opcode::Rrc => (a / 2 + (a % 2) * 128) as u8,
        Opcode::Rla | Opcode::Rl => ((a % 128) * 2 + c) as u8,
        Opcode::Rra | Opcode::Rr => (a / 2 + c * 128) as u8,
        Opcode::Sla => ((a % 128) * 2) as u8,
        Opcode::Sra => (a / 2 + (a / 128) * 128) as u8,
        Opcode::Srl => (a / 2) as u8,
        _ => a,
    }
}

/// Result and flags of a shift or rotation: the bit shifted out becomes
/// the carry, subtract and half-carry are cleared. The zero flag follows
/// the result, except after the four one-byte rotations of A, which clear it.
pub open spec fn spec_shift(op: Opcode, a: u8, flags: Flags) -> (u8, Flags) {
    let r = spec_shifted(op, a, flags.c);
    let left = op == Opcode::Rlca || op == Opcode::Rlc || op == Opcode::Rla || op == Opcode::Rl
        || op == Opcode::Sla;
    let short = op == Opcode::Rlca || op == Opcode::Rla || op == Opcode::Rrca || op == Opcode::Rra;
    if !is_shift(op) {
        (a, flags)
    } else {
        (
            r,
            Flags {
                c: if left {
                    a >= 128
                } else {
                    a % 2 == 1
                },
                z: !short && r == 0,
                n: false,
                h: false,
            },
        )
    }
}

pub fn do_shift_or_rotate(op: Opcode, a: u8, flags: Flags) -> (out: (u8, Flags))
    ensures
        out == spec_shift(op, a, flags),
{
    let c: u8 = if flags.c {
        1
    } else {
        0
    };
    let r: u8 = match op {
        Opcode::Rlca | Opcode::Rlc => (a % 128) * 2 + a / 128,
        Opcode::Rrca | Opcode::Rrc => a / 2 + (a % 2) * 128,
        Opcode::Rla | Opcode::Rl => (a % 128) * 2 + c,
        Opcode::Rra | Opcode::Rr => a / 2 + c * 128,
        Opcode::Sla => (a % 128) * 2,
        Opcode::Sra => a / 2 + (a / 128) * 128,
        Opcode::Srl => a / 2,
        _ => { return (a, flags); },
    };
    let carry = match op {
        Opcode::Rlca | Opcode::Rlc | Opcode::Rla | Opcode::Rl | Opcode::Sla => a >= 128,
        _ => a % 2 == 1,
    };
    let short = match op {
        Opcode::Rla | Opcode::Rlca | Opcode::Rrca | Opcode::Rra => true,
        _ => false,
    };
    (r, Flags { c: carry, z: !short && r == 0, n: false, h: false })
}

/// The byte with its nibbles exchanged.
pub open spec fn spec_swap(a: u8) -> u8 {
    (a / 16 + (a % 16) * 16) as u8
}

pub fn swap_nibbles(a: u8) -> (r: u8)
    ensures
        r == spec_swap(a),
{
    a / 16 + (a % 16) * 16
}

/// Bit `n` of `v` is set; bit numbers count modulo 8.
pub open spec fn spec_bit_is_set(v: u8, n: u8) -> bool {
    (v >> (n % 8)) & 1 == 1
}

pub fn bit_is_set(v: u8, n: u8) -> (r: bool)
    ensures
        r == spec_bit_is_set(v, n),
{
    (v >> (n % 8)) & 1 == 1
}

/// `v` with bit `n` cleared.
pub open spec fn spec_bit_cleared(v: u8, n: u8) -> u8 {
    v & !(1u8 << (n % 8))
}

pub fn bit_cleared(v: u8, n: u8) -> (r: u8)
    ensures
        r == spec_bit_cleared(v, n),
{
    v & !(1u8 << (n % 8))
}

/// `v` with bit `n` set.
pub open spec fn spec_bit_raised(v: u8, n: u8) -> u8 {
    v | (1u8 << (n % 8))
}

pub fn bit_raised(v: u8, n: u8) -> (r: u8)
    ensures
        r == spec_bit_raised(v, n),
{
    v | (1u8 << (n % 8))
}

/// Accumulator and flags after DAA, which corrects the result of the last
/// addition or subtraction of two packed decimal numbers.
pub open spec fn spec_daa(a: u8, flags: Flags) -> (u8, Flags) {
    if !flags.n {
        let high = flags.c || a > 0x99;
        let a1 = if high {
            ((a + 0x60) % 256) as u8
        } else {
            a
        };
        let a2 = if flags.h || a1 % 16 > 9 {
            ((a1 + 6) % 256) as u8
        } else {
            a1
        };
        (a2, Flags { z: a2 == 0, h: false, c: high, n: flags.n })
    } else {
        let a1 = if flags.c {
            ((a + 256 - 0x60) % 256) as u8
        } else {
            a
        };
        let a2 = if flags.h {
            ((a1 + 256 - 6) % 256) as u8
        } else {
            a1
        };
        (a2, Flags { z: a2 == 0, h: false, c: flags.c, n: flags.n })
    }
}

pub fn do_daa(a: u8, flags: Flags) -> (out: (u8, Flags))
    ensures
        out == spec_daa(a, flags),
{
    let mut a: u16 = a as u16;
    let mut carry = flags.c;
    if !flags.n {
        if flags.c || a > 0x99 {
            a = (a + 0x60) % 256;
            carry = true;
        }
        if flags.h || a % 16 > 9 {
            a = (a + 6) % 256;
        }
    } else {
        if flags.c {
            a = (a + 256 - 0x60) % 256;
        }
        if flags.h {
            a = (a + 256 - 6) % 256;
        }
    }
    (a as u8, Flags { z: a == 0, h: false, c: carry, n: flags.n })
}

/// The flags of the 8-bit arithmetic as the instruction set defines them:
/// zero follows the result; subtract marks SUB, SBC and CP; half-carry and
/// carry are the carries or borrows out of bit 3 and bit 7, carry-in
/// included; AND sets half-carry, and the logic operations clear the carry.
pub proof fn lemma_arith8_flags(op: Opcode, a: u8, b: u8, flags: Flags)
    ensures
        ({
            let (r, f) = spec_arith8(op, a, b, flags);
            let c: int = if flags.c { 1 } else { 0 };
            &&& op == Opcode::Add ==> r == (a + b) % 256 && (f.z <==> r == 0) && !f.n && (f.c <==> a
                + b > 255) && (f.h <==> (a % 16) + (b % 16) > 15)
            &&& op == Opcode::Adc ==> r == (a + b + c) % 256 && (f.z <==> r == 0) && !f.n && (f.c
                <==> a + b + c > 255) && (f.h <==> (a % 16) + (b % 16) + c > 15)
            &&& op == Opcode::Sub ==> r == (a - b) % 256 && (f.z <==> a == b) && f.n && (f.c <==> b
                > a) && (f.h <==> b % 16 > a % 16)
            &&& op == Opcode::Cp ==> r == a && (f.z <==> a == b) && f.n && (f.c <==> b > a) && (f.h
                <==> b % 16 > a % 16)
            &&& op == Opcode::Sbc ==> r == (a - b - c) % 256 && (f.z <==> r == 0) && f.n && (f.c
                <==> b + c > a) && (f.h <==> b % 16 + c > a % 16)
            &&& op == Opcode::And ==> r == a & b && (f.z <==> r == 0) && !f.n && f.h && !f.c
            &&& op == Opcode::Xor ==> r == a ^ b && (f.z <==> r == 0) && !f.n && !f.h && !f.c
            &&& op == Opcode::Or ==> r == a | b && (f.z <==> r == 0) && !f.n && !f.h && !f.c
        }),
{
}

} // verus!
