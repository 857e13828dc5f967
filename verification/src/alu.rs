//! Arithmetic, logic, rotate and bit operations: what each computes, as
//! functions on plain values, and the handlers' cores that compute it on the
//! register file.

use crate::flags::{
    flags_of, lemma_flags_of_pack, lemma_pack_flags_of, parity_even, Flags, BIT_3, BIT_5, C, H, N,
    P_V, S, Z,
};
use crate::z80::{high_byte, signed8, Z80};
use vstd::prelude::*;

verus! {

/// The eight accumulator operations, in encoding order.
#[derive(Clone, Copy, Debug, PartialEq, Eq)]
pub enum AluOp {
    Add,
    Adc,
    Sub,
    Sbc,
    And,
    Xor,
    Or,
    Cp,
}

/// The eight rotate and shift operations, in encoding order.
#[derive(Clone, Copy, Debug, PartialEq, Eq)]
pub enum RotOp {
    Rlc,
    Rrc,
    Rl,
    Rr,
    Sla,
    Sra,
    Sll,
    Srl,
}

/// An 8-bit result with the flags that go with it.
pub ghost struct Alu8 {
    pub value: u8,
    pub flags: Flags,
}

/// A 16-bit result with the flags that go with it.
pub ghost struct Alu16 {
    pub value: u16,
    pub flags: Flags,
}

/// 1 for a set carry, 0 for a clear one.
pub open spec fn carry_in(c: bool) -> int {
    if c {
        1
    } else {
        0
    }
}

/// `v` read as a 16-bit two's-complement number.
pub open spec fn signed16(v: u16) -> int {
    if v < 32768 {
        v as int
    } else {
        v as int - 65536
    }
}

/// Whether `x` lies outside the signed 8-bit range.
pub open spec fn overflows8(x: int) -> bool {
    x < -128 || x > 127
}

/// Whether `x` lies outside the signed 16-bit range.
pub open spec fn overflows16(x: int) -> bool {
    x < -32768 || x > 32767
}

/// Flags derived from an 8-bit result: Sign is its top bit, Zero says that
/// it is zero, bits 5 and 3 mirror its bits 5 and 3; the rest as given.
pub open spec fn result_flags(
    value: u8,
    half_carry: bool,
    parity_overflow: bool,
    subtract: bool,
    carry: bool,
) -> Flags {
    Flags {
        sign: value >= 128,
        zero: value == 0,
        bit5: flags_of(value).bit5,
        half_carry,
        bit3: flags_of(value).bit3,
        parity_overflow,
        subtract,
        carry,
    }
}

/// `a + v + c`: Half-carry is the carry out of bit 3, Parity/Overflow is
/// signed overflow, Carry is the carry out of bit 7.
pub open spec fn add8(a: u8, v: u8, c: bool) -> Alu8 {
    let sum = a + v + carry_in(c);
    let value = (sum % 256) as u8;
    Alu8 {
        value,
        flags: result_flags(
            value,
            a % 16 + v % 16 + carry_in(c) > 15,
            overflows8(signed8(a) + signed8(v) + carry_in(c)),
            false,
            sum > 255,
        ),
    }
}

/// `a - v - c`: Half-carry is the borrow into bit 4, Parity/Overflow is
/// signed overflow, Carry is the borrow out of bit 7.
pub open spec fn sub8(a: u8, v: u8, c: bool) -> Alu8 {
    let diff = a - v - carry_in(c);
    let value = (diff % 256) as u8;
    Alu8 {
        value,
        flags: result_flags(
            value,
            a % 16 < v % 16 + carry_in(c),
            overflows8(signed8(a) - signed8(v) - carry_in(c)),
            true,
            diff < 0,
        ),
    }
}

/// A logical result: Parity/Overflow is the parity of the result, Carry and
/// Add/Subtract are clear.
pub open spec fn logic8(value: u8, half_carry: bool) -> Alu8 {
    Alu8 { value, flags: result_flags(value, half_carry, parity_even(value), false, false) }
}

/// What an accumulator operation leaves in `A` and in the flags. `Cp`
/// compares as `Sub` does, keeps `A`, and takes bits 5 and 3 from the
/// operand.
pub open spec fn alu8(op: AluOp, a: u8, v: u8, fl: Flags) -> Alu8 {
    match op {
        AluOp::Add => add8(a, v, false),
        AluOp::Adc => add8(a, v, fl.carry),
        AluOp::Sub => sub8(a, v, false),
        AluOp::Sbc => sub8(a, v, fl.carry),
        AluOp::And => logic8(a & v, true),
        AluOp::Xor => logic8(a ^ v, false),
        AluOp::Or => logic8(a | v, false),
        AluOp::Cp => Alu8 {
            value: a,
            flags: Flags {
                bit5: flags_of(v).bit5,
                bit3: flags_of(v).bit3,
                ..sub8(a, v, false).flags
            },
        },
    }
}

/// `v + 1`: Carry keeps its value.
pub open spec fn inc8(v: u8, fl: Flags) -> Alu8 {
    let value = ((v + 1) % 256) as u8;
    Alu8 { value, flags: result_flags(value, v % 16 == 15, v == 0x7f, false, fl.carry) }
}

/// `v - 1`: Carry keeps its value.
pub open spec fn dec8(v: u8, fl: Flags) -> Alu8 {
    let value = ((v - 1) % 256) as u8;
    Alu8 { value, flags: result_flags(value, v % 16 == 0, v == 0x80, true, fl.carry) }
}

/// The byte that a rotate or shift produces from `v` and the carry.
pub open spec fn rot_value(op: RotOp, v: u8, c: bool) -> u8 {
    match op {
        RotOp::Rlc => ((v * 2) % 256 + v / 128) as u8,
        RotOp::Rrc => (v / 2 + (v % 2) * 128) as u8,
        RotOp::Rl => ((v * 2) % 256 + carry_in(c)) as u8,
        RotOp::Rr => (v / 2 + carry_in(c) * 128) as u8,
        RotOp::Sla => ((v * 2) % 256) as u8,
        RotOp::Sra => (v / 2 + (v / 128) * 128) as u8,
        RotOp::Sll => ((v * 2) % 256 + 1) as u8,
        RotOp::Srl => v / 2,
    }
}

/// The bit that a rotate or shift moves out of `v`.
pub open spec fn rot_carry(op: RotOp, v: u8) -> bool {
    match op {
        RotOp::Rlc | RotOp::Rl | RotOp::Sla | RotOp::Sll => v >= 128,
        RotOp::Rrc | RotOp::Rr | RotOp::Sra | RotOp::Srl => v % 2 == 1,
    }
}

/// A rotate or shift of a register or memory byte.
pub open spec fn rot8(op: RotOp, v: u8, fl: Flags) -> Alu8 {
    let value = rot_value(op, v, fl.carry);
    Alu8 { value, flags: result_flags(value, false, parity_even(value), false, rot_carry(op, v)) }
}

/// A rotate of the accumulator by its one-byte opcode: only Half-carry,
/// Add/Subtract and Carry change.
pub open spec fn rot_a(op: RotOp, a: u8, fl: Flags) -> Alu8 {
    Alu8 {
        value: rot_value(op, a, fl.carry),
        flags: Flags { half_carry: false, subtract: false, carry: rot_carry(op, a), ..fl },
    }
}

/// The mask with only bit `n` set.
pub open spec fn bit_mask(n: u8) -> u8 {
    1u8 << n
}

/// The flags after testing bit `n` of `v`: Zero is set where the bit is
/// clear, Half-carry is set, Add/Subtract is clear, the rest is kept.
pub open spec fn bit8(n: u8, v: u8, fl: Flags) -> Flags {
    Flags { zero: v & bit_mask(n) == 0, half_carry: true, subtract: false, ..fl }
}

/// `v` with bit `n` cleared.
pub open spec fn res8(n: u8, v: u8) -> u8 {
    v & !bit_mask(n)
}

/// `v` with bit `n` set.
pub open spec fn set8(n: u8, v: u8) -> u8 {
    v | bit_mask(n)
}

/// Whether a decimal adjustment corrects the high digit, which is also the
/// Carry it leaves.
pub open spec fn daa_carry(a: u8, fl: Flags) -> bool {
    fl.carry || a > 0x99
}

/// The byte that a decimal adjustment of `a` gives: 6 is added to (after a
/// subtraction: taken from) a low digit above 9 or one that carried, and
/// 0x60 likewise for the high digit.
pub open spec fn daa_value(a: u8, fl: Flags) -> u8 {
    let low: int = if fl.half_carry || a % 16 > 9 { 6 } else { 0 };
    let high: int = if daa_carry(a, fl) { 0x60 } else { 0 };
    (if fl.subtract {
        (a - (low + high)) % 256
    } else {
        (a + (low + high)) % 256
    }) as u8
}

/// The Half-carry that a decimal adjustment leaves.
pub open spec fn daa_half_carry(a: u8, fl: Flags) -> bool {
    if fl.subtract {
        fl.half_carry && a % 16 < 6
    } else {
        a % 16 > 9
    }
}

/// Decimal adjustment of `a` after an addition or subtraction of packed
/// decimal digits. Parity/Overflow is the parity of the result,
/// Add/Subtract is kept.
pub open spec fn daa8(a: u8, fl: Flags) -> Alu8 {
    let value = daa_value(a, fl);
    Alu8 {
        value,
        flags: result_flags(
            value,
            daa_half_carry(a, fl),
            parity_even(value),
            fl.subtract,
            daa_carry(a, fl),
        ),
    }
}

/// `hl + v`: only Half-carry (carry out of bit 11), Add/Subtract and Carry
/// change.
pub open spec fn add16(hl: u16, v: u16, fl: Flags) -> Alu16 {
    Alu16 {
        value: ((hl + v) % 65536) as u16,
        flags: Flags {
            half_carry: hl % 4096 + v % 4096 > 4095,
            subtract: false,
            carry: hl + v > 65535,
            ..fl
        },
    }
}

/// Flags derived from a 16-bit result: Sign is its top bit, Zero says that
/// it is zero, bits 5 and 3 mirror those of its high byte.
pub open spec fn result_flags16(
    value: u16,
    half_carry: bool,
    parity_overflow: bool,
    subtract: bool,
    carry: bool,
) -> Flags {
    Flags {
        sign: value >= 32768,
        zero: value == 0,
        bit5: flags_of(high_byte(value)).bit5,
        half_carry,
        bit3: flags_of(high_byte(value)).bit3,
        parity_overflow,
        subtract,
        carry,
    }
}

/// `hl + v + carry`, with the flags of an 8-bit addition widened to 16 bits.
pub open spec fn adc16(hl: u16, v: u16, fl: Flags) -> Alu16 {
    let c = carry_in(fl.carry);
    let sum = hl + v + c;
    let value = (sum % 65536) as u16;
    Alu16 {
        value,
        flags: result_flags16(
            value,
            hl % 4096 + v % 4096 + c > 4095,
            overflows16(signed16(hl) + signed16(v) + c),
            false,
            sum > 65535,
        ),
    }
}

/// `hl - v - carry`, with the flags of an 8-bit subtraction widened to 16
/// bits.
pub open spec fn sbc16(hl: u16, v: u16, fl: Flags) -> Alu16 {
    let c = carry_in(fl.carry);
    let diff = hl - v - c;
    let value = (diff % 65536) as u16;
    Alu16 {
        value,
        flags: result_flags16(
            value,
            hl % 4096 < v % 4096 + c,
            overflows16(signed16(hl) - signed16(v) - c),
            true,
            diff < 0,
        ),
    }
}

proof fn lemma_shift_left_bits(r: u8, c: u8)
    by (bit_vector)
    requires
        c <= 1,
    ensures
        ((r << 1) | (r >> 7)) as int == (r as int * 2) % 256 + (r as int) / 128,
        ((r << 1) | c) as int == (r as int * 2) % 256 + c as int,
        (r << 1) as int == (r as int * 2) % 256,
        ((r << 1) | 1) as int == (r as int * 2) % 256 + 1,
        r & 0x80 != 0 <==> r >= 128,
{
}

proof fn lemma_shift_right_bits(r: u8, c: u8)
    by (bit_vector)
    requires
        c <= 1,
    ensures
        ((r >> 1) | (r << 7)) as int == (r as int) / 2 + ((r as int) % 2) * 128,
        ((r >> 1) | (c << 7)) as int == (r as int) / 2 + (c as int) * 128,
        ((r >> 1) | (r & 0x80)) as int == (r as int) / 2 + ((r as int) / 128) * 128,
        (r >> 1) as int == (r as int) / 2,
        r & 0x01 != 0 <==> (r as int) % 2 == 1,
{
}

impl Z80 {
    /// The state after an accumulator operation with operand `v`.
    #[verifier::opaque]
    pub open spec fn after_alu(self, op: AluOp, v: u8) -> Z80 {
        let out = alu8(op, self.a, v, self.flags());
        Z80 { a: out.value, ..self }.with_flags(out.flags)
    }

    /// Sets Sign, Zero and bits 5 and 3 from `result`.
    pub fn set_result_flags(&mut self, result: u8)
        ensures
            *final(self) == (Z80 { f: final(self).f, ..*old(self) }),
            final(self).flags() == (Flags {
                sign: result >= 128,
                zero: result == 0,
                bit5: flags_of(result).bit5,
                bit3: flags_of(result).bit3,
                ..old(self).flags()
            }),
    {
        self.set_reset_flag(result >= 0x80, S);
        self.set_reset_flag(result == 0, Z);
        self.set_reset_flag(result & BIT_5 != 0, BIT_5);
        self.set_reset_flag(result & BIT_3 != 0, BIT_3);
    }

    /// `a + v + c` with its Half-carry, signed overflow and Carry.
    pub fn add8_parts(a: u8, v: u8, c: u8) -> (out: (u8, bool, bool, bool))
        requires
            c <= 1,
        ensures
            out.0 as int == (a + v + c) % 256,
            out.1 == (a % 16 + v % 16 + c > 15),
            out.2 == overflows8(signed8(a) + signed8(v) + c),
            out.3 == (a + v + c > 255),
    {
        let sum: u16 = a as u16 + v as u16 + c as u16;
        let value = (sum % 0x100) as u8;
        let half = a % 16 + v % 16 + c > 15;
        let overflow = (a < 0x80) == (v < 0x80) && (a < 0x80) != (value < 0x80);
        (value, half, overflow, sum > 0xff)
    }

    /// `a - v - c` with its Half-carry, signed overflow and Carry.
    pub fn sub8_parts(a: u8, v: u8, c: u8) -> (out: (u8, bool, bool, bool))
        requires
            c <= 1,
        ensures
            out.0 as int == (a - v - c) % 256,
            out.1 == (a % 16 < v % 16 + c),
            out.2 == overflows8(signed8(a) - signed8(v) - c),
            out.3 == (a - v - c < 0),
    {
        let diff: i16 = a as i16 - v as i16 - c as i16;
        let value: u8 = if diff < 0 {
            (diff + 0x100) as u8
        } else {
            diff as u8
        };
        let half = a % 16 < v % 16 + c;
        let overflow = (a < 0x80) != (v < 0x80) && (a < 0x80) != (value < 0x80);
        (value, half, overflow, diff < 0)
    }

    /// `A + other + carry`, where `carry` is 0 or 1.
    pub fn add_with_carry(&mut self, other: u8, carry: u8)
        requires
            carry <= 1,
        ensures
            *final(self) == ({
                let out = add8(old(self).a, other, carry == 1);
                Z80 { a: out.value, ..*old(self) }.with_flags(out.flags)
            }),
    {
        let (result, half, overflow, carry_out) = Z80::add8_parts(self.a, other, carry);
        self.a = result;
        self.set_all_flags(result, result >= 0x80, result == 0, half, overflow, false, carry_out);
    }

    /// `A - other - carry`, where `carry` is 0 or 1; `A` keeps its value
    /// where `keep` is set.
    pub fn sub_with_carry(&mut self, other: u8, carry: u8, keep: bool)
        requires
            carry <= 1,
        ensures
            *final(self) == ({
                let out = sub8(old(self).a, other, carry == 1);
                if keep {
                    old(self).with_flags(out.flags)
                } else {
                    Z80 { a: out.value, ..*old(self) }.with_flags(out.flags)
                }
            }),
    {
        let (result, half, overflow, carry_out) = Z80::sub8_parts(self.a, other, carry);
        if !keep {
            self.a = result;
        }
        self.set_all_flags(result, result >= 0x80, result == 0, half, overflow, true, carry_out);
    }

    /// Sets the flags of a logical result held in `A`.
    pub fn set_logic_flags(&mut self, half_carry: bool)
        ensures
            *final(self) == old(self).with_flags(logic8(old(self).a, half_carry).flags),
    {
        let result = self.a;
        self.set_result_flags(result);
        self.set_reset_flag(half_carry, H);
        self.set_reset_flag(Z80::check_byte_parity(result), P_V);
        self.reset_flag(N);
        self.reset_flag(C);
        proof {
            lemma_pack_flags_of(self.f);
        }
    }

    /// `ADD A,other`.
    pub fn add_a_r(&mut self, other: u8)
        ensures
            *final(self) == old(self).after_alu(AluOp::Add, other),
    {
        reveal(Z80::after_alu);
        self.add_with_carry(other, 0);
    }

    /// `ADC A,other`.
    pub fn adc_a_r(&mut self, other: u8)
        ensures
            *final(self) == old(self).after_alu(AluOp::Adc, other),
    {
        reveal(Z80::after_alu);
        let c = self.get_flag(C);
        self.add_with_carry(other, c);
    }

    /// `SUB other`.
    pub fn sub_a_r(&mut self, other: u8)
        ensures
            *final(self) == old(self).after_alu(AluOp::Sub, other),
    {
        reveal(Z80::after_alu);
        self.sub_with_carry(other, 0, false);
    }

    /// `SBC A,other`.
    pub fn sbc_a_r(&mut self, other: u8)
        ensures
            *final(self) == old(self).after_alu(AluOp::Sbc, other),
    {
        reveal(Z80::after_alu);
        let c = self.get_flag(C);
        self.sub_with_carry(other, c, false);
    }

    /// `AND value`.
    pub fn and_r(&mut self, value: u8)
        ensures
            *final(self) == old(self).after_alu(AluOp::And, value),
    {
        reveal(Z80::after_alu);
        self.a = self.a & value;
        self.set_logic_flags(true);
    }

    /// `XOR value`.
    pub fn xor_r(&mut self, value: u8)
        ensures
            *final(self) == old(self).after_alu(AluOp::Xor, value),
    {
        reveal(Z80::after_alu);
        self.a = self.a ^ value;
        self.set_logic_flags(false);
    }

    /// `OR value`.
    pub fn or_r(&mut self, value: u8)
        ensures
            *final(self) == old(self).after_alu(AluOp::Or, value),
    {
        reveal(Z80::after_alu);
        self.a = self.a | value;
        self.set_logic_flags(false);
    }

    /// `CP other`.
    pub fn cp_r(&mut self, other: u8)
        ensures
            *final(self) == old(self).after_alu(AluOp::Cp, other),
    {
        reveal(Z80::after_alu);
        self.sub_with_carry(other, 0, true);
        proof {
            lemma_flags_of_pack(sub8(old(self).a, other, false).flags);
        }
        self.set_reset_flag(other & BIT_3 != 0, BIT_3);
        self.set_reset_flag(other & BIT_5 != 0, BIT_5);
        proof {
            lemma_pack_flags_of(self.f);
        }
    }

    /// The accumulator operation `op` with operand `value`.
    pub fn alu_a(&mut self, op: AluOp, value: u8)
        ensures
            *final(self) == old(self).after_alu(op, value),
    {
        match op {
            AluOp::Add => self.add_a_r(value),
            AluOp::Adc => self.adc_a_r(value),
            AluOp::Sub => self.sub_a_r(value),
            AluOp::Sbc => self.sbc_a_r(value),
            AluOp::And => self.and_r(value),
            AluOp::Xor => self.xor_r(value),
            AluOp::Or => self.or_r(value),
            AluOp::Cp => self.cp_r(value),
        }
    }

    /// Sets the flags of an increment from `initial` to `result`.
    pub fn adjust_f_inc_n(&mut self, initial: u8, result: u8)
        requires
            result == inc8(initial, old(self).flags()).value,
        ensures
            *final(self) == old(self).with_flags(inc8(initial, old(self).flags()).flags),
    {
        self.set_result_flags(result);
        self.set_reset_flag(initial % 16 == 15, H);
        self.set_reset_flag(initial == 0x7f, P_V);
        self.reset_flag(N);
        proof {
            lemma_pack_flags_of(self.f);
        }
    }

    /// Sets the flags of a decrement from `initial` to `result`.
    pub fn adjust_f_dec_n(&mut self, initial: u8, result: u8)
        requires
            result == dec8(initial, old(self).flags()).value,
        ensures
            *final(self) == old(self).with_flags(dec8(initial, old(self).flags()).flags),
    {
        self.set_result_flags(result);
        self.set_reset_flag(initial % 16 == 0, H);
        self.set_reset_flag(initial == 0x80, P_V);
        self.set_flag(N);
        proof {
            lemma_pack_flags_of(self.f);
        }
    }

    /// Sets the flags of a rotate or shift that produced `result` and moved
    /// out `carry_out`.
    pub fn set_rotate_flags(&mut self, result: u8, carry_out: bool)
        ensures
            *final(self) == old(self).with_flags(
                result_flags(result, false, parity_even(result), false, carry_out),
            ),
    {
        self.set_reset_flag(carry_out, C);
        self.reset_flag(H);
        self.reset_flag(N);
        self.set_result_flags(result);
        self.set_reset_flag(Z80::check_byte_parity(result), P_V);
        proof {
            lemma_pack_flags_of(self.f);
        }
    }

    /// Rotate left circular.
    pub fn rlc_r(&mut self, r: u8) -> (result: u8)
        ensures
            result == rot8(RotOp::Rlc, r, old(self).flags()).value,
            *final(self) == old(self).with_flags(rot8(RotOp::Rlc, r, old(self).flags()).flags),
    {
        proof {
            lemma_shift_left_bits(r, 0);
        }
        let result = (r << 1) | (r >> 7);
        self.set_rotate_flags(result, r & 0x80 != 0);
        result
    }

    /// Rotate right circular.
    pub fn rrc_r(&mut self, r: u8) -> (result: u8)
        ensures
            result == rot8(RotOp::Rrc, r, old(self).flags()).value,
            *final(self) == old(self).with_flags(rot8(RotOp::Rrc, r, old(self).flags()).flags),
    {
        proof {
            lemma_shift_right_bits(r, 0);
        }
        let result = (r >> 1) | (r << 7);
        self.set_rotate_flags(result, r & 0x01 != 0);
        result
    }

    /// Rotate left through carry.
    pub fn rl_r(&mut self, r: u8) -> (result: u8)
        ensures
            result == rot8(RotOp::Rl, r, old(self).flags()).value,
            *final(self) == old(self).with_flags(rot8(RotOp::Rl, r, old(self).flags()).flags),
    {
        let c = self.get_flag(C);
        proof {
            lemma_shift_left_bits(r, c);
        }
        let result = (r << 1) | c;
        self.set_rotate_flags(result, r & 0x80 != 0);
        result
    }

    /// Rotate right through carry.
    pub fn rr_r(&mut self, r: u8) -> (result: u8)
        ensures
            result == rot8(RotOp::Rr, r, old(self).flags()).value,
            *final(self) == old(self).with_flags(rot8(RotOp::Rr, r, old(self).flags()).flags),
    {
        let c = self.get_flag(C);
        proof {
            lemma_shift_right_bits(r, c);
        }
        let result = (r >> 1) | (c << 7);
        self.set_rotate_flags(result, r & 0x01 != 0);
        result
    }

    /// Shift left arithmetic.
    pub fn sla_r(&mut self, r: u8) -> (result: u8)
        ensures
            result == rot8(RotOp::Sla, r, old(self).flags()).value,
            *final(self) == old(self).with_flags(rot8(RotOp::Sla, r, old(self).flags()).flags),
    {
        proof {
            lemma_shift_left_bits(r, 0);
        }
        let result = r << 1;
        self.set_rotate_flags(result, r & 0x80 != 0);
        result
    }

    /// Shift right arithmetic: the top bit keeps its value.
    pub fn sra_r(&mut self, r: u8) -> (result: u8)
        ensures
            result == rot8(RotOp::Sra, r, old(self).flags()).value,
            *final(self) == old(self).with_flags(rot8(RotOp::Sra, r, old(self).flags()).flags),
    {
        proof {
            lemma_shift_right_bits(r, 0);
        }
        let result = (r >> 1) | (r & 0x80);
        self.set_rotate_flags(result, r & 0x01 != 0);
        result
    }

    /// Shift left logical: bit 0 becomes one.
    pub fn sll_r(&mut self, r: u8) -> (result: u8)
        ensures
            result == rot8(RotOp::Sll, r, old(self).flags()).value,
            *final(self) == old(self).with_flags(rot8(RotOp::Sll, r, old(self).flags()).flags),
    {
        proof {
            lemma_shift_left_bits(r, 0);
        }
        let result = (r << 1) | 1;
        self.set_rotate_flags(result, r & 0x80 != 0);
        result
    }

    /// Shift right logical.
    pub fn srl_r(&mut self, r: u8) -> (result: u8)
        ensures
            result == rot8(RotOp::Srl, r, old(self).flags()).value,
            *final(self) == old(self).with_flags(rot8(RotOp::Srl, r, old(self).flags()).flags),
    {
        proof {
            lemma_shift_right_bits(r, 0);
        }
        let result = r >> 1;
        self.set_rotate_flags(result, r & 0x01 != 0);
        result
    }

    /// The rotate or shift `op` of `r`.
    pub fn rot_r(&mut self, op: RotOp, r: u8) -> (result: u8)
        ensures
            result == rot8(op, r, old(self).flags()).value,
            *final(self) == old(self).with_flags(rot8(op, r, old(self).flags()).flags),
    {
        match op {
            RotOp::Rlc => self.rlc_r(r),
            RotOp::Rrc => self.rrc_r(r),
            RotOp::Rl => self.rl_r(r),
            RotOp::Rr => self.rr_r(r),
            RotOp::Sla => self.sla_r(r),
            RotOp::Sra => self.sra_r(r),
            RotOp::Sll => self.sll_r(r),
            RotOp::Srl => self.srl_r(r),
        }
    }

    /// `val` with bit `bit_num` cleared.
    pub fn res_n_r(bit_num: u8, val: u8) -> (out: u8)
        requires
            bit_num < 8,
        ensures
            out == res8(bit_num, val),
    {
        let mask = !(0x1u8 << bit_num);
        val & mask
    }

    /// `val` with bit `bit_num` set.
    pub fn set_n_r(bit_num: u8, val: u8) -> (out: u8)
        requires
            bit_num < 8,
        ensures
            out == set8(bit_num, val),
    {
        let mask = 0x1u8 << bit_num;
        val | mask
    }

    /// Tests bit `n` of `r`.
    pub fn bit_n_r(&mut self, n: u8, r: u8)
        requires
            n < 8,
        ensures
            *final(self) == old(self).with_flags(bit8(n, r, old(self).flags())),
    {
        let mask = 0x01u8 << n;
        self.set_reset_flag(r & mask == 0, Z);
        self.set_flag(H);
        self.reset_flag(N);
        proof {
            lemma_pack_flags_of(self.f);
        }
    }

    /// Sets every flag: bits 5 and 3 mirror those of `result`, the other six
    /// are as given.
    pub fn set_all_flags(
        &mut self,
        result: u8,
        sign: bool,
        zero: bool,
        half_carry: bool,
        parity_overflow: bool,
        subtract: bool,
        carry: bool,
    )
        ensures
            *final(self) == old(self).with_flags(
                Flags {
                    sign,
                    zero,
                    bit5: flags_of(result).bit5,
                    half_carry,
                    bit3: flags_of(result).bit3,
                    parity_overflow,
                    subtract,
                    carry,
                },
            ),
    {
        self.set_reset_flag(sign, S);
        self.set_reset_flag(zero, Z);
        self.set_reset_flag(result & BIT_5 != 0, BIT_5);
        self.set_reset_flag(half_carry, H);
        self.set_reset_flag(result & BIT_3 != 0, BIT_3);
        self.set_reset_flag(parity_overflow, P_V);
        self.set_reset_flag(subtract, N);
        self.set_reset_flag(carry, C);
        proof {
            lemma_pack_flags_of(self.f);
        }
    }

    /// `hl + v` with its Half-carry and Carry.
    pub fn add16_parts(hl: u16, v: u16) -> (out: (u16, bool, bool))
        ensures
            out.0 as int == (hl + v) % 65536,
            out.1 == (hl % 4096 + v % 4096 > 4095),
            out.2 == (hl + v > 65535),
    {
        let sum: u32 = hl as u32 + v as u32;
        ((sum % 0x10000) as u16, hl % 0x1000 + v % 0x1000 > 0x0fff, sum > 0xffff)
    }

    /// `hl + v + c` with its Half-carry, signed overflow and Carry.
    pub fn adc16_parts(hl: u16, v: u16, c: u8) -> (out: (u16, bool, bool, bool))
        requires
            c <= 1,
        ensures
            out.0 as int == (hl + v + c) % 65536,
            out.1 == (hl % 4096 + v % 4096 + c > 4095),
            out.2 == overflows16(signed16(hl) + signed16(v) + c),
            out.3 == (hl + v + c > 65535),
    {
        let sum: u32 = hl as u32 + v as u32 + c as u32;
        let value = (sum % 0x10000) as u16;
        let half = hl % 0x1000 + v % 0x1000 + c as u16 > 0x0fff;
        let overflow = (hl < 0x8000) == (v < 0x8000) && (hl < 0x8000) != (value < 0x8000);
        (value, half, overflow, sum > 0xffff)
    }

    /// `hl - v - c` with its Half-carry, signed overflow and Carry.
    pub fn sbc16_parts(hl: u16, v: u16, c: u8) -> (out: (u16, bool, bool, bool))
        requires
            c <= 1,
        ensures
            out.0 as int == (hl - v - c) % 65536,
            out.1 == (hl % 4096 < v % 4096 + c),
            out.2 == overflows16(signed16(hl) - signed16(v) - c),
            out.3 == (hl - v - c < 0),
    {
        let diff: i32 = hl as i32 - v as i32 - c as i32;
        let value: u16 = if diff < 0 {
            (diff + 0x10000) as u16
        } else {
            diff as u16
        };
        let half = hl % 0x1000 < v % 0x1000 + c as u16;
        let overflow = (hl < 0x8000) != (v < 0x8000) && (hl < 0x8000) != (value < 0x8000);
        (value, half, overflow, diff < 0)
    }

    /// The state after a one-byte rotate of the accumulator.
    #[verifier::opaque]
    pub open spec fn after_rot_a(self, op: RotOp) -> Z80 {
        let out = rot_a(op, self.a, self.flags());
        Z80 { a: out.value, ..self }.with_flags(out.flags)
    }

    /// `DAA`.
    #[verifier::opaque]
    pub open spec fn after_daa(self) -> Z80 {
        let out = daa8(self.a, self.flags());
        Z80 { a: out.value, ..self }.with_flags(out.flags)
    }

    /// `CPL`: `A` is inverted, Half-carry and Add/Subtract are set.
    #[verifier::opaque]
    pub open spec fn after_cpl(self) -> Z80 {
        Z80 { a: !self.a, ..self }.with_flags(
            Flags { half_carry: true, subtract: true, ..self.flags() },
        )
    }

    /// `SCF`: Carry is set, Half-carry and Add/Subtract are cleared.
    #[verifier::opaque]
    pub open spec fn after_scf(self) -> Z80 {
        self.with_flags(Flags { half_carry: false, subtract: false, carry: true, ..self.flags() })
    }

    /// `CCF`: Carry is inverted, Half-carry takes the old Carry,
    /// Add/Subtract is cleared.
    #[verifier::opaque]
    pub open spec fn after_ccf(self) -> Z80 {
        self.with_flags(
            Flags {
                half_carry: self.flags().carry,
                subtract: false,
                carry: !self.flags().carry,
                ..self.flags()
            },
        )
    }

    /// `NEG`: `A` becomes `0 - A`, with the flags of that subtraction.
    #[verifier::opaque]
    pub open spec fn after_neg(self) -> Z80 {
        let out = sub8(0, self.a, false);
        Z80 { a: out.value, ..self }.with_flags(out.flags)
    }

    /// Sets the flags of a one-byte rotate of the accumulator.
    pub fn set_rotate_a_flags(&mut self, carry_out: bool)
        ensures
            *final(self) == old(self).with_flags(
                Flags { half_carry: false, subtract: false, carry: carry_out, ..old(self).flags() },
            ),
    {
        self.reset_flag(H);
        self.reset_flag(N);
        self.set_reset_flag(carry_out, C);
        proof {
            lemma_pack_flags_of(self.f);
        }
    }

    /// `RLCA`.
    pub fn rlca(&mut self)
        ensures
            *final(self) == old(self).after_rot_a(RotOp::Rlc),
    {
        reveal(Z80::after_rot_a);
        let r = self.a;
        proof {
            lemma_shift_left_bits(r, 0);
        }
        self.a = (r << 1) | (r >> 7);
        self.set_rotate_a_flags(r & 0x80 != 0);
    }

    /// `RLA`.
    pub fn rla(&mut self)
        ensures
            *final(self) == old(self).after_rot_a(RotOp::Rl),
    {
        reveal(Z80::after_rot_a);
        let r = self.a;
        let c = self.get_flag(C);
        proof {
            lemma_shift_left_bits(r, c);
        }
        self.a = (r << 1) | c;
        self.set_rotate_a_flags(r & 0x80 != 0);
    }

    /// `RRCA`.
    pub fn rrca(&mut self)
        ensures
            *final(self) == old(self).after_rot_a(RotOp::Rrc),
    {
        reveal(Z80::after_rot_a);
        let r = self.a;
        proof {
            lemma_shift_right_bits(r, 0);
        }
        self.a = (r >> 1) | (r << 7);
        self.set_rotate_a_flags(r & 0x01 != 0);
    }

    /// `RRA`.
    pub fn rra(&mut self)
        ensures
            *final(self) == old(self).after_rot_a(RotOp::Rr),
    {
        reveal(Z80::after_rot_a);
        let r = self.a;
        let c = self.get_flag(C);
        proof {
            lemma_shift_right_bits(r, c);
        }
        self.a = (r >> 1) | (c << 7);
        self.set_rotate_a_flags(r & 0x01 != 0);
    }

    /// The byte, the Half-carry and the Carry that a decimal adjustment of
    /// `a` gives under the flags `h`, `n` and `c`.
    pub fn daa_parts(a: u8, c: bool, h: bool, n: bool) -> (out: (u8, bool, bool))
        ensures
            ({
                let fl = Flags {
                    sign: false,
                    zero: false,
                    bit5: false,
                    half_carry: h,
                    bit3: false,
                    parity_overflow: false,
                    subtract: n,
                    carry: c,
                };
                &&& out.0 == daa_value(a, fl)
                &&& out.1 == daa_half_carry(a, fl)
                &&& out.2 == daa_carry(a, fl)
            }),
    {
        let low_adjust = h || a % 16 > 9;
        let high_adjust = c || a > 0x99;
        let mut correction: u8 = 0;
        if low_adjust {
            correction = correction + 0x06;
        }
        if high_adjust {
            correction = correction + 0x60;
        }
        let result = if n {
            a.wrapping_sub(correction)
        } else {
            a.wrapping_add(correction)
        };
        let half = if n {
            h && a % 16 < 6
        } else {
            a % 16 > 9
        };
        (result, half, high_adjust)
    }

    /// `DAA`.
    pub fn daa(&mut self)
        ensures
            *final(self) == old(self).after_daa(),
    {
        reveal(Z80::after_daa);
        let c = Z80::check_flag(self.f, C);
        let h = Z80::check_flag(self.f, H);
        let n = Z80::check_flag(self.f, N);
        let (result, half, carry) = Z80::daa_parts(self.a, c, h, n);
        self.a = result;
        self.set_result_flags(result);
        self.set_reset_flag(half, H);
        self.set_reset_flag(Z80::check_byte_parity(result), P_V);
        self.set_reset_flag(carry, C);
        proof {
            lemma_pack_flags_of(self.f);
        }
    }

    /// `CPL`.
    pub fn cpl(&mut self)
        ensures
            *final(self) == old(self).after_cpl(),
    {
        reveal(Z80::after_cpl);
        self.a = !self.a;
        self.set_flag(H);
        self.set_flag(N);
        proof {
            lemma_pack_flags_of(self.f);
        }
    }

    /// `SCF`.
    pub fn scf(&mut self)
        ensures
            *final(self) == old(self).after_scf(),
    {
        reveal(Z80::after_scf);
        self.set_flag(C);
        self.reset_flag(N);
        self.reset_flag(H);
        proof {
            lemma_pack_flags_of(self.f);
        }
    }

    /// `CCF`.
    pub fn ccf(&mut self)
        ensures
            *final(self) == old(self).after_ccf(),
    {
        reveal(Z80::after_ccf);
        let old_c = self.get_flag(C);
        self.set_reset_flag(old_c == 1, H);
        self.reset_flag(N);
        self.set_reset_flag(old_c == 0, C);
        proof {
            lemma_pack_flags_of(self.f);
        }
    }

    /// `NEG`.
    pub fn neg(&mut self)
        ensures
            *final(self) == old(self).after_neg(),
    {
        reveal(Z80::after_neg);
        let old_a = self.a;
        self.a = 0;
        self.sub_with_carry(old_a, 0, false);
    }
}

} // verus!
