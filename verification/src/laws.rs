//! Laws of the instruction set, proved from the definitions that the
//! handlers' contracts use.

use crate::alu::{dec8, inc8, AluOp};
use crate::control::Cond;
use crate::exec::{step, stopped};
use crate::flags::{flags_of, lemma_flags_of_pack, parity_even, Flags};
use crate::z80::{
    displace, word, word_at, Machine, OpCodePrefix, Operand, Resolved, StackPair, Z80,
};
use vstd::prelude::*;

verus! {

proof fn lemma_xor_self(a: u8)
    by (bit_vector)
    ensures
        a ^ a == 0,
{
}

/// Incrementing a register that holds `0xFF` leaves `0x00` in it, with Zero
/// and Half-carry set and Sign, Parity/Overflow and Add/Subtract clear.
/// Carry, the other registers and memory keep their values.
pub proof fn lemma_inc_wraps(cpu: Z80, mem: Seq<u8>, r: Operand)
    requires
        r != Operand::AtHl,
        cpu.reg(r) == 0xFF,
    ensures
        ({
            let after = cpu.after_inc(mem, r);
            let fl = after.cpu.flags();
            &&& after.cpu.reg(r) == 0x00
            &&& fl.zero
            &&& fl.half_carry
            &&& !fl.sign
            &&& !fl.parity_overflow
            &&& !fl.subtract
            &&& fl.carry == cpu.flags().carry
            &&& after.mem == mem
            &&& after.cpu == cpu.with_reg(r, 0x00).with_flags(fl)
        }),
{
    reveal(Z80::after_inc);
    lemma_flags_of_pack(inc8(0xFF, cpu.flags()).flags);
}

/// Decrementing a register that holds `0x00` leaves `0xFF` in it, with Sign,
/// Half-carry and Add/Subtract set and Zero and Parity/Overflow clear.
/// Carry, the other registers and memory keep their values.
pub proof fn lemma_dec_wraps(cpu: Z80, mem: Seq<u8>, r: Operand)
    requires
        r != Operand::AtHl,
        cpu.reg(r) == 0x00,
    ensures
        ({
            let after = cpu.after_dec(mem, r);
            let fl = after.cpu.flags();
            &&& after.cpu.reg(r) == 0xFF
            &&& !fl.zero
            &&& fl.half_carry
            &&& fl.sign
            &&& !fl.parity_overflow
            &&& fl.subtract
            &&& fl.carry == cpu.flags().carry
            &&& after.mem == mem
            &&& after.cpu == cpu.with_reg(r, 0xFF).with_flags(fl)
        }),
{
    reveal(Z80::after_dec);
    lemma_flags_of_pack(dec8(0x00, cpu.flags()).flags);
}

/// `XOR A` leaves zero in `A` whatever it held, with Zero and
/// Parity/Overflow set and Sign, Half-carry, Add/Subtract and Carry clear.
pub proof fn lemma_xor_a_clears(cpu: Z80, mem: Seq<u8>)
    ensures
        ({
            let after = cpu.after_alu_operand(mem, AluOp::Xor, Operand::A);
            let fl = after.flags();
            &&& after.a == 0x00
            &&& fl.zero
            &&& fl.parity_overflow
            &&& !fl.sign
            &&& !fl.half_carry
            &&& !fl.subtract
            &&& !fl.carry
            &&& after == (Z80 { a: 0x00, ..cpu }).with_flags(fl)
        }),
{
    reveal(Z80::after_alu_operand);
    reveal(Z80::after_alu);
    lemma_xor_self(cpu.a);
    assert(parity_even(0u8)) by {
        reveal_with_fuel(crate::flags::count_ones, 1);
    }
    let after = cpu.after_alu_operand(mem, AluOp::Xor, Operand::A);
    lemma_flags_of_pack(crate::alu::logic8(0u8, false).flags);
}

/// A load from one register to another copies the exact byte and changes
/// nothing else: no flag, no other register, no byte of memory.
pub proof fn lemma_ld_copies(cpu: Z80, mem: Seq<u8>, dst: Operand, src: Operand)
    requires
        dst != Operand::AtHl,
        src != Operand::AtHl,
    ensures
        ({
            let after = cpu.after_ld(mem, dst, src);
            &&& after.cpu.reg(dst) == cpu.reg(src)
            &&& after.cpu.f == cpu.f
            &&& after.cpu == cpu.with_reg(dst, cpu.reg(src))
            &&& after.mem == mem
        }),
{
    reveal(Z80::after_ld);
}

/// The opcode of `JR cc,e` for the conditions that have one.
pub open spec fn jr_opcode(cc: Cond) -> u8 {
    match cc {
        Cond::NZ => 0x20,
        Cond::Z => 0x28,
        Cond::NC => 0x30,
        _ => 0x38,
    }
}

/// The opcode of `JP cc,nn`.
pub open spec fn jp_opcode(cc: Cond) -> u8 {
    match cc {
        Cond::NZ => 0xC2,
        Cond::Z => 0xCA,
        Cond::NC => 0xD2,
        Cond::C => 0xDA,
        Cond::PO => 0xE2,
        Cond::PE => 0xEA,
        Cond::P => 0xF2,
        Cond::M => 0xFA,
    }
}

/// A step that executes `JR cc,e` leaves the program counter at the address
/// after the two-byte instruction where the condition is false, and at that
/// address plus the signed displacement where it is true. Nothing else
/// changes but the refresh register.
pub proof fn lemma_relative_jump(cpu: Z80, mem: Seq<u8>, cc: Cond)
    requires
        !stopped(cpu),
        cpu.opcode_prefix == OpCodePrefix::Unprefixed,
        cc == Cond::NZ || cc == Cond::Z || cc == Cond::NC || cc == Cond::C,
        mem[cpu.pc as int] == jr_opcode(cc),
    ensures
        ({
            let after = step(cpu, mem);
            let end = cpu.pc.wrapping_add(2);
            let e = mem[cpu.pc.wrapping_add(1) as int];
            &&& after.cpu.pc == if cpu.cond(cc) {
                displace(end, e)
            } else {
                end
            }
            &&& after.cpu == (Z80 { pc: after.cpu.pc, r: cpu.r.wrapping_add(1), ..cpu })
            &&& after.mem == mem
        }),
{
    reveal(Z80::after_jr);
}

/// A step that executes `JP cc,nn` leaves the program counter at the
/// address after the three-byte instruction where the condition is false,
/// and at the immediate target where it is true. Nothing else changes but
/// the refresh register.
pub proof fn lemma_absolute_jump(cpu: Z80, mem: Seq<u8>, cc: Cond)
    requires
        !stopped(cpu),
        cpu.opcode_prefix == OpCodePrefix::Unprefixed,
        mem[cpu.pc as int] == jp_opcode(cc),
    ensures
        ({
            let after = step(cpu, mem);
            &&& after.cpu.pc == if cpu.cond(cc) {
                word_at(mem, cpu.pc.wrapping_add(1))
            } else {
                cpu.pc.wrapping_add(3)
            }
            &&& after.cpu == (Z80 { pc: after.cpu.pc, r: cpu.r.wrapping_add(1), ..cpu })
            &&& after.mem == mem
        }),
{
    reveal(Z80::after_jp);
}

/// A step that executes `JR e` or `JP nn` always jumps: to the address
/// after the instruction plus the signed displacement, or to the immediate
/// target.
pub proof fn lemma_unconditional_jump(cpu: Z80, mem: Seq<u8>)
    requires
        !stopped(cpu),
        cpu.opcode_prefix == OpCodePrefix::Unprefixed,
    ensures
        mem[cpu.pc as int] == 0x18 ==> step(cpu, mem).cpu.pc == displace(
            cpu.pc.wrapping_add(2),
            mem[cpu.pc.wrapping_add(1) as int],
        ),
        mem[cpu.pc as int] == 0xC3 ==> step(cpu, mem).cpu.pc == word_at(
            mem,
            cpu.pc.wrapping_add(1),
        ),
{
    reveal(Z80::after_jr);
    reveal(Z80::after_jp);
}

/// Pushing a pair and popping it again into the same pair gives back the
/// state before the push: the pair, the stack pointer and every other
/// register.
pub proof fn lemma_push_pop(cpu: Z80, mem: Seq<u8>, qq: StackPair)
    requires
        mem.len() == 65536,
    ensures
        ({
            let pushed = cpu.after_push(mem, qq);
            let popped = pushed.cpu.after_pop(pushed.mem, qq);
            &&& popped.stack_pair(qq) == cpu.stack_pair(qq)
            &&& popped.sp == cpu.sp
            &&& popped == cpu
        }),
{
    reveal(Z80::after_push);
    reveal(Z80::after_push_word);
    reveal(Z80::after_pop);
}

/// A call followed by a return continues at the address after the call,
/// with the stack pointer and every register as they were before the call.
pub proof fn lemma_call_ret(cpu: Z80, mem: Seq<u8>)
    requires
        mem.len() == 65536,
    ensures
        ({
            let called = cpu.after_call(mem, true);
            let back = called.cpu.after_ret(called.mem, true);
            &&& called.cpu.pc == cpu.imm16(mem)
            &&& back.pc == cpu.pc.wrapping_add(2)
            &&& back.sp == cpu.sp
            &&& back == cpu.advance(2)
        }),
{
    reveal(Z80::after_call);
    reveal(Z80::after_push_word);
    reveal(Z80::after_ret);
}

/// Without prefix, `H`, `L`, `HL` and `(HL)` denote the primary pair, and
/// `(HL)` takes no displacement byte.
pub proof fn lemma_no_prefix_denotes_hl(cpu: Z80, mem: Seq<u8>)
    requires
        cpu.opcode_prefix == OpCodePrefix::Unprefixed,
    ensures
        cpu.high() == cpu.h,
        cpu.low() == cpu.l,
        cpu.pair_hl() == word(cpu.h, cpu.l),
        cpu.indirect_hl(mem) == (word(cpu.h, cpu.l), cpu),
        cpu.reg(Operand::H) == cpu.h,
        cpu.reg(Operand::L) == cpu.l,
        cpu.resolve(mem, Operand::AtHl) == (Resolved {
            value: mem[word(cpu.h, cpu.l) as int],
            addr: word(cpu.h, cpu.l),
            cpu,
        }),
        forall|v: u8| cpu.with_high(v) == (Z80 { h: v, ..cpu }),
        forall|v: u8| cpu.with_low(v) == (Z80 { l: v, ..cpu }),
        forall|v: u8| cpu.with_reg(Operand::H, v) == (Z80 { h: v, ..cpu }),
        forall|v: u8| cpu.with_reg(Operand::L, v) == (Z80 { l: v, ..cpu }),
{
}

/// In the index-X state, `H`, `L` and `HL` denote the halves of `IX` and
/// `IX` itself, and `(HL)` denotes the byte at `IX` plus the signed
/// displacement byte, which is consumed. The primary pair is not touched.
pub proof fn lemma_index_x_substitutes(cpu: Z80, mem: Seq<u8>)
    requires
        cpu.opcode_prefix == OpCodePrefix::DD,
    ensures
        cpu.high() == cpu.ix_h,
        cpu.low() == cpu.ix_l,
        cpu.pair_hl() == word(cpu.ix_h, cpu.ix_l),
        cpu.indirect_hl(mem) == (
            displace(word(cpu.ix_h, cpu.ix_l), mem[cpu.pc as int]),
            cpu.advance(1),
        ),
        cpu.reg(Operand::H) == cpu.ix_h,
        cpu.reg(Operand::L) == cpu.ix_l,
        cpu.resolve(mem, Operand::AtHl) == (Resolved {
            value: mem[displace(word(cpu.ix_h, cpu.ix_l), mem[cpu.pc as int]) as int],
            addr: displace(word(cpu.ix_h, cpu.ix_l), mem[cpu.pc as int]),
            cpu: cpu.advance(1),
        }),
        forall|v: u8| cpu.with_high(v) == (Z80 { ix_h: v, ..cpu }),
        forall|v: u8| cpu.with_low(v) == (Z80 { ix_l: v, ..cpu }),
        forall|v: u8| cpu.with_reg(Operand::H, v) == (Z80 { ix_h: v, ..cpu }),
        forall|v: u8| cpu.with_reg(Operand::L, v) == (Z80 { ix_l: v, ..cpu }),
{
}

/// In the index-Y state, `H`, `L` and `HL` denote the halves of `IY` and
/// `IY` itself, and `(HL)` denotes the byte at `IY` plus the signed
/// displacement byte, which is consumed. The primary pair is not touched.
pub proof fn lemma_index_y_substitutes(cpu: Z80, mem: Seq<u8>)
    requires
        cpu.opcode_prefix == OpCodePrefix::FD,
    ensures
        cpu.high() == cpu.iy_h,
        cpu.low() == cpu.iy_l,
        cpu.pair_hl() == word(cpu.iy_h, cpu.iy_l),
        cpu.indirect_hl(mem) == (
            displace(word(cpu.iy_h, cpu.iy_l), mem[cpu.pc as int]),
            cpu.advance(1),
        ),
        cpu.reg(Operand::H) == cpu.iy_h,
        cpu.reg(Operand::L) == cpu.iy_l,
        cpu.resolve(mem, Operand::AtHl) == (Resolved {
            value: mem[displace(word(cpu.iy_h, cpu.iy_l), mem[cpu.pc as int]) as int],
            addr: displace(word(cpu.iy_h, cpu.iy_l), mem[cpu.pc as int]),
            cpu: cpu.advance(1),
        }),
        forall|v: u8| cpu.with_high(v) == (Z80 { iy_h: v, ..cpu }),
        forall|v: u8| cpu.with_low(v) == (Z80 { iy_l: v, ..cpu }),
        forall|v: u8| cpu.with_reg(Operand::H, v) == (Z80 { iy_h: v, ..cpu }),
        forall|v: u8| cpu.with_reg(Operand::L, v) == (Z80 { iy_l: v, ..cpu }),
{
}

/// A stopped processor stays as it is, whatever memory holds.
pub proof fn lemma_stopped_stays(cpu: Z80, mem: Seq<u8>)
    requires
        stopped(cpu),
    ensures
        step(cpu, mem) == (Machine { cpu, mem }),
{
}

/// The layout of the flag register is fixed: bit 0 Carry, bit 1
/// Add/Subtract, bit 2 Parity/Overflow, bit 3 and bit 5 the undocumented
/// copies, bit 4 Half-carry, bit 6 Zero, bit 7 Sign.
pub proof fn lemma_flag_layout(fl: Flags)
    ensures
        ({
            let f = crate::flags::pack(fl);
            &&& fl.carry == (f & 0x01 != 0)
            &&& fl.subtract == (f & 0x02 != 0)
            &&& fl.parity_overflow == (f & 0x04 != 0)
            &&& fl.bit3 == (f & 0x08 != 0)
            &&& fl.half_carry == (f & 0x10 != 0)
            &&& fl.bit5 == (f & 0x20 != 0)
            &&& fl.zero == (f & 0x40 != 0)
            &&& fl.sign == (f & 0x80 != 0)
        }),
{
    lemma_flags_of_pack(fl);
    assert(flags_of(crate::flags::pack(fl)) == fl);
}

} // verus!
