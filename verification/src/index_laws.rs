//! The substitution law of the index states: an opcode that names `H`, `L`
//! or `HL` does in an index state what it does without prefix on a
//! processor whose index register and `HL` have changed places.

use crate::alu::AluOp;
use crate::exec::{
    alu_of, field_p, field_x, field_y, field_z, keep, main_op, operand_of, refers_to_hl, rp_of,
};
use crate::z80::{Machine, OpCodePrefix, Operand, Reg16, StackPair, Z80};
use vstd::prelude::*;

verus! {

/// Whether the prefix state is one of the two index states.
pub open spec fn in_index_state(cpu: Z80) -> bool {
    cpu.opcode_prefix == OpCodePrefix::DD || cpu.opcode_prefix == OpCodePrefix::FD
}

/// The state with `HL` and the index register that `prefix` selects
/// exchanged, and with the prefix state `to`.
pub open spec fn exchanged(cpu: Z80, prefix: OpCodePrefix, to: OpCodePrefix) -> Z80 {
    if prefix == OpCodePrefix::DD {
        Z80 {
            h: cpu.ix_h,
            l: cpu.ix_l,
            ix_h: cpu.h,
            ix_l: cpu.l,
            opcode_prefix: to,
            ..cpu
        }
    } else {
        Z80 {
            h: cpu.iy_h,
            l: cpu.iy_l,
            iy_h: cpu.h,
            iy_l: cpu.l,
            opcode_prefix: to,
            ..cpu
        }
    }
}

/// An index state seen as a state without prefix: the index register
/// stands where `HL` stood.
pub open spec fn without_prefix(cpu: Z80) -> Z80 {
    exchanged(cpu, cpu.opcode_prefix, OpCodePrefix::Unprefixed)
}

/// The way back from `without_prefix`.
pub open spec fn with_prefix(m: Machine, prefix: OpCodePrefix) -> Machine {
    Machine { cpu: exchanged(m.cpu, prefix, prefix), mem: m.mem }
}

/// Whether the main table's opcode `byte` has `(HL)` as an operand.
pub open spec fn names_memory_operand(byte: u8) -> bool {
    let x = field_x(byte);
    let y = field_y(byte);
    let z = field_z(byte);
    if x == 0 {
        (z == 4 || z == 5 || z == 6) && y == 6
    } else if x == 1 {
        y == 6 || z == 6
    } else if x == 2 {
        z == 6
    } else {
        false
    }
}

proof fn lemma_exchange_reg(cpu: Z80, r: Operand, v: u8)
    requires
        in_index_state(cpu),
        r != Operand::AtHl,
    ensures
        without_prefix(cpu).reg(r) == cpu.reg(r),
        exchanged(without_prefix(cpu).with_reg(r, v), cpu.opcode_prefix, cpu.opcode_prefix)
            == cpu.with_reg(r, v),
{
}

proof fn lemma_exchange_pair(cpu: Z80, w: u16)
    requires
        in_index_state(cpu),
    ensures
        without_prefix(cpu).pair_hl() == cpu.pair_hl(),
        exchanged(without_prefix(cpu).with_pair_hl(w), cpu.opcode_prefix, cpu.opcode_prefix)
            == cpu.with_pair_hl(w),
        forall|rp: Reg16| without_prefix(cpu).pair(rp) == cpu.pair(rp),
        exchanged(
            without_prefix(cpu).with_pair(Reg16::HL, w),
            cpu.opcode_prefix,
            cpu.opcode_prefix,
        ) == cpu.with_pair(Reg16::HL, w),
        without_prefix(cpu).stack_pair(StackPair::HL) == cpu.stack_pair(StackPair::HL),
        exchanged(
            without_prefix(cpu).with_stack_pair(StackPair::HL, w),
            cpu.opcode_prefix,
            cpu.opcode_prefix,
        ) == cpu.with_stack_pair(StackPair::HL, w),
{
}

proof fn lemma_exchange_ld(cpu: Z80, mem: Seq<u8>, d: Operand, s: Operand)
    requires
        in_index_state(cpu),
        d != Operand::AtHl,
        s != Operand::AtHl,
    ensures
        cpu.after_ld(mem, d, s) == with_prefix(
            without_prefix(cpu).after_ld(mem, d, s),
            cpu.opcode_prefix,
        ),
{
    reveal(Z80::after_ld);
    lemma_exchange_reg(cpu, s, 0);
    lemma_exchange_reg(cpu, d, cpu.reg(s));
}

proof fn lemma_exchange_ld_n(cpu: Z80, mem: Seq<u8>, d: Operand)
    requires
        in_index_state(cpu),
        d != Operand::AtHl,
    ensures
        cpu.after_ld_n(mem, d) == with_prefix(
            without_prefix(cpu).after_ld_n(mem, d),
            cpu.opcode_prefix,
        ),
{
    reveal(Z80::after_ld_n);
    lemma_exchange_reg(cpu.advance(1), d, cpu.imm8(mem));
}

proof fn lemma_exchange_inc_dec(cpu: Z80, mem: Seq<u8>, r: Operand)
    requires
        in_index_state(cpu),
        r != Operand::AtHl,
    ensures
        cpu.after_inc(mem, r) == with_prefix(
            without_prefix(cpu).after_inc(mem, r),
            cpu.opcode_prefix,
        ),
        cpu.after_dec(mem, r) == with_prefix(
            without_prefix(cpu).after_dec(mem, r),
            cpu.opcode_prefix,
        ),
{
    reveal(Z80::after_inc);
    reveal(Z80::after_dec);
    lemma_exchange_reg(cpu, r, 0);
    let up = crate::alu::inc8(cpu.reg(r), cpu.flags());
    let down = crate::alu::dec8(cpu.reg(r), cpu.flags());
    lemma_exchange_reg(cpu.with_flags(up.flags), r, up.value);
    lemma_exchange_reg(cpu.with_flags(down.flags), r, down.value);
}

proof fn lemma_exchange_result(cpu: Z80, value: u8, fl: crate::flags::Flags)
    requires
        in_index_state(cpu),
    ensures
        (Z80 { a: value, ..cpu }).with_flags(fl) == exchanged(
            (Z80 { a: value, ..without_prefix(cpu) }).with_flags(fl),
            cpu.opcode_prefix,
            cpu.opcode_prefix,
        ),
        without_prefix(cpu).a == cpu.a,
        without_prefix(cpu).flags() == cpu.flags(),
{
}

proof fn lemma_exchange_after_alu(cpu: Z80, op: AluOp, v: u8)
    requires
        in_index_state(cpu),
    ensures
        cpu.after_alu(op, v) == exchanged(
            without_prefix(cpu).after_alu(op, v),
            cpu.opcode_prefix,
            cpu.opcode_prefix,
        ),
{
    reveal(Z80::after_alu);
    let out = crate::alu::alu8(op, cpu.a, v, cpu.flags());
    lemma_exchange_result(cpu, out.value, out.flags);
}

proof fn lemma_exchange_alu(cpu: Z80, mem: Seq<u8>, op: AluOp, r: Operand)
    requires
        in_index_state(cpu),
        r != Operand::AtHl,
    ensures
        keep(cpu.after_alu_operand(mem, op, r), mem) == with_prefix(
            keep(without_prefix(cpu).after_alu_operand(mem, op, r), mem),
            cpu.opcode_prefix,
        ),
{
    reveal(Z80::after_alu_operand);
    lemma_exchange_reg(cpu, r, 0);
    lemma_exchange_after_alu(cpu, op, cpu.reg(r));
}

proof fn lemma_exchange_add_hl(cpu: Z80, mem: Seq<u8>, rp: Reg16)
    requires
        in_index_state(cpu),
    ensures
        keep(cpu.after_add_hl(cpu.pair(rp)), mem) == with_prefix(
            keep(without_prefix(cpu).after_add_hl(without_prefix(cpu).pair(rp)), mem),
            cpu.opcode_prefix,
        ),
{
    reveal(Z80::after_add_hl);
    lemma_exchange_pair(cpu, 0);
    let sum = crate::alu::add16(cpu.pair_hl(), cpu.pair(rp), cpu.flags());
    lemma_exchange_pair(cpu, sum.value);
    lemma_exchange_result(cpu.with_pair_hl(sum.value), cpu.a, sum.flags);
}

proof fn lemma_exchange_count_hl(cpu: Z80, mem: Seq<u8>)
    requires
        in_index_state(cpu),
    ensures
        keep(cpu.after_inc_ss(Reg16::HL), mem) == with_prefix(
            keep(without_prefix(cpu).after_inc_ss(Reg16::HL), mem),
            cpu.opcode_prefix,
        ),
        keep(cpu.after_dec_ss(Reg16::HL), mem) == with_prefix(
            keep(without_prefix(cpu).after_dec_ss(Reg16::HL), mem),
            cpu.opcode_prefix,
        ),
{
    reveal(Z80::after_inc_ss);
    reveal(Z80::after_dec_ss);
    lemma_exchange_pair(cpu, cpu.pair_hl().wrapping_add(1));
    lemma_exchange_pair(cpu, cpu.pair_hl().wrapping_sub(1));
}

proof fn lemma_exchange_ld_hl(cpu: Z80, mem: Seq<u8>)
    requires
        in_index_state(cpu),
    ensures
        keep(cpu.after_ld_dd_nn(mem, Reg16::HL), mem) == with_prefix(
            keep(without_prefix(cpu).after_ld_dd_nn(mem, Reg16::HL), mem),
            cpu.opcode_prefix,
        ),
        cpu.after_ld_nn_dd(mem, Reg16::HL) == with_prefix(
            without_prefix(cpu).after_ld_nn_dd(mem, Reg16::HL),
            cpu.opcode_prefix,
        ),
        keep(cpu.after_ld_dd_at_nn(mem, Reg16::HL), mem) == with_prefix(
            keep(without_prefix(cpu).after_ld_dd_at_nn(mem, Reg16::HL), mem),
            cpu.opcode_prefix,
        ),
{
    reveal(Z80::after_ld_dd_nn);
    reveal(Z80::after_ld_nn_dd);
    reveal(Z80::after_ld_dd_at_nn);
    lemma_exchange_pair(cpu, 0);
    lemma_exchange_pair(cpu.advance(2), cpu.imm16(mem));
    lemma_exchange_pair(cpu.advance(2), crate::z80::word_at(mem, cpu.imm16(mem)));
}

proof fn lemma_exchange_sp_pc(cpu: Z80, mem: Seq<u8>)
    requires
        in_index_state(cpu),
    ensures
        keep(cpu.after_ld_sp_hl(), mem) == with_prefix(
            keep(without_prefix(cpu).after_ld_sp_hl(), mem),
            cpu.opcode_prefix,
        ),
        keep(cpu.after_jp_at_hl(), mem) == with_prefix(
            keep(without_prefix(cpu).after_jp_at_hl(), mem),
            cpu.opcode_prefix,
        ),
{
    reveal(Z80::after_ld_sp_hl);
    reveal(Z80::after_jp_at_hl);
    lemma_exchange_pair(cpu, 0);
}

proof fn lemma_exchange_stack(cpu: Z80, mem: Seq<u8>)
    requires
        in_index_state(cpu),
    ensures
        keep(cpu.after_pop(mem, StackPair::HL), mem) == with_prefix(
            keep(without_prefix(cpu).after_pop(mem, StackPair::HL), mem),
            cpu.opcode_prefix,
        ),
        cpu.after_push(mem, StackPair::HL) == with_prefix(
            without_prefix(cpu).after_push(mem, StackPair::HL),
            cpu.opcode_prefix,
        ),
        cpu.after_ex_at_sp_hl(mem) == with_prefix(
            without_prefix(cpu).after_ex_at_sp_hl(mem),
            cpu.opcode_prefix,
        ),
{
    reveal(Z80::after_pop);
    reveal(Z80::after_push);
    reveal(Z80::after_push_word);
    reveal(Z80::after_ex_at_sp_hl);
}

proof fn lemma_index_substitution_low(cpu: Z80, mem: Seq<u8>, byte: u8)
    requires
        in_index_state(cpu),
        refers_to_hl(byte),
        !names_memory_operand(byte),
        field_x(byte) == 0,
    ensures
        main_op(cpu, mem, byte) == with_prefix(
            main_op(without_prefix(cpu), mem, byte),
            cpu.opcode_prefix,
        ),
{
    let y = operand_of(field_y(byte));
    lemma_exchange_add_hl(cpu, mem, rp_of(field_p(byte)));
    lemma_exchange_count_hl(cpu, mem);
    lemma_exchange_ld_hl(cpu, mem);
    if y != Operand::AtHl {
        lemma_exchange_inc_dec(cpu, mem, y);
        lemma_exchange_ld_n(cpu, mem, y);
    }
}

proof fn lemma_index_substitution_high(cpu: Z80, mem: Seq<u8>, byte: u8)
    requires
        in_index_state(cpu),
        refers_to_hl(byte),
        field_x(byte) == 3,
    ensures
        main_op(cpu, mem, byte) == with_prefix(
            main_op(without_prefix(cpu), mem, byte),
            cpu.opcode_prefix,
        ),
{
    lemma_exchange_sp_pc(cpu, mem);
    lemma_exchange_stack(cpu, mem);
}

/// In an index state, an opcode that names `H`, `L` or `HL`, and not
/// `(HL)`, does what it does without prefix on the processor whose index
/// register and `HL` have changed places: it reads and writes the halves of
/// the index register where it would read and write `H` and `L`, and
/// nothing else differs.
pub proof fn lemma_index_substitution(cpu: Z80, mem: Seq<u8>, byte: u8)
    requires
        in_index_state(cpu),
        refers_to_hl(byte),
        !names_memory_operand(byte),
    ensures
        main_op(cpu, mem, byte) == with_prefix(
            main_op(without_prefix(cpu), mem, byte),
            cpu.opcode_prefix,
        ),
{
    let y = operand_of(field_y(byte));
    let z = operand_of(field_z(byte));
    if field_x(byte) == 0 {
        lemma_index_substitution_low(cpu, mem, byte);
    } else if field_x(byte) == 1 {
        lemma_exchange_ld(cpu, mem, y, z);
    } else if field_x(byte) == 2 {
        lemma_exchange_alu(cpu, mem, alu_of(field_y(byte)), z);
    } else {
        lemma_index_substitution_high(cpu, mem, byte);
    }
}

} // verus!
