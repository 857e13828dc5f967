//! What an instruction leaves alone: the shadow registers, the interrupt
//! registers and latches, and the two stop conditions change only under the
//! few instructions that are there to change them.

use crate::alu::{AluOp, RotOp};
use crate::exec::{bit_op, ext_handles, ext_op, index_bit_op, main_handles, main_op, step, stopped};
use crate::z80::{OpCodePrefix, Operand, Reg16, StackPair, UnimplementedOpcode, Z80};
use vstd::prelude::*;

verus! {

/// The part of the state that ordinary instructions never write.
pub ghost struct Kept {
    pub shadow: (u8, u8, u8, u8, u8, u8, u8, u8),
    pub i: u8,
    pub r: u8,
    pub iff1: bool,
    pub iff2: bool,
    pub halted: bool,
    pub halt: bool,
    pub fault: Option<UnimplementedOpcode>,
    pub opcode_prefix: OpCodePrefix,
}

/// The part of `cpu` that ordinary instructions never write.
pub open spec fn kept(cpu: Z80) -> Kept {
    Kept {
        shadow: (
            cpu.a_alt,
            cpu.f_alt,
            cpu.b_alt,
            cpu.c_alt,
            cpu.d_alt,
            cpu.e_alt,
            cpu.h_alt,
            cpu.l_alt,
        ),
        i: cpu.i,
        r: cpu.r,
        iff1: cpu.iff1,
        iff2: cpu.iff2,
        halted: cpu.halted,
        halt: cpu.halt,
        fault: cpu.fault,
        opcode_prefix: cpu.opcode_prefix,
    }
}

/// Whether the main table's opcode `byte` is one of the five that write
/// what `kept` holds: the two exchanges with the shadow registers, `HALT`,
/// `DI` and `EI`.
pub open spec fn main_writes_kept(byte: u8) -> bool {
    byte == 0x08 || byte == 0xD9 || byte == 0x76 || byte == 0xF3 || byte == 0xFB
}

/// Whether the extended table's opcode `byte` is one of the two that write
/// what `kept` holds: `LD I,A` and `LD R,A`.
pub open spec fn ext_writes_kept(byte: u8) -> bool {
    byte == 0x47 || byte == 0x4F
}

proof fn lemma_keeps_ld(cpu: Z80, mem: Seq<u8>, d: Operand, s: Operand)
    ensures
        kept(cpu.after_ld(mem, d, s).cpu) == kept(cpu),
{
    reveal(Z80::after_ld);
}

proof fn lemma_keeps_ld_n(cpu: Z80, mem: Seq<u8>, d: Operand)
    ensures
        kept(cpu.after_ld_n(mem, d).cpu) == kept(cpu),
{
    reveal(Z80::after_ld_n);
}

proof fn lemma_keeps_ld_dd_nn(cpu: Z80, mem: Seq<u8>, rp: Reg16)
    ensures
        kept(cpu.after_ld_dd_nn(mem, rp)) == kept(cpu),
{
    reveal(Z80::after_ld_dd_nn);
}

proof fn lemma_keeps_ld_at_rp_a(cpu: Z80, mem: Seq<u8>, rp: Reg16)
    ensures
        kept(cpu.after_ld_at_rp_a(mem, rp).cpu) == kept(cpu),
{
    reveal(Z80::after_ld_at_rp_a);
}

proof fn lemma_keeps_ld_a_at_rp(cpu: Z80, mem: Seq<u8>, rp: Reg16)
    ensures
        kept(cpu.after_ld_a_at_rp(mem, rp)) == kept(cpu),
{
    reveal(Z80::after_ld_a_at_rp);
}

proof fn lemma_keeps_ld_a_at_nn(cpu: Z80, mem: Seq<u8>)
    ensures
        kept(cpu.after_ld_a_at_nn(mem)) == kept(cpu),
{
    reveal(Z80::after_ld_a_at_nn);
}

proof fn lemma_keeps_ld_at_nn_a(cpu: Z80, mem: Seq<u8>)
    ensures
        kept(cpu.after_ld_at_nn_a(mem).cpu) == kept(cpu),
{
    reveal(Z80::after_ld_at_nn_a);
}

proof fn lemma_keeps_ld_nn_dd(cpu: Z80, mem: Seq<u8>, rp: Reg16)
    ensures
        kept(cpu.after_ld_nn_dd(mem, rp).cpu) == kept(cpu),
{
    reveal(Z80::after_ld_nn_dd);
}

proof fn lemma_keeps_ld_dd_at_nn(cpu: Z80, mem: Seq<u8>, rp: Reg16)
    ensures
        kept(cpu.after_ld_dd_at_nn(mem, rp)) == kept(cpu),
{
    reveal(Z80::after_ld_dd_at_nn);
}

proof fn lemma_keeps_ld_sp_hl(cpu: Z80, mem: Seq<u8>)
    ensures
        kept(cpu.after_ld_sp_hl()) == kept(cpu),
{
    reveal(Z80::after_ld_sp_hl);
}

proof fn lemma_keeps_ld_a_ir(cpu: Z80, mem: Seq<u8>, v: u8)
    ensures
        kept(cpu.after_ld_a_ir(v)) == kept(cpu),
{
    reveal(Z80::after_ld_a_ir);
}

proof fn lemma_keeps_ex_de_hl(cpu: Z80, mem: Seq<u8>)
    ensures
        kept(cpu.after_ex_de_hl()) == kept(cpu),
{
    reveal(Z80::after_ex_de_hl);
}

proof fn lemma_keeps_ex_at_sp_hl(cpu: Z80, mem: Seq<u8>)
    ensures
        kept(cpu.after_ex_at_sp_hl(mem).cpu) == kept(cpu),
{
    reveal(Z80::after_ex_at_sp_hl);
}

proof fn lemma_keeps_push(cpu: Z80, mem: Seq<u8>, qq: StackPair)
    ensures
        kept(cpu.after_push(mem, qq).cpu) == kept(cpu),
{
    reveal(Z80::after_push);
    reveal(Z80::after_push_word);
}

proof fn lemma_keeps_pop(cpu: Z80, mem: Seq<u8>, qq: StackPair)
    ensures
        kept(cpu.after_pop(mem, qq)) == kept(cpu),
{
    reveal(Z80::after_pop);
}

proof fn lemma_loads_keep(cpu: Z80, mem: Seq<u8>)
    ensures
        forall|d: Operand, s: Operand| kept((#[trigger] cpu.after_ld(mem, d, s)).cpu) == kept(cpu),
        forall|d: Operand| kept((#[trigger] cpu.after_ld_n(mem, d)).cpu) == kept(cpu),
        forall|rp: Reg16| kept(#[trigger] cpu.after_ld_dd_nn(mem, rp)) == kept(cpu),
        forall|rp: Reg16| kept((#[trigger] cpu.after_ld_at_rp_a(mem, rp)).cpu) == kept(cpu),
        forall|rp: Reg16| kept(#[trigger] cpu.after_ld_a_at_rp(mem, rp)) == kept(cpu),
        kept(cpu.after_ld_a_at_nn(mem)) == kept(cpu),
        kept(cpu.after_ld_at_nn_a(mem).cpu) == kept(cpu),
        forall|rp: Reg16| kept((#[trigger] cpu.after_ld_nn_dd(mem, rp)).cpu) == kept(cpu),
        forall|rp: Reg16| kept(#[trigger] cpu.after_ld_dd_at_nn(mem, rp)) == kept(cpu),
        kept(cpu.after_ld_sp_hl()) == kept(cpu),
        forall|v: u8| kept(#[trigger] cpu.after_ld_a_ir(v)) == kept(cpu),
        kept(cpu.after_ex_de_hl()) == kept(cpu),
        kept(cpu.after_ex_at_sp_hl(mem).cpu) == kept(cpu),
        forall|qq: StackPair| kept((#[trigger] cpu.after_push(mem, qq)).cpu) == kept(cpu),
        forall|qq: StackPair| kept(#[trigger] cpu.after_pop(mem, qq)) == kept(cpu),
{
    assert forall|d: Operand, s: Operand|
        kept((#[trigger] cpu.after_ld(mem, d, s)).cpu) == kept(cpu) by {
        lemma_keeps_ld(cpu, mem, d, s);
    }
    assert forall|d: Operand| kept((#[trigger] cpu.after_ld_n(mem, d)).cpu) == kept(cpu) by {
        lemma_keeps_ld_n(cpu, mem, d);
    }
    assert forall|rp: Reg16| kept(#[trigger] cpu.after_ld_dd_nn(mem, rp)) == kept(cpu) by {
        lemma_keeps_ld_dd_nn(cpu, mem, rp);
    }
    assert forall|rp: Reg16| kept((#[trigger] cpu.after_ld_at_rp_a(mem, rp)).cpu) == kept(cpu) by {
        lemma_keeps_ld_at_rp_a(cpu, mem, rp);
    }
    assert forall|rp: Reg16| kept(#[trigger] cpu.after_ld_a_at_rp(mem, rp)) == kept(cpu) by {
        lemma_keeps_ld_a_at_rp(cpu, mem, rp);
    }
    lemma_keeps_ld_a_at_nn(cpu, mem);
    lemma_keeps_ld_at_nn_a(cpu, mem);
    assert forall|rp: Reg16| kept((#[trigger] cpu.after_ld_nn_dd(mem, rp)).cpu) == kept(cpu) by {
        lemma_keeps_ld_nn_dd(cpu, mem, rp);
    }
    assert forall|rp: Reg16| kept(#[trigger] cpu.after_ld_dd_at_nn(mem, rp)) == kept(cpu) by {
        lemma_keeps_ld_dd_at_nn(cpu, mem, rp);
    }
    lemma_keeps_ld_sp_hl(cpu, mem);
    assert forall|v: u8| kept(#[trigger] cpu.after_ld_a_ir(v)) == kept(cpu) by {
        lemma_keeps_ld_a_ir(cpu, mem, v);
    }
    lemma_keeps_ex_de_hl(cpu, mem);
    lemma_keeps_ex_at_sp_hl(cpu, mem);
    assert forall|qq: StackPair| kept((#[trigger] cpu.after_push(mem, qq)).cpu) == kept(cpu) by {
        lemma_keeps_push(cpu, mem, qq);
    }
    assert forall|qq: StackPair| kept(#[trigger] cpu.after_pop(mem, qq)) == kept(cpu) by {
        lemma_keeps_pop(cpu, mem, qq);
    }
}

proof fn lemma_keeps_alu(cpu: Z80, mem: Seq<u8>, op: AluOp, v: u8)
    ensures
        kept(cpu.after_alu(op, v)) == kept(cpu),
{
    reveal(Z80::after_alu);
}

proof fn lemma_keeps_alu_operand(cpu: Z80, mem: Seq<u8>, op: AluOp, s: Operand)
    ensures
        kept(cpu.after_alu_operand(mem, op, s)) == kept(cpu),
{
    reveal(Z80::after_alu_operand);
    reveal(Z80::after_alu);
}

proof fn lemma_keeps_alu_n(cpu: Z80, mem: Seq<u8>, op: AluOp)
    ensures
        kept(cpu.after_alu_n(mem, op)) == kept(cpu),
{
    reveal(Z80::after_alu_n);
    reveal(Z80::after_alu);
}

proof fn lemma_keeps_inc(cpu: Z80, mem: Seq<u8>, r: Operand)
    ensures
        kept(cpu.after_inc(mem, r).cpu) == kept(cpu),
{
    reveal(Z80::after_inc);
}

proof fn lemma_keeps_dec(cpu: Z80, mem: Seq<u8>, r: Operand)
    ensures
        kept(cpu.after_dec(mem, r).cpu) == kept(cpu),
{
    reveal(Z80::after_dec);
}

proof fn lemma_keeps_add_hl(cpu: Z80, mem: Seq<u8>, v: u16)
    ensures
        kept(cpu.after_add_hl(v)) == kept(cpu),
{
    reveal(Z80::after_add_hl);
}

proof fn lemma_keeps_adc_hl(cpu: Z80, mem: Seq<u8>, v: u16)
    ensures
        kept(cpu.after_adc_hl(v)) == kept(cpu),
{
    reveal(Z80::after_adc_hl);
}

proof fn lemma_keeps_sbc_hl(cpu: Z80, mem: Seq<u8>, v: u16)
    ensures
        kept(cpu.after_sbc_hl(v)) == kept(cpu),
{
    reveal(Z80::after_sbc_hl);
}

proof fn lemma_keeps_inc_ss(cpu: Z80, mem: Seq<u8>, rp: Reg16)
    ensures
        kept(cpu.after_inc_ss(rp)) == kept(cpu),
{
    reveal(Z80::after_inc_ss);
}

proof fn lemma_keeps_dec_ss(cpu: Z80, mem: Seq<u8>, rp: Reg16)
    ensures
        kept(cpu.after_dec_ss(rp)) == kept(cpu),
{
    reveal(Z80::after_dec_ss);
}

proof fn lemma_keeps_rrd(cpu: Z80, mem: Seq<u8>)
    ensures
        kept(cpu.after_rrd(mem).cpu) == kept(cpu),
{
    reveal(Z80::after_rrd);
}

proof fn lemma_keeps_rot_a(cpu: Z80, mem: Seq<u8>, op: RotOp)
    ensures
        kept(cpu.after_rot_a(op)) == kept(cpu),
{
    reveal(Z80::after_rot_a);
}

proof fn lemma_keeps_daa(cpu: Z80, mem: Seq<u8>)
    ensures
        kept(cpu.after_daa()) == kept(cpu),
{
    reveal(Z80::after_daa);
}

proof fn lemma_keeps_cpl(cpu: Z80, mem: Seq<u8>)
    ensures
        kept(cpu.after_cpl()) == kept(cpu),
{
    reveal(Z80::after_cpl);
}

proof fn lemma_keeps_scf(cpu: Z80, mem: Seq<u8>)
    ensures
        kept(cpu.after_scf()) == kept(cpu),
{
    reveal(Z80::after_scf);
}

proof fn lemma_keeps_ccf(cpu: Z80, mem: Seq<u8>)
    ensures
        kept(cpu.after_ccf()) == kept(cpu),
{
    reveal(Z80::after_ccf);
}

proof fn lemma_keeps_neg(cpu: Z80, mem: Seq<u8>)
    ensures
        kept(cpu.after_neg()) == kept(cpu),
{
    reveal(Z80::after_neg);
}

proof fn lemma_arithmetic_keeps(cpu: Z80, mem: Seq<u8>)
    ensures
        forall|op: AluOp, v: u8| kept(#[trigger] cpu.after_alu(op, v)) == kept(cpu),
        forall|op: AluOp, s: Operand|
            kept(#[trigger] cpu.after_alu_operand(mem, op, s)) == kept(cpu),
        forall|op: AluOp| kept(#[trigger] cpu.after_alu_n(mem, op)) == kept(cpu),
        forall|r: Operand| kept((#[trigger] cpu.after_inc(mem, r)).cpu) == kept(cpu),
        forall|r: Operand| kept((#[trigger] cpu.after_dec(mem, r)).cpu) == kept(cpu),
        forall|v: u16| kept(#[trigger] cpu.after_add_hl(v)) == kept(cpu),
        forall|v: u16| kept(#[trigger] cpu.after_adc_hl(v)) == kept(cpu),
        forall|v: u16| kept(#[trigger] cpu.after_sbc_hl(v)) == kept(cpu),
        forall|rp: Reg16| kept(#[trigger] cpu.after_inc_ss(rp)) == kept(cpu),
        forall|rp: Reg16| kept(#[trigger] cpu.after_dec_ss(rp)) == kept(cpu),
        kept(cpu.after_rrd(mem).cpu) == kept(cpu),
        forall|op: RotOp| kept(#[trigger] cpu.after_rot_a(op)) == kept(cpu),
        kept(cpu.after_daa()) == kept(cpu),
        kept(cpu.after_cpl()) == kept(cpu),
        kept(cpu.after_scf()) == kept(cpu),
        kept(cpu.after_ccf()) == kept(cpu),
        kept(cpu.after_neg()) == kept(cpu),
{
    assert forall|op: AluOp, v: u8| kept(#[trigger] cpu.after_alu(op, v)) == kept(cpu) by {
        lemma_keeps_alu(cpu, mem, op, v);
    }
    assert forall|op: AluOp, s: Operand|
        kept(#[trigger] cpu.after_alu_operand(mem, op, s)) == kept(cpu) by {
        lemma_keeps_alu_operand(cpu, mem, op, s);
    }
    assert forall|op: AluOp| kept(#[trigger] cpu.after_alu_n(mem, op)) == kept(cpu) by {
        lemma_keeps_alu_n(cpu, mem, op);
    }
    assert forall|r: Operand| kept((#[trigger] cpu.after_inc(mem, r)).cpu) == kept(cpu) by {
        lemma_keeps_inc(cpu, mem, r);
    }
    assert forall|r: Operand| kept((#[trigger] cpu.after_dec(mem, r)).cpu) == kept(cpu) by {
        lemma_keeps_dec(cpu, mem, r);
    }
    assert forall|v: u16| kept(#[trigger] cpu.after_add_hl(v)) == kept(cpu) by {
        lemma_keeps_add_hl(cpu, mem, v);
    }
    assert forall|v: u16| kept(#[trigger] cpu.after_adc_hl(v)) == kept(cpu) by {
        lemma_keeps_adc_hl(cpu, mem, v);
    }
    assert forall|v: u16| kept(#[trigger] cpu.after_sbc_hl(v)) == kept(cpu) by {
        lemma_keeps_sbc_hl(cpu, mem, v);
    }
    assert forall|rp: Reg16| kept(#[trigger] cpu.after_inc_ss(rp)) == kept(cpu) by {
        lemma_keeps_inc_ss(cpu, mem, rp);
    }
    assert forall|rp: Reg16| kept(#[trigger] cpu.after_dec_ss(rp)) == kept(cpu) by {
        lemma_keeps_dec_ss(cpu, mem, rp);
    }
    lemma_keeps_rrd(cpu, mem);
    assert forall|op: RotOp| kept(#[trigger] cpu.after_rot_a(op)) == kept(cpu) by {
        lemma_keeps_rot_a(cpu, mem, op);
    }
    lemma_keeps_daa(cpu, mem);
    lemma_keeps_cpl(cpu, mem);
    lemma_keeps_scf(cpu, mem);
    lemma_keeps_ccf(cpu, mem);
    lemma_keeps_neg(cpu, mem);
}

proof fn lemma_keeps_rot(cpu: Z80, mem: Seq<u8>, op: RotOp, r: Operand)
    ensures
        kept(cpu.after_rot(mem, op, r).cpu) == kept(cpu),
{
    reveal(Z80::after_rot);
}

proof fn lemma_keeps_bit(cpu: Z80, mem: Seq<u8>, n: u8, r: Operand)
    ensures
        kept(cpu.after_bit(mem, n, r)) == kept(cpu),
{
    reveal(Z80::after_bit);
}

proof fn lemma_keeps_res(cpu: Z80, mem: Seq<u8>, n: u8, r: Operand)
    ensures
        kept(cpu.after_res(mem, n, r).cpu) == kept(cpu),
{
    reveal(Z80::after_res);
}

proof fn lemma_keeps_set(cpu: Z80, mem: Seq<u8>, n: u8, r: Operand)
    ensures
        kept(cpu.after_set(mem, n, r).cpu) == kept(cpu),
{
    reveal(Z80::after_set);
}

proof fn lemma_keeps_rot_ixy(cpu: Z80, mem: Seq<u8>, op: RotOp, r: Operand, addr: u16, v: u8)
    ensures
        kept(cpu.after_rot_ixy(mem, op, r, addr, v).cpu) == kept(cpu),
{
    reveal(Z80::after_rot_ixy);
}

proof fn lemma_keeps_lddr(cpu: Z80, mem: Seq<u8>)
    ensures
        kept(cpu.after_lddr(mem).cpu) == kept(cpu),
{
    reveal(Z80::after_lddr);
}

proof fn lemma_bits_keep(cpu: Z80, mem: Seq<u8>)
    ensures
        forall|op: RotOp, r: Operand| kept((#[trigger] cpu.after_rot(mem, op, r)).cpu) == kept(cpu),
        forall|n: u8, r: Operand| kept(#[trigger] cpu.after_bit(mem, n, r)) == kept(cpu),
        forall|n: u8, r: Operand| kept((#[trigger] cpu.after_res(mem, n, r)).cpu) == kept(cpu),
        forall|n: u8, r: Operand| kept((#[trigger] cpu.after_set(mem, n, r)).cpu) == kept(cpu),
        forall|op: RotOp, r: Operand, addr: u16, v: u8|
            kept((#[trigger] cpu.after_rot_ixy(mem, op, r, addr, v)).cpu) == kept(cpu),
        kept(cpu.after_lddr(mem).cpu) == kept(cpu),
{
    assert forall|op: RotOp, r: Operand|
        kept((#[trigger] cpu.after_rot(mem, op, r)).cpu) == kept(cpu) by {
        lemma_keeps_rot(cpu, mem, op, r);
    }
    assert forall|n: u8, r: Operand| kept(#[trigger] cpu.after_bit(mem, n, r)) == kept(cpu) by {
        lemma_keeps_bit(cpu, mem, n, r);
    }
    assert forall|n: u8, r: Operand|
        kept((#[trigger] cpu.after_res(mem, n, r)).cpu) == kept(cpu) by {
        lemma_keeps_res(cpu, mem, n, r);
    }
    assert forall|n: u8, r: Operand|
        kept((#[trigger] cpu.after_set(mem, n, r)).cpu) == kept(cpu) by {
        lemma_keeps_set(cpu, mem, n, r);
    }
    assert forall|op: RotOp, r: Operand, addr: u16, v: u8|
        kept((#[trigger] cpu.after_rot_ixy(mem, op, r, addr, v)).cpu) == kept(cpu) by {
        lemma_keeps_rot_ixy(cpu, mem, op, r, addr, v);
    }
    lemma_keeps_lddr(cpu, mem);
}

proof fn lemma_keeps_jr(cpu: Z80, mem: Seq<u8>, taken: bool)
    ensures
        kept(cpu.after_jr(mem, taken)) == kept(cpu),
{
    reveal(Z80::after_jr);
}

proof fn lemma_keeps_djnz(cpu: Z80, mem: Seq<u8>)
    ensures
        kept(cpu.after_djnz(mem)) == kept(cpu),
{
    reveal(Z80::after_djnz);
    reveal(Z80::after_jr);
}

proof fn lemma_keeps_jp(cpu: Z80, mem: Seq<u8>, taken: bool)
    ensures
        kept(cpu.after_jp(mem, taken)) == kept(cpu),
{
    reveal(Z80::after_jp);
}

proof fn lemma_keeps_jp_at_hl(cpu: Z80, mem: Seq<u8>)
    ensures
        kept(cpu.after_jp_at_hl()) == kept(cpu),
{
    reveal(Z80::after_jp_at_hl);
}

proof fn lemma_keeps_call(cpu: Z80, mem: Seq<u8>, taken: bool)
    ensures
        kept(cpu.after_call(mem, taken).cpu) == kept(cpu),
{
    reveal(Z80::after_call);
    reveal(Z80::after_push_word);
}

proof fn lemma_keeps_ret(cpu: Z80, mem: Seq<u8>, taken: bool)
    ensures
        kept(cpu.after_ret(mem, taken)) == kept(cpu),
{
    reveal(Z80::after_ret);
}

proof fn lemma_keeps_rst(cpu: Z80, mem: Seq<u8>, vector: u16)
    ensures
        kept(cpu.after_rst(mem, vector).cpu) == kept(cpu),
{
    reveal(Z80::after_rst);
    reveal(Z80::after_push_word);
}

proof fn lemma_keeps_out_n_a(cpu: Z80, mem: Seq<u8>)
    ensures
        kept(cpu.after_out_n_a()) == kept(cpu),
{
    reveal(Z80::after_out_n_a);
}

proof fn lemma_control_keeps(cpu: Z80, mem: Seq<u8>)
    ensures
        forall|taken: bool| kept(#[trigger] cpu.after_jr(mem, taken)) == kept(cpu),
        kept(cpu.after_djnz(mem)) == kept(cpu),
        forall|taken: bool| kept(#[trigger] cpu.after_jp(mem, taken)) == kept(cpu),
        kept(cpu.after_jp_at_hl()) == kept(cpu),
        forall|taken: bool| kept((#[trigger] cpu.after_call(mem, taken)).cpu) == kept(cpu),
        forall|taken: bool| kept(#[trigger] cpu.after_ret(mem, taken)) == kept(cpu),
        forall|vector: u16| kept((#[trigger] cpu.after_rst(mem, vector)).cpu) == kept(cpu),
        kept(cpu.after_out_n_a()) == kept(cpu),
{
    assert forall|taken: bool| kept(#[trigger] cpu.after_jr(mem, taken)) == kept(cpu) by {
        lemma_keeps_jr(cpu, mem, taken);
    }
    lemma_keeps_djnz(cpu, mem);
    assert forall|taken: bool| kept(#[trigger] cpu.after_jp(mem, taken)) == kept(cpu) by {
        lemma_keeps_jp(cpu, mem, taken);
    }
    lemma_keeps_jp_at_hl(cpu, mem);
    assert forall|taken: bool| kept((#[trigger] cpu.after_call(mem, taken)).cpu) == kept(cpu) by {
        lemma_keeps_call(cpu, mem, taken);
    }
    assert forall|taken: bool| kept(#[trigger] cpu.after_ret(mem, taken)) == kept(cpu) by {
        lemma_keeps_ret(cpu, mem, taken);
    }
    assert forall|vector: u16| kept((#[trigger] cpu.after_rst(mem, vector)).cpu) == kept(cpu) by {
        lemma_keeps_rst(cpu, mem, vector);
    }
    lemma_keeps_out_n_a(cpu, mem);
}

/// Every opcode of the main table but the two exchanges with the shadow
/// registers, `HALT`, `DI` and `EI` leaves alone what `kept` holds.
pub proof fn lemma_main_table_keeps(cpu: Z80, mem: Seq<u8>, byte: u8)
    requires
        main_handles(byte),
        !main_writes_kept(byte),
    ensures
        kept(main_op(cpu, mem, byte).cpu) == kept(cpu),
{
    lemma_loads_keep(cpu, mem);
    lemma_arithmetic_keeps(cpu, mem);
    lemma_control_keeps(cpu, mem);
}

/// Every opcode of the bit-operations table, and of the table of the
/// combined states, leaves alone what `kept` holds.
pub proof fn lemma_bit_tables_keep(cpu: Z80, mem: Seq<u8>, byte: u8, addr: u16, v: u8)
    ensures
        kept(bit_op(cpu, mem, byte).cpu) == kept(cpu),
        kept(index_bit_op(cpu, mem, byte, addr, v).cpu) == kept(cpu),
{
    lemma_bits_keep(cpu, mem);
}

/// Every opcode of the extended table but `LD I,A` and `LD R,A` leaves
/// alone what `kept` holds.
pub proof fn lemma_ext_table_keeps(cpu: Z80, mem: Seq<u8>, byte: u8)
    requires
        ext_handles(byte),
        !ext_writes_kept(byte),
    ensures
        kept(ext_op(cpu, mem, byte).cpu) == kept(cpu),
{
    lemma_loads_keep(cpu, mem);
    lemma_arithmetic_keeps(cpu, mem);
    lemma_control_keeps(cpu, mem);
    lemma_bits_keep(cpu, mem);
}

/// Whether the step that `cpu` is about to make executes one of the seven
/// opcodes that write what `kept` holds.
pub open spec fn writes_kept(cpu: Z80, mem: Seq<u8>) -> bool {
    let byte = mem[cpu.pc as int];
    match cpu.opcode_prefix {
        OpCodePrefix::Unprefixed => main_writes_kept(byte),
        OpCodePrefix::ED => ext_writes_kept(byte),
        _ => false,
    }
}

/// A step of a running processor that does not execute one of those seven
/// opcodes leaves the shadow registers, the interrupt vector register, the
/// interrupt latches and the halted condition as they are, and moves the
/// refresh register up by exactly one. In particular the shadow registers
/// change only under `EX AF,AF'` and `EXX`.
pub proof fn lemma_step_keeps(cpu: Z80, mem: Seq<u8>)
    requires
        !stopped(cpu),
        !writes_kept(cpu, mem),
    ensures
        ({
            let after = step(cpu, mem).cpu;
            &&& kept(after).shadow == kept(cpu).shadow
            &&& after.i == cpu.i
            &&& after.iff1 == cpu.iff1
            &&& after.iff2 == cpu.iff2
            &&& after.halted == cpu.halted
            &&& after.r == cpu.r.wrapping_add(1)
        }),
{
    let byte = mem[cpu.pc as int];
    let fetched = Z80 { r: cpu.r.wrapping_add(1), ..cpu.advance(1) };
    let addr = crate::z80::displace(fetched.pair_hl(), byte);
    if main_handles(byte) && !main_writes_kept(byte) {
        lemma_main_table_keeps(fetched, mem, byte);
    }
    lemma_bit_tables_keep(fetched, mem, byte, 0, 0);
    lemma_bit_tables_keep(fetched.advance(1), mem, fetched.imm8(mem), addr, mem[addr as int]);
    if ext_handles(byte) && !ext_writes_kept(byte) {
        lemma_ext_table_keeps(fetched, mem, byte);
    }
}

proof fn lemma_writers_keep_conditions(cpu: Z80)
    ensures
        forall|enabled: bool|
            same_conditions(#[trigger] cpu.after_interrupts(enabled), cpu),
        same_conditions(cpu.after_halt(), cpu),
        same_conditions(cpu.after_ex_af_af_alt(), cpu),
        same_conditions(cpu.after_exx(), cpu),
        same_conditions(cpu.after_ld_i_a(), cpu),
        same_conditions(cpu.after_ld_r_a(), cpu),
{
    reveal(Z80::after_interrupts);
    reveal(Z80::after_halt);
    reveal(Z80::after_ex_af_af_alt);
    reveal(Z80::after_exx);
    reveal(Z80::after_ld_i_a);
    reveal(Z80::after_ld_r_a);
}

/// Whether `a` and `b` agree on the fatal condition, its record and the
/// prefix state.
pub open spec fn same_conditions(a: Z80, b: Z80) -> bool {
    a.halt == b.halt && a.fault == b.fault && a.opcode_prefix == b.opcode_prefix
}

/// The fatal condition is raised only by a byte that has no handler in the
/// table of the prefix state it was fetched in, and then records that byte
/// and that state. The prefix state after a step is none unless the step
/// consumed a prefix byte.
pub proof fn lemma_step_outcomes(cpu: Z80, mem: Seq<u8>)
    requires
        !stopped(cpu),
    ensures
        ({
            let after = step(cpu, mem).cpu;
            let byte = mem[cpu.pc as int];
            &&& after.halt ==> after.fault == Some(
                UnimplementedOpcode { prefix: cpu.opcode_prefix, byte },
            )
            &&& !after.halt ==> after.fault == cpu.fault
            &&& after.opcode_prefix != OpCodePrefix::Unprefixed ==> (byte == 0xCB || byte == 0xDD
                || byte == 0xED || byte == 0xFD)
        }),
{
    let byte = mem[cpu.pc as int];
    let fetched = Z80 { r: cpu.r.wrapping_add(1), ..cpu.advance(1) };
    let addr = crate::z80::displace(fetched.pair_hl(), byte);
    lemma_writers_keep_conditions(fetched);
    if main_handles(byte) && !main_writes_kept(byte) {
        lemma_main_table_keeps(fetched, mem, byte);
    }
    lemma_bit_tables_keep(fetched, mem, byte, 0, 0);
    lemma_bit_tables_keep(fetched.advance(1), mem, fetched.imm8(mem), addr, mem[addr as int]);
    if ext_handles(byte) && !ext_writes_kept(byte) {
        lemma_ext_table_keeps(fetched, mem, byte);
    }
}

} // verus!
