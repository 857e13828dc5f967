//! The table of the index states: the opcodes of the main table that name
//! `H`, `L`, `HL` or `(HL)`, selected by exact match.

use crate::alu::AluOp;
use crate::exec::{lookup, main_op, refers_to_hl};
use crate::memory::memory;
use crate::z80::{Machine, Operand, Reg16, StackPair, Z80};
use vstd::prelude::*;

verus! {

proof fn lemma_index_table_set(byte: u8)
    by (bit_vector)
    requires
        refers_to_hl(byte),
    ensures
        byte == 0x09 || byte == 0x19 || byte == 0x21 || byte == 0x22 || byte == 0x23 ||
            byte == 0x24 || byte == 0x25 || byte == 0x26 || byte == 0x29 || byte == 0x2A ||
            byte == 0x2B || byte == 0x2C || byte == 0x2D || byte == 0x2E || byte == 0x34 ||
            byte == 0x35 || byte == 0x36 || byte == 0x39 || byte == 0x44 || byte == 0x45 ||
            byte == 0x46 || byte == 0x4C || byte == 0x4D || byte == 0x4E || byte == 0x54 ||
            byte == 0x55 || byte == 0x56 || byte == 0x5C || byte == 0x5D || byte == 0x5E ||
            byte == 0x60 || byte == 0x61 || byte == 0x62 || byte == 0x63 || byte == 0x64 ||
            byte == 0x65 || byte == 0x66 || byte == 0x67 || byte == 0x68 || byte == 0x69 ||
            byte == 0x6A || byte == 0x6B || byte == 0x6C || byte == 0x6D || byte == 0x6E ||
            byte == 0x6F || byte == 0x70 || byte == 0x71 || byte == 0x72 || byte == 0x73 ||
            byte == 0x74 || byte == 0x75 || byte == 0x77 || byte == 0x7C || byte == 0x7D ||
            byte == 0x7E || byte == 0x84 || byte == 0x85 || byte == 0x86 || byte == 0x8C ||
            byte == 0x8D || byte == 0x8E || byte == 0x94 || byte == 0x95 || byte == 0x96 ||
            byte == 0x9C || byte == 0x9D || byte == 0x9E || byte == 0xA4 || byte == 0xA5 ||
            byte == 0xA6 || byte == 0xAC || byte == 0xAD || byte == 0xAE || byte == 0xB4 ||
            byte == 0xB5 || byte == 0xB6 || byte == 0xBC || byte == 0xBD || byte == 0xBE ||
            byte == 0xE1 || byte == 0xE3 || byte == 0xE5 || byte == 0xE9 || byte == 0xF9,
{
}

impl Z80 {
    /// The table of the index states: selects the handler of `byte` by exact
    /// match.
    pub fn index_table(&mut self, mem: &mut memory, byte: u8)
        ensures
            (Machine { cpu: *final(self), mem: final(mem)@ }) == lookup(
                refers_to_hl(byte),
                main_op(*old(self), old(mem)@, byte),
                *old(self),
                old(mem)@,
                byte,
            ),
    {
        match byte {
            0x00..=0x0F => self.index_row_0(mem, byte),
            0x10..=0x1F => self.index_row_1(mem, byte),
            0x20..=0x2F => self.index_row_2(mem, byte),
            0x30..=0x3F => self.index_row_3(mem, byte),
            0x40..=0x4F => self.index_row_4(mem, byte),
            0x50..=0x5F => self.index_row_5(mem, byte),
            0x60..=0x6F => self.index_row_6(mem, byte),
            0x70..=0x7F => self.index_row_7(mem, byte),
            0x80..=0x8F => self.index_row_8(mem, byte),
            0x90..=0x9F => self.index_row_9(mem, byte),
            0xA0..=0xAF => self.index_row_a(mem, byte),
            0xB0..=0xBF => self.index_row_b(mem, byte),
            0xE0..=0xEF => self.index_row_e(mem, byte),
            0xF0..=0xFF => self.index_row_f(mem, byte),
            _ => {
                proof {
                    if refers_to_hl(byte) {
                        lemma_index_table_set(byte);
                    }
                }
                self.unimplemented(byte)
            },
        }
    }

    /// Opcodes `0x00..=0x0F` of the index states.
    fn index_row_0(&mut self, mem: &mut memory, byte: u8)
        requires
            byte <= 0x0F,
        ensures
            (Machine { cpu: *final(self), mem: final(mem)@ }) == lookup(
                refers_to_hl(byte),
                main_op(*old(self), old(mem)@, byte),
                *old(self),
                old(mem)@,
                byte,
            ),
    {
        match byte {
            0x09 => self.add_hl(Reg16::BC),
            _ => self.unimplemented(byte),
        }
    }

    /// Opcodes `0x10..=0x1F` of the index states.
    fn index_row_1(&mut self, mem: &mut memory, byte: u8)
        requires
            0x10 <= byte <= 0x1F,
        ensures
            (Machine { cpu: *final(self), mem: final(mem)@ }) == lookup(
                refers_to_hl(byte),
                main_op(*old(self), old(mem)@, byte),
                *old(self),
                old(mem)@,
                byte,
            ),
    {
        match byte {
            0x19 => self.add_hl(Reg16::DE),
            _ => self.unimplemented(byte),
        }
    }

    /// Opcodes `0x20..=0x2F` of the index states.
    fn index_row_2(&mut self, mem: &mut memory, byte: u8)
        requires
            0x20 <= byte <= 0x2F,
        ensures
            (Machine { cpu: *final(self), mem: final(mem)@ }) == lookup(
                refers_to_hl(byte),
                main_op(*old(self), old(mem)@, byte),
                *old(self),
                old(mem)@,
                byte,
            ),
    {
        match byte {
            0x21 => self.ld_hl(mem),
            0x22 => self.ld_nn_hl(mem),
            0x23 => self.inc_ss(Reg16::HL),
            0x24 => self.inc(mem, Operand::H),
            0x25 => self.dec(mem, Operand::H),
            0x26 => self.ld_n(mem, Operand::H),
            0x29 => self.add_hl(Reg16::HL),
            0x2A => self.ld_hl_nn(mem),
            0x2B => self.dec_ss(Reg16::HL),
            0x2C => self.inc(mem, Operand::L),
            0x2D => self.dec(mem, Operand::L),
            0x2E => self.ld_n(mem, Operand::L),
            _ => self.unimplemented(byte),
        }
    }

    /// Opcodes `0x30..=0x3F` of the index states.
    fn index_row_3(&mut self, mem: &mut memory, byte: u8)
        requires
            0x30 <= byte <= 0x3F,
        ensures
            (Machine { cpu: *final(self), mem: final(mem)@ }) == lookup(
                refers_to_hl(byte),
                main_op(*old(self), old(mem)@, byte),
                *old(self),
                old(mem)@,
                byte,
            ),
    {
        match byte {
            0x34 => self.inc_at_hl(mem),
            0x35 => self.dec_at_hl(mem),
            0x36 => self.ld_hl_n(mem),
            0x39 => self.add_hl(Reg16::SP),
            _ => self.unimplemented(byte),
        }
    }

    /// Opcodes `0x40..=0x4F` of the index states.
    fn index_row_4(&mut self, mem: &mut memory, byte: u8)
        requires
            0x40 <= byte <= 0x4F,
        ensures
            (Machine { cpu: *final(self), mem: final(mem)@ }) == lookup(
                refers_to_hl(byte),
                main_op(*old(self), old(mem)@, byte),
                *old(self),
                old(mem)@,
                byte,
            ),
    {
        match byte {
            0x44 => self.ld(mem, Operand::B, Operand::H),
            0x45 => self.ld(mem, Operand::B, Operand::L),
            0x46 => self.ld(mem, Operand::B, Operand::AtHl),
            0x4C => self.ld(mem, Operand::C, Operand::H),
            0x4D => self.ld(mem, Operand::C, Operand::L),
            0x4E => self.ld(mem, Operand::C, Operand::AtHl),
            _ => self.unimplemented(byte),
        }
    }

    /// Opcodes `0x50..=0x5F` of the index states.
    fn index_row_5(&mut self, mem: &mut memory, byte: u8)
        requires
            0x50 <= byte <= 0x5F,
        ensures
            (Machine { cpu: *final(self), mem: final(mem)@ }) == lookup(
                refers_to_hl(byte),
                main_op(*old(self), old(mem)@, byte),
                *old(self),
                old(mem)@,
                byte,
            ),
    {
        match byte {
            0x54 => self.ld(mem, Operand::D, Operand::H),
            0x55 => self.ld(mem, Operand::D, Operand::L),
            0x56 => self.ld(mem, Operand::D, Operand::AtHl),
            0x5C => self.ld(mem, Operand::E, Operand::H),
            0x5D => self.ld(mem, Operand::E, Operand::L),
            0x5E => self.ld(mem, Operand::E, Operand::AtHl),
            _ => self.unimplemented(byte),
        }
    }

    /// Opcodes `0x60..=0x6F` of the index states.
    fn index_row_6(&mut self, mem: &mut memory, byte: u8)
        requires
            0x60 <= byte <= 0x6F,
        ensures
            (Machine { cpu: *final(self), mem: final(mem)@ }) == lookup(
                refers_to_hl(byte),
                main_op(*old(self), old(mem)@, byte),
                *old(self),
                old(mem)@,
                byte,
            ),
    {
        match byte {
            0x60 => self.ld(mem, Operand::H, Operand::B),
            0x61 => self.ld(mem, Operand::H, Operand::C),
            0x62 => self.ld(mem, Operand::H, Operand::D),
            0x63 => self.ld(mem, Operand::H, Operand::E),
            0x64 => self.ld(mem, Operand::H, Operand::H),
            0x65 => self.ld(mem, Operand::H, Operand::L),
            0x66 => self.ld(mem, Operand::H, Operand::AtHl),
            0x67 => self.ld(mem, Operand::H, Operand::A),
            0x68 => self.ld(mem, Operand::L, Operand::B),
            0x69 => self.ld(mem, Operand::L, Operand::C),
            0x6A => self.ld(mem, Operand::L, Operand::D),
            0x6B => self.ld(mem, Operand::L, Operand::E),
            0x6C => self.ld(mem, Operand::L, Operand::H),
            0x6D => self.ld(mem, Operand::L, Operand::L),
            0x6E => self.ld(mem, Operand::L, Operand::AtHl),
            0x6F => self.ld(mem, Operand::L, Operand::A),
            _ => {},
        }
    }

    /// Opcodes `0x70..=0x7F` of the index states.
    fn index_row_7(&mut self, mem: &mut memory, byte: u8)
        requires
            0x70 <= byte <= 0x7F,
        ensures
            (Machine { cpu: *final(self), mem: final(mem)@ }) == lookup(
                refers_to_hl(byte),
                main_op(*old(self), old(mem)@, byte),
                *old(self),
                old(mem)@,
                byte,
            ),
    {
        match byte {
            0x70 => self.ld(mem, Operand::AtHl, Operand::B),
            0x71 => self.ld(mem, Operand::AtHl, Operand::C),
            0x72 => self.ld(mem, Operand::AtHl, Operand::D),
            0x73 => self.ld(mem, Operand::AtHl, Operand::E),
            0x74 => self.ld(mem, Operand::AtHl, Operand::H),
            0x75 => self.ld(mem, Operand::AtHl, Operand::L),
            0x77 => self.ld(mem, Operand::AtHl, Operand::A),
            0x7C => self.ld(mem, Operand::A, Operand::H),
            0x7D => self.ld(mem, Operand::A, Operand::L),
            0x7E => self.ld(mem, Operand::A, Operand::AtHl),
            _ => self.unimplemented(byte),
        }
    }

    /// Opcodes `0x80..=0x8F` of the index states.
    fn index_row_8(&mut self, mem: &mut memory, byte: u8)
        requires
            0x80 <= byte <= 0x8F,
        ensures
            (Machine { cpu: *final(self), mem: final(mem)@ }) == lookup(
                refers_to_hl(byte),
                main_op(*old(self), old(mem)@, byte),
                *old(self),
                old(mem)@,
                byte,
            ),
    {
        match byte {
            0x84 => self.alu_a_operand(mem, AluOp::Add, Operand::H),
            0x85 => self.alu_a_operand(mem, AluOp::Add, Operand::L),
            0x86 => self.alu_a_operand(mem, AluOp::Add, Operand::AtHl),
            0x8C => self.alu_a_operand(mem, AluOp::Adc, Operand::H),
            0x8D => self.alu_a_operand(mem, AluOp::Adc, Operand::L),
            0x8E => self.alu_a_operand(mem, AluOp::Adc, Operand::AtHl),
            _ => self.unimplemented(byte),
        }
    }

    /// Opcodes `0x90..=0x9F` of the index states.
    fn index_row_9(&mut self, mem: &mut memory, byte: u8)
        requires
            0x90 <= byte <= 0x9F,
        ensures
            (Machine { cpu: *final(self), mem: final(mem)@ }) == lookup(
                refers_to_hl(byte),
                main_op(*old(self), old(mem)@, byte),
                *old(self),
                old(mem)@,
                byte,
            ),
    {
        match byte {
            0x94 => self.alu_a_operand(mem, AluOp::Sub, Operand::H),
            0x95 => self.alu_a_operand(mem, AluOp::Sub, Operand::L),
            0x96 => self.alu_a_operand(mem, AluOp::Sub, Operand::AtHl),
            0x9C => self.alu_a_operand(mem, AluOp::Sbc, Operand::H),
            0x9D => self.alu_a_operand(mem, AluOp::Sbc, Operand::L),
            0x9E => self.alu_a_operand(mem, AluOp::Sbc, Operand::AtHl),
            _ => self.unimplemented(byte),
        }
    }

    /// Opcodes `0xA0..=0xAF` of the index states.
    fn index_row_a(&mut self, mem: &mut memory, byte: u8)
        requires
            0xA0 <= byte <= 0xAF,
        ensures
            (Machine { cpu: *final(self), mem: final(mem)@ }) == lookup(
                refers_to_hl(byte),
                main_op(*old(self), old(mem)@, byte),
                *old(self),
                old(mem)@,
                byte,
            ),
    {
        match byte {
            0xA4 => self.alu_a_operand(mem, AluOp::And, Operand::H),
            0xA5 => self.alu_a_operand(mem, AluOp::And, Operand::L),
            0xA6 => self.alu_a_operand(mem, AluOp::And, Operand::AtHl),
            0xAC => self.alu_a_operand(mem, AluOp::Xor, Operand::H),
            0xAD => self.alu_a_operand(mem, AluOp::Xor, Operand::L),
            0xAE => self.alu_a_operand(mem, AluOp::Xor, Operand::AtHl),
            _ => self.unimplemented(byte),
        }
    }

    /// Opcodes `0xB0..=0xBF` of the index states.
    fn index_row_b(&mut self, mem: &mut memory, byte: u8)
        requires
            0xB0 <= byte <= 0xBF,
        ensures
            (Machine { cpu: *final(self), mem: final(mem)@ }) == lookup(
                refers_to_hl(byte),
                main_op(*old(self), old(mem)@, byte),
                *old(self),
                old(mem)@,
                byte,
            ),
    {
        match byte {
            0xB4 => self.alu_a_operand(mem, AluOp::Or, Operand::H),
            0xB5 => self.alu_a_operand(mem, AluOp::Or, Operand::L),
            0xB6 => self.alu_a_operand(mem, AluOp::Or, Operand::AtHl),
            0xBC => self.alu_a_operand(mem, AluOp::Cp, Operand::H),
            0xBD => self.alu_a_operand(mem, AluOp::Cp, Operand::L),
            0xBE => self.alu_a_operand(mem, AluOp::Cp, Operand::AtHl),
            _ => self.unimplemented(byte),
        }
    }

    /// Opcodes `0xE0..=0xEF` of the index states.
    fn index_row_e(&mut self, mem: &mut memory, byte: u8)
        requires
            0xE0 <= byte <= 0xEF,
        ensures
            (Machine { cpu: *final(self), mem: final(mem)@ }) == lookup(
                refers_to_hl(byte),
                main_op(*old(self), old(mem)@, byte),
                *old(self),
                old(mem)@,
                byte,
            ),
    {
        match byte {
            0xE1 => self.pop(mem, StackPair::HL),
            0xE3 => self.ex_at_sp_hl(mem),
            0xE5 => self.push(mem, StackPair::HL),
            0xE9 => self.jp_at_hl(),
            _ => self.unimplemented(byte),
        }
    }

    /// Opcodes `0xF0..=0xFF` of the index states.
    fn index_row_f(&mut self, mem: &mut memory, byte: u8)
        requires
            byte >= 0xF0,
        ensures
            (Machine { cpu: *final(self), mem: final(mem)@ }) == lookup(
                refers_to_hl(byte),
                main_op(*old(self), old(mem)@, byte),
                *old(self),
                old(mem)@,
                byte,
            ),
    {
        match byte {
            0xF9 => self.ld_sp_hl(),
            _ => self.unimplemented(byte),
        }
    }
}

} // verus!
