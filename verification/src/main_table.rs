//! The main table: one handler for each opcode byte, selected by exact
//! match. The table is laid out in sixteen rows of sixteen opcodes.

use crate::alu::AluOp;
use crate::control::Cond;
use crate::exec::{lookup, main_handles, main_op};
use crate::memory::memory;
use crate::z80::{Machine, Operand, Reg16, StackPair, Z80};
use vstd::prelude::*;

verus! {

impl Z80 {
    /// The main table: selects the handler of `byte` by exact match.
    pub fn main_table(&mut self, mem: &mut memory, byte: u8)
        ensures
            (Machine { cpu: *final(self), mem: final(mem)@ }) == lookup(
                main_handles(byte),
                main_op(*old(self), old(mem)@, byte),
                *old(self),
                old(mem)@,
                byte,
            ),
    {
        match byte {
            0x00..=0x0F => self.main_row_0(mem, byte),
            0x10..=0x1F => self.main_row_1(mem, byte),
            0x20..=0x2F => self.main_row_2(mem, byte),
            0x30..=0x3F => self.main_row_3(mem, byte),
            0x40..=0x4F => self.main_row_4(mem, byte),
            0x50..=0x5F => self.main_row_5(mem, byte),
            0x60..=0x6F => self.main_row_6(mem, byte),
            0x70..=0x7F => self.main_row_7(mem, byte),
            0x80..=0x8F => self.main_row_8(mem, byte),
            0x90..=0x9F => self.main_row_9(mem, byte),
            0xA0..=0xAF => self.main_row_a(mem, byte),
            0xB0..=0xBF => self.main_row_b(mem, byte),
            0xC0..=0xCF => self.main_row_c(mem, byte),
            0xD0..=0xDF => self.main_row_d(mem, byte),
            0xE0..=0xEF => self.main_row_e(mem, byte),
            _ => self.main_row_f(mem, byte),
        }
    }

    /// Opcodes `0x00..=0x0F` of the main table.
    fn main_row_0(&mut self, mem: &mut memory, byte: u8)
        requires
            byte <= 0x0F,
        ensures
            (Machine { cpu: *final(self), mem: final(mem)@ }) == lookup(
                main_handles(byte),
                main_op(*old(self), old(mem)@, byte),
                *old(self),
                old(mem)@,
                byte,
            ),
    {
        match byte {
            0x00 => self.nop(),
            0x01 => self.ld_bc(mem),
            0x02 => self.ld_at_bc_a(mem),
            0x03 => self.inc_ss(Reg16::BC),
            0x04 => self.inc(mem, Operand::B),
            0x05 => self.dec(mem, Operand::B),
            0x06 => self.ld_n(mem, Operand::B),
            0x07 => self.rlca(),
            0x08 => self.ex_af_af_alt(),
            0x09 => self.add_hl(Reg16::BC),
            0x0A => self.ld_a_at_bc(mem),
            0x0B => self.dec_ss(Reg16::BC),
            0x0C => self.inc(mem, Operand::C),
            0x0D => self.dec(mem, Operand::C),
            0x0E => self.ld_n(mem, Operand::C),
            0x0F => self.rrca(),
            _ => {},
        }
    }

    /// Opcodes `0x10..=0x1F` of the main table.
    fn main_row_1(&mut self, mem: &mut memory, byte: u8)
        requires
            0x10 <= byte <= 0x1F,
        ensures
            (Machine { cpu: *final(self), mem: final(mem)@ }) == lookup(
                main_handles(byte),
                main_op(*old(self), old(mem)@, byte),
                *old(self),
                old(mem)@,
                byte,
            ),
    {
        match byte {
            0x10 => self.djnz_e(mem),
            0x11 => self.ld_de(mem),
            0x12 => self.ld_at_de_a(mem),
            0x13 => self.inc_ss(Reg16::DE),
            0x14 => self.inc(mem, Operand::D),
            0x15 => self.dec(mem, Operand::D),
            0x16 => self.ld_n(mem, Operand::D),
            0x17 => self.rla(),
            0x18 => self.jr_e(mem),
            0x19 => self.add_hl(Reg16::DE),
            0x1A => self.ld_a_at_de(mem),
            0x1B => self.dec_ss(Reg16::DE),
            0x1C => self.inc(mem, Operand::E),
            0x1D => self.dec(mem, Operand::E),
            0x1E => self.ld_n(mem, Operand::E),
            0x1F => self.rra(),
            _ => {},
        }
    }

    /// Opcodes `0x20..=0x2F` of the main table.
    fn main_row_2(&mut self, mem: &mut memory, byte: u8)
        requires
            0x20 <= byte <= 0x2F,
        ensures
            (Machine { cpu: *final(self), mem: final(mem)@ }) == lookup(
                main_handles(byte),
                main_op(*old(self), old(mem)@, byte),
                *old(self),
                old(mem)@,
                byte,
            ),
    {
        match byte {
            0x20 => self.jr_if(mem, Cond::NZ),
            0x21 => self.ld_hl(mem),
            0x22 => self.ld_nn_hl(mem),
            0x23 => self.inc_ss(Reg16::HL),
            0x24 => self.inc(mem, Operand::H),
            0x25 => self.dec(mem, Operand::H),
            0x26 => self.ld_n(mem, Operand::H),
            0x27 => self.daa(),
            0x28 => self.jr_if(mem, Cond::Z),
            0x29 => self.add_hl(Reg16::HL),
            0x2A => self.ld_hl_nn(mem),
            0x2B => self.dec_ss(Reg16::HL),
            0x2C => self.inc(mem, Operand::L),
            0x2D => self.dec(mem, Operand::L),
            0x2E => self.ld_n(mem, Operand::L),
            0x2F => self.cpl(),
            _ => {},
        }
    }

    /// Opcodes `0x30..=0x3F` of the main table.
    fn main_row_3(&mut self, mem: &mut memory, byte: u8)
        requires
            0x30 <= byte <= 0x3F,
        ensures
            (Machine { cpu: *final(self), mem: final(mem)@ }) == lookup(
                main_handles(byte),
                main_op(*old(self), old(mem)@, byte),
                *old(self),
                old(mem)@,
                byte,
            ),
    {
        match byte {
            0x30 => self.jr_if(mem, Cond::NC),
            0x31 => self.ld_sp(mem),
            0x32 => self.ld_at_nn_a(mem),
            0x33 => self.inc_ss(Reg16::SP),
            0x34 => self.inc_at_hl(mem),
            0x35 => self.dec_at_hl(mem),
            0x36 => self.ld_hl_n(mem),
            0x37 => self.scf(),
            0x38 => self.jr_if(mem, Cond::C),
            0x39 => self.add_hl(Reg16::SP),
            0x3A => self.ld_a_at_nn(mem),
            0x3B => self.dec_ss(Reg16::SP),
            0x3C => self.inc(mem, Operand::A),
            0x3D => self.dec(mem, Operand::A),
            0x3E => self.ld_n(mem, Operand::A),
            0x3F => self.ccf(),
            _ => {},
        }
    }

    /// Opcodes `0x40..=0x4F` of the main table.
    fn main_row_4(&mut self, mem: &mut memory, byte: u8)
        requires
            0x40 <= byte <= 0x4F,
        ensures
            (Machine { cpu: *final(self), mem: final(mem)@ }) == lookup(
                main_handles(byte),
                main_op(*old(self), old(mem)@, byte),
                *old(self),
                old(mem)@,
                byte,
            ),
    {
        match byte {
            0x40 => self.ld(mem, Operand::B, Operand::B),
            0x41 => self.ld(mem, Operand::B, Operand::C),
            0x42 => self.ld(mem, Operand::B, Operand::D),
            0x43 => self.ld(mem, Operand::B, Operand::E),
            0x44 => self.ld(mem, Operand::B, Operand::H),
            0x45 => self.ld(mem, Operand::B, Operand::L),
            0x46 => self.ld(mem, Operand::B, Operand::AtHl),
            0x47 => self.ld(mem, Operand::B, Operand::A),
            0x48 => self.ld(mem, Operand::C, Operand::B),
            0x49 => self.ld(mem, Operand::C, Operand::C),
            0x4A => self.ld(mem, Operand::C, Operand::D),
            0x4B => self.ld(mem, Operand::C, Operand::E),
            0x4C => self.ld(mem, Operand::C, Operand::H),
            0x4D => self.ld(mem, Operand::C, Operand::L),
            0x4E => self.ld(mem, Operand::C, Operand::AtHl),
            0x4F => self.ld(mem, Operand::C, Operand::A),
            _ => {},
        }
    }

    /// Opcodes `0x50..=0x5F` of the main table.
    fn main_row_5(&mut self, mem: &mut memory, byte: u8)
        requires
            0x50 <= byte <= 0x5F,
        ensures
            (Machine { cpu: *final(self), mem: final(mem)@ }) == lookup(
                main_handles(byte),
                main_op(*old(self), old(mem)@, byte),
                *old(self),
                old(mem)@,
                byte,
            ),
    {
        match byte {
            0x50 => self.ld(mem, Operand::D, Operand::B),
            0x51 => self.ld(mem, Operand::D, Operand::C),
            0x52 => self.ld(mem, Operand::D, Operand::D),
            0x53 => self.ld(mem, Operand::D, Operand::E),
            0x54 => self.ld(mem, Operand::D, Operand::H),
            0x55 => self.ld(mem, Operand::D, Operand::L),
            0x56 => self.ld(mem, Operand::D, Operand::AtHl),
            0x57 => self.ld(mem, Operand::D, Operand::A),
            0x58 => self.ld(mem, Operand::E, Operand::B),
            0x59 => self.ld(mem, Operand::E, Operand::C),
            0x5A => self.ld(mem, Operand::E, Operand::D),
            0x5B => self.ld(mem, Operand::E, Operand::E),
            0x5C => self.ld(mem, Operand::E, Operand::H),
            0x5D => self.ld(mem, Operand::E, Operand::L),
            0x5E => self.ld(mem, Operand::E, Operand::AtHl),
            0x5F => self.ld(mem, Operand::E, Operand::A),
            _ => {},
        }
    }

    /// Opcodes `0x60..=0x6F` of the main table.
    fn main_row_6(&mut self, mem: &mut memory, byte: u8)
        requires
            0x60 <= byte <= 0x6F,
        ensures
            (Machine { cpu: *final(self), mem: final(mem)@ }) == lookup(
                main_handles(byte),
                main_op(*old(self), old(mem)@, byte),
                *old(self),
                old(mem)@,
                byte,
            ),
    {
        match byte {
            0x60 => self.ld(mem, Operand::H, Operand::B),
            0x61 => self.ld(mem, Operand::H, Operand::C),
            0x62 => self.ld(mem, Operand::H, Operand::D),
            0x63 => self.ld(mem, Operand::H, Operand::E),
            0x64 => self.ld(mem, Operand::H, Operand::H),
            0x65 => self.ld(mem, Operand::H, Operand::L),
            0x66 => self.ld(mem, Operand::H, Operand::AtHl),
            0x67 => self.ld(mem, Operand::H, Operand::A),
            0x68 => self.ld(mem, Operand::L, Operand::B),
            0x69 => self.ld(mem, Operand::L, Operand::C),
            0x6A => self.ld(mem, Operand::L, Operand::D),
            0x6B => self.ld(mem, Operand::L, Operand::E),
            0x6C => self.ld(mem, Operand::L, Operand::H),
            0x6D => self.ld(mem, Operand::L, Operand::L),
            0x6E => self.ld(mem, Operand::L, Operand::AtHl),
            0x6F => self.ld(mem, Operand::L, Operand::A),
            _ => {},
        }
    }

    /// Opcodes `0x70..=0x7F` of the main table.
    fn main_row_7(&mut self, mem: &mut memory, byte: u8)
        requires
            0x70 <= byte <= 0x7F,
        ensures
            (Machine { cpu: *final(self), mem: final(mem)@ }) == lookup(
                main_handles(byte),
                main_op(*old(self), old(mem)@, byte),
                *old(self),
                old(mem)@,
                byte,
            ),
    {
        match byte {
            0x70 => self.ld(mem, Operand::AtHl, Operand::B),
            0x71 => self.ld(mem, Operand::AtHl, Operand::C),
            0x72 => self.ld(mem, Operand::AtHl, Operand::D),
            0x73 => self.ld(mem, Operand::AtHl, Operand::E),
            0x74 => self.ld(mem, Operand::AtHl, Operand::H),
            0x75 => self.ld(mem, Operand::AtHl, Operand::L),
            0x76 => self.halt(),
            0x77 => self.ld(mem, Operand::AtHl, Operand::A),
            0x78 => self.ld(mem, Operand::A, Operand::B),
            0x79 => self.ld(mem, Operand::A, Operand::C),
            0x7A => self.ld(mem, Operand::A, Operand::D),
            0x7B => self.ld(mem, Operand::A, Operand::E),
            0x7C => self.ld(mem, Operand::A, Operand::H),
            0x7D => self.ld(mem, Operand::A, Operand::L),
            0x7E => self.ld(mem, Operand::A, Operand::AtHl),
            0x7F => self.ld(mem, Operand::A, Operand::A),
            _ => {},
        }
    }

    /// Opcodes `0x80..=0x8F` of the main table.
    fn main_row_8(&mut self, mem: &mut memory, byte: u8)
        requires
            0x80 <= byte <= 0x8F,
        ensures
            (Machine { cpu: *final(self), mem: final(mem)@ }) == lookup(
                main_handles(byte),
                main_op(*old(self), old(mem)@, byte),
                *old(self),
                old(mem)@,
                byte,
            ),
    {
        match byte {
            0x80 => self.alu_a_operand(mem, AluOp::Add, Operand::B),
            0x81 => self.alu_a_operand(mem, AluOp::Add, Operand::C),
            0x82 => self.alu_a_operand(mem, AluOp::Add, Operand::D),
            0x83 => self.alu_a_operand(mem, AluOp::Add, Operand::E),
            0x84 => self.alu_a_operand(mem, AluOp::Add, Operand::H),
            0x85 => self.alu_a_operand(mem, AluOp::Add, Operand::L),
            0x86 => self.alu_a_operand(mem, AluOp::Add, Operand::AtHl),
            0x87 => self.alu_a_operand(mem, AluOp::Add, Operand::A),
            0x88 => self.alu_a_operand(mem, AluOp::Adc, Operand::B),
            0x89 => self.alu_a_operand(mem, AluOp::Adc, Operand::C),
            0x8A => self.alu_a_operand(mem, AluOp::Adc, Operand::D),
            0x8B => self.alu_a_operand(mem, AluOp::Adc, Operand::E),
            0x8C => self.alu_a_operand(mem, AluOp::Adc, Operand::H),
            0x8D => self.alu_a_operand(mem, AluOp::Adc, Operand::L),
            0x8E => self.alu_a_operand(mem, AluOp::Adc, Operand::AtHl),
            0x8F => self.alu_a_operand(mem, AluOp::Adc, Operand::A),
            _ => {},
        }
    }

    /// Opcodes `0x90..=0x9F` of the main table.
    fn main_row_9(&mut self, mem: &mut memory, byte: u8)
        requires
            0x90 <= byte <= 0x9F,
        ensures
            (Machine { cpu: *final(self), mem: final(mem)@ }) == lookup(
                main_handles(byte),
                main_op(*old(self), old(mem)@, byte),
                *old(self),
                old(mem)@,
                byte,
            ),
    {
        match byte {
            0x90 => self.alu_a_operand(mem, AluOp::Sub, Operand::B),
            0x91 => self.alu_a_operand(mem, AluOp::Sub, Operand::C),
            0x92 => self.alu_a_operand(mem, AluOp::Sub, Operand::D),
            0x93 => self.alu_a_operand(mem, AluOp::Sub, Operand::E),
            0x94 => self.alu_a_operand(mem, AluOp::Sub, Operand::H),
            0x95 => self.alu_a_operand(mem, AluOp::Sub, Operand::L),
            0x96 => self.alu_a_operand(mem, AluOp::Sub, Operand::AtHl),
            0x97 => self.alu_a_operand(mem, AluOp::Sub, Operand::A),
            0x98 => self.alu_a_operand(mem, AluOp::Sbc, Operand::B),
            0x99 => self.alu_a_operand(mem, AluOp::Sbc, Operand::C),
            0x9A => self.alu_a_operand(mem, AluOp::Sbc, Operand::D),
            0x9B => self.alu_a_operand(mem, AluOp::Sbc, Operand::E),
            0x9C => self.alu_a_operand(mem, AluOp::Sbc, Operand::H),
            0x9D => self.alu_a_operand(mem, AluOp::Sbc, Operand::L),
            0x9E => self.alu_a_operand(mem, AluOp::Sbc, Operand::AtHl),
            0x9F => self.alu_a_operand(mem, AluOp::Sbc, Operand::A),
            _ => {},
        }
    }

    /// Opcodes `0xA0..=0xAF` of the main table.
    fn main_row_a(&mut self, mem: &mut memory, byte: u8)
        requires
            0xA0 <= byte <= 0xAF,
        ensures
            (Machine { cpu: *final(self), mem: final(mem)@ }) == lookup(
                main_handles(byte),
                main_op(*old(self), old(mem)@, byte),
                *old(self),
                old(mem)@,
                byte,
            ),
    {
        match byte {
            0xA0 => self.alu_a_operand(mem, AluOp::And, Operand::B),
            0xA1 => self.alu_a_operand(mem, AluOp::And, Operand::C),
            0xA2 => self.alu_a_operand(mem, AluOp::And, Operand::D),
            0xA3 => self.alu_a_operand(mem, AluOp::And, Operand::E),
            0xA4 => self.alu_a_operand(mem, AluOp::And, Operand::H),
            0xA5 => self.alu_a_operand(mem, AluOp::And, Operand::L),
            0xA6 => self.alu_a_operand(mem, AluOp::And, Operand::AtHl),
            0xA7 => self.alu_a_operand(mem, AluOp::And, Operand::A),
            0xA8 => self.alu_a_operand(mem, AluOp::Xor, Operand::B),
            0xA9 => self.alu_a_operand(mem, AluOp::Xor, Operand::C),
            0xAA => self.alu_a_operand(mem, AluOp::Xor, Operand::D),
            0xAB => self.alu_a_operand(mem, AluOp::Xor, Operand::E),
            0xAC => self.alu_a_operand(mem, AluOp::Xor, Operand::H),
            0xAD => self.alu_a_operand(mem, AluOp::Xor, Operand::L),
            0xAE => self.alu_a_operand(mem, AluOp::Xor, Operand::AtHl),
            0xAF => self.alu_a_operand(mem, AluOp::Xor, Operand::A),
            _ => {},
        }
    }

    /// Opcodes `0xB0..=0xBF` of the main table.
    fn main_row_b(&mut self, mem: &mut memory, byte: u8)
        requires
            0xB0 <= byte <= 0xBF,
        ensures
            (Machine { cpu: *final(self), mem: final(mem)@ }) == lookup(
                main_handles(byte),
                main_op(*old(self), old(mem)@, byte),
                *old(self),
                old(mem)@,
                byte,
            ),
    {
        match byte {
            0xB0 => self.alu_a_operand(mem, AluOp::Or, Operand::B),
            0xB1 => self.alu_a_operand(mem, AluOp::Or, Operand::C),
            0xB2 => self.alu_a_operand(mem, AluOp::Or, Operand::D),
            0xB3 => self.alu_a_operand(mem, AluOp::Or, Operand::E),
            0xB4 => self.alu_a_operand(mem, AluOp::Or, Operand::H),
            0xB5 => self.alu_a_operand(mem, AluOp::Or, Operand::L),
            0xB6 => self.alu_a_operand(mem, AluOp::Or, Operand::AtHl),
            0xB7 => self.alu_a_operand(mem, AluOp::Or, Operand::A),
            0xB8 => self.alu_a_operand(mem, AluOp::Cp, Operand::B),
            0xB9 => self.alu_a_operand(mem, AluOp::Cp, Operand::C),
            0xBA => self.alu_a_operand(mem, AluOp::Cp, Operand::D),
            0xBB => self.alu_a_operand(mem, AluOp::Cp, Operand::E),
            0xBC => self.alu_a_operand(mem, AluOp::Cp, Operand::H),
            0xBD => self.alu_a_operand(mem, AluOp::Cp, Operand::L),
            0xBE => self.alu_a_operand(mem, AluOp::Cp, Operand::AtHl),
            0xBF => self.alu_a_operand(mem, AluOp::Cp, Operand::A),
            _ => {},
        }
    }

    /// Opcodes `0xC0..=0xCF` of the main table.
    fn main_row_c(&mut self, mem: &mut memory, byte: u8)
        requires
            0xC0 <= byte <= 0xCF,
        ensures
            (Machine { cpu: *final(self), mem: final(mem)@ }) == lookup(
                main_handles(byte),
                main_op(*old(self), old(mem)@, byte),
                *old(self),
                old(mem)@,
                byte,
            ),
    {
        match byte {
            0xC0 => self.ret_if(mem, Cond::NZ),
            0xC1 => self.pop(mem, StackPair::BC),
            0xC2 => self.jp_if(mem, Cond::NZ),
            0xC3 => self.jp_nn(mem),
            0xC4 => self.call_if(mem, Cond::NZ),
            0xC5 => self.push(mem, StackPair::BC),
            0xC6 => self.alu_a_n(mem, AluOp::Add),
            0xC7 => self.rst_n(mem, 0x00),
            0xC8 => self.ret_if(mem, Cond::Z),
            0xC9 => self.ret(mem),
            0xCA => self.jp_if(mem, Cond::Z),
            0xCC => self.call_if(mem, Cond::Z),
            0xCD => self.call_nn(mem),
            0xCE => self.alu_a_n(mem, AluOp::Adc),
            0xCF => self.rst_n(mem, 0x08),
            _ => self.unimplemented(byte),
        }
    }

    /// Opcodes `0xD0..=0xDF` of the main table.
    fn main_row_d(&mut self, mem: &mut memory, byte: u8)
        requires
            0xD0 <= byte <= 0xDF,
        ensures
            (Machine { cpu: *final(self), mem: final(mem)@ }) == lookup(
                main_handles(byte),
                main_op(*old(self), old(mem)@, byte),
                *old(self),
                old(mem)@,
                byte,
            ),
    {
        match byte {
            0xD0 => self.ret_if(mem, Cond::NC),
            0xD1 => self.pop(mem, StackPair::DE),
            0xD2 => self.jp_if(mem, Cond::NC),
            0xD3 => self.out_n_a(mem),
            0xD4 => self.call_if(mem, Cond::NC),
            0xD5 => self.push(mem, StackPair::DE),
            0xD6 => self.alu_a_n(mem, AluOp::Sub),
            0xD7 => self.rst_n(mem, 0x10),
            0xD8 => self.ret_if(mem, Cond::C),
            0xD9 => self.exx(),
            0xDA => self.jp_if(mem, Cond::C),
            0xDC => self.call_if(mem, Cond::C),
            0xDE => self.alu_a_n(mem, AluOp::Sbc),
            0xDF => self.rst_n(mem, 0x18),
            _ => self.unimplemented(byte),
        }
    }

    /// Opcodes `0xE0..=0xEF` of the main table.
    fn main_row_e(&mut self, mem: &mut memory, byte: u8)
        requires
            0xE0 <= byte <= 0xEF,
        ensures
            (Machine { cpu: *final(self), mem: final(mem)@ }) == lookup(
                main_handles(byte),
                main_op(*old(self), old(mem)@, byte),
                *old(self),
                old(mem)@,
                byte,
            ),
    {
        match byte {
            0xE0 => self.ret_if(mem, Cond::PO),
            0xE1 => self.pop(mem, StackPair::HL),
            0xE2 => self.jp_if(mem, Cond::PO),
            0xE3 => self.ex_at_sp_hl(mem),
            0xE4 => self.call_if(mem, Cond::PO),
            0xE5 => self.push(mem, StackPair::HL),
            0xE6 => self.alu_a_n(mem, AluOp::And),
            0xE7 => self.rst_n(mem, 0x20),
            0xE8 => self.ret_if(mem, Cond::PE),
            0xE9 => self.jp_at_hl(),
            0xEA => self.jp_if(mem, Cond::PE),
            0xEB => self.ex_de_hl(),
            0xEC => self.call_if(mem, Cond::PE),
            0xEE => self.alu_a_n(mem, AluOp::Xor),
            0xEF => self.rst_n(mem, 0x28),
            _ => self.unimplemented(byte),
        }
    }

    /// Opcodes `0xF0..=0xFF` of the main table.
    fn main_row_f(&mut self, mem: &mut memory, byte: u8)
        requires
            byte >= 0xF0,
        ensures
            (Machine { cpu: *final(self), mem: final(mem)@ }) == lookup(
                main_handles(byte),
                main_op(*old(self), old(mem)@, byte),
                *old(self),
                old(mem)@,
                byte,
            ),
    {
        match byte {
            0xF0 => self.ret_if(mem, Cond::P),
            0xF1 => self.pop(mem, StackPair::AF),
            0xF2 => self.jp_if(mem, Cond::P),
            0xF3 => self.di(),
            0xF4 => self.call_if(mem, Cond::P),
            0xF5 => self.push(mem, StackPair::AF),
            0xF6 => self.alu_a_n(mem, AluOp::Or),
            0xF7 => self.rst_n(mem, 0x30),
            0xF8 => self.ret_if(mem, Cond::M),
            0xF9 => self.ld_sp_hl(),
            0xFA => self.jp_if(mem, Cond::M),
            0xFB => self.ei(),
            0xFC => self.call_if(mem, Cond::M),
            0xFE => self.alu_a_n(mem, AluOp::Cp),
            0xFF => self.rst_n(mem, 0x38),
            _ => self.unimplemented(byte),
        }
    }
}

} // verus!
