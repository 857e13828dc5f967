//! The bit-operations table, selected by exact match and laid out in
//! sixteen rows of sixteen opcodes.

use crate::alu::RotOp;
use crate::exec::bit_op;
use crate::memory::memory;
use crate::z80::{Machine, Operand, Z80};
use vstd::prelude::*;

verus! {

impl Z80 {
    /// The bit-operations table: selects the handler of `byte` by exact
    /// match.
    pub fn bit_table(&mut self, mem: &mut memory, byte: u8)
        ensures
            (Machine { cpu: *final(self), mem: final(mem)@ }) == bit_op(
                *old(self),
                old(mem)@,
                byte,
            ),
    {
        match byte {
            0x00..=0x0F => self.bit_row_0(mem, byte),
            0x10..=0x1F => self.bit_row_1(mem, byte),
            0x20..=0x2F => self.bit_row_2(mem, byte),
            0x30..=0x3F => self.bit_row_3(mem, byte),
            0x40..=0x4F => self.bit_row_4(mem, byte),
            0x50..=0x5F => self.bit_row_5(mem, byte),
            0x60..=0x6F => self.bit_row_6(mem, byte),
            0x70..=0x7F => self.bit_row_7(mem, byte),
            0x80..=0x8F => self.bit_row_8(mem, byte),
            0x90..=0x9F => self.bit_row_9(mem, byte),
            0xA0..=0xAF => self.bit_row_a(mem, byte),
            0xB0..=0xBF => self.bit_row_b(mem, byte),
            0xC0..=0xCF => self.bit_row_c(mem, byte),
            0xD0..=0xDF => self.bit_row_d(mem, byte),
            0xE0..=0xEF => self.bit_row_e(mem, byte),
            _ => self.bit_row_f(mem, byte),
        }
    }

    /// Opcodes `0x00..=0x0F` of the bit-operations table.
    fn bit_row_0(&mut self, mem: &mut memory, byte: u8)
        requires
            byte <= 0x0F,
        ensures
            (Machine { cpu: *final(self), mem: final(mem)@ }) == bit_op(
                *old(self),
                old(mem)@,
                byte,
            ),
    {
        match byte {
            0x00 => self.rot(mem, RotOp::Rlc, Operand::B),
            0x01 => self.rot(mem, RotOp::Rlc, Operand::C),
            0x02 => self.rot(mem, RotOp::Rlc, Operand::D),
            0x03 => self.rot(mem, RotOp::Rlc, Operand::E),
            0x04 => self.rot(mem, RotOp::Rlc, Operand::H),
            0x05 => self.rot(mem, RotOp::Rlc, Operand::L),
            0x06 => self.rot(mem, RotOp::Rlc, Operand::AtHl),
            0x07 => self.rot(mem, RotOp::Rlc, Operand::A),
            0x08 => self.rot(mem, RotOp::Rrc, Operand::B),
            0x09 => self.rot(mem, RotOp::Rrc, Operand::C),
            0x0A => self.rot(mem, RotOp::Rrc, Operand::D),
            0x0B => self.rot(mem, RotOp::Rrc, Operand::E),
            0x0C => self.rot(mem, RotOp::Rrc, Operand::H),
            0x0D => self.rot(mem, RotOp::Rrc, Operand::L),
            0x0E => self.rot(mem, RotOp::Rrc, Operand::AtHl),
            0x0F => self.rot(mem, RotOp::Rrc, Operand::A),
            _ => {},
        }
    }

    /// Opcodes `0x10..=0x1F` of the bit-operations table.
    fn bit_row_1(&mut self, mem: &mut memory, byte: u8)
        requires
            0x10 <= byte <= 0x1F,
        ensures
            (Machine { cpu: *final(self), mem: final(mem)@ }) == bit_op(
                *old(self),
                old(mem)@,
                byte,
            ),
    {
        match byte {
            0x10 => self.rot(mem, RotOp::Rl, Operand::B),
            0x11 => self.rot(mem, RotOp::Rl, Operand::C),
            0x12 => self.rot(mem, RotOp::Rl, Operand::D),
            0x13 => self.rot(mem, RotOp::Rl, Operand::E),
            0x14 => self.rot(mem, RotOp::Rl, Operand::H),
            0x15 => self.rot(mem, RotOp::Rl, Operand::L),
            0x16 => self.rot(mem, RotOp::Rl, Operand::AtHl),
            0x17 => self.rot(mem, RotOp::Rl, Operand::A),
            0x18 => self.rot(mem, RotOp::Rr, Operand::B),
            0x19 => self.rot(mem, RotOp::Rr, Operand::C),
            0x1A => self.rot(mem, RotOp::Rr, Operand::D),
            0x1B => self.rot(mem, RotOp::Rr, Operand::E),
            0x1C => self.rot(mem, RotOp::Rr, Operand::H),
            0x1D => self.rot(mem, RotOp::Rr, Operand::L),
            0x1E => self.rot(mem, RotOp::Rr, Operand::AtHl),
            0x1F => self.rot(mem, RotOp::Rr, Operand::A),
            _ => {},
        }
    }

    /// Opcodes `0x20..=0x2F` of the bit-operations table.
    fn bit_row_2(&mut self, mem: &mut memory, byte: u8)
        requires
            0x20 <= byte <= 0x2F,
        ensures
            (Machine { cpu: *final(self), mem: final(mem)@ }) == bit_op(
                *old(self),
                old(mem)@,
                byte,
            ),
    {
        match byte {
            0x20 => self.rot(mem, RotOp::Sla, Operand::B),
            0x21 => self.rot(mem, RotOp::Sla, Operand::C),
            0x22 => self.rot(mem, RotOp::Sla, Operand::D),
            0x23 => self.rot(mem, RotOp::Sla, Operand::E),
            0x24 => self.rot(mem, RotOp::Sla, Operand::H),
            0x25 => self.rot(mem, RotOp::Sla, Operand::L),
            0x26 => self.rot(mem, RotOp::Sla, Operand::AtHl),
            0x27 => self.rot(mem, RotOp::Sla, Operand::A),
            0x28 => self.rot(mem, RotOp::Sra, Operand::B),
            0x29 => self.rot(mem, RotOp::Sra, Operand::C),
            0x2A => self.rot(mem, RotOp::Sra, Operand::D),
            0x2B => self.rot(mem, RotOp::Sra, Operand::E),
            0x2C => self.rot(mem, RotOp::Sra, Operand::H),
            0x2D => self.rot(mem, RotOp::Sra, Operand::L),
            0x2E => self.rot(mem, RotOp::Sra, Operand::AtHl),
            0x2F => self.rot(mem, RotOp::Sra, Operand::A),
            _ => {},
        }
    }

    /// Opcodes `0x30..=0x3F` of the bit-operations table.
    fn bit_row_3(&mut self, mem: &mut memory, byte: u8)
        requires
            0x30 <= byte <= 0x3F,
        ensures
            (Machine { cpu: *final(self), mem: final(mem)@ }) == bit_op(
                *old(self),
                old(mem)@,
                byte,
            ),
    {
        match byte {
            0x30 => self.rot(mem, RotOp::Sll, Operand::B),
            0x31 => self.rot(mem, RotOp::Sll, Operand::C),
            0x32 => self.rot(mem, RotOp::Sll, Operand::D),
            0x33 => self.rot(mem, RotOp::Sll, Operand::E),
            0x34 => self.rot(mem, RotOp::Sll, Operand::H),
            0x35 => self.rot(mem, RotOp::Sll, Operand::L),
            0x36 => self.rot(mem, RotOp::Sll, Operand::AtHl),
            0x37 => self.rot(mem, RotOp::Sll, Operand::A),
            0x38 => self.rot(mem, RotOp::Srl, Operand::B),
            0x39 => self.rot(mem, RotOp::Srl, Operand::C),
            0x3A => self.rot(mem, RotOp::Srl, Operand::D),
            0x3B => self.rot(mem, RotOp::Srl, Operand::E),
            0x3C => self.rot(mem, RotOp::Srl, Operand::H),
            0x3D => self.rot(mem, RotOp::Srl, Operand::L),
            0x3E => self.rot(mem, RotOp::Srl, Operand::AtHl),
            0x3F => self.rot(mem, RotOp::Srl, Operand::A),
            _ => {},
        }
    }

    /// Opcodes `0x40..=0x4F` of the bit-operations table.
    fn bit_row_4(&mut self, mem: &mut memory, byte: u8)
        requires
            0x40 <= byte <= 0x4F,
        ensures
            (Machine { cpu: *final(self), mem: final(mem)@ }) == bit_op(
                *old(self),
                old(mem)@,
                byte,
            ),
    {
        match byte {
            0x40 => self.bit(mem, 0, Operand::B),
            0x41 => self.bit(mem, 0, Operand::C),
            0x42 => self.bit(mem, 0, Operand::D),
            0x43 => self.bit(mem, 0, Operand::E),
            0x44 => self.bit(mem, 0, Operand::H),
            0x45 => self.bit(mem, 0, Operand::L),
            0x46 => self.bit(mem, 0, Operand::AtHl),
            0x47 => self.bit(mem, 0, Operand::A),
            0x48 => self.bit(mem, 1, Operand::B),
            0x49 => self.bit(mem, 1, Operand::C),
            0x4A => self.bit(mem, 1, Operand::D),
            0x4B => self.bit(mem, 1, Operand::E),
            0x4C => self.bit(mem, 1, Operand::H),
            0x4D => self.bit(mem, 1, Operand::L),
            0x4E => self.bit(mem, 1, Operand::AtHl),
            0x4F => self.bit(mem, 1, Operand::A),
            _ => {},
        }
    }

    /// Opcodes `0x50..=0x5F` of the bit-operations table.
    fn bit_row_5(&mut self, mem: &mut memory, byte: u8)
        requires
            0x50 <= byte <= 0x5F,
        ensures
            (Machine { cpu: *final(self), mem: final(mem)@ }) == bit_op(
                *old(self),
                old(mem)@,
                byte,
            ),
    {
        match byte {
            0x50 => self.bit(mem, 2, Operand::B),
            0x51 => self.bit(mem, 2, Operand::C),
            0x52 => self.bit(mem, 2, Operand::D),
            0x53 => self.bit(mem, 2, Operand::E),
            0x54 => self.bit(mem, 2, Operand::H),
            0x55 => self.bit(mem, 2, Operand::L),
            0x56 => self.bit(mem, 2, Operand::AtHl),
            0x57 => self.bit(mem, 2, Operand::A),
            0x58 => self.bit(mem, 3, Operand::B),
            0x59 => self.bit(mem, 3, Operand::C),
            0x5A => self.bit(mem, 3, Operand::D),
            0x5B => self.bit(mem, 3, Operand::E),
            0x5C => self.bit(mem, 3, Operand::H),
            0x5D => self.bit(mem, 3, Operand::L),
            0x5E => self.bit(mem, 3, Operand::AtHl),
            0x5F => self.bit(mem, 3, Operand::A),
            _ => {},
        }
    }

    /// Opcodes `0x60..=0x6F` of the bit-operations table.
    fn bit_row_6(&mut self, mem: &mut memory, byte: u8)
        requires
            0x60 <= byte <= 0x6F,
        ensures
            (Machine { cpu: *final(self), mem: final(mem)@ }) == bit_op(
                *old(self),
                old(mem)@,
                byte,
            ),
    {
        match byte {
            0x60 => self.bit(mem, 4, Operand::B),
            0x61 => self.bit(mem, 4, Operand::C),
            0x62 => self.bit(mem, 4, Operand::D),
            0x63 => self.bit(mem, 4, Operand::E),
            0x64 => self.bit(mem, 4, Operand::H),
            0x65 => self.bit(mem, 4, Operand::L),
            0x66 => self.bit(mem, 4, Operand::AtHl),
            0x67 => self.bit(mem, 4, Operand::A),
            0x68 => self.bit(mem, 5, Operand::B),
            0x69 => self.bit(mem, 5, Operand::C),
            0x6A => self.bit(mem, 5, Operand::D),
            0x6B => self.bit(mem, 5, Operand::E),
            0x6C => self.bit(mem, 5, Operand::H),
            0x6D => self.bit(mem, 5, Operand::L),
            0x6E => self.bit(mem, 5, Operand::AtHl),
            0x6F => self.bit(mem, 5, Operand::A),
            _ => {},
        }
    }

    /// Opcodes `0x70..=0x7F` of the bit-operations table.
    fn bit_row_7(&mut self, mem: &mut memory, byte: u8)
        requires
            0x70 <= byte <= 0x7F,
        ensures
            (Machine { cpu: *final(self), mem: final(mem)@ }) == bit_op(
                *old(self),
                old(mem)@,
                byte,
            ),
    {
        match byte {
            0x70 => self.bit(mem, 6, Operand::B),
            0x71 => self.bit(mem, 6, Operand::C),
            0x72 => self.bit(mem, 6, Operand::D),
            0x73 => self.bit(mem, 6, Operand::E),
            0x74 => self.bit(mem, 6, Operand::H),
            0x75 => self.bit(mem, 6, Operand::L),
            0x76 => self.bit(mem, 6, Operand::AtHl),
            0x77 => self.bit(mem, 6, Operand::A),
            0x78 => self.bit(mem, 7, Operand::B),
            0x79 => self.bit(mem, 7, Operand::C),
            0x7A => self.bit(mem, 7, Operand::D),
            0x7B => self.bit(mem, 7, Operand::E),
            0x7C => self.bit(mem, 7, Operand::H),
            0x7D => self.bit(mem, 7, Operand::L),
            0x7E => self.bit(mem, 7, Operand::AtHl),
            0x7F => self.bit(mem, 7, Operand::A),
            _ => {},
        }
    }

    /// Opcodes `0x80..=0x8F` of the bit-operations table.
    fn bit_row_8(&mut self, mem: &mut memory, byte: u8)
        requires
            0x80 <= byte <= 0x8F,
        ensures
            (Machine { cpu: *final(self), mem: final(mem)@ }) == bit_op(
                *old(self),
                old(mem)@,
                byte,
            ),
    {
        match byte {
            0x80 => self.res(mem, 0, Operand::B),
            0x81 => self.res(mem, 0, Operand::C),
            0x82 => self.res(mem, 0, Operand::D),
            0x83 => self.res(mem, 0, Operand::E),
            0x84 => self.res(mem, 0, Operand::H),
            0x85 => self.res(mem, 0, Operand::L),
            0x86 => self.res(mem, 0, Operand::AtHl),
            0x87 => self.res(mem, 0, Operand::A),
            0x88 => self.res(mem, 1, Operand::B),
            0x89 => self.res(mem, 1, Operand::C),
            0x8A => self.res(mem, 1, Operand::D),
            0x8B => self.res(mem, 1, Operand::E),
            0x8C => self.res(mem, 1, Operand::H),
            0x8D => self.res(mem, 1, Operand::L),
            0x8E => self.res(mem, 1, Operand::AtHl),
            0x8F => self.res(mem, 1, Operand::A),
            _ => {},
        }
    }

    /// Opcodes `0x90..=0x9F` of the bit-operations table.
    fn bit_row_9(&mut self, mem: &mut memory, byte: u8)
        requires
            0x90 <= byte <= 0x9F,
        ensures
            (Machine { cpu: *final(self), mem: final(mem)@ }) == bit_op(
                *old(self),
                old(mem)@,
                byte,
            ),
    {
        match byte {
            0x90 => self.res(mem, 2, Operand::B),
            0x91 => self.res(mem, 2, Operand::C),
            0x92 => self.res(mem, 2, Operand::D),
            0x93 => self.res(mem, 2, Operand::E),
            0x94 => self.res(mem, 2, Operand::H),
            0x95 => self.res(mem, 2, Operand::L),
            0x96 => self.res(mem, 2, Operand::AtHl),
            0x97 => self.res(mem, 2, Operand::A),
            0x98 => self.res(mem, 3, Operand::B),
            0x99 => self.res(mem, 3, Operand::C),
            0x9A => self.res(mem, 3, Operand::D),
            0x9B => self.res(mem, 3, Operand::E),
            0x9C => self.res(mem, 3, Operand::H),
            0x9D => self.res(mem, 3, Operand::L),
            0x9E => self.res(mem, 3, Operand::AtHl),
            0x9F => self.res(mem, 3, Operand::A),
            _ => {},
        }
    }

    /// Opcodes `0xA0..=0xAF` of the bit-operations table.
    fn bit_row_a(&mut self, mem: &mut memory, byte: u8)
        requires
            0xA0 <= byte <= 0xAF,
        ensures
            (Machine { cpu: *final(self), mem: final(mem)@ }) == bit_op(
                *old(self),
                old(mem)@,
                byte,
            ),
    {
        match byte {
            0xA0 => self.res(mem, 4, Operand::B),
            0xA1 => self.res(mem, 4, Operand::C),
            0xA2 => self.res(mem, 4, Operand::D),
            0xA3 => self.res(mem, 4, Operand::E),
            0xA4 => self.res(mem, 4, Operand::H),
            0xA5 => self.res(mem, 4, Operand::L),
            0xA6 => self.res(mem, 4, Operand::AtHl),
            0xA7 => self.res(mem, 4, Operand::A),
            0xA8 => self.res(mem, 5, Operand::B),
            0xA9 => self.res(mem, 5, Operand::C),
            0xAA => self.res(mem, 5, Operand::D),
            0xAB => self.res(mem, 5, Operand::E),
            0xAC => self.res(mem, 5, Operand::H),
            0xAD => self.res(mem, 5, Operand::L),
            0xAE => self.res(mem, 5, Operand::AtHl),
            0xAF => self.res(mem, 5, Operand::A),
            _ => {},
        }
    }

    /// Opcodes `0xB0..=0xBF` of the bit-operations table.
    fn bit_row_b(&mut self, mem: &mut memory, byte: u8)
        requires
            0xB0 <= byte <= 0xBF,
        ensures
            (Machine { cpu: *final(self), mem: final(mem)@ }) == bit_op(
                *old(self),
                old(mem)@,
                byte,
            ),
    {
        match byte {
            0xB0 => self.res(mem, 6, Operand::B),
            0xB1 => self.res(mem, 6, Operand::C),
            0xB2 => self.res(mem, 6, Operand::D),
            0xB3 => self.res(mem, 6, Operand::E),
            0xB4 => self.res(mem, 6, Operand::H),
            0xB5 => self.res(mem, 6, Operand::L),
            0xB6 => self.res(mem, 6, Operand::AtHl),
            0xB7 => self.res(mem, 6, Operand::A),
            0xB8 => self.res(mem, 7, Operand::B),
            0xB9 => self.res(mem, 7, Operand::C),
            0xBA => self.res(mem, 7, Operand::D),
            0xBB => self.res(mem, 7, Operand::E),
            0xBC => self.res(mem, 7, Operand::H),
            0xBD => self.res(mem, 7, Operand::L),
            0xBE => self.res(mem, 7, Operand::AtHl),
            0xBF => self.res(mem, 7, Operand::A),
            _ => {},
        }
    }

    /// Opcodes `0xC0..=0xCF` of the bit-operations table.
    fn bit_row_c(&mut self, mem: &mut memory, byte: u8)
        requires
            0xC0 <= byte <= 0xCF,
        ensures
            (Machine { cpu: *final(self), mem: final(mem)@ }) == bit_op(
                *old(self),
                old(mem)@,
                byte,
            ),
    {
        match byte {
            0xC0 => self.set(mem, 0, Operand::B),
            0xC1 => self.set(mem, 0, Operand::C),
            0xC2 => self.set(mem, 0, Operand::D),
            0xC3 => self.set(mem, 0, Operand::E),
            0xC4 => self.set(mem, 0, Operand::H),
            0xC5 => self.set(mem, 0, Operand::L),
            0xC6 => self.set(mem, 0, Operand::AtHl),
            0xC7 => self.set(mem, 0, Operand::A),
            0xC8 => self.set(mem, 1, Operand::B),
            0xC9 => self.set(mem, 1, Operand::C),
            0xCA => self.set(mem, 1, Operand::D),
            0xCB => self.set(mem, 1, Operand::E),
            0xCC => self.set(mem, 1, Operand::H),
            0xCD => self.set(mem, 1, Operand::L),
            0xCE => self.set(mem, 1, Operand::AtHl),
            0xCF => self.set(mem, 1, Operand::A),
            _ => {},
        }
    }

    /// Opcodes `0xD0..=0xDF` of the bit-operations table.
    fn bit_row_d(&mut self, mem: &mut memory, byte: u8)
        requires
            0xD0 <= byte <= 0xDF,
        ensures
            (Machine { cpu: *final(self), mem: final(mem)@ }) == bit_op(
                *old(self),
                old(mem)@,
                byte,
            ),
    {
        match byte {
            0xD0 => self.set(mem, 2, Operand::B),
            0xD1 => self.set(mem, 2, Operand::C),
            0xD2 => self.set(mem, 2, Operand::D),
            0xD3 => self.set(mem, 2, Operand::E),
            0xD4 => self.set(mem, 2, Operand::H),
            0xD5 => self.set(mem, 2, Operand::L),
            0xD6 => self.set(mem, 2, Operand::AtHl),
            0xD7 => self.set(mem, 2, Operand::A),
            0xD8 => self.set(mem, 3, Operand::B),
            0xD9 => self.set(mem, 3, Operand::C),
            0xDA => self.set(mem, 3, Operand::D),
            0xDB => self.set(mem, 3, Operand::E),
            0xDC => self.set(mem, 3, Operand::H),
            0xDD => self.set(mem, 3, Operand::L),
            0xDE => self.set(mem, 3, Operand::AtHl),
            0xDF => self.set(mem, 3, Operand::A),
            _ => {},
        }
    }

    /// Opcodes `0xE0..=0xEF` of the bit-operations table.
    fn bit_row_e(&mut self, mem: &mut memory, byte: u8)
        requires
            0xE0 <= byte <= 0xEF,
        ensures
            (Machine { cpu: *final(self), mem: final(mem)@ }) == bit_op(
                *old(self),
                old(mem)@,
                byte,
            ),
    {
        match byte {
            0xE0 => self.set(mem, 4, Operand::B),
            0xE1 => self.set(mem, 4, Operand::C),
            0xE2 => self.set(mem, 4, Operand::D),
            0xE3 => self.set(mem, 4, Operand::E),
            0xE4 => self.set(mem, 4, Operand::H),
            0xE5 => self.set(mem, 4, Operand::L),
            0xE6 => self.set(mem, 4, Operand::AtHl),
            0xE7 => self.set(mem, 4, Operand::A),
            0xE8 => self.set(mem, 5, Operand::B),
            0xE9 => self.set(mem, 5, Operand::C),
            0xEA => self.set(mem, 5, Operand::D),
            0xEB => self.set(mem, 5, Operand::E),
            0xEC => self.set(mem, 5, Operand::H),
            0xED => self.set(mem, 5, Operand::L),
            0xEE => self.set(mem, 5, Operand::AtHl),
            0xEF => self.set(mem, 5, Operand::A),
            _ => {},
        }
    }

    /// Opcodes `0xF0..=0xFF` of the bit-operations table.
    fn bit_row_f(&mut self, mem: &mut memory, byte: u8)
        requires
            byte >= 0xF0,
        ensures
            (Machine { cpu: *final(self), mem: final(mem)@ }) == bit_op(
                *old(self),
                old(mem)@,
                byte,
            ),
    {
        match byte {
            0xF0 => self.set(mem, 6, Operand::B),
            0xF1 => self.set(mem, 6, Operand::C),
            0xF2 => self.set(mem, 6, Operand::D),
            0xF3 => self.set(mem, 6, Operand::E),
            0xF4 => self.set(mem, 6, Operand::H),
            0xF5 => self.set(mem, 6, Operand::L),
            0xF6 => self.set(mem, 6, Operand::AtHl),
            0xF7 => self.set(mem, 6, Operand::A),
            0xF8 => self.set(mem, 7, Operand::B),
            0xF9 => self.set(mem, 7, Operand::C),
            0xFA => self.set(mem, 7, Operand::D),
            0xFB => self.set(mem, 7, Operand::E),
            0xFC => self.set(mem, 7, Operand::H),
            0xFD => self.set(mem, 7, Operand::L),
            0xFE => self.set(mem, 7, Operand::AtHl),
            0xFF => self.set(mem, 7, Operand::A),
            _ => {},
        }
    }
}

} // verus!
