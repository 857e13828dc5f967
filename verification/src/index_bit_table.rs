//! The table of the combined index and bit-operations states.

use crate::alu::RotOp;
use crate::exec::index_bit_op;
use crate::memory::memory;
use crate::z80::{Machine, Operand, Z80};
use vstd::prelude::*;

verus! {

impl Z80 {
    /// The table of the combined index and bit-operations states: selects
    /// the handler of `op_code` by exact match, for the byte `op` read at
    /// `addr`.
    pub fn index_bit_table(&mut self, mem: &mut memory, op_code: u8, addr: u16, op: u8)
        ensures
            (Machine { cpu: *final(self), mem: final(mem)@ }) == index_bit_op(
                *old(self),
                old(mem)@,
                op_code,
                addr,
                op,
            ),
    {
        match op_code {
            0x00..=0x0F => self.index_bit_row_0(mem, op_code, addr, op),
            0x10..=0x1F => self.index_bit_row_1(mem, op_code, addr, op),
            0x20..=0x2F => self.index_bit_row_2(mem, op_code, addr, op),
            0x30..=0x3F => self.index_bit_row_3(mem, op_code, addr, op),
            0x40..=0x7F => self.index_bit_test(mem, op_code, addr, op),
            0x80..=0xBF => self.index_bit_reset(mem, op_code, addr, op),
            _ => self.index_bit_set(mem, op_code, addr, op),
        }
    }

    /// Opcodes `0x00..=0x0F` of the combined states: rotates and shifts.
    fn index_bit_row_0(&mut self, mem: &mut memory, op_code: u8, addr: u16, op: u8)
        requires
            op_code <= 0x0F,
        ensures
            (Machine { cpu: *final(self), mem: final(mem)@ }) == index_bit_op(
                *old(self),
                old(mem)@,
                op_code,
                addr,
                op,
            ),
    {
        match op_code {
            0x00 => self.rot_ixy(mem, RotOp::Rlc, Operand::B, addr, op),
            0x01 => self.rot_ixy(mem, RotOp::Rlc, Operand::C, addr, op),
            0x02 => self.rot_ixy(mem, RotOp::Rlc, Operand::D, addr, op),
            0x03 => self.rot_ixy(mem, RotOp::Rlc, Operand::E, addr, op),
            0x04 => self.rot_ixy(mem, RotOp::Rlc, Operand::H, addr, op),
            0x05 => self.rot_ixy(mem, RotOp::Rlc, Operand::L, addr, op),
            0x06 => self.rot_ixy(mem, RotOp::Rlc, Operand::AtHl, addr, op),
            0x07 => self.rot_ixy(mem, RotOp::Rlc, Operand::A, addr, op),
            0x08 => self.rot_ixy(mem, RotOp::Rrc, Operand::B, addr, op),
            0x09 => self.rot_ixy(mem, RotOp::Rrc, Operand::C, addr, op),
            0x0A => self.rot_ixy(mem, RotOp::Rrc, Operand::D, addr, op),
            0x0B => self.rot_ixy(mem, RotOp::Rrc, Operand::E, addr, op),
            0x0C => self.rot_ixy(mem, RotOp::Rrc, Operand::H, addr, op),
            0x0D => self.rot_ixy(mem, RotOp::Rrc, Operand::L, addr, op),
            0x0E => self.rot_ixy(mem, RotOp::Rrc, Operand::AtHl, addr, op),
            0x0F => self.rot_ixy(mem, RotOp::Rrc, Operand::A, addr, op),
            _ => {},
        }
    }

    /// Opcodes `0x10..=0x1F` of the combined states: rotates and shifts.
    fn index_bit_row_1(&mut self, mem: &mut memory, op_code: u8, addr: u16, op: u8)
        requires
            0x10 <= op_code <= 0x1F,
        ensures
            (Machine { cpu: *final(self), mem: final(mem)@ }) == index_bit_op(
                *old(self),
                old(mem)@,
                op_code,
                addr,
                op,
            ),
    {
        match op_code {
            0x10 => self.rot_ixy(mem, RotOp::Rl, Operand::B, addr, op),
            0x11 => self.rot_ixy(mem, RotOp::Rl, Operand::C, addr, op),
            0x12 => self.rot_ixy(mem, RotOp::Rl, Operand::D, addr, op),
            0x13 => self.rot_ixy(mem, RotOp::Rl, Operand::E, addr, op),
            0x14 => self.rot_ixy(mem, RotOp::Rl, Operand::H, addr, op),
            0x15 => self.rot_ixy(mem, RotOp::Rl, Operand::L, addr, op),
            0x16 => self.rot_ixy(mem, RotOp::Rl, Operand::AtHl, addr, op),
            0x17 => self.rot_ixy(mem, RotOp::Rl, Operand::A, addr, op),
            0x18 => self.rot_ixy(mem, RotOp::Rr, Operand::B, addr, op),
            0x19 => self.rot_ixy(mem, RotOp::Rr, Operand::C, addr, op),
            0x1A => self.rot_ixy(mem, RotOp::Rr, Operand::D, addr, op),
            0x1B => self.rot_ixy(mem, RotOp::Rr, Operand::E, addr, op),
            0x1C => self.rot_ixy(mem, RotOp::Rr, Operand::H, addr, op),
            0x1D => self.rot_ixy(mem, RotOp::Rr, Operand::L, addr, op),
            0x1E => self.rot_ixy(mem, RotOp::Rr, Operand::AtHl, addr, op),
            0x1F => self.rot_ixy(mem, RotOp::Rr, Operand::A, addr, op),
            _ => {},
        }
    }

    /// Opcodes `0x20..=0x2F` of the combined states: rotates and shifts.
    fn index_bit_row_2(&mut self, mem: &mut memory, op_code: u8, addr: u16, op: u8)
        requires
            0x20 <= op_code <= 0x2F,
        ensures
            (Machine { cpu: *final(self), mem: final(mem)@ }) == index_bit_op(
                *old(self),
                old(mem)@,
                op_code,
                addr,
                op,
            ),
    {
        match op_code {
            0x20 => self.rot_ixy(mem, RotOp::Sla, Operand::B, addr, op),
            0x21 => self.rot_ixy(mem, RotOp::Sla, Operand::C, addr, op),
            0x22 => self.rot_ixy(mem, RotOp::Sla, Operand::D, addr, op),
            0x23 => self.rot_ixy(mem, RotOp::Sla, Operand::E, addr, op),
            0x24 => self.rot_ixy(mem, RotOp::Sla, Operand::H, addr, op),
            0x25 => self.rot_ixy(mem, RotOp::Sla, Operand::L, addr, op),
            0x26 => self.rot_ixy(mem, RotOp::Sla, Operand::AtHl, addr, op),
            0x27 => self.rot_ixy(mem, RotOp::Sla, Operand::A, addr, op),
            0x28 => self.rot_ixy(mem, RotOp::Sra, Operand::B, addr, op),
            0x29 => self.rot_ixy(mem, RotOp::Sra, Operand::C, addr, op),
            0x2A => self.rot_ixy(mem, RotOp::Sra, Operand::D, addr, op),
            0x2B => self.rot_ixy(mem, RotOp::Sra, Operand::E, addr, op),
            0x2C => self.rot_ixy(mem, RotOp::Sra, Operand::H, addr, op),
            0x2D => self.rot_ixy(mem, RotOp::Sra, Operand::L, addr, op),
            0x2E => self.rot_ixy(mem, RotOp::Sra, Operand::AtHl, addr, op),
            0x2F => self.rot_ixy(mem, RotOp::Sra, Operand::A, addr, op),
            _ => {},
        }
    }

    /// Opcodes `0x30..=0x3F` of the combined states: rotates and shifts.
    fn index_bit_row_3(&mut self, mem: &mut memory, op_code: u8, addr: u16, op: u8)
        requires
            0x30 <= op_code <= 0x3F,
        ensures
            (Machine { cpu: *final(self), mem: final(mem)@ }) == index_bit_op(
                *old(self),
                old(mem)@,
                op_code,
                addr,
                op,
            ),
    {
        match op_code {
            0x30 => self.rot_ixy(mem, RotOp::Sll, Operand::B, addr, op),
            0x31 => self.rot_ixy(mem, RotOp::Sll, Operand::C, addr, op),
            0x32 => self.rot_ixy(mem, RotOp::Sll, Operand::D, addr, op),
            0x33 => self.rot_ixy(mem, RotOp::Sll, Operand::E, addr, op),
            0x34 => self.rot_ixy(mem, RotOp::Sll, Operand::H, addr, op),
            0x35 => self.rot_ixy(mem, RotOp::Sll, Operand::L, addr, op),
            0x36 => self.rot_ixy(mem, RotOp::Sll, Operand::AtHl, addr, op),
            0x37 => self.rot_ixy(mem, RotOp::Sll, Operand::A, addr, op),
            0x38 => self.rot_ixy(mem, RotOp::Srl, Operand::B, addr, op),
            0x39 => self.rot_ixy(mem, RotOp::Srl, Operand::C, addr, op),
            0x3A => self.rot_ixy(mem, RotOp::Srl, Operand::D, addr, op),
            0x3B => self.rot_ixy(mem, RotOp::Srl, Operand::E, addr, op),
            0x3C => self.rot_ixy(mem, RotOp::Srl, Operand::H, addr, op),
            0x3D => self.rot_ixy(mem, RotOp::Srl, Operand::L, addr, op),
            0x3E => self.rot_ixy(mem, RotOp::Srl, Operand::AtHl, addr, op),
            0x3F => self.rot_ixy(mem, RotOp::Srl, Operand::A, addr, op),
            _ => {},
        }
    }

    /// Opcodes `0x40..=0x7F` of the combined states: bit tests.
    fn index_bit_test(&mut self, mem: &mut memory, op_code: u8, addr: u16, op: u8)
        requires
            0x40 <= op_code <= 0x7F,
        ensures
            (Machine { cpu: *final(self), mem: final(mem)@ }) == index_bit_op(
                *old(self),
                old(mem)@,
                op_code,
                addr,
                op,
            ),
    {
        match op_code {
            0x40 | 0x41 | 0x42 | 0x43 | 0x44 | 0x45 | 0x46 | 0x47 => self.bit_ixy(0, op),
            0x48 | 0x49 | 0x4A | 0x4B | 0x4C | 0x4D | 0x4E | 0x4F => self.bit_ixy(1, op),
            0x50 | 0x51 | 0x52 | 0x53 | 0x54 | 0x55 | 0x56 | 0x57 => self.bit_ixy(2, op),
            0x58 | 0x59 | 0x5A | 0x5B | 0x5C | 0x5D | 0x5E | 0x5F => self.bit_ixy(3, op),
            0x60 | 0x61 | 0x62 | 0x63 | 0x64 | 0x65 | 0x66 | 0x67 => self.bit_ixy(4, op),
            0x68 | 0x69 | 0x6A | 0x6B | 0x6C | 0x6D | 0x6E | 0x6F => self.bit_ixy(5, op),
            0x70 | 0x71 | 0x72 | 0x73 | 0x74 | 0x75 | 0x76 | 0x77 => self.bit_ixy(6, op),
            0x78 | 0x79 | 0x7A | 0x7B | 0x7C | 0x7D | 0x7E | 0x7F => self.bit_ixy(7, op),
            _ => {},
        }
    }

    /// Opcodes `0x80..=0xBF` of the combined states: bit resets.
    fn index_bit_reset(&mut self, mem: &mut memory, op_code: u8, addr: u16, op: u8)
        requires
            0x80 <= op_code <= 0xBF,
        ensures
            (Machine { cpu: *final(self), mem: final(mem)@ }) == index_bit_op(
                *old(self),
                old(mem)@,
                op_code,
                addr,
                op,
            ),
    {
        match op_code {
            0x80 | 0x81 | 0x82 | 0x83 | 0x84 | 0x85 | 0x86 | 0x87 => self.res_ixy(mem, 0, addr, op),
            0x88 | 0x89 | 0x8A | 0x8B | 0x8C | 0x8D | 0x8E | 0x8F => self.res_ixy(mem, 1, addr, op),
            0x90 | 0x91 | 0x92 | 0x93 | 0x94 | 0x95 | 0x96 | 0x97 => self.res_ixy(mem, 2, addr, op),
            0x98 | 0x99 | 0x9A | 0x9B | 0x9C | 0x9D | 0x9E | 0x9F => self.res_ixy(mem, 3, addr, op),
            0xA0 | 0xA1 | 0xA2 | 0xA3 | 0xA4 | 0xA5 | 0xA6 | 0xA7 => self.res_ixy(mem, 4, addr, op),
            0xA8 | 0xA9 | 0xAA | 0xAB | 0xAC | 0xAD | 0xAE | 0xAF => self.res_ixy(mem, 5, addr, op),
            0xB0 | 0xB1 | 0xB2 | 0xB3 | 0xB4 | 0xB5 | 0xB6 | 0xB7 => self.res_ixy(mem, 6, addr, op),
            0xB8 | 0xB9 | 0xBA | 0xBB | 0xBC | 0xBD | 0xBE | 0xBF => self.res_ixy(mem, 7, addr, op),
            _ => {},
        }
    }

    /// Opcodes `0xC0..=0xFF` of the combined states: bit sets.
    fn index_bit_set(&mut self, mem: &mut memory, op_code: u8, addr: u16, op: u8)
        requires
            op_code >= 0xC0,
        ensures
            (Machine { cpu: *final(self), mem: final(mem)@ }) == index_bit_op(
                *old(self),
                old(mem)@,
                op_code,
                addr,
                op,
            ),
    {
        match op_code {
            0xC0 | 0xC1 | 0xC2 | 0xC3 | 0xC4 | 0xC5 | 0xC6 | 0xC7 => self.set_ixy(mem, 0, addr, op),
            0xC8 | 0xC9 | 0xCA | 0xCB | 0xCC | 0xCD | 0xCE | 0xCF => self.set_ixy(mem, 1, addr, op),
            0xD0 | 0xD1 | 0xD2 | 0xD3 | 0xD4 | 0xD5 | 0xD6 | 0xD7 => self.set_ixy(mem, 2, addr, op),
            0xD8 | 0xD9 | 0xDA | 0xDB | 0xDC | 0xDD | 0xDE | 0xDF => self.set_ixy(mem, 3, addr, op),
            0xE0 | 0xE1 | 0xE2 | 0xE3 | 0xE4 | 0xE5 | 0xE6 | 0xE7 => self.set_ixy(mem, 4, addr, op),
            0xE8 | 0xE9 | 0xEA | 0xEB | 0xEC | 0xED | 0xEE | 0xEF => self.set_ixy(mem, 5, addr, op),
            0xF0 | 0xF1 | 0xF2 | 0xF3 | 0xF4 | 0xF5 | 0xF6 | 0xF7 => self.set_ixy(mem, 6, addr, op),
            0xF8 | 0xF9 | 0xFA | 0xFB | 0xFC | 0xFD | 0xFE | 0xFF => self.set_ixy(mem, 7, addr, op),
            _ => {},
        }
    }
}

} // verus!
