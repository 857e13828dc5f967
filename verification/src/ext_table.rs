//! The extended table.

use crate::exec::{ext_handles, ext_op, lookup};
use crate::memory::memory;
use crate::z80::{Machine, Reg16, Z80};
use vstd::prelude::*;

verus! {

proof fn lemma_ext_table_set(byte: u8)
    by (bit_vector)
    requires
        ext_handles(byte),
    ensures
        byte == 0x42 || byte == 0x43 || byte == 0x44 || byte == 0x45 || byte == 0x47 ||
            byte == 0x4A || byte == 0x4B || byte == 0x4C || byte == 0x4F || byte == 0x52 ||
            byte == 0x53 || byte == 0x54 || byte == 0x55 || byte == 0x57 || byte == 0x5A ||
            byte == 0x5B || byte == 0x5C || byte == 0x5F || byte == 0x62 || byte == 0x63 ||
            byte == 0x64 || byte == 0x65 || byte == 0x67 || byte == 0x6A || byte == 0x6B ||
            byte == 0x6C || byte == 0x72 || byte == 0x73 || byte == 0x74 || byte == 0x75 ||
            byte == 0x7A || byte == 0x7B || byte == 0x7C || byte == 0xB8,
{
}

impl Z80 {
    /// The extended table: selects the handler of `byte` by exact match.
    pub fn ext_table(&mut self, mem: &mut memory, byte: u8)
        ensures
            (Machine { cpu: *final(self), mem: final(mem)@ }) == lookup(
                ext_handles(byte),
                ext_op(*old(self), old(mem)@, byte),
                *old(self),
                old(mem)@,
                byte,
            ),
    {
        match byte {
            0x40..=0x4F => self.ext_row_4(mem, byte),
            0x50..=0x5F => self.ext_row_5(mem, byte),
            0x60..=0x6F => self.ext_row_6(mem, byte),
            0x70..=0x7F => self.ext_row_7(mem, byte),
            0xB0..=0xBF => self.ext_row_b(mem, byte),
            _ => {
                proof {
                    if ext_handles(byte) {
                        lemma_ext_table_set(byte);
                    }
                }
                self.unimplemented(byte)
            },
        }
    }

    /// Opcodes `0x40..=0x4F` of the extended table.
    fn ext_row_4(&mut self, mem: &mut memory, byte: u8)
        requires
            0x40 <= byte <= 0x4F,
        ensures
            (Machine { cpu: *final(self), mem: final(mem)@ }) == lookup(
                ext_handles(byte),
                ext_op(*old(self), old(mem)@, byte),
                *old(self),
                old(mem)@,
                byte,
            ),
    {
        match byte {
            0x42 => self.sbc_hl(Reg16::BC),
            0x43 => self.ld_nn_dd(mem, Reg16::BC),
            0x44 => self.neg(),
            0x45 => self.retn(mem),
            0x47 => self.ld_i_a(),
            0x4A => self.adc_hl(Reg16::BC),
            0x4B => self.ld_dd_at_nn(mem, Reg16::BC),
            0x4C => self.neg(),
            0x4F => self.ld_r_a(),
            _ => self.unimplemented(byte),
        }
    }

    /// Opcodes `0x50..=0x5F` of the extended table.
    fn ext_row_5(&mut self, mem: &mut memory, byte: u8)
        requires
            0x50 <= byte <= 0x5F,
        ensures
            (Machine { cpu: *final(self), mem: final(mem)@ }) == lookup(
                ext_handles(byte),
                ext_op(*old(self), old(mem)@, byte),
                *old(self),
                old(mem)@,
                byte,
            ),
    {
        match byte {
            0x52 => self.sbc_hl(Reg16::DE),
            0x53 => self.ld_nn_dd(mem, Reg16::DE),
            0x54 => self.neg(),
            0x55 => self.retn(mem),
            0x57 => self.ld_a_i(),
            0x5A => self.adc_hl(Reg16::DE),
            0x5B => self.ld_dd_at_nn(mem, Reg16::DE),
            0x5C => self.neg(),
            0x5F => self.ld_a_r(),
            _ => self.unimplemented(byte),
        }
    }

    /// Opcodes `0x60..=0x6F` of the extended table.
    fn ext_row_6(&mut self, mem: &mut memory, byte: u8)
        requires
            0x60 <= byte <= 0x6F,
        ensures
            (Machine { cpu: *final(self), mem: final(mem)@ }) == lookup(
                ext_handles(byte),
                ext_op(*old(self), old(mem)@, byte),
                *old(self),
                old(mem)@,
                byte,
            ),
    {
        match byte {
            0x62 => self.sbc_hl(Reg16::HL),
            0x63 => self.ld_nn_dd(mem, Reg16::HL),
            0x64 => self.neg(),
            0x65 => self.retn(mem),
            0x67 => self.rrd(mem),
            0x6A => self.adc_hl(Reg16::HL),
            0x6B => self.ld_dd_at_nn(mem, Reg16::HL),
            0x6C => self.neg(),
            _ => self.unimplemented(byte),
        }
    }

    /// Opcodes `0x70..=0x7F` of the extended table.
    fn ext_row_7(&mut self, mem: &mut memory, byte: u8)
        requires
            0x70 <= byte <= 0x7F,
        ensures
            (Machine { cpu: *final(self), mem: final(mem)@ }) == lookup(
                ext_handles(byte),
                ext_op(*old(self), old(mem)@, byte),
                *old(self),
                old(mem)@,
                byte,
            ),
    {
        match byte {
            0x72 => self.sbc_hl(Reg16::SP),
            0x73 => self.ld_nn_dd(mem, Reg16::SP),
            0x74 => self.neg(),
            0x75 => self.retn(mem),
            0x7A => self.adc_hl(Reg16::SP),
            0x7B => self.ld_dd_at_nn(mem, Reg16::SP),
            0x7C => self.neg(),
            _ => self.unimplemented(byte),
        }
    }

    /// Opcodes `0xB0..=0xBF` of the extended table.
    fn ext_row_b(&mut self, mem: &mut memory, byte: u8)
        requires
            0xB0 <= byte <= 0xBF,
        ensures
            (Machine { cpu: *final(self), mem: final(mem)@ }) == lookup(
                ext_handles(byte),
                ext_op(*old(self), old(mem)@, byte),
                *old(self),
                old(mem)@,
                byte,
            ),
    {
        match byte {
            0xB8 => self.lddr(mem),
            _ => self.unimplemented(byte),
        }
    }
}

} // verus!
