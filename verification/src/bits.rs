//! Rotate, shift and bit handlers of the bit-operations tables, and the
//! block transfer.

use crate::alu::{bit8, res8, rot8, set8, RotOp};
use crate::flags::{lemma_pack_flags_of, Flags, H, N, P_V};
use crate::memory::memory;
use crate::z80::{Machine, Operand, Reg16, Z80};
use vstd::prelude::*;

verus! {

impl Z80 {
    /// A rotate or shift of an 8-bit operand.
    #[verifier::opaque]
    pub open spec fn after_rot(self, mem: Seq<u8>, op: RotOp, operand: Operand) -> Machine {
        let r = self.resolve(mem, operand);
        let out = rot8(op, r.value, r.cpu.flags());
        r.cpu.with_flags(out.flags).store(mem, operand, r.addr, out.value)
    }

    /// `BIT n,operand`.
    #[verifier::opaque]
    pub open spec fn after_bit(self, mem: Seq<u8>, n: u8, operand: Operand) -> Z80 {
        let r = self.resolve(mem, operand);
        r.cpu.with_flags(bit8(n, r.value, r.cpu.flags()))
    }

    /// `RES n,operand`: no flag changes.
    #[verifier::opaque]
    pub open spec fn after_res(self, mem: Seq<u8>, n: u8, operand: Operand) -> Machine {
        let r = self.resolve(mem, operand);
        r.cpu.store(mem, operand, r.addr, res8(n, r.value))
    }

    /// `SET n,operand`: no flag changes.
    #[verifier::opaque]
    pub open spec fn after_set(self, mem: Seq<u8>, n: u8, operand: Operand) -> Machine {
        let r = self.resolve(mem, operand);
        r.cpu.store(mem, operand, r.addr, set8(n, r.value))
    }

    /// A rotate or shift of the byte `v` read at `addr`, in a combined
    /// index and bit-operations state: the result goes back to `addr` where
    /// the opcode names `(HL)`, and to the named register, not to memory,
    /// where it names one.
    #[verifier::opaque]
    pub open spec fn after_rot_ixy(
        self,
        mem: Seq<u8>,
        op: RotOp,
        target: Operand,
        addr: u16,
        v: u8,
    ) -> Machine {
        let out = rot8(op, v, self.flags());
        self.with_flags(out.flags).store(mem, target, addr, out.value)
    }

    /// `LDDR`, one element: the byte at `HL` goes to `DE`; `HL`, `DE` and
    /// `BC` go down by one; while `BC` is not zero the program counter goes
    /// back to the start of the two-byte opcode. Half-carry and
    /// Add/Subtract are cleared, Parity/Overflow says whether `BC` is not
    /// yet zero.
    #[verifier::opaque]
    pub open spec fn after_lddr(self, mem: Seq<u8>) -> Machine {
        let hl = self.pair(Reg16::HL);
        let de = self.pair(Reg16::DE);
        let counter = self.pair(Reg16::BC).wrapping_sub(1);
        let moved = self.with_pair(Reg16::HL, hl.wrapping_sub(1)).with_pair(
            Reg16::DE,
            de.wrapping_sub(1),
        ).with_pair(Reg16::BC, counter);
        let flagged = moved.with_flags(
            Flags {
                half_carry: false,
                parity_overflow: counter != 0,
                subtract: false,
                ..self.flags()
            },
        );
        Machine {
            cpu: if counter != 0 {
                Z80 { pc: self.pc.wrapping_sub(2), ..flagged }
            } else {
                flagged
            },
            mem: mem.update(de as int, mem[hl as int]),
        }
    }

    /// The rotate or shift `op` of an 8-bit operand.
    pub fn rot(&mut self, mem: &mut memory, op: RotOp, operand: Operand)
        ensures
            (Machine { cpu: *final(self), mem: final(mem)@ }) == old(self).after_rot(
                old(mem)@,
                op,
                operand,
            ),
    {
        reveal(Z80::after_rot);
        let (value, addr) = self.load_operand(mem, operand);
        let result = self.rot_r(op, value);
        self.store_operand(mem, operand, addr, result);
    }

    /// `BIT n,operand`.
    pub fn bit(&mut self, mem: &memory, n: u8, operand: Operand)
        requires
            n < 8,
        ensures
            *final(self) == old(self).after_bit(mem@, n, operand),
    {
        reveal(Z80::after_bit);
        let (value, _) = self.load_operand(mem, operand);
        self.bit_n_r(n, value);
    }

    /// `RES n,operand`.
    pub fn res(&mut self, mem: &mut memory, n: u8, operand: Operand)
        requires
            n < 8,
        ensures
            (Machine { cpu: *final(self), mem: final(mem)@ }) == old(self).after_res(
                old(mem)@,
                n,
                operand,
            ),
    {
        reveal(Z80::after_res);
        let (value, addr) = self.load_operand(mem, operand);
        self.store_operand(mem, operand, addr, Z80::res_n_r(n, value));
    }

    /// `SET n,operand`.
    pub fn set(&mut self, mem: &mut memory, n: u8, operand: Operand)
        requires
            n < 8,
        ensures
            (Machine { cpu: *final(self), mem: final(mem)@ }) == old(self).after_set(
                old(mem)@,
                n,
                operand,
            ),
    {
        reveal(Z80::after_set);
        let (value, addr) = self.load_operand(mem, operand);
        self.store_operand(mem, operand, addr, Z80::set_n_r(n, value));
    }

    /// The rotate or shift `op` of the byte `v` read at `addr`, in a
    /// combined index and bit-operations state.
    pub fn rot_ixy(&mut self, mem: &mut memory, op: RotOp, target: Operand, addr: u16, v: u8)
        ensures
            (Machine { cpu: *final(self), mem: final(mem)@ }) == old(self).after_rot_ixy(
                old(mem)@,
                op,
                target,
                addr,
                v,
            ),
    {
        reveal(Z80::after_rot_ixy);
        let result = self.rot_r(op, v);
        self.store_operand(mem, target, addr, result);
    }

    /// `BIT n,(index+d)`, on the byte `v` read there.
    pub fn bit_ixy(&mut self, n: u8, v: u8)
        requires
            n < 8,
        ensures
            *final(self) == old(self).with_flags(bit8(n, v, old(self).flags())),
    {
        self.bit_n_r(n, v);
    }

    /// `RES n,(index+d)`, on the byte `v` read at `addr`.
    pub fn res_ixy(&mut self, mem: &mut memory, n: u8, addr: u16, v: u8)
        requires
            n < 8,
        ensures
            *final(self) == *old(self),
            final(mem)@ == old(mem)@.update(addr as int, res8(n, v)),
    {
        mem.poke(addr, Z80::res_n_r(n, v));
    }

    /// `SET n,(index+d)`, on the byte `v` read at `addr`.
    pub fn set_ixy(&mut self, mem: &mut memory, n: u8, addr: u16, v: u8)
        requires
            n < 8,
        ensures
            *final(self) == *old(self),
            final(mem)@ == old(mem)@.update(addr as int, set8(n, v)),
    {
        mem.poke(addr, Z80::set_n_r(n, v));
    }

    /// `LDDR`, one element.
    pub fn lddr(&mut self, mem: &mut memory)
        ensures
            (Machine { cpu: *final(self), mem: final(mem)@ }) == old(self).after_lddr(old(mem)@),
    {
        reveal(Z80::after_lddr);
        let source_addr = self.get_pair(Reg16::HL);
        let dest_addr = self.get_pair(Reg16::DE);
        let counter = self.get_pair(Reg16::BC).wrapping_sub(1);
        let val = mem.peek(source_addr);
        mem.poke(dest_addr, val);
        self.set_pair(Reg16::HL, source_addr.wrapping_sub(1));
        self.set_pair(Reg16::DE, dest_addr.wrapping_sub(1));
        self.set_pair(Reg16::BC, counter);
        self.reset_flag(H);
        self.set_reset_flag(counter != 0, P_V);
        self.reset_flag(N);
        proof {
            lemma_pack_flags_of(self.f);
        }
        if counter != 0 {
            self.pc = self.pc.wrapping_sub(2);
        }
    }
}

} // verus!
