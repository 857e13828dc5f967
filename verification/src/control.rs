//! Control transfer: jumps, calls, returns and restarts, with the processor
//! control instructions.

use crate::flags::{C, P_V, S, Z};
use crate::memory::memory;
use crate::z80::{displace, word_at, Machine, Z80};
use vstd::prelude::*;

verus! {

/// The eight conditions that gate a jump, call or return, in encoding order.
#[derive(Clone, Copy, Debug, PartialEq, Eq)]
pub enum Cond {
    /// Zero clear.
    NZ,
    /// Zero set.
    Z,
    /// Carry clear.
    NC,
    /// Carry set.
    C,
    /// Parity/Overflow clear.
    PO,
    /// Parity/Overflow set.
    PE,
    /// Sign clear.
    P,
    /// Sign set.
    M,
}

impl Z80 {
    /// Whether the flags meet the condition `cc`.
    pub open spec fn cond(self, cc: Cond) -> bool {
        match cc {
            Cond::NZ => !self.flags().zero,
            Cond::Z => self.flags().zero,
            Cond::NC => !self.flags().carry,
            Cond::C => self.flags().carry,
            Cond::PO => !self.flags().parity_overflow,
            Cond::PE => self.flags().parity_overflow,
            Cond::P => !self.flags().sign,
            Cond::M => self.flags().sign,
        }
    }

    /// A relative jump: where it is taken the program counter ends at the
    /// address after the displacement byte plus the signed displacement,
    /// else at the address after the displacement byte.
    #[verifier::opaque]
    pub open spec fn after_jr(self, mem: Seq<u8>, taken: bool) -> Z80 {
        let next = self.advance(1);
        if taken {
            Z80 { pc: displace(next.pc, self.imm8(mem)), ..next }
        } else {
            next
        }
    }

    /// `DJNZ e`: `B` goes down by one, and the jump is taken while `B` is
    /// not zero.
    #[verifier::opaque]
    pub open spec fn after_djnz(self, mem: Seq<u8>) -> Z80 {
        let b = self.b.wrapping_sub(1);
        Z80 { b, ..self }.after_jr(mem, b != 0)
    }

    /// An absolute jump: where it is taken the program counter ends at the
    /// immediate target, else at the address after the target.
    #[verifier::opaque]
    pub open spec fn after_jp(self, mem: Seq<u8>, taken: bool) -> Z80 {
        if taken {
            Z80 { pc: self.imm16(mem), ..self }
        } else {
            self.advance(2)
        }
    }

    /// `JP (HL)`: the program counter takes the pair itself.
    #[verifier::opaque]
    pub open spec fn after_jp_at_hl(self) -> Z80 {
        Z80 { pc: self.pair_hl(), ..self }
    }

    /// A call: where it is taken the address after the target is pushed and
    /// the program counter ends at the target.
    #[verifier::opaque]
    pub open spec fn after_call(self, mem: Seq<u8>, taken: bool) -> Machine {
        let next = self.advance(2);
        if taken {
            Z80 { pc: self.imm16(mem), ..next }.after_push_word(mem, next.pc)
        } else {
            Machine { cpu: next, mem }
        }
    }

    /// A return: where it is taken the program counter is popped.
    #[verifier::opaque]
    pub open spec fn after_ret(self, mem: Seq<u8>, taken: bool) -> Z80 {
        if taken {
            Z80 { pc: word_at(mem, self.sp), sp: self.sp.wrapping_add(2), ..self }
        } else {
            self
        }
    }

    /// A restart: the program counter is pushed and ends at `vector`.
    #[verifier::opaque]
    pub open spec fn after_rst(self, mem: Seq<u8>, vector: u16) -> Machine {
        Z80 { pc: vector, ..self }.after_push_word(mem, self.pc)
    }

    /// `HALT`.
    #[verifier::opaque]
    pub open spec fn after_halt(self) -> Z80 {
        Z80 { halted: true, ..self }
    }

    /// `DI` and `EI`: both interrupt latches take `enabled`.
    #[verifier::opaque]
    pub open spec fn after_interrupts(self, enabled: bool) -> Z80 {
        Z80 { iff1: enabled, iff2: enabled, ..self }
    }

    /// `OUT (n),A`: the port number is consumed; no port is modelled.
    #[verifier::opaque]
    pub open spec fn after_out_n_a(self) -> Z80 {
        self.advance(1)
    }

    /// Whether the flags meet the condition `cc`.
    pub fn test_cond(&self, cc: Cond) -> (res: bool)
        ensures
            res == self.cond(cc),
    {
        match cc {
            Cond::NZ => !Z80::check_flag(self.f, Z),
            Cond::Z => Z80::check_flag(self.f, Z),
            Cond::NC => !Z80::check_flag(self.f, C),
            Cond::C => Z80::check_flag(self.f, C),
            Cond::PO => !Z80::check_flag(self.f, P_V),
            Cond::PE => Z80::check_flag(self.f, P_V),
            Cond::P => !Z80::check_flag(self.f, S),
            Cond::M => Z80::check_flag(self.f, S),
        }
    }

    /// `NOP`.
    pub fn nop(&mut self)
        ensures
            *final(self) == *old(self),
    {
    }

    /// `DI`.
    pub fn di(&mut self)
        ensures
            *final(self) == old(self).after_interrupts(false),
    {
        reveal(Z80::after_interrupts);
        self.iff1 = false;
        self.iff2 = false;
    }

    /// `EI`.
    pub fn ei(&mut self)
        ensures
            *final(self) == old(self).after_interrupts(true),
    {
        reveal(Z80::after_interrupts);
        self.iff1 = true;
        self.iff2 = true;
    }

    /// `HALT`.
    pub fn halt(&mut self)
        ensures
            *final(self) == old(self).after_halt(),
    {
        reveal(Z80::after_halt);
        self.halted = true;
    }

    /// `OUT (n),A`.
    pub fn out_n_a(&mut self, mem: &memory)
        ensures
            *final(self) == old(self).after_out_n_a(),
    {
        reveal(Z80::after_out_n_a);
        let _ = self.read_bus(mem);
    }

    /// A relative jump, taken where `cond` holds.
    pub fn jr_cc_e(&mut self, mem: &memory, cond: bool)
        ensures
            *final(self) == old(self).after_jr(mem@, cond),
    {
        reveal(Z80::after_jr);
        let e = self.read_bus(mem);
        if cond {
            self.pc = Z80::add_displacement(self.pc, e);
        }
    }

    /// `JR e`.
    pub fn jr_e(&mut self, mem: &memory)
        ensures
            *final(self) == old(self).after_jr(mem@, true),
    {
        self.jr_cc_e(mem, true);
    }

    /// `JR cc,e`.
    pub fn jr_if(&mut self, mem: &memory, cc: Cond)
        ensures
            *final(self) == old(self).after_jr(mem@, old(self).cond(cc)),
    {
        let cond = self.test_cond(cc);
        self.jr_cc_e(mem, cond);
    }

    /// `DJNZ e`.
    pub fn djnz_e(&mut self, mem: &memory)
        ensures
            *final(self) == old(self).after_djnz(mem@),
    {
        reveal(Z80::after_djnz);
        self.b = self.b.wrapping_sub(1);
        let cond = self.b != 0;
        self.jr_cc_e(mem, cond);
    }

    /// An absolute jump, taken where `cond` holds.
    pub fn jp_cc(&mut self, cond: bool, mem: &memory)
        ensures
            *final(self) == old(self).after_jp(mem@, cond),
    {
        reveal(Z80::after_jp);
        let target = self.read_bus_word(mem);
        if cond {
            self.pc = target;
        }
    }

    /// `JP nn`.
    pub fn jp_nn(&mut self, mem: &memory)
        ensures
            *final(self) == old(self).after_jp(mem@, true),
    {
        self.jp_cc(true, mem);
    }

    /// `JP cc,nn`.
    pub fn jp_if(&mut self, mem: &memory, cc: Cond)
        ensures
            *final(self) == old(self).after_jp(mem@, old(self).cond(cc)),
    {
        let cond = self.test_cond(cc);
        self.jp_cc(cond, mem);
    }

    /// `JP (HL)`.
    pub fn jp_at_hl(&mut self)
        ensures
            *final(self) == old(self).after_jp_at_hl(),
    {
        reveal(Z80::after_jp_at_hl);
        self.pc = self.get_hl();
    }

    /// A call, taken where `cond` holds.
    pub fn call_cc_nn(&mut self, cond: bool, mem: &mut memory)
        ensures
            (Machine { cpu: *final(self), mem: final(mem)@ }) == old(self).after_call(
                old(mem)@,
                cond,
            ),
    {
        reveal(Z80::after_call);
        reveal(Z80::after_push_word);
        let target = self.read_bus_word(mem);
        if cond {
            let bytes = Z80::get_bytes(self.pc);
            self.push_qq(mem, bytes.0, bytes.1);
            self.pc = target;
        }
    }

    /// `CALL nn`.
    pub fn call_nn(&mut self, mem: &mut memory)
        ensures
            (Machine { cpu: *final(self), mem: final(mem)@ }) == old(self).after_call(
                old(mem)@,
                true,
            ),
    {
        self.call_cc_nn(true, mem);
    }

    /// `CALL cc,nn`.
    pub fn call_if(&mut self, mem: &mut memory, cc: Cond)
        ensures
            (Machine { cpu: *final(self), mem: final(mem)@ }) == old(self).after_call(
                old(mem)@,
                old(self).cond(cc),
            ),
    {
        let cond = self.test_cond(cc);
        self.call_cc_nn(cond, mem);
    }

    /// `RET`.
    pub fn ret(&mut self, mem: &memory)
        ensures
            *final(self) == old(self).after_ret(mem@, true),
    {
        reveal(Z80::after_ret);
        let (hi, lo) = self.pop_word(mem);
        self.pc = Z80::get_word(hi, lo);
    }

    /// A return, taken where `cond` holds.
    pub fn ret_cc(&mut self, mem: &memory, cond: bool)
        ensures
            *final(self) == old(self).after_ret(mem@, cond),
    {
        reveal(Z80::after_ret);
        if cond {
            self.ret(mem);
        }
    }

    /// `RET cc`.
    pub fn ret_if(&mut self, mem: &memory, cc: Cond)
        ensures
            *final(self) == old(self).after_ret(mem@, old(self).cond(cc)),
    {
        let cond = self.test_cond(cc);
        self.ret_cc(mem, cond);
    }

    /// `RETN`.
    pub fn retn(&mut self, mem: &memory)
        ensures
            *final(self) == old(self).after_ret(mem@, true),
    {
        self.ret(mem);
    }

    /// `RST`: pushes the program counter and continues at `new_pc`.
    pub fn rst_n(&mut self, mem: &mut memory, new_pc: u16)
        ensures
            (Machine { cpu: *final(self), mem: final(mem)@ }) == old(self).after_rst(
                old(mem)@,
                new_pc,
            ),
    {
        reveal(Z80::after_rst);
        reveal(Z80::after_push_word);
        let bytes = Z80::get_bytes(self.pc);
        self.push_qq(mem, bytes.0, bytes.1);
        self.pc = new_pc;
    }
}

} // verus!
