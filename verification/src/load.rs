//! Load, exchange and stack handlers.

use crate::alu::result_flags;
use crate::flags::{lemma_pack_flags_of, H, N, P_V};
use crate::memory::memory;
use crate::z80::{
    high_byte, low_byte, store_word, word, word_at, Machine, Operand, Reg16, StackPair, Z80,
};
use vstd::prelude::*;

verus! {

impl Z80 {
    /// `LD dst,src` on 8-bit operands.
    #[verifier::opaque]
    pub open spec fn after_ld(self, mem: Seq<u8>, dst: Operand, src: Operand) -> Machine {
        let s = self.resolve(mem, src);
        let d = s.cpu.resolve(mem, dst);
        d.cpu.store(mem, dst, d.addr, s.value)
    }

    /// `LD dst,n`: any displacement byte comes before the immediate byte.
    #[verifier::opaque]
    pub open spec fn after_ld_n(self, mem: Seq<u8>, dst: Operand) -> Machine {
        let d = self.resolve(mem, dst);
        d.cpu.advance(1).store(mem, dst, d.addr, d.cpu.imm8(mem))
    }

    /// `LD rp,nn`.
    #[verifier::opaque]
    pub open spec fn after_ld_dd_nn(self, mem: Seq<u8>, rp: Reg16) -> Z80 {
        self.advance(2).with_pair(rp, self.imm16(mem))
    }

    /// `LD (rp),A`.
    #[verifier::opaque]
    pub open spec fn after_ld_at_rp_a(self, mem: Seq<u8>, rp: Reg16) -> Machine {
        Machine { cpu: self, mem: mem.update(self.pair(rp) as int, self.a) }
    }

    /// `LD A,(rp)`.
    #[verifier::opaque]
    pub open spec fn after_ld_a_at_rp(self, mem: Seq<u8>, rp: Reg16) -> Z80 {
        Z80 { a: mem[self.pair(rp) as int], ..self }
    }

    /// `LD A,(nn)`.
    #[verifier::opaque]
    pub open spec fn after_ld_a_at_nn(self, mem: Seq<u8>) -> Z80 {
        Z80 { a: mem[self.imm16(mem) as int], ..self.advance(2) }
    }

    /// `LD (nn),A`.
    #[verifier::opaque]
    pub open spec fn after_ld_at_nn_a(self, mem: Seq<u8>) -> Machine {
        Machine { cpu: self.advance(2), mem: mem.update(self.imm16(mem) as int, self.a) }
    }

    /// `LD (nn),rp`: low byte at `nn`, high byte at `nn + 1`.
    #[verifier::opaque]
    pub open spec fn after_ld_nn_dd(self, mem: Seq<u8>, rp: Reg16) -> Machine {
        Machine { cpu: self.advance(2), mem: store_word(mem, self.imm16(mem), self.pair(rp)) }
    }

    /// `LD rp,(nn)`: low byte from `nn`, high byte from `nn + 1`.
    #[verifier::opaque]
    pub open spec fn after_ld_dd_at_nn(self, mem: Seq<u8>, rp: Reg16) -> Z80 {
        self.advance(2).with_pair(rp, word_at(mem, self.imm16(mem)))
    }

    /// `LD SP,HL`.
    #[verifier::opaque]
    pub open spec fn after_ld_sp_hl(self) -> Z80 {
        Z80 { sp: self.pair_hl(), ..self }
    }

    /// `LD I,A`.
    #[verifier::opaque]
    pub open spec fn after_ld_i_a(self) -> Z80 {
        Z80 { i: self.a, ..self }
    }

    /// `LD R,A`.
    #[verifier::opaque]
    pub open spec fn after_ld_r_a(self) -> Z80 {
        Z80 { r: self.a, ..self }
    }

    /// `LD A,v` for `v` the interrupt vector or refresh register:
    /// Parity/Overflow takes the second interrupt latch, Carry is kept.
    #[verifier::opaque]
    pub open spec fn after_ld_a_ir(self, v: u8) -> Z80 {
        Z80 { a: v, ..self }.with_flags(
            result_flags(v, false, self.iff2, false, self.flags().carry),
        )
    }

    /// `EX AF,AF'`.
    #[verifier::opaque]
    pub open spec fn after_ex_af_af_alt(self) -> Z80 {
        Z80 { a: self.a_alt, f: self.f_alt, a_alt: self.a, f_alt: self.f, ..self }
    }

    /// `EX DE,HL`.
    #[verifier::opaque]
    pub open spec fn after_ex_de_hl(self) -> Z80 {
        Z80 { d: self.high(), e: self.low(), ..self }.with_high(self.d).with_low(self.e)
    }

    /// `EXX`.
    #[verifier::opaque]
    pub open spec fn after_exx(self) -> Z80 {
        Z80 {
            b: self.b_alt,
            c: self.c_alt,
            d: self.d_alt,
            e: self.e_alt,
            h: self.h_alt,
            l: self.l_alt,
            b_alt: self.b,
            c_alt: self.c,
            d_alt: self.d,
            e_alt: self.e,
            h_alt: self.h,
            l_alt: self.l,
            ..self
        }
    }

    /// `EX (SP),HL`.
    #[verifier::opaque]
    pub open spec fn after_ex_at_sp_hl(self, mem: Seq<u8>) -> Machine {
        Machine {
            cpu: self.with_pair_hl(word_at(mem, self.sp)),
            mem: store_word(mem, self.sp, self.pair_hl()),
        }
    }

    /// Pushing `w`: `SP` goes down by two and then points at the low byte,
    /// with the high byte above it.
    #[verifier::opaque]
    pub open spec fn after_push_word(self, mem: Seq<u8>, w: u16) -> Machine {
        let sp = self.sp.wrapping_sub(2);
        Machine { cpu: Z80 { sp, ..self }, mem: store_word(mem, sp, w) }
    }

    /// `PUSH qq`.
    #[verifier::opaque]
    pub open spec fn after_push(self, mem: Seq<u8>, qq: StackPair) -> Machine {
        self.after_push_word(mem, self.stack_pair(qq))
    }

    /// `POP qq`: the low byte comes from `SP`, the high byte from above it,
    /// and `SP` goes up by two.
    #[verifier::opaque]
    pub open spec fn after_pop(self, mem: Seq<u8>, qq: StackPair) -> Z80 {
        Z80 { sp: self.sp.wrapping_add(2), ..self }.with_stack_pair(qq, word_at(mem, self.sp))
    }

    /// `LD dst,src` on 8-bit operands.
    pub fn ld(&mut self, mem: &mut memory, dst: Operand, src: Operand)
        ensures
            (Machine { cpu: *final(self), mem: final(mem)@ }) == old(self).after_ld(
                old(mem)@,
                dst,
                src,
            ),
    {
        reveal(Z80::after_ld);
        let (value, _) = self.load_operand(mem, src);
        let (_, addr) = self.load_operand(mem, dst);
        self.store_operand(mem, dst, addr, value);
    }

    /// `LD dst,n`.
    pub fn ld_n(&mut self, mem: &mut memory, dst: Operand)
        ensures
            (Machine { cpu: *final(self), mem: final(mem)@ }) == old(self).after_ld_n(
                old(mem)@,
                dst,
            ),
    {
        reveal(Z80::after_ld_n);
        let (_, addr) = self.load_operand(mem, dst);
        let n = self.read_bus(mem);
        self.store_operand(mem, dst, addr, n);
    }

    /// `LD (HL),n`.
    pub fn ld_hl_n(&mut self, mem: &mut memory)
        ensures
            (Machine { cpu: *final(self), mem: final(mem)@ }) == old(self).after_ld_n(
                old(mem)@,
                Operand::AtHl,
            ),
    {
        self.ld_n(mem, Operand::AtHl);
    }

    /// `LD rp,nn`.
    pub fn ld_dd_nn(&mut self, mem: &memory, rp: Reg16)
        ensures
            *final(self) == old(self).after_ld_dd_nn(mem@, rp),
    {
        reveal(Z80::after_ld_dd_nn);
        let nn = self.read_bus_word(mem);
        self.set_pair(rp, nn);
    }

    /// `LD BC,nn`.
    pub fn ld_bc(&mut self, mem: &memory)
        ensures
            *final(self) == old(self).after_ld_dd_nn(mem@, Reg16::BC),
    {
        self.ld_dd_nn(mem, Reg16::BC);
    }

    /// `LD DE,nn`.
    pub fn ld_de(&mut self, mem: &memory)
        ensures
            *final(self) == old(self).after_ld_dd_nn(mem@, Reg16::DE),
    {
        self.ld_dd_nn(mem, Reg16::DE);
    }

    /// `LD HL,nn`.
    pub fn ld_hl(&mut self, mem: &memory)
        ensures
            *final(self) == old(self).after_ld_dd_nn(mem@, Reg16::HL),
    {
        self.ld_dd_nn(mem, Reg16::HL);
    }

    /// `LD SP,nn`.
    pub fn ld_sp(&mut self, mem: &memory)
        ensures
            *final(self) == old(self).after_ld_dd_nn(mem@, Reg16::SP),
    {
        self.ld_dd_nn(mem, Reg16::SP);
    }

    /// `LD (BC),A`.
    pub fn ld_at_bc_a(&mut self, mem: &mut memory)
        ensures
            (Machine { cpu: *final(self), mem: final(mem)@ }) == old(self).after_ld_at_rp_a(
                old(mem)@,
                Reg16::BC,
            ),
    {
        reveal(Z80::after_ld_at_rp_a);
        let addr = Z80::get_word(self.b, self.c);
        mem.poke(addr, self.a);
    }

    /// `LD (DE),A`.
    pub fn ld_at_de_a(&mut self, mem: &mut memory)
        ensures
            (Machine { cpu: *final(self), mem: final(mem)@ }) == old(self).after_ld_at_rp_a(
                old(mem)@,
                Reg16::DE,
            ),
    {
        reveal(Z80::after_ld_at_rp_a);
        let addr = Z80::get_word(self.d, self.e);
        mem.poke(addr, self.a);
    }

    /// `LD A,(BC)`.
    pub fn ld_a_at_bc(&mut self, mem: &memory)
        ensures
            *final(self) == old(self).after_ld_a_at_rp(mem@, Reg16::BC),
    {
        reveal(Z80::after_ld_a_at_rp);
        let addr = Z80::get_word(self.b, self.c);
        self.a = mem.peek(addr);
    }

    /// `LD A,(DE)`.
    pub fn ld_a_at_de(&mut self, mem: &memory)
        ensures
            *final(self) == old(self).after_ld_a_at_rp(mem@, Reg16::DE),
    {
        reveal(Z80::after_ld_a_at_rp);
        let addr = Z80::get_word(self.d, self.e);
        self.a = mem.peek(addr);
    }

    /// `LD A,(nn)`.
    pub fn ld_a_at_nn(&mut self, mem: &memory)
        ensures
            *final(self) == old(self).after_ld_a_at_nn(mem@),
    {
        reveal(Z80::after_ld_a_at_nn);
        let addr = self.read_bus_word(mem);
        self.a = mem.peek(addr);
    }

    /// `LD (nn),A`.
    pub fn ld_at_nn_a(&mut self, mem: &mut memory)
        ensures
            (Machine { cpu: *final(self), mem: final(mem)@ }) == old(self).after_ld_at_nn_a(
                old(mem)@,
            ),
    {
        reveal(Z80::after_ld_at_nn_a);
        let addr = self.read_bus_word(mem);
        mem.poke(addr, self.a);
    }

    /// `LD (nn),rp`.
    pub fn ld_nn_dd(&mut self, mem: &mut memory, rp: Reg16)
        ensures
            (Machine { cpu: *final(self), mem: final(mem)@ }) == old(self).after_ld_nn_dd(
                old(mem)@,
                rp,
            ),
    {
        reveal(Z80::after_ld_nn_dd);
        let addr = self.read_bus_word(mem);
        let bytes = Z80::get_bytes(self.get_pair(rp));
        mem.poke(addr, bytes.1);
        mem.poke(addr.wrapping_add(1), bytes.0);
    }

    /// `LD rp,(nn)`.
    pub fn ld_dd_at_nn(&mut self, mem: &memory, rp: Reg16)
        ensures
            *final(self) == old(self).after_ld_dd_at_nn(mem@, rp),
    {
        reveal(Z80::after_ld_dd_at_nn);
        let addr = self.read_bus_word(mem);
        let lo = mem.peek(addr);
        let hi = mem.peek(addr.wrapping_add(1));
        self.set_pair(rp, Z80::get_word(hi, lo));
    }

    /// `LD (nn),HL`.
    pub fn ld_nn_hl(&mut self, mem: &mut memory)
        ensures
            (Machine { cpu: *final(self), mem: final(mem)@ }) == old(self).after_ld_nn_dd(
                old(mem)@,
                Reg16::HL,
            ),
    {
        self.ld_nn_dd(mem, Reg16::HL);
    }

    /// `LD HL,(nn)`.
    pub fn ld_hl_nn(&mut self, mem: &memory)
        ensures
            *final(self) == old(self).after_ld_dd_at_nn(mem@, Reg16::HL),
    {
        self.ld_dd_at_nn(mem, Reg16::HL);
    }

    /// `LD SP,HL`.
    pub fn ld_sp_hl(&mut self)
        ensures
            *final(self) == old(self).after_ld_sp_hl(),
    {
        reveal(Z80::after_ld_sp_hl);
        self.sp = self.get_hl();
    }

    /// `LD I,A`.
    pub fn ld_i_a(&mut self)
        ensures
            *final(self) == old(self).after_ld_i_a(),
    {
        reveal(Z80::after_ld_i_a);
        self.i = self.a;
    }

    /// `LD R,A`.
    pub fn ld_r_a(&mut self)
        ensures
            *final(self) == old(self).after_ld_r_a(),
    {
        reveal(Z80::after_ld_r_a);
        self.r = self.a;
    }

    /// Loads `A` from `v` and sets the flags that `LD A,I` and `LD A,R`
    /// set.
    pub fn ld_a_ir(&mut self, v: u8)
        ensures
            *final(self) == old(self).after_ld_a_ir(v),
    {
        reveal(Z80::after_ld_a_ir);
        self.a = v;
        self.set_result_flags(v);
        self.reset_flag(H);
        self.set_reset_flag(self.iff2, P_V);
        self.reset_flag(N);
        proof {
            lemma_pack_flags_of(self.f);
        }
    }

    /// `LD A,I`.
    pub fn ld_a_i(&mut self)
        ensures
            *final(self) == old(self).after_ld_a_ir(old(self).i),
    {
        let v = self.i;
        self.ld_a_ir(v);
    }

    /// `LD A,R`.
    pub fn ld_a_r(&mut self)
        ensures
            *final(self) == old(self).after_ld_a_ir(old(self).r),
    {
        let v = self.r;
        self.ld_a_ir(v);
    }

    /// `EX AF,AF'`.
    pub fn ex_af_af_alt(&mut self)
        ensures
            *final(self) == old(self).after_ex_af_af_alt(),
    {
        reveal(Z80::after_ex_af_af_alt);
        let swap_hi = self.a;
        let swap_lo = self.f;
        self.a = self.a_alt;
        self.f = self.f_alt;
        self.a_alt = swap_hi;
        self.f_alt = swap_lo;
    }

    /// `EX DE,HL`.
    pub fn ex_de_hl(&mut self)
        ensures
            *final(self) == old(self).after_ex_de_hl(),
    {
        reveal(Z80::after_ex_de_hl);
        let old_d = self.d;
        self.d = self.get_h();
        self.set_h(old_d);
        let old_e = self.e;
        self.e = self.get_l();
        self.set_l(old_e);
    }

    /// `EXX`.
    pub fn exx(&mut self)
        ensures
            *final(self) == old(self).after_exx(),
    {
        reveal(Z80::after_exx);
        let mut swap = self.b;
        self.b = self.b_alt;
        self.b_alt = swap;

        swap = self.c;
        self.c = self.c_alt;
        self.c_alt = swap;

        swap = self.d;
        self.d = self.d_alt;
        self.d_alt = swap;

        swap = self.e;
        self.e = self.e_alt;
        self.e_alt = swap;

        swap = self.h;
        self.h = self.h_alt;
        self.h_alt = swap;

        swap = self.l;
        self.l = self.l_alt;
        self.l_alt = swap;
    }

    /// `EX (SP),HL`.
    pub fn ex_at_sp_hl(&mut self, mem: &mut memory)
        ensures
            (Machine { cpu: *final(self), mem: final(mem)@ }) == old(self).after_ex_at_sp_hl(
                old(mem)@,
            ),
    {
        reveal(Z80::after_ex_at_sp_hl);
        let above = self.sp.wrapping_add(1);
        let new_l = mem.peek(self.sp);
        let new_h = mem.peek(above);
        let old_l = self.get_l();
        let old_h = self.get_h();
        mem.poke(self.sp, old_l);
        mem.poke(above, old_h);
        self.set_h(new_h);
        self.set_l(new_l);
    }

    /// Pushes the pair `hi`, `lo`: the high byte goes to `SP - 1`, the low
    /// byte to `SP - 2`, and `SP` ends two lower.
    pub fn push_qq(&mut self, mem: &mut memory, hi: u8, lo: u8)
        ensures
            (Machine { cpu: *final(self), mem: final(mem)@ }) == old(self).after_push_word(
                old(mem)@,
                word(hi, lo),
            ),
    {
        reveal(Z80::after_push_word);
        proof {
            mem.lemma_len();
        }
        mem.poke(self.sp.wrapping_sub(1), hi);
        mem.poke(self.sp.wrapping_sub(2), lo);
        self.sp = self.sp.wrapping_sub(2);
        assert(mem@ =~= store_word(old(mem)@, old(self).sp.wrapping_sub(2), word(hi, lo)));
    }

    /// `PUSH qq`.
    pub fn push(&mut self, mem: &mut memory, qq: StackPair)
        ensures
            (Machine { cpu: *final(self), mem: final(mem)@ }) == old(self).after_push(
                old(mem)@,
                qq,
            ),
    {
        reveal(Z80::after_push);
        match qq {
            StackPair::BC => self.push_qq(mem, self.b, self.c),
            StackPair::DE => self.push_qq(mem, self.d, self.e),
            StackPair::HL => self.push_qq(mem, self.get_h(), self.get_l()),
            StackPair::AF => self.push_qq(mem, self.a, self.f),
        }
    }

    /// Pops a 16-bit value: low byte from `SP`, high byte from `SP + 1`.
    pub fn pop_word(&mut self, mem: &memory) -> (bytes: (u8, u8))
        ensures
            word(bytes.0, bytes.1) == word_at(mem@, old(self).sp),
            bytes.0 == high_byte(word_at(mem@, old(self).sp)),
            bytes.1 == low_byte(word_at(mem@, old(self).sp)),
            *final(self) == (Z80 { sp: old(self).sp.wrapping_add(2), ..*old(self) }),
    {
        let lo = mem.peek(self.sp);
        let hi = mem.peek(self.sp.wrapping_add(1));
        self.sp = self.sp.wrapping_add(2);
        (hi, lo)
    }

    /// `POP qq`.
    pub fn pop(&mut self, mem: &memory, qq: StackPair)
        ensures
            *final(self) == old(self).after_pop(mem@, qq),
    {
        reveal(Z80::after_pop);
        let (hi, lo) = self.pop_word(mem);
        match qq {
            StackPair::BC => {
                self.b = hi;
                self.c = lo;
            },
            StackPair::DE => {
                self.d = hi;
                self.e = lo;
            },
            StackPair::HL => {
                self.set_h(hi);
                self.set_l(lo);
            },
            StackPair::AF => {
                self.a = hi;
                self.f = lo;
            },
        }
    }
}

} // verus!
