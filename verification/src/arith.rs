//! Arithmetic handlers that reach their operand through the addressing
//! resolver, and the 16-bit arithmetic on register pairs.

use crate::alu::{adc16, add16, dec8, inc8, result_flags, sbc16, AluOp};
use crate::flags::{lemma_pack_flags_of, parity_even, C, H, N, P_V};
use crate::memory::memory;
use crate::z80::{word, Machine, Operand, Reg16, Z80};
use vstd::prelude::*;

verus! {

impl Z80 {
    /// An accumulator operation on an 8-bit operand.
    #[verifier::opaque]
    pub open spec fn after_alu_operand(self, mem: Seq<u8>, op: AluOp, src: Operand) -> Z80 {
        let r = self.resolve(mem, src);
        r.cpu.after_alu(op, r.value)
    }

    /// An accumulator operation on the immediate byte.
    #[verifier::opaque]
    pub open spec fn after_alu_n(self, mem: Seq<u8>, op: AluOp) -> Z80 {
        self.advance(1).after_alu(op, self.imm8(mem))
    }

    /// `INC` of an 8-bit operand.
    #[verifier::opaque]
    pub open spec fn after_inc(self, mem: Seq<u8>, operand: Operand) -> Machine {
        let r = self.resolve(mem, operand);
        let out = inc8(r.value, r.cpu.flags());
        r.cpu.with_flags(out.flags).store(mem, operand, r.addr, out.value)
    }

    /// `DEC` of an 8-bit operand.
    #[verifier::opaque]
    pub open spec fn after_dec(self, mem: Seq<u8>, operand: Operand) -> Machine {
        let r = self.resolve(mem, operand);
        let out = dec8(r.value, r.cpu.flags());
        r.cpu.with_flags(out.flags).store(mem, operand, r.addr, out.value)
    }

    /// `ADD HL,v`.
    #[verifier::opaque]
    pub open spec fn after_add_hl(self, v: u16) -> Z80 {
        let out = add16(self.pair_hl(), v, self.flags());
        self.with_pair_hl(out.value).with_flags(out.flags)
    }

    /// `ADC HL,v`.
    #[verifier::opaque]
    pub open spec fn after_adc_hl(self, v: u16) -> Z80 {
        let out = adc16(self.pair_hl(), v, self.flags());
        self.with_pair_hl(out.value).with_flags(out.flags)
    }

    /// `SBC HL,v`.
    #[verifier::opaque]
    pub open spec fn after_sbc_hl(self, v: u16) -> Z80 {
        let out = sbc16(self.pair_hl(), v, self.flags());
        self.with_pair_hl(out.value).with_flags(out.flags)
    }

    /// `INC rp`: no flag changes.
    #[verifier::opaque]
    pub open spec fn after_inc_ss(self, rp: Reg16) -> Z80 {
        self.with_pair(rp, self.pair(rp).wrapping_add(1))
    }

    /// `DEC rp`: no flag changes.
    #[verifier::opaque]
    pub open spec fn after_dec_ss(self, rp: Reg16) -> Z80 {
        self.with_pair(rp, self.pair(rp).wrapping_sub(1))
    }

    /// `RRD`: the low digit of `A`, the high digit of `(HL)` and its low
    /// digit move one place to the right, the last into the low digit of
    /// `A`.
    #[verifier::opaque]
    pub open spec fn after_rrd(self, mem: Seq<u8>) -> Machine {
        let addr = self.pair_hl();
        let m = mem[addr as int];
        let new_a = ((self.a / 16) * 16 + m % 16) as u8;
        let new_m = ((self.a % 16) * 16 + m / 16) as u8;
        Machine {
            cpu: Z80 { a: new_a, ..self }.with_flags(
                result_flags(new_a, false, parity_even(new_a), false, self.flags().carry),
            ),
            mem: mem.update(addr as int, new_m),
        }
    }

    /// The accumulator operation `op` on the operand `src`.
    pub fn alu_a_operand(&mut self, mem: &memory, op: AluOp, src: Operand)
        ensures
            *final(self) == old(self).after_alu_operand(mem@, op, src),
    {
        reveal(Z80::after_alu_operand);
        let (value, _) = self.load_operand(mem, src);
        self.alu_a(op, value);
    }

    /// The accumulator operation `op` on the immediate byte.
    pub fn alu_a_n(&mut self, mem: &memory, op: AluOp)
        ensures
            *final(self) == old(self).after_alu_n(mem@, op),
    {
        reveal(Z80::after_alu_n);
        let n = self.read_bus(mem);
        self.alu_a(op, n);
    }

    /// `INC` of an 8-bit operand.
    pub fn inc(&mut self, mem: &mut memory, operand: Operand)
        ensures
            (Machine { cpu: *final(self), mem: final(mem)@ }) == old(self).after_inc(
                old(mem)@,
                operand,
            ),
    {
        reveal(Z80::after_inc);
        let (value, addr) = self.load_operand(mem, operand);
        let result = Z80::inc_single_register(value);
        self.adjust_f_inc_n(value, result);
        self.store_operand(mem, operand, addr, result);
    }

    /// `DEC` of an 8-bit operand.
    pub fn dec(&mut self, mem: &mut memory, operand: Operand)
        ensures
            (Machine { cpu: *final(self), mem: final(mem)@ }) == old(self).after_dec(
                old(mem)@,
                operand,
            ),
    {
        reveal(Z80::after_dec);
        let (value, addr) = self.load_operand(mem, operand);
        let result = value.wrapping_sub(1);
        self.adjust_f_dec_n(value, result);
        self.store_operand(mem, operand, addr, result);
    }

    /// `INC (HL)`.
    pub fn inc_at_hl(&mut self, mem: &mut memory)
        ensures
            (Machine { cpu: *final(self), mem: final(mem)@ }) == old(self).after_inc(
                old(mem)@,
                Operand::AtHl,
            ),
    {
        self.inc(mem, Operand::AtHl);
    }

    /// `DEC (HL)`.
    pub fn dec_at_hl(&mut self, mem: &mut memory)
        ensures
            (Machine { cpu: *final(self), mem: final(mem)@ }) == old(self).after_dec(
                old(mem)@,
                Operand::AtHl,
            ),
    {
        self.dec(mem, Operand::AtHl);
    }

    /// Adds `op` to `HL`.
    pub fn add_hl_ss(&mut self, op: u16)
        ensures
            *final(self) == old(self).after_add_hl(op),
    {
        reveal(Z80::after_add_hl);
        let (value, half, carry) = Z80::add16_parts(self.get_hl(), op);
        self.set_hl(value);
        self.reset_flag(N);
        self.set_reset_flag(carry, C);
        self.set_reset_flag(half, H);
        proof {
            lemma_pack_flags_of(self.f);
        }
    }

    /// `ADD HL,rp`.
    pub fn add_hl(&mut self, rp: Reg16)
        ensures
            *final(self) == old(self).after_add_hl(old(self).pair(rp)),
    {
        let v = self.get_pair(rp);
        self.add_hl_ss(v);
    }

    /// Adds the pair `hi`, `lo` and the carry to `HL`.
    pub fn adc_hl_r(&mut self, hi: u8, lo: u8)
        ensures
            *final(self) == old(self).after_adc_hl(word(hi, lo)),
    {
        reveal(Z80::after_adc_hl);
        let hl = self.get_hl();
        let v = Z80::get_word(hi, lo);
        let c = self.get_flag(C);
        let (value, half, overflow, carry) = Z80::adc16_parts(hl, v, c);
        let bytes = Z80::get_bytes(value);
        self.set_hl(value);
        self.set_all_flags(bytes.0, value >= 0x8000, value == 0, half, overflow, false, carry);
    }

    /// Subtracts the pair `hi`, `lo` and the carry from `HL`.
    pub fn sbc_hl_r(&mut self, hi: u8, lo: u8)
        ensures
            *final(self) == old(self).after_sbc_hl(word(hi, lo)),
    {
        reveal(Z80::after_sbc_hl);
        let hl = self.get_hl();
        let v = Z80::get_word(hi, lo);
        let c = self.get_flag(C);
        let (value, half, overflow, carry) = Z80::sbc16_parts(hl, v, c);
        let bytes = Z80::get_bytes(value);
        self.set_hl(value);
        self.set_all_flags(bytes.0, value >= 0x8000, value == 0, half, overflow, true, carry);
    }

    /// `ADC HL,rp`.
    pub fn adc_hl(&mut self, rp: Reg16)
        ensures
            *final(self) == old(self).after_adc_hl(old(self).pair(rp)),
    {
        let bytes = Z80::get_bytes(self.get_pair(rp));
        self.adc_hl_r(bytes.0, bytes.1);
    }

    /// `SBC HL,rp`.
    pub fn sbc_hl(&mut self, rp: Reg16)
        ensures
            *final(self) == old(self).after_sbc_hl(old(self).pair(rp)),
    {
        let bytes = Z80::get_bytes(self.get_pair(rp));
        self.sbc_hl_r(bytes.0, bytes.1);
    }

    /// `INC rp`.
    pub fn inc_ss(&mut self, rp: Reg16)
        ensures
            *final(self) == old(self).after_inc_ss(rp),
    {
        reveal(Z80::after_inc_ss);
        let v = self.get_pair(rp);
        self.set_pair(rp, v.wrapping_add(1));
    }

    /// `DEC rp`.
    pub fn dec_ss(&mut self, rp: Reg16)
        ensures
            *final(self) == old(self).after_dec_ss(rp),
    {
        reveal(Z80::after_dec_ss);
        let v = self.get_pair(rp);
        self.set_pair(rp, v.wrapping_sub(1));
    }

    /// `RRD`.
    pub fn rrd(&mut self, mem: &mut memory)
        ensures
            (Machine { cpu: *final(self), mem: final(mem)@ }) == old(self).after_rrd(old(mem)@),
    {
        reveal(Z80::after_rrd);
        let addr = self.get_hl();
        let m = mem.peek(addr);
        let a = self.a;
        let new_a = (a / 16) * 16 + m % 16;
        let new_m = (a % 16) * 16 + m / 16;
        mem.poke(addr, new_m);
        self.a = new_a;
        self.set_result_flags(new_a);
        self.reset_flag(H);
        self.set_reset_flag(Z80::check_byte_parity(new_a), P_V);
        self.reset_flag(N);
        proof {
            lemma_pack_flags_of(self.f);
        }
    }
}

} // verus!
