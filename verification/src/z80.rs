//! The register file, the prefix state, and the addressing resolver through
//! which every handler reaches `H`, `L`, `HL` and `(HL)`.

use crate::memory::memory;
use vstd::prelude::*;

verus! {

/// How the next fetched byte is to be decoded.
#[derive(Clone, Copy, Debug, PartialEq, Eq)]
pub enum OpCodePrefix {
    /// No prefix byte is pending.
    Unprefixed,
    /// Index-X: `H`, `L` and `(HL)` stand for `IXH`, `IXL` and `(IX+d)`.
    DD,
    /// Index-Y: `H`, `L` and `(HL)` stand for `IYH`, `IYL` and `(IY+d)`.
    FD,
    /// Bit operations.
    CB,
    /// Index-Y followed by the bit-operations prefix.
    FdCb,
    /// Index-X followed by the bit-operations prefix.
    DdCb,
    /// Extended operations.
    ED,
}

/// A fetched byte that has no handler in the table of the prefix state it
/// was fetched in.
#[derive(Clone, Copy, Debug, PartialEq, Eq)]
pub struct UnimplementedOpcode {
    pub prefix: OpCodePrefix,
    pub byte: u8,
}

/// The processor state. All of it is plain data: any combination of field
/// values is a state the processor can be in.
#[derive(Clone, Copy, Debug, PartialEq, Eq)]
pub struct Z80 {
    /// Fatal condition: set when a byte without handler was fetched.
    pub halt: bool,
    pub pc: u16,
    pub sp: u16,
    pub ix_h: u8,
    pub ix_l: u8,
    pub iy_h: u8,
    pub iy_l: u8,
    pub i: u8,
    pub r: u8,
    pub a: u8,
    pub f: u8,
    pub b: u8,
    pub c: u8,
    pub d: u8,
    pub e: u8,
    pub h: u8,
    pub l: u8,
    pub a_alt: u8,
    pub f_alt: u8,
    pub b_alt: u8,
    pub c_alt: u8,
    pub d_alt: u8,
    pub e_alt: u8,
    pub h_alt: u8,
    pub l_alt: u8,
    pub iff1: bool,
    pub iff2: bool,
    /// Set by the `HALT` instruction; distinct from the fatal condition.
    pub halted: bool,
    pub opcode_prefix: OpCodePrefix,
    /// The byte that raised the fatal condition, with its prefix state.
    pub fault: Option<UnimplementedOpcode>,
}

/// An 8-bit operand position of an opcode, in encoding order.
#[derive(Clone, Copy, Debug, PartialEq, Eq)]
pub enum Operand {
    B,
    C,
    D,
    E,
    H,
    L,
    /// The byte at the effective address.
    AtHl,
    A,
}

/// A 16-bit register pair operand.
#[derive(Clone, Copy, Debug, PartialEq, Eq)]
pub enum Reg16 {
    BC,
    DE,
    HL,
    SP,
}

/// A register pair that can be pushed and popped.
#[derive(Clone, Copy, Debug, PartialEq, Eq)]
pub enum StackPair {
    BC,
    DE,
    HL,
    AF,
}

/// The 16-bit value with high byte `hi` and low byte `lo`.
pub open spec fn word(hi: u8, lo: u8) -> u16 {
    (hi as int * 256 + lo as int) as u16
}

/// The high byte of `w`.
pub open spec fn high_byte(w: u16) -> u8 {
    (w / 256) as u8
}

/// The low byte of `w`.
pub open spec fn low_byte(w: u16) -> u8 {
    (w % 256) as u8
}

/// `v` read as a two's-complement number.
pub open spec fn signed8(v: u8) -> int {
    if v < 128 {
        v as int
    } else {
        v as int - 256
    }
}

/// `base` plus the signed displacement `d`, modulo 65536.
pub open spec fn displace(base: u16, d: u8) -> u16 {
    ((base as int + signed8(d)) % 65536) as u16
}

/// The 16-bit value stored at `addr`, low byte first.
pub open spec fn word_at(mem: Seq<u8>, addr: u16) -> u16 {
    word(mem[addr.wrapping_add(1) as int], mem[addr as int])
}

/// `mem` with `w` stored at `addr`, low byte first.
pub open spec fn store_word(mem: Seq<u8>, addr: u16, w: u16) -> Seq<u8> {
    mem.update(addr as int, low_byte(w)).update(addr.wrapping_add(1) as int, high_byte(w))
}

/// A processor state together with the memory it runs against.
pub ghost struct Machine {
    pub cpu: Z80,
    pub mem: Seq<u8>,
}

/// What resolving an 8-bit operand yields: its value, the effective address
/// where it is a memory operand, and the state after any displacement fetch.
pub ghost struct Resolved {
    pub value: u8,
    pub addr: u16,
    pub cpu: Z80,
}

proof fn lemma_word_bits(hi: u8, w: u16)
    by (bit_vector)
    ensures
        (hi as u16) << 8 == (hi as u16) * 256,
        w >> 8 == w / 256,
        w & 0xff == w % 256,
{
}

impl Z80 {
    /// The state after power-on: `PC` 0, `SP` at the top of memory,
    /// everything else zero, interrupts disabled, not halted, no fault.
    pub open spec fn power_on() -> Z80 {
        Z80 {
            halt: false,
            pc: 0,
            sp: 0xFFFF,
            ix_h: 0,
            ix_l: 0,
            iy_h: 0,
            iy_l: 0,
            i: 0,
            r: 0,
            a: 0,
            f: 0,
            b: 0,
            c: 0,
            d: 0,
            e: 0,
            h: 0,
            l: 0,
            a_alt: 0,
            f_alt: 0,
            b_alt: 0,
            c_alt: 0,
            d_alt: 0,
            e_alt: 0,
            h_alt: 0,
            l_alt: 0,
            iff1: false,
            iff2: false,
            halted: false,
            opcode_prefix: OpCodePrefix::Unprefixed,
            fault: None,
        }
    }

    /// Whether the prefix state selects index register X.
    pub open spec fn index_x(self) -> bool {
        self.opcode_prefix == OpCodePrefix::DD || self.opcode_prefix == OpCodePrefix::DdCb
    }

    /// Whether the prefix state selects index register Y.
    pub open spec fn index_y(self) -> bool {
        self.opcode_prefix == OpCodePrefix::FD || self.opcode_prefix == OpCodePrefix::FdCb
    }

    /// Whether `(HL)` takes a displacement byte from the instruction stream.
    pub open spec fn displaced(self) -> bool {
        self.opcode_prefix == OpCodePrefix::DD || self.opcode_prefix == OpCodePrefix::FD
    }

    /// What `H` denotes in the current prefix state.
    pub open spec fn high(self) -> u8 {
        if self.index_x() {
            self.ix_h
        } else if self.index_y() {
            self.iy_h
        } else {
            self.h
        }
    }

    /// What `L` denotes in the current prefix state.
    pub open spec fn low(self) -> u8 {
        if self.index_x() {
            self.ix_l
        } else if self.index_y() {
            self.iy_l
        } else {
            self.l
        }
    }

    /// What `HL` denotes in the current prefix state.
    pub open spec fn pair_hl(self) -> u16 {
        word(self.high(), self.low())
    }

    /// The state with `v` written to what `H` denotes.
    pub open spec fn with_high(self, v: u8) -> Z80 {
        if self.index_x() {
            Z80 { ix_h: v, ..self }
        } else if self.index_y() {
            Z80 { iy_h: v, ..self }
        } else {
            Z80 { h: v, ..self }
        }
    }

    /// The state with `v` written to what `L` denotes.
    pub open spec fn with_low(self, v: u8) -> Z80 {
        if self.index_x() {
            Z80 { ix_l: v, ..self }
        } else if self.index_y() {
            Z80 { iy_l: v, ..self }
        } else {
            Z80 { l: v, ..self }
        }
    }

    /// The state with `w` written to what `HL` denotes.
    pub open spec fn with_pair_hl(self, w: u16) -> Z80 {
        self.with_high(high_byte(w)).with_low(low_byte(w))
    }

    /// The state with the program counter moved `n` bytes on, modulo 65536.
    pub open spec fn advance(self, n: u16) -> Z80 {
        Z80 { pc: self.pc.wrapping_add(n), ..self }
    }

    /// The byte at the program counter.
    pub open spec fn imm8(self, mem: Seq<u8>) -> u8 {
        mem[self.pc as int]
    }

    /// The 16-bit value at the program counter, low byte first.
    pub open spec fn imm16(self, mem: Seq<u8>) -> u16 {
        word_at(mem, self.pc)
    }

    /// The effective address of `(HL)`: the pair itself, or in an index
    /// state without bit operations the index register plus the signed
    /// displacement byte at the program counter, which is then consumed.
    pub open spec fn indirect_hl(self, mem: Seq<u8>) -> (u16, Z80) {
        if self.displaced() {
            (displace(self.pair_hl(), self.imm8(mem)), self.advance(1))
        } else {
            (self.pair_hl(), self)
        }
    }

    /// The value of a register operand. `AtHl` is not a register and reads
    /// as zero here: see `resolve`.
    pub open spec fn reg(self, op: Operand) -> u8 {
        match op {
            Operand::B => self.b,
            Operand::C => self.c,
            Operand::D => self.d,
            Operand::E => self.e,
            Operand::H => self.high(),
            Operand::L => self.low(),
            Operand::AtHl => 0,
            Operand::A => self.a,
        }
    }

    /// The state with `v` written to a register operand. `AtHl` is not a
    /// register and leaves the state as it is: see `store`.
    pub open spec fn with_reg(self, op: Operand, v: u8) -> Z80 {
        match op {
            Operand::B => Z80 { b: v, ..self },
            Operand::C => Z80 { c: v, ..self },
            Operand::D => Z80 { d: v, ..self },
            Operand::E => Z80 { e: v, ..self },
            Operand::H => self.with_high(v),
            Operand::L => self.with_low(v),
            Operand::AtHl => self,
            Operand::A => Z80 { a: v, ..self },
        }
    }

    /// Reads an 8-bit operand: a register, or the byte at the effective
    /// address of `(HL)`.
    pub open spec fn resolve(self, mem: Seq<u8>, op: Operand) -> Resolved {
        match op {
            Operand::AtHl => {
                let (addr, cpu) = self.indirect_hl(mem);
                Resolved { value: mem[addr as int], addr, cpu }
            },
            _ => Resolved { value: self.reg(op), addr: 0, cpu: self },
        }
    }

    /// Writes an 8-bit operand that `resolve` has resolved to `addr`.
    pub open spec fn store(self, mem: Seq<u8>, op: Operand, addr: u16, v: u8) -> Machine {
        match op {
            Operand::AtHl => Machine { cpu: self, mem: mem.update(addr as int, v) },
            _ => Machine { cpu: self.with_reg(op, v), mem },
        }
    }

    /// The value of a 16-bit pair operand.
    pub open spec fn pair(self, rp: Reg16) -> u16 {
        match rp {
            Reg16::BC => word(self.b, self.c),
            Reg16::DE => word(self.d, self.e),
            Reg16::HL => self.pair_hl(),
            Reg16::SP => self.sp,
        }
    }

    /// The state with `w` written to a 16-bit pair operand.
    pub open spec fn with_pair(self, rp: Reg16, w: u16) -> Z80 {
        match rp {
            Reg16::BC => Z80 { b: high_byte(w), c: low_byte(w), ..self },
            Reg16::DE => Z80 { d: high_byte(w), e: low_byte(w), ..self },
            Reg16::HL => self.with_pair_hl(w),
            Reg16::SP => Z80 { sp: w, ..self },
        }
    }

    /// The value of a pair that can be pushed.
    pub open spec fn stack_pair(self, qq: StackPair) -> u16 {
        match qq {
            StackPair::BC => word(self.b, self.c),
            StackPair::DE => word(self.d, self.e),
            StackPair::HL => self.pair_hl(),
            StackPair::AF => word(self.a, self.f),
        }
    }

    /// The state with `w` written to a pair that can be popped.
    pub open spec fn with_stack_pair(self, qq: StackPair, w: u16) -> Z80 {
        match qq {
            StackPair::BC => Z80 { b: high_byte(w), c: low_byte(w), ..self },
            StackPair::DE => Z80 { d: high_byte(w), e: low_byte(w), ..self },
            StackPair::HL => self.with_pair_hl(w),
            StackPair::AF => Z80 { a: high_byte(w), f: low_byte(w), ..self },
        }
    }

    /// A processor in its power-on state.
    pub fn new() -> (out: Z80)
        ensures
            out == Z80::power_on(),
    {
        Z80 {
            halt: false,
            pc: 0,
            sp: 0xFFFF,
            ix_h: 0,
            ix_l: 0,
            iy_h: 0,
            iy_l: 0,
            i: 0,
            r: 0,
            a: 0x00,
            f: 0x00,
            b: 0,
            c: 0,
            d: 0,
            e: 0,
            h: 0,
            l: 0,
            a_alt: 0,
            f_alt: 0,
            b_alt: 0,
            c_alt: 0,
            d_alt: 0,
            e_alt: 0,
            h_alt: 0,
            l_alt: 0,
            iff1: false,
            iff2: false,
            halted: false,
            opcode_prefix: OpCodePrefix::Unprefixed,
            fault: None,
        }
    }

    /// Splits a 16-bit value into its high and low bytes.
    pub fn get_bytes(val: u16) -> (bytes: (u8, u8))
        ensures
            bytes.0 == high_byte(val),
            bytes.1 == low_byte(val),
            word(bytes.0, bytes.1) == val,
    {
        proof {
            lemma_word_bits(0, val);
        }
        let hi: u8 = (val >> 8) as u8;
        let lo: u8 = (val & 0xFF) as u8;
        (hi, lo)
    }

    /// Joins a high and a low byte into a 16-bit value.
    pub fn get_word(hi: u8, lo: u8) -> (w: u16)
        ensures
            w == word(hi, lo),
            high_byte(w) == hi,
            low_byte(w) == lo,
    {
        proof {
            lemma_word_bits(hi, 0);
        }
        ((hi as u16) << 8) + (lo as u16)
    }

    /// `reg` plus one, modulo 256.
    pub fn inc_single_register(reg: u8) -> (out: u8)
        ensures
            out == reg.wrapping_add(1),
            out as int == (reg + 1) % 256,
    {
        let s = reg as u16;
        ((s + 1) % 256) as u8
    }

    /// `base` plus the signed displacement `d`, modulo 65536.
    pub fn add_displacement(base: u16, d: u8) -> (out: u16)
        ensures
            out == displace(base, d),
    {
        if d < 0x80 {
            base.wrapping_add(d as u16)
        } else {
            base.wrapping_sub(0x100 - (d as u16))
        }
    }

    /// What `H` denotes in the current prefix state.
    pub fn get_h(&self) -> (res: u8)
        ensures
            res == self.high(),
    {
        match self.opcode_prefix {
            OpCodePrefix::DD | OpCodePrefix::DdCb => self.ix_h,
            OpCodePrefix::FD | OpCodePrefix::FdCb => self.iy_h,
            _ => self.h,
        }
    }

    /// What `L` denotes in the current prefix state.
    pub fn get_l(&self) -> (res: u8)
        ensures
            res == self.low(),
    {
        match self.opcode_prefix {
            OpCodePrefix::DD | OpCodePrefix::DdCb => self.ix_l,
            OpCodePrefix::FD | OpCodePrefix::FdCb => self.iy_l,
            _ => self.l,
        }
    }

    /// What `HL` denotes in the current prefix state.
    pub fn get_hl(&self) -> (res: u16)
        ensures
            res == self.pair_hl(),
    {
        Z80::get_word(self.get_h(), self.get_l())
    }

    /// Writes `val` to what `H` denotes in the current prefix state.
    pub fn set_h(&mut self, val: u8)
        ensures
            *final(self) == old(self).with_high(val),
    {
        match self.opcode_prefix {
            OpCodePrefix::DD | OpCodePrefix::DdCb => self.ix_h = val,
            OpCodePrefix::FD | OpCodePrefix::FdCb => self.iy_h = val,
            _ => self.h = val,
        }
    }

    /// Writes `val` to what `L` denotes in the current prefix state.
    pub fn set_l(&mut self, val: u8)
        ensures
            *final(self) == old(self).with_low(val),
    {
        match self.opcode_prefix {
            OpCodePrefix::DD | OpCodePrefix::DdCb => self.ix_l = val,
            OpCodePrefix::FD | OpCodePrefix::FdCb => self.iy_l = val,
            _ => self.l = val,
        }
    }

    /// Writes `val` to what `HL` denotes in the current prefix state.
    pub fn set_hl(&mut self, val: u16)
        ensures
            *final(self) == old(self).with_pair_hl(val),
    {
        let bytes = Z80::get_bytes(val);
        self.set_h(bytes.0);
        self.set_l(bytes.1);
    }

    /// Fetches the byte at the program counter and moves the counter on.
    pub fn read_bus(&mut self, mem: &memory) -> (res: u8)
        ensures
            res == old(self).imm8(mem@),
            *final(self) == old(self).advance(1),
    {
        let res = mem.peek(self.pc);
        self.pc = self.pc.wrapping_add(1);
        res
    }

    /// Fetches the 16-bit value at the program counter, low byte first, and
    /// moves the counter past it.
    pub fn read_bus_word(&mut self, mem: &memory) -> (res: u16)
        ensures
            res == old(self).imm16(mem@),
            *final(self) == old(self).advance(2),
    {
        let lo = self.read_bus(mem);
        let hi = self.read_bus(mem);
        Z80::get_word(hi, lo)
    }

    /// The effective address of `(HL)`; in an index state without bit
    /// operations this consumes the displacement byte.
    pub fn get_indirect_hl(&mut self, mem: &memory) -> (addr: u16)
        ensures
            (addr, *final(self)) == old(self).indirect_hl(mem@),
    {
        let base = self.get_hl();
        match self.opcode_prefix {
            OpCodePrefix::DD | OpCodePrefix::FD => {
                let d = self.read_bus(mem);
                Z80::add_displacement(base, d)
            },
            _ => base,
        }
    }

    /// Reads a register operand.
    pub fn get_reg(&self, op: Operand) -> (res: u8)
        ensures
            res == self.reg(op),
    {
        match op {
            Operand::B => self.b,
            Operand::C => self.c,
            Operand::D => self.d,
            Operand::E => self.e,
            Operand::H => self.get_h(),
            Operand::L => self.get_l(),
            Operand::AtHl => 0,
            Operand::A => self.a,
        }
    }

    /// Writes a register operand.
    pub fn set_reg(&mut self, op: Operand, val: u8)
        ensures
            *final(self) == old(self).with_reg(op, val),
    {
        match op {
            Operand::B => self.b = val,
            Operand::C => self.c = val,
            Operand::D => self.d = val,
            Operand::E => self.e = val,
            Operand::H => self.set_h(val),
            Operand::L => self.set_l(val),
            Operand::AtHl => {},
            Operand::A => self.a = val,
        }
    }

    /// Reads an 8-bit operand, resolving the effective address of `(HL)`.
    /// Returns the value and the address.
    pub fn load_operand(&mut self, mem: &memory, op: Operand) -> (res: (u8, u16))
        ensures
            (Resolved { value: res.0, addr: res.1, cpu: *final(self) }) == old(self).resolve(
                mem@,
                op,
            ),
    {
        match op {
            Operand::AtHl => {
                let addr = self.get_indirect_hl(mem);
                (mem.peek(addr), addr)
            },
            _ => (self.get_reg(op), 0),
        }
    }

    /// Writes an 8-bit operand that `load_operand` resolved to `addr`.
    pub fn store_operand(&mut self, mem: &mut memory, op: Operand, addr: u16, val: u8)
        ensures
            (Machine { cpu: *final(self), mem: final(mem)@ }) == old(self).store(
                old(mem)@,
                op,
                addr,
                val,
            ),
    {
        match op {
            Operand::AtHl => mem.poke(addr, val),
            _ => self.set_reg(op, val),
        }
    }

    /// Reads a 16-bit pair operand.
    pub fn get_pair(&self, rp: Reg16) -> (res: u16)
        ensures
            res == self.pair(rp),
    {
        match rp {
            Reg16::BC => Z80::get_word(self.b, self.c),
            Reg16::DE => Z80::get_word(self.d, self.e),
            Reg16::HL => self.get_hl(),
            Reg16::SP => self.sp,
        }
    }

    /// Writes a 16-bit pair operand.
    pub fn set_pair(&mut self, rp: Reg16, val: u16)
        ensures
            *final(self) == old(self).with_pair(rp, val),
    {
        let bytes = Z80::get_bytes(val);
        match rp {
            Reg16::BC => {
                self.b = bytes.0;
                self.c = bytes.1;
            },
            Reg16::DE => {
                self.d = bytes.0;
                self.e = bytes.1;
            },
            Reg16::HL => self.set_hl(val),
            Reg16::SP => self.sp = val,
        }
    }
}

} // verus!
