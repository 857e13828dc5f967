//! The flag register: its bit layout, its mathematical view as eight named
//! conditions, and the facts that connect the two.

use crate::z80::Z80;
use vstd::prelude::*;

verus! {

/// Carry.
pub const C: u8 = 0x01;

/// Add/Subtract.
pub const N: u8 = 0x02;

/// Parity/Overflow.
pub const P_V: u8 = 0x04;

/// Undocumented copy of result bit 3.
pub const BIT_3: u8 = 0x08;

/// Half-carry.
pub const H: u8 = 0x10;

/// Undocumented copy of result bit 5.
pub const BIT_5: u8 = 0x20;

/// Zero.
pub const Z: u8 = 0x40;

/// Sign.
pub const S: u8 = 0x80;

/// The flag register read as eight conditions, most significant bit first.
#[derive(Clone, Copy, Debug, PartialEq, Eq)]
pub struct Flags {
    pub sign: bool,
    pub zero: bool,
    pub bit5: bool,
    pub half_carry: bool,
    pub bit3: bool,
    pub parity_overflow: bool,
    pub subtract: bool,
    pub carry: bool,
}

/// The conditions that a flag byte holds.
pub open spec fn flags_of(f: u8) -> Flags {
    Flags {
        sign: f & S != 0,
        zero: f & Z != 0,
        bit5: f & BIT_5 != 0,
        half_carry: f & H != 0,
        bit3: f & BIT_3 != 0,
        parity_overflow: f & P_V != 0,
        subtract: f & N != 0,
        carry: f & C != 0,
    }
}

/// `mask` where `cond` holds, else no bit.
pub open spec fn bit_if(cond: bool, mask: u8) -> u8 {
    if cond {
        mask
    } else {
        0u8
    }
}

/// The flag byte that holds exactly the given conditions.
pub open spec fn pack(fl: Flags) -> u8 {
    bit_if(fl.sign, S) | bit_if(fl.zero, Z) | bit_if(fl.bit5, BIT_5) | bit_if(fl.half_carry, H)
        | bit_if(fl.bit3, BIT_3) | bit_if(fl.parity_overflow, P_V) | bit_if(fl.subtract, N)
        | bit_if(fl.carry, C)
}

/// Whether `mask` is one of the eight single-flag masks.
pub open spec fn is_flag(mask: u8) -> bool {
    mask == S || mask == Z || mask == BIT_5 || mask == H || mask == BIT_3 || mask == P_V || mask
        == N || mask == C
}

/// `fl` with the condition that `mask` names replaced by `value`.
pub open spec fn with_flag(fl: Flags, mask: u8, value: bool) -> Flags {
    if mask == S {
        Flags { sign: value, ..fl }
    } else if mask == Z {
        Flags { zero: value, ..fl }
    } else if mask == BIT_5 {
        Flags { bit5: value, ..fl }
    } else if mask == H {
        Flags { half_carry: value, ..fl }
    } else if mask == BIT_3 {
        Flags { bit3: value, ..fl }
    } else if mask == P_V {
        Flags { parity_overflow: value, ..fl }
    } else if mask == N {
        Flags { subtract: value, ..fl }
    } else if mask == C {
        Flags { carry: value, ..fl }
    } else {
        fl
    }
}

/// Number of one bits in `v`.
pub open spec fn count_ones(v: nat) -> nat
    decreases v,
{
    if v == 0 {
        0
    } else {
        (v % 2) + count_ones(v / 2)
    }
}

/// Whether `v` has an even number of one bits.
pub open spec fn parity_even(v: u8) -> bool {
    count_ones(v as nat) % 2 == 0
}

proof fn lemma_bits_roundtrip(f: u8)
    by (bit_vector)
    ensures
        bit_if(f & 0x80 != 0, 0x80) | bit_if(f & 0x40 != 0, 0x40) | bit_if(f & 0x20 != 0, 0x20)
            | bit_if(f & 0x10 != 0, 0x10) | bit_if(f & 0x08 != 0, 0x08) | bit_if(
            f & 0x04 != 0,
            0x04,
        ) | bit_if(f & 0x02 != 0, 0x02) | bit_if(f & 0x01 != 0, 0x01) == f,
{
}

proof fn lemma_bits_unpack(
    s: bool,
    z: bool,
    b5: bool,
    h: bool,
    b3: bool,
    pv: bool,
    n: bool,
    c: bool,
)
    by (bit_vector)
    ensures
        ({
            let f = bit_if(s, 0x80) | bit_if(z, 0x40) | bit_if(b5, 0x20) | bit_if(h, 0x10)
                | bit_if(b3, 0x08) | bit_if(pv, 0x04) | bit_if(n, 0x02) | bit_if(c, 0x01);
            &&& (f & 0x80 != 0) == s
            &&& (f & 0x40 != 0) == z
            &&& (f & 0x20 != 0) == b5
            &&& (f & 0x10 != 0) == h
            &&& (f & 0x08 != 0) == b3
            &&& (f & 0x04 != 0) == pv
            &&& (f & 0x02 != 0) == n
            &&& (f & 0x01 != 0) == c
        }),
{
}

spec fn is_bit(m: u8) -> bool {
    m == 0x80 || m == 0x40 || m == 0x20 || m == 0x10 || m == 0x08 || m == 0x04 || m == 0x02 || m
        == 0x01
}

spec fn bit_kept(f: u8, m: u8, k: u8) -> bool {
    &&& (f | m) & k == (if k == m { k } else { f & k })
    &&& (f & !m) & k == (if k == m { 0u8 } else { f & k })
}

proof fn lemma_bits_set_reset(f: u8, m: u8)
    by (bit_vector)
    requires
        is_bit(m),
    ensures
        bit_kept(f, m, 0x80),
        bit_kept(f, m, 0x40),
        bit_kept(f, m, 0x20),
        bit_kept(f, m, 0x10),
        bit_kept(f, m, 0x08),
        bit_kept(f, m, 0x04),
        bit_kept(f, m, 0x02),
        bit_kept(f, m, 0x01),
{
}

/// A flag byte is determined by the conditions it holds.
pub proof fn lemma_pack_flags_of(f: u8)
    ensures
        pack(flags_of(f)) == f,
{
    lemma_bits_roundtrip(f);
}

/// Packing conditions into a byte and reading them back changes nothing.
pub proof fn lemma_flags_of_pack(fl: Flags)
    ensures
        flags_of(pack(fl)) == fl,
{
    lemma_bits_unpack(
        fl.sign,
        fl.zero,
        fl.bit5,
        fl.half_carry,
        fl.bit3,
        fl.parity_overflow,
        fl.subtract,
        fl.carry,
    );
}

/// Setting or clearing one flag's bit changes that condition and no other.
pub proof fn lemma_set_reset(f: u8, mask: u8, cond: bool)
    requires
        is_flag(mask),
    ensures
        flags_of(if cond { f | mask } else { f & !mask }) == with_flag(flags_of(f), mask, cond),
{
    lemma_bits_set_reset(f, mask);
}

proof fn lemma_bits_halve(v: u8)
    by (bit_vector)
    ensures
        v & 1 == v % 2,
        v >> 1 == v / 2,
{
}

impl Z80 {
    /// The conditions that the flag register holds.
    pub open spec fn flags(self) -> Flags {
        flags_of(self.f)
    }

    /// The state with the flag register holding exactly `fl`.
    pub open spec fn with_flags(self, fl: Flags) -> Z80 {
        Z80 { f: pack(fl), ..self }
    }

    /// 1 where any bit of `flag` is set in the flag register, else 0.
    pub fn get_flag(&self, flag: u8) -> (res: u8)
        ensures
            res == (if self.f & flag != 0 { 1u8 } else { 0u8 }),
    {
        let eval = self.f & flag != 0;
        match eval {
            true => 1,
            false => 0,
        }
    }

    /// Sets the bits of `flag`; the other bits keep their values.
    pub fn set_flag(&mut self, flag: u8)
        ensures
            *final(self) == (Z80 { f: old(self).f | flag, ..*old(self) }),
            is_flag(flag) ==> final(self).flags() == with_flag(old(self).flags(), flag, true),
    {
        proof {
            if is_flag(flag) {
                lemma_set_reset(self.f, flag, true);
            }
        }
        self.f = self.f | flag;
    }

    /// Clears the bits of `flag`; the other bits keep their values.
    pub fn reset_flag(&mut self, flag: u8)
        ensures
            *final(self) == (Z80 { f: old(self).f & !flag, ..*old(self) }),
            is_flag(flag) ==> final(self).flags() == with_flag(old(self).flags(), flag, false),
    {
        proof {
            if is_flag(flag) {
                lemma_set_reset(self.f, flag, false);
            }
        }
        self.f = self.f & !flag;
    }

    /// Sets the bits of `flag` where `cond` holds and clears them where it
    /// does not; the other bits keep their values.
    pub fn set_reset_flag(&mut self, cond: bool, flag: u8)
        ensures
            *final(self) == (Z80 {
                f: if cond {
                    old(self).f | flag
                } else {
                    old(self).f & !flag
                },
                ..*old(self)
            }),
            is_flag(flag) ==> final(self).flags() == with_flag(old(self).flags(), flag, cond),
    {
        if cond {
            self.set_flag(flag);
        } else {
            self.reset_flag(flag);
        }
    }

    /// Whether any bit of `flag` is set in `flag_container`.
    pub fn check_flag(flag_container: u8, flag: u8) -> (res: bool)
        ensures
            res == (flag_container & flag != 0),
    {
        flag_container & flag != 0
    }

    /// Whether `byte` has an even number of one bits.
    pub fn check_byte_parity(byte: u8) -> (res: bool)
        ensures
            res == parity_even(byte),
    {
        let mut res = true;
        let mut partial = byte;
        while partial > 0
            invariant
                parity_even(byte) == (res == (count_ones(partial as nat) % 2 == 0)),
            decreases partial,
        {
            proof {
                lemma_bits_halve(partial);
            }
            if partial & 1 == 1 {
                res = !res;
            }
            partial = partial >> 1;
        }
        res
    }

    /// The flag register as eight conditions.
    pub fn get_flags(&self) -> (fl: Flags)
        ensures
            fl == self.flags(),
    {
        Flags {
            sign: Z80::check_flag(self.f, S),
            zero: Z80::check_flag(self.f, Z),
            bit5: Z80::check_flag(self.f, BIT_5),
            half_carry: Z80::check_flag(self.f, H),
            bit3: Z80::check_flag(self.f, BIT_3),
            parity_overflow: Z80::check_flag(self.f, P_V),
            subtract: Z80::check_flag(self.f, N),
            carry: Z80::check_flag(self.f, C),
        }
    }
}

} // verus!
