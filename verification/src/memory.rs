//! The byte-addressable 64K store that the processor reads and writes.

use vstd::prelude::*;

verus! {

/// Number of addressable bytes.
pub const MEMORY_SIZE: usize = 65536;

/// Number of bytes a ROM image occupies, from address 0 up.
pub const ROM_SIZE: usize = 16384;

/// A flat 64K memory. Every 16-bit address is valid.
#[allow(non_camel_case_types)]
pub struct memory {
    contents: [u8; 65536],
}

impl View for memory {
    type V = Seq<u8>;

    /// The 65536 bytes, indexed by address.
    closed spec fn view(&self) -> Seq<u8> {
        self.contents@
    }
}

impl memory {
    /// The view always holds exactly one byte per address.
    pub proof fn lemma_len(&self)
        ensures
            self@.len() == MEMORY_SIZE,
    {
    }

    /// A memory with every byte zero.
    pub fn new() -> (out: memory)
        ensures
            out@.len() == MEMORY_SIZE,
            forall|a: int| 0 <= a < MEMORY_SIZE ==> out@[a] == 0u8,
    {
        memory { contents: [0u8; 65536] }
    }

    /// The byte stored at `addr`.
    pub fn peek(&self, addr: u16) -> (value: u8)
        ensures
            value == self@[addr as int],
    {
        self.contents[addr as usize]
    }

    /// Stores `value` at `addr`; every other byte keeps its value.
    pub fn poke(&mut self, addr: u16, value: u8)
        ensures
            final(self)@ == old(self)@.update(addr as int, value),
            final(self)@.len() == MEMORY_SIZE,
            final(self)@[addr as int] == value,
    {
        self.contents[addr as usize] = value;
    }

    /// Copies a 16K ROM image to addresses `0..ROM_SIZE`; the bytes above
    /// keep their values.
    pub fn load_rom(&mut self, rom: &[u8])
        requires
            rom@.len() == ROM_SIZE,
        ensures
            final(self)@.len() == MEMORY_SIZE,
            forall|a: int| 0 <= a < ROM_SIZE ==> final(self)@[a] == rom@[a],
            forall|a: int| ROM_SIZE <= a < MEMORY_SIZE ==> final(self)@[a] == old(self)@[a],
    {
        let mut i: usize = 0;
        while i < ROM_SIZE
            invariant
                i <= ROM_SIZE,
                rom@.len() == ROM_SIZE,
                self@.len() == MEMORY_SIZE,
                forall|a: int| 0 <= a < i ==> self@[a] == rom@[a],
                forall|a: int| i <= a < MEMORY_SIZE ==> self@[a] == old(self)@[a],
            decreases ROM_SIZE - i,
        {
            self.contents[i] = rom[i];
            i = i + 1;
        }
    }
}

} // verus!
