//! A Z80-class processor core, verified with Verus.
//!
//! One call of [`z80::Z80::exec`] fetches one byte at the program counter
//! and dispatches it by the prefix state: the byte is consumed as a prefix,
//! or completes an instruction. What a step does is defined by
//! [`exec::step`], over the fields of the opcode byte and the semantics of
//! each instruction; the dispatch tables and the handlers are proved to do
//! exactly that.
//!
//! * [`memory`]: the flat 64K store.
//! * [`flags`]: the flag register, its bit layout and its view as eight
//!   conditions.
//! * [`z80`]: the register file, the prefix state and the addressing
//!   resolver.
//! * [`alu`]: what the arithmetic, logic, rotate and bit operations
//!   compute, and the cores that compute it.
//! * [`load`], [`arith`], [`bits`], [`control`]: the instruction handlers.
//! * [`exec`]: the execution cycle and the meaning of the opcode bytes.
//! * [`main_table`], [`index_table`], [`bit_table`], [`index_bit_table`],
//!   [`ext_table`]: the dispatch tables.
//! * [`laws`], [`index_laws`], [`frame`]: laws of the instruction set.
//! * [`screen`]: decoding of the display file into pixels.
//!
//! Three choices shape the model. A processor that has executed `HALT`, or
//! has fetched a byte without handler, is stopped: further steps leave it
//! as it is until a driver clears the condition. In the index states the
//! addressing resolver substitutes the index register for every `H`, `L`,
//! `HL` and `(HL)` that an opcode names, and opcodes that name none of them
//! have no handler there. Bits 3 and 5 of the flag register mirror the
//! result wherever Sign and Zero are derived from one, take the operand's
//! bits in a comparison, and are otherwise left alone.

pub mod memory;
pub mod flags;
pub mod z80;
pub mod alu;
pub mod load;
pub mod arith;
pub mod bits;
pub mod control;
pub mod exec;
pub mod main_table;
pub mod index_table;
pub mod bit_table;
pub mod index_bit_table;
pub mod ext_table;
pub mod laws;
pub mod index_laws;
pub mod frame;
pub mod screen;
