//! The execution cycle: what one step does, stated over the fields of the
//! opcode byte, and the four dispatch tables that do it.

use crate::alu::{bit8, res8, set8, AluOp, RotOp};
use crate::control::Cond;
use crate::memory::memory;
use crate::z80::{
    displace, Machine, OpCodePrefix, Operand, Reg16, StackPair, UnimplementedOpcode, Z80,
};
use vstd::prelude::*;

verus! {

/// Bits 7 and 6 of an opcode byte.
pub open spec fn field_x(byte: u8) -> int {
    byte as int / 64
}

/// Bits 5 to 3 of an opcode byte.
pub open spec fn field_y(byte: u8) -> int {
    (byte as int / 8) % 8
}

/// Bits 2 to 0 of an opcode byte.
pub open spec fn field_z(byte: u8) -> int {
    byte as int % 8
}

/// Bits 5 and 4 of an opcode byte.
pub open spec fn field_p(byte: u8) -> int {
    (byte as int / 16) % 4
}

/// Bit 3 of an opcode byte.
pub open spec fn field_q(byte: u8) -> int {
    (byte as int / 8) % 2
}

/// The 8-bit operand that a three-bit field names.
pub open spec fn operand_of(i: int) -> Operand {
    if i == 0 {
        Operand::B
    } else if i == 1 {
        Operand::C
    } else if i == 2 {
        Operand::D
    } else if i == 3 {
        Operand::E
    } else if i == 4 {
        Operand::H
    } else if i == 5 {
        Operand::L
    } else if i == 6 {
        Operand::AtHl
    } else {
        Operand::A
    }
}

/// The register pair that a two-bit field names.
pub open spec fn rp_of(p: int) -> Reg16 {
    if p == 0 {
        Reg16::BC
    } else if p == 1 {
        Reg16::DE
    } else if p == 2 {
        Reg16::HL
    } else {
        Reg16::SP
    }
}

/// The stack pair that a two-bit field names.
pub open spec fn qq_of(p: int) -> StackPair {
    if p == 0 {
        StackPair::BC
    } else if p == 1 {
        StackPair::DE
    } else if p == 2 {
        StackPair::HL
    } else {
        StackPair::AF
    }
}

/// The condition that a three-bit field names.
pub open spec fn cc_of(y: int) -> Cond {
    if y == 0 {
        Cond::NZ
    } else if y == 1 {
        Cond::Z
    } else if y == 2 {
        Cond::NC
    } else if y == 3 {
        Cond::C
    } else if y == 4 {
        Cond::PO
    } else if y == 5 {
        Cond::PE
    } else if y == 6 {
        Cond::P
    } else {
        Cond::M
    }
}

/// The accumulator operation that a three-bit field names.
pub open spec fn alu_of(y: int) -> AluOp {
    if y == 0 {
        AluOp::Add
    } else if y == 1 {
        AluOp::Adc
    } else if y == 2 {
        AluOp::Sub
    } else if y == 3 {
        AluOp::Sbc
    } else if y == 4 {
        AluOp::And
    } else if y == 5 {
        AluOp::Xor
    } else if y == 6 {
        AluOp::Or
    } else {
        AluOp::Cp
    }
}

/// The rotate or shift that a three-bit field names.
pub open spec fn rot_of(y: int) -> RotOp {
    if y == 0 {
        RotOp::Rlc
    } else if y == 1 {
        RotOp::Rrc
    } else if y == 2 {
        RotOp::Rl
    } else if y == 3 {
        RotOp::Rr
    } else if y == 4 {
        RotOp::Sla
    } else if y == 5 {
        RotOp::Sra
    } else if y == 6 {
        RotOp::Sll
    } else {
        RotOp::Srl
    }
}

/// The outcome of an instruction that leaves memory as it is.
pub open spec fn keep(cpu: Z80, mem: Seq<u8>) -> Machine {
    Machine { cpu, mem }
}

/// The main table's opcodes `0x00..=0x3F`.
pub open spec fn main_op_low(cpu: Z80, mem: Seq<u8>, byte: u8) -> Machine {
    let y = field_y(byte);
    let z = field_z(byte);
    let p = field_p(byte);
    let q = field_q(byte);
    if z == 0 {
        if y == 0 {
            keep(cpu, mem)
        } else if y == 1 {
            keep(cpu.after_ex_af_af_alt(), mem)
        } else if y == 2 {
            keep(cpu.after_djnz(mem), mem)
        } else if y == 3 {
            keep(cpu.after_jr(mem, true), mem)
        } else {
            keep(cpu.after_jr(mem, cpu.cond(cc_of(y - 4))), mem)
        }
    } else if z == 1 {
        if q == 0 {
            keep(cpu.after_ld_dd_nn(mem, rp_of(p)), mem)
        } else {
            keep(cpu.after_add_hl(cpu.pair(rp_of(p))), mem)
        }
    } else if z == 2 {
        if y == 0 {
            cpu.after_ld_at_rp_a(mem, Reg16::BC)
        } else if y == 1 {
            keep(cpu.after_ld_a_at_rp(mem, Reg16::BC), mem)
        } else if y == 2 {
            cpu.after_ld_at_rp_a(mem, Reg16::DE)
        } else if y == 3 {
            keep(cpu.after_ld_a_at_rp(mem, Reg16::DE), mem)
        } else if y == 4 {
            cpu.after_ld_nn_dd(mem, Reg16::HL)
        } else if y == 5 {
            keep(cpu.after_ld_dd_at_nn(mem, Reg16::HL), mem)
        } else if y == 6 {
            cpu.after_ld_at_nn_a(mem)
        } else {
            keep(cpu.after_ld_a_at_nn(mem), mem)
        }
    } else if z == 3 {
        if q == 0 {
            keep(cpu.after_inc_ss(rp_of(p)), mem)
        } else {
            keep(cpu.after_dec_ss(rp_of(p)), mem)
        }
    } else if z == 4 {
        cpu.after_inc(mem, operand_of(y))
    } else if z == 5 {
        cpu.after_dec(mem, operand_of(y))
    } else if z == 6 {
        cpu.after_ld_n(mem, operand_of(y))
    } else if y < 4 {
        keep(cpu.after_rot_a(rot_of(y)), mem)
    } else if y == 4 {
        keep(cpu.after_daa(), mem)
    } else if y == 5 {
        keep(cpu.after_cpl(), mem)
    } else if y == 6 {
        keep(cpu.after_scf(), mem)
    } else {
        keep(cpu.after_ccf(), mem)
    }
}

/// The main table's opcodes `0xC0..=0xFF`.
pub open spec fn main_op_high(cpu: Z80, mem: Seq<u8>, byte: u8) -> Machine {
    let y = field_y(byte);
    let z = field_z(byte);
    let p = field_p(byte);
    let q = field_q(byte);
    if z == 0 {
        keep(cpu.after_ret(mem, cpu.cond(cc_of(y))), mem)
    } else if z == 1 {
        if q == 0 {
            keep(cpu.after_pop(mem, qq_of(p)), mem)
        } else if p == 0 {
            keep(cpu.after_ret(mem, true), mem)
        } else if p == 1 {
            keep(cpu.after_exx(), mem)
        } else if p == 2 {
            keep(cpu.after_jp_at_hl(), mem)
        } else {
            keep(cpu.after_ld_sp_hl(), mem)
        }
    } else if z == 2 {
        keep(cpu.after_jp(mem, cpu.cond(cc_of(y))), mem)
    } else if z == 3 {
        if y == 0 {
            keep(cpu.after_jp(mem, true), mem)
        } else if y == 2 {
            keep(cpu.after_out_n_a(), mem)
        } else if y == 4 {
            cpu.after_ex_at_sp_hl(mem)
        } else if y == 5 {
            keep(cpu.after_ex_de_hl(), mem)
        } else if y == 6 {
            keep(cpu.after_interrupts(false), mem)
        } else {
            keep(cpu.after_interrupts(true), mem)
        }
    } else if z == 4 {
        cpu.after_call(mem, cpu.cond(cc_of(y)))
    } else if z == 5 {
        if q == 0 {
            cpu.after_push(mem, qq_of(p))
        } else {
            cpu.after_call(mem, true)
        }
    } else if z == 6 {
        keep(cpu.after_alu_n(mem, alu_of(y)), mem)
    } else {
        cpu.after_rst(mem, (y * 8) as u16)
    }
}

/// Whether the main table has a handler for `byte`: it has one for every
/// byte but the four prefix bytes and `0xDB`.
pub open spec fn main_handles(byte: u8) -> bool {
    byte != 0xCB && byte != 0xDB && byte != 0xDD && byte != 0xED && byte != 0xFD
}

/// What the opcode `byte` of the main table does to a processor that has
/// fetched it. It says nothing of a byte that the table has no handler for.
pub open spec fn main_op(cpu: Z80, mem: Seq<u8>, byte: u8) -> Machine {
    let x = field_x(byte);
    if x == 0 {
        main_op_low(cpu, mem, byte)
    } else if x == 1 {
        if byte == 0x76 {
            keep(cpu.after_halt(), mem)
        } else {
            cpu.after_ld(mem, operand_of(field_y(byte)), operand_of(field_z(byte)))
        }
    } else if x == 2 {
        keep(cpu.after_alu_operand(mem, alu_of(field_y(byte)), operand_of(field_z(byte))), mem)
    } else {
        main_op_high(cpu, mem, byte)
    }
}

/// Whether a three-bit operand field names `H`, `L` or `(HL)`.
pub open spec fn names_hl(i: int) -> bool {
    i == 4 || i == 5 || i == 6
}

/// Whether the main table's opcode `byte` names `H`, `L`, `HL` or `(HL)`:
/// these opcodes, and no others, have a form in the index states. The
/// exchange of `DE` and `HL` always acts on the primary pair and is not
/// among them.
pub open spec fn refers_to_hl(byte: u8) -> bool {
    let x = field_x(byte);
    let y = field_y(byte);
    let z = field_z(byte);
    if x == 0 {
        ||| z == 1 && field_q(byte) == 1
        ||| field_p(byte) == 2 && (z == 1 || z == 2 || z == 3)
        ||| (z == 4 || z == 5 || z == 6) && names_hl(y)
    } else if x == 1 {
        byte != 0x76 && (names_hl(y) || names_hl(z))
    } else if x == 2 {
        names_hl(z)
    } else {
        byte == 0xE1 || byte == 0xE3 || byte == 0xE5 || byte == 0xE9 || byte == 0xF9
    }
}

/// What the opcode `byte` of the bit-operations table does.
pub open spec fn bit_op(cpu: Z80, mem: Seq<u8>, byte: u8) -> Machine {
    let x = field_x(byte);
    let n = field_y(byte) as u8;
    let operand = operand_of(field_z(byte));
    if x == 0 {
        cpu.after_rot(mem, rot_of(field_y(byte)), operand)
    } else if x == 1 {
        keep(cpu.after_bit(mem, n, operand), mem)
    } else if x == 2 {
        cpu.after_res(mem, n, operand)
    } else {
        cpu.after_set(mem, n, operand)
    }
}

/// What the opcode `opcode` of the combined index and bit-operations table
/// does to the byte `v` read at `addr`. Tests, resets and sets ignore the
/// register field of the opcode.
pub open spec fn index_bit_op(cpu: Z80, mem: Seq<u8>, opcode: u8, addr: u16, v: u8) -> Machine {
    let x = field_x(opcode);
    let n = field_y(opcode) as u8;
    if x == 0 {
        cpu.after_rot_ixy(mem, rot_of(field_y(opcode)), operand_of(field_z(opcode)), addr, v)
    } else if x == 1 {
        keep(cpu.with_flags(bit8(n, v, cpu.flags())), mem)
    } else if x == 2 {
        Machine { cpu, mem: mem.update(addr as int, res8(n, v)) }
    } else {
        Machine { cpu, mem: mem.update(addr as int, set8(n, v)) }
    }
}

/// Whether the extended table has a handler for `byte`.
pub open spec fn ext_handles(byte: u8) -> bool {
    let y = field_y(byte);
    let z = field_z(byte);
    ||| field_x(byte) == 1 && (z == 2 || z == 3 || z == 4 || (z == 5 && field_q(byte) == 0) || (z
        == 7 && y <= 4))
    ||| byte == 0xB8
}

/// What the opcode `byte` of the extended table does. It says nothing of a
/// byte that the table has no handler for.
pub open spec fn ext_op(cpu: Z80, mem: Seq<u8>, byte: u8) -> Machine {
    let y = field_y(byte);
    let z = field_z(byte);
    let p = field_p(byte);
    let q = field_q(byte);
    if byte == 0xB8 {
        cpu.after_lddr(mem)
    } else if z == 2 {
        if q == 0 {
            keep(cpu.after_sbc_hl(cpu.pair(rp_of(p))), mem)
        } else {
            keep(cpu.after_adc_hl(cpu.pair(rp_of(p))), mem)
        }
    } else if z == 3 {
        if q == 0 {
            cpu.after_ld_nn_dd(mem, rp_of(p))
        } else {
            keep(cpu.after_ld_dd_at_nn(mem, rp_of(p)), mem)
        }
    } else if z == 4 {
        keep(cpu.after_neg(), mem)
    } else if z == 5 {
        keep(cpu.after_ret(mem, true), mem)
    } else if y == 0 {
        keep(cpu.after_ld_i_a(), mem)
    } else if y == 1 {
        keep(cpu.after_ld_r_a(), mem)
    } else if y == 2 {
        keep(cpu.after_ld_a_ir(cpu.i), mem)
    } else if y == 3 {
        keep(cpu.after_ld_a_ir(cpu.r), mem)
    } else {
        cpu.after_rrd(mem)
    }
}

/// The fatal condition for `byte`: it is raised and records the byte with
/// the prefix state it was fetched in; nothing else changes.
pub open spec fn raised(cpu: Z80, byte: u8) -> Z80 {
    Z80 {
        halt: true,
        fault: Some(UnimplementedOpcode { prefix: cpu.opcode_prefix, byte }),
        ..cpu
    }
}

/// A table lookup: the handler's outcome where the table has a handler,
/// else the fatal condition.
pub open spec fn lookup(
    handles: bool,
    outcome: Machine,
    cpu: Z80,
    mem: Seq<u8>,
    byte: u8,
) -> Machine {
    if handles {
        outcome
    } else {
        Machine { cpu: raised(cpu, byte), mem }
    }
}

/// The end of an instruction: the prefix state returns to none.
pub open spec fn done(m: Machine) -> Machine {
    Machine { cpu: Z80 { opcode_prefix: OpCodePrefix::Unprefixed, ..m.cpu }, mem: m.mem }
}

/// A consumed prefix byte: the prefix state becomes `prefix`.
pub open spec fn prefixed(cpu: Z80, mem: Seq<u8>, prefix: OpCodePrefix) -> Machine {
    Machine { cpu: Z80 { opcode_prefix: prefix, ..cpu }, mem }
}

/// The step of a processor without pending prefix that has fetched `byte`.
pub open spec fn no_prefix_step(cpu: Z80, mem: Seq<u8>, byte: u8) -> Machine {
    if byte == 0xCB {
        prefixed(cpu, mem, OpCodePrefix::CB)
    } else if byte == 0xDD {
        prefixed(cpu, mem, OpCodePrefix::DD)
    } else if byte == 0xED {
        prefixed(cpu, mem, OpCodePrefix::ED)
    } else if byte == 0xFD {
        prefixed(cpu, mem, OpCodePrefix::FD)
    } else {
        done(lookup(main_handles(byte), main_op(cpu, mem, byte), cpu, mem, byte))
    }
}

/// The step of a processor in an index state that has fetched `byte`: a
/// prefix byte changes the prefix state, an opcode that names `H`, `L`,
/// `HL` or `(HL)` does what the main table says, with the addressing
/// resolver substituting the index register, and any other byte raises the
/// fatal condition.
pub open spec fn index_step(cpu: Z80, mem: Seq<u8>, byte: u8) -> Machine {
    if byte == 0xCB {
        prefixed(
            cpu,
            mem,
            if cpu.opcode_prefix == OpCodePrefix::FD {
                OpCodePrefix::FdCb
            } else {
                OpCodePrefix::DdCb
            },
        )
    } else if byte == 0xDD {
        prefixed(cpu, mem, OpCodePrefix::DD)
    } else if byte == 0xED {
        prefixed(cpu, mem, OpCodePrefix::ED)
    } else if byte == 0xFD {
        prefixed(cpu, mem, OpCodePrefix::FD)
    } else {
        done(lookup(refers_to_hl(byte), main_op(cpu, mem, byte), cpu, mem, byte))
    }
}

/// The step of a processor in a combined index and bit-operations state
/// that has fetched the displacement `d`: the opcode byte follows it, and
/// acts on the byte at the index register plus `d`.
pub open spec fn index_bit_step(cpu: Z80, mem: Seq<u8>, d: u8) -> Machine {
    let addr = displace(cpu.pair_hl(), d);
    done(index_bit_op(cpu.advance(1), mem, cpu.imm8(mem), addr, mem[addr as int]))
}

/// Whether the processor has stopped: by `HALT`, or by the fatal condition.
pub open spec fn stopped(cpu: Z80) -> bool {
    cpu.halt || cpu.halted
}

/// One step of the execution cycle. A stopped processor stays as it is.
/// Otherwise the byte at the program counter is fetched, the refresh
/// register goes up by one, and the byte is dispatched by the prefix state:
/// it is consumed as a prefix, or completes an instruction, after which the
/// prefix state is none again.
pub open spec fn step(cpu: Z80, mem: Seq<u8>) -> Machine {
    if stopped(cpu) {
        Machine { cpu, mem }
    } else {
        let byte = cpu.imm8(mem);
        let fetched = Z80 { r: cpu.r.wrapping_add(1), ..cpu.advance(1) };
        match fetched.opcode_prefix {
            OpCodePrefix::Unprefixed => no_prefix_step(fetched, mem, byte),
            OpCodePrefix::DD | OpCodePrefix::FD => index_step(fetched, mem, byte),
            OpCodePrefix::CB => done(bit_op(fetched, mem, byte)),
            OpCodePrefix::FdCb | OpCodePrefix::DdCb => index_bit_step(fetched, mem, byte),
            OpCodePrefix::ED => done(
                lookup(ext_handles(byte), ext_op(fetched, mem, byte), fetched, mem, byte),
            ),
        }
    }
}

impl Z80 {
    /// Whether the processor has stopped: by `HALT`, or by the fatal
    /// condition. A driver stops stepping when this holds.
    pub fn is_stopped(&self) -> (res: bool)
        ensures
            res == stopped(*self),
    {
        self.halt || self.halted
    }

    /// Raises the fatal condition for `byte`.
    pub fn unimplemented(&mut self, byte: u8)
        ensures
            *final(self) == raised(*old(self), byte),
    {
        self.halt = true;
        self.fault = Some(UnimplementedOpcode { prefix: self.opcode_prefix, byte });
    }

    /// Performs one step of the execution cycle.
    pub fn exec(&mut self, mem: &mut memory)
        ensures
            (Machine { cpu: *final(self), mem: final(mem)@ }) == step(*old(self), old(mem)@),
    {
        if self.is_stopped() {
            return ;
        }
        let byte = self.read_bus(mem);
        self.r = Z80::inc_single_register(self.r);
        match self.opcode_prefix {
            OpCodePrefix::Unprefixed => self.exec_no_prefix(mem, byte),
            OpCodePrefix::DD | OpCodePrefix::FD => self.exec_dd_or_fd_prefix(mem, byte),
            OpCodePrefix::CB => self.exec_cb_prefix(mem, byte),
            OpCodePrefix::FdCb | OpCodePrefix::DdCb => self.exec_fd_cb_prefix(mem, byte),
            OpCodePrefix::ED => self.exec_ed_prefix(mem, byte),
        };
    }

    /// The step of a processor without pending prefix that has fetched
    /// `byte`.
    pub fn exec_no_prefix(&mut self, mem: &mut memory, byte: u8)
        ensures
            (Machine { cpu: *final(self), mem: final(mem)@ }) == no_prefix_step(
                *old(self),
                old(mem)@,
                byte,
            ),
    {
        let mut new_prefix = OpCodePrefix::Unprefixed;
        match byte {
            0xCB => new_prefix = OpCodePrefix::CB,
            0xDD => new_prefix = OpCodePrefix::DD,
            0xED => new_prefix = OpCodePrefix::ED,
            0xFD => new_prefix = OpCodePrefix::FD,
            _ => self.main_table(mem, byte),
        }
        self.opcode_prefix = new_prefix;
    }

    /// The step of a processor in an index state that has fetched `byte`.
    pub fn exec_dd_or_fd_prefix(&mut self, mem: &mut memory, byte: u8)
        ensures
            (Machine { cpu: *final(self), mem: final(mem)@ }) == index_step(
                *old(self),
                old(mem)@,
                byte,
            ),
    {
        let mut new_prefix = OpCodePrefix::Unprefixed;
        match byte {
            0xCB => {
                new_prefix =
                match self.opcode_prefix {
                    OpCodePrefix::FD => OpCodePrefix::FdCb,
                    _ => OpCodePrefix::DdCb,
                }
            },
            0xDD => new_prefix = OpCodePrefix::DD,
            0xED => new_prefix = OpCodePrefix::ED,
            0xFD => new_prefix = OpCodePrefix::FD,
            _ => self.index_table(mem, byte),
        }
        self.opcode_prefix = new_prefix;
    }

    /// The step of a processor in the bit-operations state that has fetched
    /// `byte`.
    pub fn exec_cb_prefix(&mut self, mem: &mut memory, byte: u8)
        ensures
            (Machine { cpu: *final(self), mem: final(mem)@ }) == done(
                bit_op(*old(self), old(mem)@, byte),
            ),
    {
        self.bit_table(mem, byte);
        self.opcode_prefix = OpCodePrefix::Unprefixed;
    }

    /// The step of a processor in a combined index and bit-operations state
    /// that has fetched the displacement `byte`.
    pub fn exec_fd_cb_prefix(&mut self, mem: &mut memory, byte: u8)
        ensures
            (Machine { cpu: *final(self), mem: final(mem)@ }) == index_bit_step(
                *old(self),
                old(mem)@,
                byte,
            ),
    {
        let addr = Z80::add_displacement(self.get_hl(), byte);
        let op = mem.peek(addr);
        let op_code = self.read_bus(mem);
        self.index_bit_table(mem, op_code, addr, op);
        self.opcode_prefix = OpCodePrefix::Unprefixed;
    }

    /// The step of a processor in the extended state that has fetched
    /// `byte`.
    pub fn exec_ed_prefix(&mut self, mem: &mut memory, byte: u8)
        ensures
            (Machine { cpu: *final(self), mem: final(mem)@ }) == done(
                lookup(
                    ext_handles(byte),
                    ext_op(*old(self), old(mem)@, byte),
                    *old(self),
                    old(mem)@,
                    byte,
                ),
            ),
    {
        self.ext_table(mem, byte);
        self.opcode_prefix = OpCodePrefix::Unprefixed;
    }
}

} // verus!
