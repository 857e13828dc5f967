use z80emu::flags::{C, H, N, P_V, S, Z};
use z80emu::memory::memory;
use z80emu::z80::{OpCodePrefix, UnimplementedOpcode, Z80};

fn machine(program: &[u8]) -> (Z80, memory) {
    let mut mem = memory::new();
    for (i, b) in program.iter().enumerate() {
        mem.poke(i as u16, *b);
    }
    (Z80::new(), mem)
}

fn steps(cpu: &mut Z80, mem: &mut memory, n: usize) {
    for _ in 0..n {
        cpu.exec(mem);
    }
}

#[test]
fn load_then_xor_clears_accumulator() {
    let (mut cpu, mut mem) = machine(&[0x3E, 0x05, 0xAF]);
    cpu.exec(&mut mem);
    assert_eq!(cpu.a, 0x05);
    assert_eq!(cpu.pc, 2);
    cpu.exec(&mut mem);
    assert_eq!(cpu.a, 0x00);
    assert_eq!(cpu.f & Z, Z);
    assert_eq!(cpu.f & S, 0);
    assert_eq!(cpu.f & P_V, P_V);
    assert_eq!(cpu.f & (C | N | H), 0);
    assert_eq!(cpu.pc, 3);
}

#[test]
fn index_x_prefix_loads_index_register() {
    let (mut cpu, mut mem) = machine(&[0xDD, 0x21, 0x34, 0x12]);
    cpu.h = 0xAB;
    cpu.l = 0xCD;
    steps(&mut cpu, &mut mem, 4);
    assert_eq!(cpu.ix_h, 0x12);
    assert_eq!(cpu.ix_l, 0x34);
    assert_eq!(cpu.h, 0xAB);
    assert_eq!(cpu.l, 0xCD);
    assert_eq!(cpu.opcode_prefix, OpCodePrefix::Unprefixed);
}

#[test]
fn index_x_prefix_takes_two_steps() {
    let (mut cpu, mut mem) = machine(&[0xDD, 0x21, 0x34, 0x12]);
    cpu.exec(&mut mem);
    assert_eq!(cpu.opcode_prefix, OpCodePrefix::DD);
    assert_eq!(cpu.pc, 1);
    assert_eq!((cpu.ix_h, cpu.ix_l), (0, 0));
    cpu.exec(&mut mem);
    assert_eq!(cpu.opcode_prefix, OpCodePrefix::Unprefixed);
    assert_eq!(cpu.pc, 4);
    assert_eq!((cpu.ix_h, cpu.ix_l), (0x12, 0x34));
    assert_eq!(cpu.r, 2);
}

#[test]
fn increment_wraps_b_to_zero() {
    let (mut cpu, mut mem) = machine(&[0x06, 0xFF, 0x04]);
    steps(&mut cpu, &mut mem, 2);
    assert_eq!(cpu.b, 0x00);
    assert_eq!(cpu.f & Z, Z);
    assert_eq!(cpu.f & H, H);
    assert_eq!(cpu.f & P_V, 0);
    assert_eq!(cpu.f & S, 0);
    assert_eq!(cpu.f & N, 0);
}

#[test]
fn bit_test_of_set_bit_clears_zero() {
    let (mut cpu, mut mem) = machine(&[0xCB, 0x7F]);
    cpu.a = 0x80;
    cpu.f = N | C;
    steps(&mut cpu, &mut mem, 2);
    assert_eq!(cpu.f & Z, 0);
    assert_eq!(cpu.f & H, H);
    assert_eq!(cpu.f & N, 0);
    assert_eq!(cpu.f & C, C);
    assert_eq!(cpu.a, 0x80);
}

#[test]
fn extended_byte_without_handler_is_fatal() {
    let (mut cpu, mut mem) = machine(&[0xED, 0x00]);
    cpu.a = 0x11;
    cpu.b = 0x22;
    cpu.h = 0x33;
    cpu.f = 0x44;
    cpu.sp = 0x5566;
    let before = cpu;
    steps(&mut cpu, &mut mem, 2);
    assert!(cpu.halt);
    assert!(!cpu.halted);
    assert_eq!(
        cpu.fault,
        Some(UnimplementedOpcode { prefix: OpCodePrefix::ED, byte: 0x00 })
    );
    assert_eq!(cpu.pc, 2);
    let expected = Z80 {
        halt: true,
        fault: cpu.fault,
        pc: 2,
        r: 2,
        ..before
    };
    assert_eq!(cpu, expected);
    // A stopped processor stays as it is.
    cpu.exec(&mut mem);
    assert_eq!(cpu, expected);
}
