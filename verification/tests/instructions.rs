use z80emu::flags::{BIT_3, BIT_5, C, H, N, P_V, S, Z};
use z80emu::memory::memory;
use z80emu::z80::{OpCodePrefix, UnimplementedOpcode, Z80};

fn load(mem: &mut memory, at: u16, bytes: &[u8]) {
    for (i, b) in bytes.iter().enumerate() {
        mem.poke(at.wrapping_add(i as u16), *b);
    }
}

fn boot(program: &[u8]) -> (Z80, memory) {
    let mut mem = memory::new();
    load(&mut mem, 0, program);
    (Z80::new(), mem)
}

fn run(cpu: &mut Z80, mem: &mut memory, n: usize) {
    for _ in 0..n {
        cpu.exec(mem);
    }
}

#[test]
fn power_on_state() {
    let cpu = Z80::new();
    assert_eq!(cpu.pc, 0);
    assert_eq!(cpu.sp, 0xFFFF);
    assert_eq!((cpu.a, cpu.f, cpu.b, cpu.c, cpu.d, cpu.e, cpu.h, cpu.l), (0, 0, 0, 0, 0, 0, 0, 0));
    assert_eq!(
        (cpu.a_alt, cpu.f_alt, cpu.b_alt, cpu.c_alt, cpu.d_alt, cpu.e_alt, cpu.h_alt, cpu.l_alt),
        (0, 0, 0, 0, 0, 0, 0, 0)
    );
    assert_eq!((cpu.ix_h, cpu.ix_l, cpu.iy_h, cpu.iy_l, cpu.i, cpu.r), (0, 0, 0, 0, 0, 0));
    assert!(!cpu.iff1 && !cpu.iff2 && !cpu.halt && !cpu.halted);
    assert_eq!(cpu.opcode_prefix, OpCodePrefix::Unprefixed);
    assert_eq!(cpu.fault, None);
    assert!(!cpu.is_stopped());
}

#[test]
fn nop_moves_only_the_counters() {
    let (mut cpu, mut mem) = boot(&[0x00]);
    let before = cpu;
    cpu.exec(&mut mem);
    assert_eq!(cpu, Z80 { pc: 1, r: 1, ..before });
}

#[test]
fn refresh_register_and_program_counter_wrap() {
    let (mut cpu, mut mem) = boot(&[]);
    cpu.pc = 0xFFFF;
    cpu.r = 0xFF;
    cpu.exec(&mut mem);
    assert_eq!(cpu.pc, 0x0000);
    assert_eq!(cpu.r, 0x00);
}

#[test]
fn register_to_register_loads_copy_the_byte() {
    // LD B,C ; LD D,A ; LD L,A ; LD A,E ; LD H,B
    let (mut cpu, mut mem) = boot(&[0x41, 0x57, 0x6F, 0x7B, 0x60]);
    cpu.a = 0xA1;
    cpu.c = 0xC3;
    cpu.e = 0xE5;
    cpu.f = 0xD7;
    cpu.exec(&mut mem);
    assert_eq!(cpu.b, 0xC3);
    cpu.exec(&mut mem);
    assert_eq!(cpu.d, 0xA1);
    cpu.exec(&mut mem);
    assert_eq!(cpu.l, 0xA1);
    cpu.exec(&mut mem);
    assert_eq!(cpu.a, 0xE5);
    cpu.exec(&mut mem);
    assert_eq!(cpu.h, 0xC3);
    assert_eq!(cpu.f, 0xD7);
    assert_eq!(cpu.pc, 5);
}

#[test]
fn immediate_loads() {
    // LD B,n .. LD A,n in encoding order, with LD (HL),n among them.
    let (mut cpu, mut mem) = boot(&[
        0x26, 0x40, 0x2E, 0x10, 0x06, 0x01, 0x0E, 0x02, 0x16, 0x03, 0x1E, 0x04, 0x36, 0x99, 0x3E,
        0x07,
    ]);
    run(&mut cpu, &mut mem, 8);
    assert_eq!((cpu.h, cpu.l), (0x40, 0x10));
    assert_eq!((cpu.b, cpu.c, cpu.d, cpu.e, cpu.a), (1, 2, 3, 4, 7));
    assert_eq!(mem.peek(0x4010), 0x99);
    assert_eq!(cpu.pc, 16);
    assert_eq!(cpu.f, 0);
}

#[test]
fn sixteen_bit_immediate_loads_are_little_endian() {
    let (mut cpu, mut mem) =
        boot(&[0x01, 0x34, 0x12, 0x11, 0x78, 0x56, 0x21, 0xBC, 0x9A, 0x31, 0xF0, 0xDE]);
    run(&mut cpu, &mut mem, 4);
    assert_eq!((cpu.b, cpu.c), (0x12, 0x34));
    assert_eq!((cpu.d, cpu.e), (0x56, 0x78));
    assert_eq!((cpu.h, cpu.l), (0x9A, 0xBC));
    assert_eq!(cpu.sp, 0xDEF0);
    assert_eq!(cpu.pc, 12);
}

#[test]
fn loads_through_register_pairs() {
    // LD (BC),A ; LD (DE),A ; LD A,(BC) ; LD A,(DE)
    let (mut cpu, mut mem) = boot(&[0x02, 0x12, 0x0A, 0x1A]);
    cpu.a = 0x5A;
    cpu.b = 0x80;
    cpu.c = 0x01;
    cpu.d = 0x90;
    cpu.e = 0x02;
    run(&mut cpu, &mut mem, 2);
    assert_eq!(mem.peek(0x8001), 0x5A);
    assert_eq!(mem.peek(0x9002), 0x5A);
    mem.poke(0x8001, 0x11);
    mem.poke(0x9002, 0x22);
    cpu.exec(&mut mem);
    assert_eq!(cpu.a, 0x11);
    cpu.exec(&mut mem);
    assert_eq!(cpu.a, 0x22);
}

#[test]
fn loads_through_immediate_addresses() {
    // LD (0x8000),A ; LD A,(0x8002) ; LD (0x8010),HL ; LD HL,(0x8020)
    let (mut cpu, mut mem) = boot(&[
        0x32, 0x00, 0x80, 0x3A, 0x02, 0x80, 0x22, 0x10, 0x80, 0x2A, 0x20, 0x80,
    ]);
    cpu.a = 0x77;
    cpu.h = 0x12;
    cpu.l = 0x34;
    mem.poke(0x8002, 0x42);
    load(&mut mem, 0x8020, &[0xCD, 0xAB]);
    cpu.exec(&mut mem);
    assert_eq!(mem.peek(0x8000), 0x77);
    cpu.exec(&mut mem);
    assert_eq!(cpu.a, 0x42);
    cpu.exec(&mut mem);
    assert_eq!((mem.peek(0x8010), mem.peek(0x8011)), (0x34, 0x12));
    cpu.exec(&mut mem);
    assert_eq!((cpu.h, cpu.l), (0xAB, 0xCD));
    assert_eq!(cpu.pc, 12);
}

#[test]
fn word_store_wraps_at_the_top_of_memory() {
    // LD (0xFFFF),HL
    let (mut cpu, mut mem) = boot(&[0x22, 0xFF, 0xFF]);
    cpu.h = 0x12;
    cpu.l = 0x34;
    cpu.exec(&mut mem);
    assert_eq!(mem.peek(0xFFFF), 0x34);
    assert_eq!(mem.peek(0x0000), 0x12);
}

#[test]
fn memory_operand_loads() {
    // LD B,(HL) ; LD (HL),C ; LD SP,HL
    let (mut cpu, mut mem) = boot(&[0x46, 0x71, 0xF9]);
    cpu.h = 0x80;
    cpu.l = 0x00;
    cpu.c = 0xC3;
    mem.poke(0x8000, 0x5E);
    cpu.exec(&mut mem);
    assert_eq!(cpu.b, 0x5E);
    cpu.exec(&mut mem);
    assert_eq!(mem.peek(0x8000), 0xC3);
    cpu.exec(&mut mem);
    assert_eq!(cpu.sp, 0x8000);
}

#[test]
fn increments_and_decrements_of_registers() {
    // INC B ; DEC C ; INC A ; DEC A
    let (mut cpu, mut mem) = boot(&[0x04, 0x0D, 0x3C, 0x3D]);
    cpu.b = 0x7F;
    cpu.c = 0x80;
    cpu.a = 0x0F;
    cpu.f = C;
    cpu.exec(&mut mem);
    assert_eq!(cpu.b, 0x80);
    assert_eq!(cpu.f, S | H | P_V | C);
    cpu.exec(&mut mem);
    assert_eq!(cpu.c, 0x7F);
    assert_eq!(cpu.f, H | P_V | N | C | BIT_5 | BIT_3);
    cpu.exec(&mut mem);
    assert_eq!(cpu.a, 0x10);
    assert_eq!(cpu.f, H | C);
    cpu.exec(&mut mem);
    assert_eq!(cpu.a, 0x0F);
    assert_eq!(cpu.f, H | N | C | BIT_3);
}

#[test]
fn decrement_of_zero_wraps() {
    // DEC B for every 8-bit register code
    for (opcode, pick) in [
        (0x05u8, 0usize),
        (0x0D, 1),
        (0x15, 2),
        (0x1D, 3),
        (0x25, 4),
        (0x2D, 5),
        (0x3D, 6),
    ] {
        let (mut cpu, mut mem) = boot(&[opcode]);
        cpu.exec(&mut mem);
        let regs = [cpu.b, cpu.c, cpu.d, cpu.e, cpu.h, cpu.l, cpu.a];
        for (i, r) in regs.iter().enumerate() {
            assert_eq!(*r, if i == pick { 0xFF } else { 0x00 });
        }
        assert_eq!(cpu.f, S | H | N | BIT_5 | BIT_3);
    }
}

#[test]
fn increment_of_ff_wraps_in_every_register() {
    for (opcode, pick) in [
        (0x04u8, 0usize),
        (0x0C, 1),
        (0x14, 2),
        (0x1C, 3),
        (0x24, 4),
        (0x2C, 5),
        (0x3C, 6),
    ] {
        let (mut cpu, mut mem) = boot(&[opcode]);
        cpu.b = 0xFF;
        cpu.c = 0xFF;
        cpu.d = 0xFF;
        cpu.e = 0xFF;
        cpu.h = 0xFF;
        cpu.l = 0xFF;
        cpu.a = 0xFF;
        cpu.exec(&mut mem);
        let regs = [cpu.b, cpu.c, cpu.d, cpu.e, cpu.h, cpu.l, cpu.a];
        for (i, r) in regs.iter().enumerate() {
            assert_eq!(*r, if i == pick { 0x00 } else { 0xFF });
        }
        assert_eq!(cpu.f, Z | H);
    }
}

#[test]
fn increment_and_decrement_in_memory() {
    // INC (HL) ; DEC (HL) ; DEC (HL)
    let (mut cpu, mut mem) = boot(&[0x34, 0x35, 0x35]);
    cpu.h = 0x80;
    mem.poke(0x8000, 0xFF);
    cpu.exec(&mut mem);
    assert_eq!(mem.peek(0x8000), 0x00);
    assert_eq!(cpu.f, Z | H);
    cpu.exec(&mut mem);
    assert_eq!(mem.peek(0x8000), 0xFF);
    assert_eq!(cpu.f, S | H | N | BIT_5 | BIT_3);
    cpu.exec(&mut mem);
    assert_eq!(mem.peek(0x8000), 0xFE);
    assert_eq!(cpu.f, S | N | BIT_5 | BIT_3);
}

#[test]
fn pair_increments_and_decrements_touch_no_flag() {
    // INC BC ; INC DE ; INC HL ; INC SP ; DEC BC ; DEC DE ; DEC HL ; DEC SP
    let (mut cpu, mut mem) = boot(&[0x03, 0x13, 0x23, 0x33, 0x0B, 0x1B, 0x2B, 0x3B]);
    cpu.b = 0x00;
    cpu.c = 0xFF;
    cpu.d = 0xFF;
    cpu.e = 0xFF;
    cpu.h = 0x12;
    cpu.l = 0x34;
    cpu.sp = 0xFFFF;
    cpu.f = 0xA5;
    run(&mut cpu, &mut mem, 4);
    assert_eq!((cpu.b, cpu.c), (0x01, 0x00));
    assert_eq!((cpu.d, cpu.e), (0x00, 0x00));
    assert_eq!((cpu.h, cpu.l), (0x12, 0x35));
    assert_eq!(cpu.sp, 0x0000);
    run(&mut cpu, &mut mem, 4);
    assert_eq!((cpu.b, cpu.c), (0x00, 0xFF));
    assert_eq!((cpu.d, cpu.e), (0xFF, 0xFF));
    assert_eq!((cpu.h, cpu.l), (0x12, 0x34));
    assert_eq!(cpu.sp, 0xFFFF);
    assert_eq!(cpu.f, 0xA5);
}

#[test]
fn add_to_hl() {
    // ADD HL,BC ; ADD HL,DE ; ADD HL,HL ; ADD HL,SP
    let (mut cpu, mut mem) = boot(&[0x09, 0x19, 0x29, 0x39]);
    cpu.h = 0x10;
    cpu.l = 0x00;
    cpu.b = 0x01;
    cpu.c = 0x02;
    cpu.d = 0x0F;
    cpu.e = 0xFE;
    cpu.sp = 0xBE00;
    cpu.exec(&mut mem);
    assert_eq!((cpu.h, cpu.l), (0x11, 0x02));
    cpu.exec(&mut mem);
    assert_eq!((cpu.h, cpu.l), (0x21, 0x00));
    assert_eq!(cpu.f, H);
    cpu.exec(&mut mem);
    assert_eq!((cpu.h, cpu.l), (0x42, 0x00));
    assert_eq!(cpu.f, 0);
    cpu.exec(&mut mem);
    assert_eq!((cpu.h, cpu.l), (0x00, 0x00));
    assert_eq!(cpu.f, H | C);
}

#[test]
fn accumulator_operations_by_opcode() {
    // ADD A,B ; ADC A,C ; SUB D ; SBC A,E ; AND H ; XOR L ; OR (HL) ; CP A
    let (mut cpu, mut mem) = boot(&[0x80, 0x89, 0x92, 0x9B, 0xA4, 0xAD, 0xB6, 0xBF]);
    cpu.a = 0x10;
    cpu.b = 0xF0;
    cpu.c = 0x01;
    cpu.d = 0x01;
    cpu.e = 0x00;
    cpu.h = 0x80;
    cpu.l = 0x0F;
    mem.poke(0x800F, 0x30);
    cpu.exec(&mut mem);
    assert_eq!((cpu.a, cpu.f), (0x00, Z | C));
    cpu.exec(&mut mem);
    assert_eq!((cpu.a, cpu.f), (0x02, 0));
    cpu.exec(&mut mem);
    assert_eq!((cpu.a, cpu.f), (0x01, N));
    cpu.exec(&mut mem);
    assert_eq!((cpu.a, cpu.f), (0x01, N));
    cpu.exec(&mut mem);
    assert_eq!((cpu.a, cpu.f), (0x00, Z | H | P_V));
    cpu.exec(&mut mem);
    assert_eq!((cpu.a, cpu.f), (0x0F, P_V | BIT_3));
    cpu.exec(&mut mem);
    assert_eq!((cpu.a, cpu.f), (0x3F, P_V | BIT_5 | BIT_3));
    cpu.exec(&mut mem);
    assert_eq!((cpu.a, cpu.f), (0x3F, Z | N | BIT_5 | BIT_3));
    assert_eq!(cpu.pc, 8);
}

#[test]
fn accumulator_operations_on_immediates() {
    // ADD A,n ; ADC A,n ; SUB n ; SBC A,n ; AND n ; XOR n ; OR n ; CP n
    let (mut cpu, mut mem) = boot(&[
        0xC6, 0x01, 0xCE, 0xFF, 0xD6, 0x01, 0xDE, 0x00, 0xE6, 0xF0, 0xEE, 0xFF, 0xF6, 0x01, 0xFE,
        0x10,
    ]);
    cpu.a = 0x01;
    cpu.exec(&mut mem);
    assert_eq!(cpu.a, 0x02);
    cpu.exec(&mut mem);
    assert_eq!((cpu.a, cpu.f & C), (0x01, C));
    cpu.exec(&mut mem);
    assert_eq!((cpu.a, cpu.f), (0x00, Z | N));
    cpu.exec(&mut mem);
    assert_eq!((cpu.a, cpu.f), (0x00, Z | N));
    cpu.exec(&mut mem);
    assert_eq!((cpu.a, cpu.f), (0x00, Z | H | P_V));
    cpu.exec(&mut mem);
    assert_eq!((cpu.a, cpu.f), (0xFF, S | P_V | BIT_5 | BIT_3));
    cpu.exec(&mut mem);
    assert_eq!(cpu.a, 0xFF);
    cpu.exec(&mut mem);
    assert_eq!(cpu.a, 0xFF);
    assert_eq!(cpu.f, S | N);
    assert_eq!(cpu.pc, 16);
}

#[test]
fn exchanges() {
    // EX AF,AF' ; EXX ; EX DE,HL
    let (mut cpu, mut mem) = boot(&[0x08, 0xD9, 0xEB]);
    cpu.a = 1;
    cpu.f = 2;
    cpu.b = 3;
    cpu.c = 4;
    cpu.d = 5;
    cpu.e = 6;
    cpu.h = 7;
    cpu.l = 8;
    cpu.a_alt = 11;
    cpu.f_alt = 12;
    cpu.b_alt = 13;
    cpu.c_alt = 14;
    cpu.d_alt = 15;
    cpu.e_alt = 16;
    cpu.h_alt = 17;
    cpu.l_alt = 18;
    cpu.exec(&mut mem);
    assert_eq!((cpu.a, cpu.f, cpu.a_alt, cpu.f_alt), (11, 12, 1, 2));
    assert_eq!((cpu.b, cpu.b_alt), (3, 13));
    cpu.exec(&mut mem);
    assert_eq!((cpu.b, cpu.c, cpu.d, cpu.e, cpu.h, cpu.l), (13, 14, 15, 16, 17, 18));
    assert_eq!(
        (cpu.b_alt, cpu.c_alt, cpu.d_alt, cpu.e_alt, cpu.h_alt, cpu.l_alt),
        (3, 4, 5, 6, 7, 8)
    );
    assert_eq!((cpu.a, cpu.f), (11, 12));
    cpu.exec(&mut mem);
    assert_eq!((cpu.d, cpu.e, cpu.h, cpu.l), (17, 18, 15, 16));
}

#[test]
fn exchange_with_top_of_stack() {
    // EX (SP),HL
    let (mut cpu, mut mem) = boot(&[0xE3]);
    cpu.sp = 0x9000;
    cpu.h = 0x12;
    cpu.l = 0x34;
    load(&mut mem, 0x9000, &[0xCD, 0xAB]);
    cpu.exec(&mut mem);
    assert_eq!((cpu.h, cpu.l), (0xAB, 0xCD));
    assert_eq!((mem.peek(0x9000), mem.peek(0x9001)), (0x34, 0x12));
    assert_eq!(cpu.sp, 0x9000);
}

#[test]
fn push_stores_high_byte_above_low_byte() {
    // PUSH BC
    let (mut cpu, mut mem) = boot(&[0xC5]);
    cpu.sp = 0x9000;
    cpu.b = 0x12;
    cpu.c = 0x34;
    cpu.exec(&mut mem);
    assert_eq!(cpu.sp, 0x8FFE);
    assert_eq!(mem.peek(0x8FFF), 0x12);
    assert_eq!(mem.peek(0x8FFE), 0x34);
}

#[test]
fn push_then_pop_is_the_identity() {
    // PUSH qq ; POP qq for BC, DE, HL, AF
    for (push, pop) in [(0xC5u8, 0xC1u8), (0xD5, 0xD1), (0xE5, 0xE1), (0xF5, 0xF1)] {
        for sp in [0x9000u16, 0x0001, 0x0000, 0xFFFF] {
            let mut mem = memory::new();
            load(&mut mem, 0x4000, &[push, pop]);
            let mut cpu = Z80::new();
            cpu.pc = 0x4000;
            cpu.sp = sp;
            cpu.a = 0xA1;
            cpu.f = 0xF2;
            cpu.b = 0xB3;
            cpu.c = 0xC4;
            cpu.d = 0xD5;
            cpu.e = 0xE6;
            cpu.h = 0x17;
            cpu.l = 0x28;
            let before = cpu;
            cpu.exec(&mut mem);
            assert_eq!(cpu.sp, sp.wrapping_sub(2));
            cpu.exec(&mut mem);
            assert_eq!(cpu, Z80 { pc: 0x4002, r: 2, ..before });
        }
    }
}

#[test]
fn pop_into_another_pair_moves_the_value() {
    // PUSH BC ; POP AF
    let (mut cpu, mut mem) = boot(&[0xC5, 0xF1]);
    cpu.sp = 0x9000;
    cpu.b = 0x12;
    cpu.c = 0x34;
    run(&mut cpu, &mut mem, 2);
    assert_eq!((cpu.a, cpu.f), (0x12, 0x34));
    assert_eq!(cpu.sp, 0x9000);
}

#[test]
fn absolute_jumps() {
    // JP 0x1234
    let (mut cpu, mut mem) = boot(&[0xC3, 0x34, 0x12]);
    cpu.exec(&mut mem);
    assert_eq!(cpu.pc, 0x1234);
    // JP cc,nn for each condition, with flags that fail and that meet it.
    let cases = [
        (0xC2u8, Z, 0u8),
        (0xCA, 0, Z),
        (0xD2, C, 0),
        (0xDA, 0, C),
        (0xE2, P_V, 0),
        (0xEA, 0, P_V),
        (0xF2, S, 0),
        (0xFA, 0, S),
    ];
    for (opcode, failing, meeting) in cases {
        let (mut cpu, mut mem) = boot(&[opcode, 0x34, 0x12]);
        cpu.f = failing;
        cpu.exec(&mut mem);
        assert_eq!(cpu.pc, 0x0003);
        let (mut cpu, mut mem) = boot(&[opcode, 0x34, 0x12]);
        cpu.f = meeting;
        cpu.exec(&mut mem);
        assert_eq!(cpu.pc, 0x1234);
    }
}

#[test]
fn relative_jumps() {
    // JR +5 from 0x0100 ends at 0x0107; JR -2 jumps to itself.
    let mut mem = memory::new();
    load(&mut mem, 0x0100, &[0x18, 0x05]);
    let mut cpu = Z80::new();
    cpu.pc = 0x0100;
    cpu.exec(&mut mem);
    assert_eq!(cpu.pc, 0x0107);
    load(&mut mem, 0x0200, &[0x18, 0xFE]);
    cpu.pc = 0x0200;
    cpu.exec(&mut mem);
    assert_eq!(cpu.pc, 0x0200);
    // JR -128 from 0x0000 wraps below zero.
    load(&mut mem, 0x0000, &[0x18, 0x80]);
    cpu.pc = 0x0000;
    cpu.exec(&mut mem);
    assert_eq!(cpu.pc, 0xFF82);
    let cases = [(0x20u8, Z, 0u8), (0x28, 0, Z), (0x30, C, 0), (0x38, 0, C)];
    for (opcode, failing, meeting) in cases {
        let (mut cpu, mut mem) = boot(&[opcode, 0x10]);
        cpu.f = failing;
        cpu.exec(&mut mem);
        assert_eq!(cpu.pc, 0x0002);
        let (mut cpu, mut mem) = boot(&[opcode, 0x10]);
        cpu.f = meeting;
        cpu.exec(&mut mem);
        assert_eq!(cpu.pc, 0x0012);
        let (mut cpu, mut mem) = boot(&[opcode, 0xF0]);
        cpu.f = meeting;
        cpu.exec(&mut mem);
        assert_eq!(cpu.pc, 0xFFF2);
    }
}

#[test]
fn djnz_loops_while_b_is_not_zero() {
    // LD B,3 ; INC A ; DJNZ -3
    let (mut cpu, mut mem) = boot(&[0x06, 0x03, 0x3C, 0x10, 0xFD]);
    cpu.exec(&mut mem);
    run(&mut cpu, &mut mem, 2);
    assert_eq!((cpu.b, cpu.pc), (2, 2));
    run(&mut cpu, &mut mem, 2);
    assert_eq!((cpu.b, cpu.pc), (1, 2));
    run(&mut cpu, &mut mem, 2);
    assert_eq!((cpu.b, cpu.pc), (0, 5));
    assert_eq!(cpu.a, 3);
    // B = 0 wraps to 0xFF and jumps.
    let (mut cpu, mut mem) = boot(&[0x10, 0x10]);
    cpu.exec(&mut mem);
    assert_eq!((cpu.b, cpu.pc), (0xFF, 0x12));
}

#[test]
fn jump_to_hl() {
    let (mut cpu, mut mem) = boot(&[0xE9]);
    cpu.h = 0x43;
    cpu.l = 0x21;
    cpu.sp = 0x9000;
    cpu.exec(&mut mem);
    assert_eq!(cpu.pc, 0x4321);
    assert_eq!(cpu.sp, 0x9000);
}

#[test]
fn call_and_return() {
    // 0x0100: CALL 0x2000 ; 0x2000: RET
    let mut mem = memory::new();
    load(&mut mem, 0x0100, &[0xCD, 0x00, 0x20]);
    load(&mut mem, 0x2000, &[0xC9]);
    let mut cpu = Z80::new();
    cpu.pc = 0x0100;
    cpu.sp = 0x9000;
    cpu.exec(&mut mem);
    assert_eq!(cpu.pc, 0x2000);
    assert_eq!(cpu.sp, 0x8FFE);
    assert_eq!(mem.peek(0x8FFF), 0x01);
    assert_eq!(mem.peek(0x8FFE), 0x03);
    cpu.exec(&mut mem);
    assert_eq!(cpu.pc, 0x0103);
    assert_eq!(cpu.sp, 0x9000);
}

#[test]
fn conditional_calls_and_returns() {
    let cases = [
        (0xC4u8, 0xC0u8, Z, 0u8),
        (0xCC, 0xC8, 0, Z),
        (0xD4, 0xD0, C, 0),
        (0xDC, 0xD8, 0, C),
        (0xE4, 0xE0, P_V, 0),
        (0xEC, 0xE8, 0, P_V),
        (0xF4, 0xF0, S, 0),
        (0xFC, 0xF8, 0, S),
    ];
    for (call, ret, failing, meeting) in cases {
        let mut mem = memory::new();
        load(&mut mem, 0x0100, &[call, 0x00, 0x20]);
        load(&mut mem, 0x2000, &[ret, ret]);
        let mut cpu = Z80::new();
        cpu.pc = 0x0100;
        cpu.sp = 0x9000;
        cpu.f = failing;
        cpu.exec(&mut mem);
        assert_eq!((cpu.pc, cpu.sp), (0x0103, 0x9000));
        assert_eq!(mem.peek(0x8FFF), 0x00);
        cpu.pc = 0x0100;
        cpu.f = meeting;
        cpu.exec(&mut mem);
        assert_eq!((cpu.pc, cpu.sp), (0x2000, 0x8FFE));
        cpu.f = failing;
        cpu.exec(&mut mem);
        assert_eq!((cpu.pc, cpu.sp), (0x2001, 0x8FFE));
        cpu.f = meeting;
        cpu.exec(&mut mem);
        assert_eq!((cpu.pc, cpu.sp), (0x0103, 0x9000));
    }
}

#[test]
fn restarts_go_to_the_eight_vectors() {
    let vectors = [
        (0xC7u8, 0x00u16),
        (0xCF, 0x08),
        (0xD7, 0x10),
        (0xDF, 0x18),
        (0xE7, 0x20),
        (0xEF, 0x28),
        (0xF7, 0x30),
        (0xFF, 0x38),
    ];
    for (opcode, vector) in vectors {
        let mut mem = memory::new();
        mem.poke(0x1234, opcode);
        let mut cpu = Z80::new();
        cpu.pc = 0x1234;
        cpu.sp = 0x9000;
        cpu.exec(&mut mem);
        assert_eq!(cpu.pc, vector);
        assert_eq!(cpu.sp, 0x8FFE);
        assert_eq!((mem.peek(0x8FFF), mem.peek(0x8FFE)), (0x12, 0x35));
    }
}

#[test]
fn halt_stops_the_processor() {
    // HALT ; INC A
    let (mut cpu, mut mem) = boot(&[0x76, 0x3C]);
    cpu.exec(&mut mem);
    assert!(cpu.halted);
    assert!(!cpu.halt);
    assert!(cpu.is_stopped());
    assert_eq!(cpu.fault, None);
    let parked = cpu;
    run(&mut cpu, &mut mem, 3);
    assert_eq!(cpu, parked);
    assert_eq!(cpu.a, 0);
    // A driver that clears the condition resumes after the HALT.
    cpu.halted = false;
    cpu.exec(&mut mem);
    assert_eq!(cpu.a, 1);
}

#[test]
fn interrupt_latches() {
    // EI ; DI
    let (mut cpu, mut mem) = boot(&[0xFB, 0xF3]);
    cpu.exec(&mut mem);
    assert!(cpu.iff1 && cpu.iff2);
    cpu.exec(&mut mem);
    assert!(!cpu.iff1 && !cpu.iff2);
}

#[test]
fn out_consumes_the_port_number() {
    let (mut cpu, mut mem) = boot(&[0xD3, 0xFE]);
    cpu.a = 0x55;
    let before = cpu;
    cpu.exec(&mut mem);
    assert_eq!(cpu, Z80 { pc: 2, r: 1, ..before });
}

#[test]
fn main_table_byte_without_handler_is_fatal() {
    let (mut cpu, mut mem) = boot(&[0xDB, 0x12]);
    cpu.a = 0x42;
    let before = cpu;
    cpu.exec(&mut mem);
    let fault = Some(UnimplementedOpcode { prefix: OpCodePrefix::Unprefixed, byte: 0xDB });
    assert_eq!(cpu, Z80 { pc: 1, r: 1, halt: true, fault, ..before });
    assert!(cpu.is_stopped());
}

#[test]
fn every_other_main_table_byte_has_a_handler() {
    for byte in 0..=255u8 {
        let mut mem = memory::new();
        load(&mut mem, 0x4000, &[byte, 0x00, 0x00]);
        let mut cpu = Z80::new();
        cpu.pc = 0x4000;
        cpu.sp = 0x9000;
        cpu.exec(&mut mem);
        assert_eq!(cpu.halt, byte == 0xDB, "byte {byte:#04x}");
        let prefix = match byte {
            0xCB => OpCodePrefix::CB,
            0xDD => OpCodePrefix::DD,
            0xED => OpCodePrefix::ED,
            0xFD => OpCodePrefix::FD,
            _ => OpCodePrefix::Unprefixed,
        };
        assert_eq!(cpu.opcode_prefix, prefix);
        assert_eq!(cpu.r, 1);
    }
}

#[test]
fn accumulator_rotates_by_opcode() {
    // RLCA ; RRCA ; RLA ; RRA
    let (mut cpu, mut mem) = boot(&[0x07, 0x0F, 0x17, 0x1F]);
    cpu.a = 0x80;
    cpu.exec(&mut mem);
    assert_eq!((cpu.a, cpu.f), (0x01, C));
    cpu.exec(&mut mem);
    assert_eq!((cpu.a, cpu.f), (0x80, C));
    cpu.exec(&mut mem);
    assert_eq!((cpu.a, cpu.f), (0x01, C));
    cpu.exec(&mut mem);
    assert_eq!((cpu.a, cpu.f), (0x80, C));
}

#[test]
fn decimal_adjust_and_flag_opcodes() {
    // DAA ; CPL ; SCF ; CCF
    let (mut cpu, mut mem) = boot(&[0x27, 0x2F, 0x37, 0x3F]);
    cpu.a = 0x3C;
    cpu.exec(&mut mem);
    assert_eq!(cpu.a, 0x42);
    cpu.exec(&mut mem);
    assert_eq!(cpu.a, 0xBD);
    cpu.exec(&mut mem);
    assert_eq!(cpu.f & (C | H | N), C);
    cpu.exec(&mut mem);
    assert_eq!(cpu.f & (C | H | N), H);
}
