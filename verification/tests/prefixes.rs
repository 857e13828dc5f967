use z80emu::flags::{BIT_3, BIT_5, C, H, N, P_V, S, Z};
use z80emu::memory::memory;
use z80emu::z80::{OpCodePrefix, UnimplementedOpcode, Z80};

fn load(mem: &mut memory, at: u16, bytes: &[u8]) {
    for (i, b) in bytes.iter().enumerate() {
        mem.poke(at.wrapping_add(i as u16), *b);
    }
}

fn boot(program: &[u8]) -> (Z80, memory) {
    let mut mem = memory::new();
    load(&mut mem, 0, program);
    (Z80::new(), mem)
}

fn run(cpu: &mut Z80, mem: &mut memory, n: usize) {
    for _ in 0..n {
        cpu.exec(mem);
    }
}

#[test]
fn prefix_bytes_move_the_prefix_state() {
    let cases = [
        (0xCBu8, OpCodePrefix::CB),
        (0xDD, OpCodePrefix::DD),
        (0xED, OpCodePrefix::ED),
        (0xFD, OpCodePrefix::FD),
    ];
    for (byte, state) in cases {
        let (mut cpu, mut mem) = boot(&[byte]);
        let before = cpu;
        cpu.exec(&mut mem);
        assert_eq!(cpu, Z80 { pc: 1, r: 1, opcode_prefix: state, ..before });
    }
}

#[test]
fn index_states_accept_nested_prefixes() {
    let cases = [
        (0xDDu8, 0xDDu8, OpCodePrefix::DD),
        (0xDD, 0xFD, OpCodePrefix::FD),
        (0xDD, 0xED, OpCodePrefix::ED),
        (0xDD, 0xCB, OpCodePrefix::DdCb),
        (0xFD, 0xDD, OpCodePrefix::DD),
        (0xFD, 0xFD, OpCodePrefix::FD),
        (0xFD, 0xED, OpCodePrefix::ED),
        (0xFD, 0xCB, OpCodePrefix::FdCb),
    ];
    for (first, second, state) in cases {
        let (mut cpu, mut mem) = boot(&[first, second]);
        run(&mut cpu, &mut mem, 2);
        assert_eq!(cpu.opcode_prefix, state);
        assert!(!cpu.halt);
        assert_eq!(cpu.pc, 2);
    }
}

#[test]
fn index_y_prefix_loads_index_register() {
    let (mut cpu, mut mem) = boot(&[0xFD, 0x21, 0x78, 0x56]);
    cpu.h = 0x11;
    cpu.l = 0x22;
    cpu.ix_h = 0x33;
    run(&mut cpu, &mut mem, 2);
    assert_eq!((cpu.iy_h, cpu.iy_l), (0x56, 0x78));
    assert_eq!((cpu.h, cpu.l, cpu.ix_h), (0x11, 0x22, 0x33));
    assert_eq!(cpu.opcode_prefix, OpCodePrefix::Unprefixed);
}

#[test]
fn index_halves_stand_for_h_and_l() {
    // DD: LD A,H ; DD: LD L,B ; FD: INC H ; FD: ADD A,L
    let (mut cpu, mut mem) = boot(&[0xDD, 0x7C, 0xDD, 0x68, 0xFD, 0x24, 0xFD, 0x85]);
    cpu.h = 0x01;
    cpu.l = 0x02;
    cpu.ix_h = 0x11;
    cpu.ix_l = 0x12;
    cpu.iy_h = 0x21;
    cpu.iy_l = 0x22;
    cpu.b = 0xB0;
    run(&mut cpu, &mut mem, 2);
    assert_eq!(cpu.a, 0x11);
    run(&mut cpu, &mut mem, 2);
    assert_eq!(cpu.ix_l, 0xB0);
    run(&mut cpu, &mut mem, 2);
    assert_eq!(cpu.iy_h, 0x22);
    run(&mut cpu, &mut mem, 2);
    assert_eq!(cpu.a, 0x33);
    assert_eq!((cpu.h, cpu.l), (0x01, 0x02));
}

#[test]
fn indexed_memory_operand_takes_a_signed_displacement() {
    // DD: LD A,(IX+5) ; DD: LD B,(IX-1) ; FD: LD (IY-128),A ; FD: LD (IY+127),n
    let (mut cpu, mut mem) = boot(&[
        0xDD, 0x7E, 0x05, 0xDD, 0x46, 0xFF, 0xFD, 0x77, 0x80, 0xFD, 0x36, 0x7F, 0x99,
    ]);
    cpu.ix_h = 0x80;
    cpu.ix_l = 0x00;
    cpu.iy_h = 0x90;
    cpu.iy_l = 0x80;
    cpu.h = 0x70;
    mem.poke(0x8005, 0x55);
    mem.poke(0x7FFF, 0x66);
    mem.poke(0x7000, 0xEE);
    run(&mut cpu, &mut mem, 2);
    assert_eq!(cpu.a, 0x55);
    assert_eq!(cpu.pc, 3);
    run(&mut cpu, &mut mem, 2);
    assert_eq!(cpu.b, 0x66);
    run(&mut cpu, &mut mem, 2);
    assert_eq!(mem.peek(0x9000), 0x55);
    run(&mut cpu, &mut mem, 2);
    assert_eq!(mem.peek(0x90FF), 0x99);
    assert_eq!(cpu.pc, 13);
    assert_eq!(mem.peek(0x7000), 0xEE);
}

#[test]
fn indexed_address_wraps_modulo_64k() {
    // DD: LD A,(IX+2) with IX = 0xFFFF ; DD: LD A,(IX-1) with IX = 0
    let (mut cpu, mut mem) = boot(&[0xDD, 0x7E, 0x02, 0xDD, 0x7E, 0xFF]);
    cpu.ix_h = 0xFF;
    cpu.ix_l = 0xFF;
    mem.poke(0x0001, 0x7E);
    mem.poke(0xFFFF, 0x42);
    run(&mut cpu, &mut mem, 2);
    assert_eq!(cpu.a, 0x7E);
    cpu.ix_h = 0;
    cpu.ix_l = 0;
    run(&mut cpu, &mut mem, 2);
    assert_eq!(cpu.a, 0x42);
}

#[test]
fn index_state_substitutes_every_h_and_l_of_the_opcode() {
    // DD: LD H,(IX+1) loads the high half of IX ; DD: LD (IX+0),L stores the low half.
    let (mut cpu, mut mem) = boot(&[0xDD, 0x66, 0x01, 0xDD, 0x75, 0x00]);
    cpu.ix_h = 0x80;
    cpu.ix_l = 0x00;
    cpu.h = 0x12;
    cpu.l = 0x34;
    mem.poke(0x8001, 0x90);
    run(&mut cpu, &mut mem, 2);
    assert_eq!(cpu.ix_h, 0x90);
    assert_eq!(cpu.h, 0x12);
    run(&mut cpu, &mut mem, 2);
    assert_eq!(mem.peek(0x9000), 0x00);
    assert_eq!((cpu.h, cpu.l), (0x12, 0x34));
}

#[test]
fn indexed_increment_and_arithmetic() {
    // DD: INC (IX+1) ; DD: DEC (IX+1) ; DD: ADD A,(IX+2) ; DD: CP (IX+2)
    let (mut cpu, mut mem) = boot(&[
        0xDD, 0x34, 0x01, 0xDD, 0x35, 0x01, 0xDD, 0x86, 0x02, 0xDD, 0xBE, 0x02,
    ]);
    cpu.ix_h = 0x80;
    mem.poke(0x8001, 0x7F);
    mem.poke(0x8002, 0x10);
    run(&mut cpu, &mut mem, 2);
    assert_eq!(mem.peek(0x8001), 0x80);
    assert_eq!(cpu.f, S | H | P_V);
    run(&mut cpu, &mut mem, 2);
    assert_eq!(mem.peek(0x8001), 0x7F);
    assert_eq!(cpu.f, H | P_V | N | BIT_5 | BIT_3);
    run(&mut cpu, &mut mem, 2);
    assert_eq!(cpu.a, 0x10);
    run(&mut cpu, &mut mem, 2);
    assert_eq!(cpu.f, Z | N);
    assert_eq!(cpu.pc, 12);
}

#[test]
fn index_pair_instructions() {
    // DD: ADD IX,BC ; DD: ADD IX,IX ; DD: INC IX ; DD: DEC IX ; DD: LD SP,IX ; DD: JP (IX)
    let (mut cpu, mut mem) = boot(&[
        0xDD, 0x09, 0xDD, 0x29, 0xDD, 0x23, 0xDD, 0x2B, 0xDD, 0xF9, 0xDD, 0xE9,
    ]);
    cpu.ix_h = 0x10;
    cpu.ix_l = 0x00;
    cpu.b = 0x01;
    cpu.c = 0x01;
    cpu.h = 0x77;
    cpu.l = 0x77;
    run(&mut cpu, &mut mem, 2);
    assert_eq!((cpu.ix_h, cpu.ix_l), (0x11, 0x01));
    run(&mut cpu, &mut mem, 2);
    assert_eq!((cpu.ix_h, cpu.ix_l), (0x22, 0x02));
    run(&mut cpu, &mut mem, 2);
    assert_eq!((cpu.ix_h, cpu.ix_l), (0x22, 0x03));
    run(&mut cpu, &mut mem, 2);
    assert_eq!((cpu.ix_h, cpu.ix_l), (0x22, 0x02));
    run(&mut cpu, &mut mem, 2);
    assert_eq!(cpu.sp, 0x2202);
    run(&mut cpu, &mut mem, 2);
    assert_eq!(cpu.pc, 0x2202);
    assert_eq!((cpu.h, cpu.l), (0x77, 0x77));
}

#[test]
fn index_pair_on_the_stack_and_in_memory() {
    // FD: PUSH IY ; FD: POP IY ; FD: EX (SP),IY ; FD: LD (0x8000),IY ; FD: LD IY,(0x8002)
    let (mut cpu, mut mem) = boot(&[
        0xFD, 0xE5, 0xFD, 0xE1, 0xFD, 0xE3, 0xFD, 0x22, 0x00, 0x80, 0xFD, 0x2A, 0x02, 0x80,
    ]);
    cpu.sp = 0x9000;
    cpu.iy_h = 0x12;
    cpu.iy_l = 0x34;
    load(&mut mem, 0x8002, &[0xEF, 0xBE]);
    run(&mut cpu, &mut mem, 2);
    assert_eq!((mem.peek(0x8FFF), mem.peek(0x8FFE)), (0x12, 0x34));
    cpu.iy_h = 0;
    cpu.iy_l = 0;
    run(&mut cpu, &mut mem, 2);
    assert_eq!((cpu.iy_h, cpu.iy_l, cpu.sp), (0x12, 0x34, 0x9000));
    load(&mut mem, 0x9000, &[0x78, 0x56]);
    run(&mut cpu, &mut mem, 2);
    assert_eq!((cpu.iy_h, cpu.iy_l), (0x56, 0x78));
    assert_eq!((mem.peek(0x9000), mem.peek(0x9001)), (0x34, 0x12));
    run(&mut cpu, &mut mem, 2);
    assert_eq!((mem.peek(0x8000), mem.peek(0x8001)), (0x78, 0x56));
    run(&mut cpu, &mut mem, 2);
    assert_eq!((cpu.iy_h, cpu.iy_l), (0xBE, 0xEF));
    assert_eq!((cpu.h, cpu.l), (0, 0));
}

#[test]
fn index_state_rejects_opcodes_without_h_or_l() {
    for (prefix_byte, state) in [(0xDDu8, OpCodePrefix::DD), (0xFD, OpCodePrefix::FD)] {
        for byte in [0x00u8, 0x01, 0x3E, 0x41, 0x76, 0x80, 0xC3, 0xC9, 0xEB, 0xDB] {
            let (mut cpu, mut mem) = boot(&[prefix_byte, byte]);
            cpu.a = 0x12;
            cpu.d = 0x34;
            cpu.h = 0x56;
            let before = cpu;
            run(&mut cpu, &mut mem, 2);
            let fault = Some(UnimplementedOpcode { prefix: state, byte });
            assert_eq!(cpu, Z80 { pc: 2, r: 2, halt: true, fault, ..before });
        }
    }
}

#[test]
fn index_table_holds_the_opcodes_that_name_h_l_or_hl() {
    let mut handled = 0;
    for byte in 0..=255u8 {
        let mut mem = memory::new();
        load(&mut mem, 0x4000, &[0xDD, byte, 0x00, 0x00]);
        let mut cpu = Z80::new();
        cpu.pc = 0x4000;
        cpu.sp = 0x9000;
        cpu.exec(&mut mem);
        cpu.exec(&mut mem);
        let x = byte >> 6;
        let y = (byte >> 3) & 7;
        let z = byte & 7;
        let hl = |i: u8| (4..=6).contains(&i);
        let named = match x {
            0 => {
                (z == 1 && y & 1 == 1)
                    || (y >> 1 == 2 && (1..=3).contains(&z))
                    || ((4..=6).contains(&z) && hl(y))
            }
            1 => byte != 0x76 && (hl(y) || hl(z)),
            2 => hl(z),
            _ => [0xE1, 0xE3, 0xE5, 0xE9, 0xF9].contains(&byte),
        };
        let prefix = [0xCB, 0xDD, 0xED, 0xFD].contains(&byte);
        assert_eq!(cpu.halt, !named && !prefix, "byte {byte:#04x}");
        if named {
            handled += 1;
            assert_eq!(cpu.opcode_prefix, OpCodePrefix::Unprefixed);
        }
    }
    assert_eq!(handled, 85);
}

#[test]
fn bit_operations_on_registers() {
    // CB: RLC B ; CB: SRL A ; CB: BIT 0,C ; CB: RES 7,D ; CB: SET 3,E
    let (mut cpu, mut mem) = boot(&[0xCB, 0x00, 0xCB, 0x3F, 0xCB, 0x41, 0xCB, 0xBA, 0xCB, 0xDB]);
    cpu.b = 0x81;
    cpu.a = 0x01;
    cpu.c = 0xFE;
    cpu.d = 0xFF;
    cpu.e = 0x00;
    run(&mut cpu, &mut mem, 2);
    assert_eq!((cpu.b, cpu.f), (0x03, P_V | C));
    run(&mut cpu, &mut mem, 2);
    assert_eq!((cpu.a, cpu.f), (0x00, Z | P_V | C));
    run(&mut cpu, &mut mem, 2);
    assert_eq!(cpu.f, Z | H | P_V | C);
    let f = cpu.f;
    run(&mut cpu, &mut mem, 2);
    assert_eq!((cpu.d, cpu.f), (0x7F, f));
    run(&mut cpu, &mut mem, 2);
    assert_eq!((cpu.e, cpu.f), (0x08, f));
    assert_eq!(cpu.pc, 10);
    assert_eq!(cpu.r, 10);
    assert_eq!(cpu.opcode_prefix, OpCodePrefix::Unprefixed);
}

#[test]
fn bit_operations_in_memory() {
    // CB: SLA (HL) ; CB: BIT 7,(HL) ; CB: RES 0,(HL) ; CB: SET 6,(HL)
    let (mut cpu, mut mem) = boot(&[0xCB, 0x26, 0xCB, 0x7E, 0xCB, 0x86, 0xCB, 0xF6]);
    cpu.h = 0x80;
    mem.poke(0x8000, 0xC1);
    run(&mut cpu, &mut mem, 2);
    assert_eq!(mem.peek(0x8000), 0x82);
    assert_eq!(cpu.f, S | P_V | C);
    run(&mut cpu, &mut mem, 2);
    assert_eq!(cpu.f, S | H | P_V | C);
    mem.poke(0x8000, 0xFF);
    run(&mut cpu, &mut mem, 2);
    assert_eq!(mem.peek(0x8000), 0xFE);
    mem.poke(0x8000, 0x00);
    run(&mut cpu, &mut mem, 2);
    assert_eq!(mem.peek(0x8000), 0x40);
}

#[test]
fn every_bit_table_byte_has_a_handler() {
    for byte in 0..=255u8 {
        let (mut cpu, mut mem) = boot(&[0xCB, byte]);
        run(&mut cpu, &mut mem, 2);
        assert!(!cpu.halt);
        assert_eq!(cpu.opcode_prefix, OpCodePrefix::Unprefixed);
        assert_eq!(cpu.pc, 2);
    }
}

#[test]
fn bit_table_selects_bit_and_register() {
    for n in 0..8u8 {
        for z in 0..8u8 {
            if z == 6 {
                continue;
            }
            // SET n,r on zeroed registers sets exactly one bit of one register.
            let (mut cpu, mut mem) = boot(&[0xCB, 0xC0 | (n << 3) | z]);
            run(&mut cpu, &mut mem, 2);
            let regs = [cpu.b, cpu.c, cpu.d, cpu.e, cpu.h, cpu.l, 0, cpu.a];
            for (i, r) in regs.iter().enumerate() {
                assert_eq!(*r, if i == z as usize { 1 << n } else { 0 });
            }
            // RES n,r on registers of ones clears exactly one bit of one register.
            let (mut cpu, mut mem) = boot(&[0xCB, 0x80 | (n << 3) | z]);
            cpu.b = 0xFF;
            cpu.c = 0xFF;
            cpu.d = 0xFF;
            cpu.e = 0xFF;
            cpu.h = 0xFF;
            cpu.l = 0xFF;
            cpu.a = 0xFF;
            run(&mut cpu, &mut mem, 2);
            let regs = [cpu.b, cpu.c, cpu.d, cpu.e, cpu.h, cpu.l, 0xFF, cpu.a];
            for (i, r) in regs.iter().enumerate() {
                assert_eq!(*r, if i == z as usize { !(1u8 << n) } else { 0xFF });
            }
            // BIT n,r sees the bit.
            let (mut cpu, mut mem) = boot(&[0xCB, 0x40 | (n << 3) | z]);
            cpu.a = 1 << n;
            cpu.b = 1 << n;
            cpu.c = 1 << n;
            cpu.d = 1 << n;
            cpu.e = 1 << n;
            cpu.h = 1 << n;
            cpu.l = 1 << n;
            run(&mut cpu, &mut mem, 2);
            assert_eq!(cpu.f, H);
        }
    }
}

#[test]
fn combined_state_reads_displacement_then_opcode() {
    // DD CB 05 06: RLC (IX+5)
    let (mut cpu, mut mem) = boot(&[0xDD, 0xCB, 0x05, 0x06]);
    cpu.ix_h = 0x80;
    mem.poke(0x8005, 0x81);
    run(&mut cpu, &mut mem, 2);
    assert_eq!(cpu.opcode_prefix, OpCodePrefix::DdCb);
    assert_eq!(cpu.pc, 2);
    cpu.exec(&mut mem);
    assert_eq!(cpu.opcode_prefix, OpCodePrefix::Unprefixed);
    assert_eq!(cpu.pc, 4);
    assert_eq!(cpu.r, 3);
    assert_eq!(mem.peek(0x8005), 0x03);
    assert_eq!(cpu.f, P_V | C);
}

#[test]
fn combined_state_with_negative_displacement() {
    // FD CB FE CE: SET 1,(IY-2) ; FD CB FE 8E: RES 1,(IY-2) ; FD CB FE 4E: BIT 1,(IY-2)
    let (mut cpu, mut mem) = boot(&[
        0xFD, 0xCB, 0xFE, 0xCE, 0xFD, 0xCB, 0xFE, 0x8E, 0xFD, 0xCB, 0xFE, 0x4E,
    ]);
    cpu.iy_h = 0x80;
    cpu.iy_l = 0x01;
    run(&mut cpu, &mut mem, 3);
    assert_eq!(mem.peek(0x7FFF), 0x02);
    mem.poke(0x7FFF, 0xFF);
    run(&mut cpu, &mut mem, 3);
    assert_eq!(mem.peek(0x7FFF), 0xFD);
    run(&mut cpu, &mut mem, 3);
    assert_eq!(cpu.f, Z | H);
    assert_eq!(cpu.pc, 12);
}

#[test]
fn combined_state_rotate_into_a_register() {
    // DD CB 00 00: RLC (IX+0) into B: the register takes the result, memory keeps its byte.
    let (mut cpu, mut mem) = boot(&[0xDD, 0xCB, 0x00, 0x00]);
    cpu.ix_h = 0x80;
    mem.poke(0x8000, 0x40);
    run(&mut cpu, &mut mem, 3);
    assert_eq!(cpu.b, 0x80);
    assert_eq!(mem.peek(0x8000), 0x40);
    assert_eq!(cpu.f, S);
}

#[test]
fn combined_state_tests_ignore_the_register_field() {
    for z in 0..8u8 {
        let (mut cpu, mut mem) = boot(&[0xDD, 0xCB, 0x01, 0xC0 | z]);
        cpu.ix_h = 0x80;
        run(&mut cpu, &mut mem, 3);
        assert_eq!(mem.peek(0x8001), 0x01);
        assert_eq!((cpu.b, cpu.c, cpu.d, cpu.e, cpu.h, cpu.l, cpu.a), (0, 0, 0, 0, 0, 0, 0));
        assert!(!cpu.halt);
    }
}

#[test]
fn extended_sixteen_bit_arithmetic() {
    // ED: SBC HL,BC ; ED: ADC HL,DE ; ED: SBC HL,HL ; ED: ADC HL,SP
    let (mut cpu, mut mem) = boot(&[0xED, 0x42, 0xED, 0x5A, 0xED, 0x62, 0xED, 0x7A]);
    cpu.h = 0x10;
    cpu.l = 0x00;
    cpu.b = 0x00;
    cpu.c = 0x01;
    cpu.d = 0x70;
    cpu.e = 0x01;
    cpu.sp = 0x0001;
    cpu.f = C;
    run(&mut cpu, &mut mem, 2);
    assert_eq!((cpu.h, cpu.l), (0x0F, 0xFE));
    assert_eq!(cpu.f, H | N | BIT_3);
    run(&mut cpu, &mut mem, 2);
    assert_eq!((cpu.h, cpu.l), (0x7F, 0xFF));
    assert_eq!(cpu.f, BIT_5 | BIT_3);
    run(&mut cpu, &mut mem, 2);
    assert_eq!((cpu.h, cpu.l), (0x00, 0x00));
    assert_eq!(cpu.f, Z | N);
    run(&mut cpu, &mut mem, 2);
    assert_eq!((cpu.h, cpu.l), (0x00, 0x01));
    assert_eq!(cpu.f, 0);
}

#[test]
fn extended_word_loads() {
    // ED: LD (0x8000),BC ; ED: LD DE,(0x8000) ; ED: LD (0x8002),SP ; ED: LD SP,(0x8004)
    // ED: LD (0x8006),HL ; ED: LD HL,(0x8000) ; ED: LD (0x8008),DE ; ED: LD BC,(0x8004)
    let (mut cpu, mut mem) = boot(&[
        0xED, 0x43, 0x00, 0x80, 0xED, 0x5B, 0x00, 0x80, 0xED, 0x73, 0x02, 0x80, 0xED, 0x7B, 0x04,
        0x80, 0xED, 0x63, 0x06, 0x80, 0xED, 0x6B, 0x00, 0x80, 0xED, 0x53, 0x08, 0x80, 0xED, 0x4B,
        0x04, 0x80,
    ]);
    cpu.b = 0x12;
    cpu.c = 0x34;
    cpu.sp = 0xBEEF;
    cpu.h = 0x56;
    cpu.l = 0x78;
    load(&mut mem, 0x8004, &[0xCE, 0xFA]);
    run(&mut cpu, &mut mem, 2);
    assert_eq!((mem.peek(0x8000), mem.peek(0x8001)), (0x34, 0x12));
    run(&mut cpu, &mut mem, 2);
    assert_eq!((cpu.d, cpu.e), (0x12, 0x34));
    run(&mut cpu, &mut mem, 2);
    assert_eq!((mem.peek(0x8002), mem.peek(0x8003)), (0xEF, 0xBE));
    run(&mut cpu, &mut mem, 2);
    assert_eq!(cpu.sp, 0xFACE);
    run(&mut cpu, &mut mem, 2);
    assert_eq!((mem.peek(0x8006), mem.peek(0x8007)), (0x78, 0x56));
    run(&mut cpu, &mut mem, 2);
    assert_eq!((cpu.h, cpu.l), (0x12, 0x34));
    run(&mut cpu, &mut mem, 2);
    assert_eq!((mem.peek(0x8008), mem.peek(0x8009)), (0x34, 0x12));
    run(&mut cpu, &mut mem, 2);
    assert_eq!((cpu.b, cpu.c), (0xFA, 0xCE));
    assert_eq!(cpu.pc, 32);
}

#[test]
fn extended_negate_and_return() {
    for opcode in [0x44u8, 0x4C, 0x54, 0x5C, 0x64, 0x6C, 0x74, 0x7C] {
        let (mut cpu, mut mem) = boot(&[0xED, opcode]);
        cpu.a = 0x05;
        run(&mut cpu, &mut mem, 2);
        assert_eq!(cpu.a, 0xFB);
        assert_eq!(cpu.f, S | H | N | C | BIT_5 | BIT_3);
    }
    for opcode in [0x45u8, 0x55, 0x65, 0x75] {
        let (mut cpu, mut mem) = boot(&[0xED, opcode]);
        cpu.sp = 0x9000;
        load(&mut mem, 0x9000, &[0x34, 0x12]);
        run(&mut cpu, &mut mem, 2);
        assert_eq!((cpu.pc, cpu.sp), (0x1234, 0x9002));
    }
}

#[test]
fn interrupt_vector_and_refresh_loads() {
    // ED: LD I,A ; ED: LD A,I ; ED: LD R,A ; ED: LD A,R
    let (mut cpu, mut mem) = boot(&[0xED, 0x47, 0xED, 0x57, 0xED, 0x4F, 0xED, 0x5F]);
    cpu.a = 0x80;
    cpu.f = C | N | H;
    cpu.iff2 = true;
    run(&mut cpu, &mut mem, 2);
    assert_eq!(cpu.i, 0x80);
    assert_eq!(cpu.f, C | N | H);
    cpu.a = 0;
    run(&mut cpu, &mut mem, 2);
    assert_eq!(cpu.a, 0x80);
    assert_eq!(cpu.f, S | P_V | C);
    cpu.a = 0x00;
    cpu.iff2 = false;
    run(&mut cpu, &mut mem, 2);
    assert_eq!(cpu.r, 0x00);
    cpu.a = 0x55;
    run(&mut cpu, &mut mem, 2);
    // Two more bytes were fetched since R was loaded.
    assert_eq!(cpu.a, 0x02);
    assert_eq!(cpu.f, C);
}

#[test]
fn rotate_right_decimal() {
    // ED: RRD with A = 0x84 and (HL) = 0x20 gives A = 0x80 and (HL) = 0x42.
    let (mut cpu, mut mem) = boot(&[0xED, 0x67]);
    cpu.a = 0x84;
    cpu.h = 0x50;
    cpu.f = C | N | H;
    mem.poke(0x5000, 0x20);
    run(&mut cpu, &mut mem, 2);
    assert_eq!(cpu.a, 0x80);
    assert_eq!(mem.peek(0x5000), 0x42);
    assert_eq!(cpu.f, S | C);
}

#[test]
fn block_transfer_repeats_until_the_counter_is_zero() {
    // ED B8: LDDR copying 3 bytes from 0x8002.. down to 0x9002..
    let mut mem = memory::new();
    load(&mut mem, 0x0100, &[0xED, 0xB8, 0x3C]);
    load(&mut mem, 0x8000, &[0x11, 0x22, 0x33]);
    let mut cpu = Z80::new();
    cpu.pc = 0x0100;
    cpu.h = 0x80;
    cpu.l = 0x02;
    cpu.d = 0x90;
    cpu.e = 0x02;
    cpu.b = 0x00;
    cpu.c = 0x03;
    cpu.f = Z | S | C | H | N;
    cpu.exec(&mut mem);
    cpu.exec(&mut mem);
    assert_eq!(mem.peek(0x9002), 0x33);
    assert_eq!((cpu.h, cpu.l, cpu.d, cpu.e, cpu.b, cpu.c), (0x80, 0x01, 0x90, 0x01, 0x00, 0x02));
    assert_eq!(cpu.pc, 0x0100);
    assert_eq!(cpu.f, Z | S | C | P_V);
    cpu.exec(&mut mem);
    cpu.exec(&mut mem);
    assert_eq!(mem.peek(0x9001), 0x22);
    assert_eq!(cpu.pc, 0x0100);
    cpu.exec(&mut mem);
    cpu.exec(&mut mem);
    assert_eq!(mem.peek(0x9000), 0x11);
    assert_eq!((cpu.h, cpu.l, cpu.d, cpu.e, cpu.b, cpu.c), (0x7F, 0xFF, 0x8F, 0xFF, 0x00, 0x00));
    assert_eq!(cpu.pc, 0x0102);
    assert_eq!(cpu.f, Z | S | C);
    cpu.exec(&mut mem);
    assert_eq!(cpu.a, 1);
}

#[test]
fn extended_table_gaps_are_fatal() {
    let handled = [
        0x42u8, 0x43, 0x44, 0x45, 0x47, 0x4A, 0x4B, 0x4C, 0x4F, 0x52, 0x53, 0x54, 0x55, 0x57,
        0x5A, 0x5B, 0x5C, 0x5F, 0x62, 0x63, 0x64, 0x65, 0x67, 0x6A, 0x6B, 0x6C, 0x72, 0x73, 0x74,
        0x75, 0x7A, 0x7B, 0x7C, 0xB8,
    ];
    for byte in 0..=255u8 {
        let mut mem = memory::new();
        load(&mut mem, 0x4000, &[0xED, byte, 0x00, 0x00]);
        let mut cpu = Z80::new();
        cpu.pc = 0x4000;
        cpu.sp = 0x9000;
        cpu.b = 0x01;
        cpu.exec(&mut mem);
        cpu.exec(&mut mem);
        assert_eq!(cpu.halt, !handled.contains(&byte), "byte {byte:#04x}");
        assert_eq!(cpu.opcode_prefix, OpCodePrefix::Unprefixed);
        if cpu.halt {
            assert_eq!(
                cpu.fault,
                Some(UnimplementedOpcode { prefix: OpCodePrefix::ED, byte })
            );
        } else {
            assert_eq!(cpu.fault, None);
        }
    }
}
