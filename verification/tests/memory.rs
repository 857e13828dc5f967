use z80emu::memory::{memory, MEMORY_SIZE, ROM_SIZE};

#[test]
fn new_memory_is_zero() {
    let mem = memory::new();
    for addr in [0x0000u16, 0x0001, 0x3FFF, 0x4000, 0x8000, 0xFFFF] {
        assert_eq!(mem.peek(addr), 0);
    }
    assert_eq!(MEMORY_SIZE, 64 * 1024);
    assert_eq!(ROM_SIZE, 16 * 1024);
}

#[test]
fn poke_changes_one_byte() {
    let mut mem = memory::new();
    mem.poke(0x1234, 0xAB);
    assert_eq!(mem.peek(0x1234), 0xAB);
    assert_eq!(mem.peek(0x1233), 0x00);
    assert_eq!(mem.peek(0x1235), 0x00);
    mem.poke(0x1234, 0xCD);
    assert_eq!(mem.peek(0x1234), 0xCD);
    mem.poke(0x0000, 0x01);
    mem.poke(0xFFFF, 0x02);
    assert_eq!((mem.peek(0x0000), mem.peek(0xFFFF)), (0x01, 0x02));
}

#[test]
fn every_address_is_valid() {
    let mut mem = memory::new();
    for addr in 0..=0xFFFFu16 {
        mem.poke(addr, (addr % 251) as u8);
    }
    for addr in 0..=0xFFFFu16 {
        assert_eq!(mem.peek(addr), (addr % 251) as u8);
    }
}

#[test]
fn load_rom_fills_the_first_16k() {
    let mut mem = memory::new();
    mem.poke(0x3FFF, 0xEE);
    mem.poke(0x4000, 0x77);
    mem.poke(0xFFFF, 0x88);
    let mut rom = vec![0u8; ROM_SIZE];
    for (i, b) in rom.iter_mut().enumerate() {
        *b = (i % 253) as u8 ^ 0x5A;
    }
    mem.load_rom(&rom);
    for i in 0..ROM_SIZE {
        assert_eq!(mem.peek(i as u16), rom[i]);
    }
    assert_eq!(mem.peek(0x4000), 0x77);
    assert_eq!(mem.peek(0xFFFF), 0x88);
}
