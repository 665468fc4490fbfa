use rust_nes_esp::memory::{address_mmio_map, Memory, ProgramROMDst, RAM};

fn image(prg: u8, chr: u8, control_1: u8, control_2: u8) -> Vec<u8> {
    let mut bytes = vec![0x4e, 0x45, 0x53, 0x1a, prg, chr, control_1, control_2];
    bytes.resize(16, 0);
    if control_1 & 0x04 != 0 {
        for i in 0..512usize {
            bytes.push((i % 251) as u8 + 1);
        }
    }
    for bank in 0..prg as usize {
        for i in 0..0x4000usize {
            bytes.push(((bank * 7 + i) % 256) as u8);
        }
    }
    for bank in 0..chr as usize {
        for i in 0..0x2000usize {
            bytes.push(((bank * 3 + i / 16) % 256) as u8);
        }
    }
    bytes
}

#[test]
fn ram_is_mirrored_every_2_kib() {
    let mut memory = Memory::from_program(vec![]);
    memory.write(0x0123, 0x5a);
    assert_eq!(memory.read(0x0123), 0x5a);
    assert_eq!(memory.read(0x0923), 0x5a);
    assert_eq!(memory.read(0x1123), 0x5a);
    assert_eq!(memory.read(0x1923), 0x5a);
    memory.write(0x1fff, 0x77);
    assert_eq!(memory.read(0x07ff), 0x77);
    assert_eq!(memory.read(0x1fff % 0x0800), memory.read(0x1fff));
}

#[test]
fn every_ram_byte_reads_back() {
    let mut memory = Memory::from_program(vec![]);
    for address in 0..0x2000u16 {
        let data = (address % 253) as u8;
        memory.write(address, data);
        assert_eq!(memory.read(address), data);
    }
}

#[test]
fn program_is_seen_in_both_windows() {
    let mut program = vec![0u8; 0x8000];
    program[0] = 0x11;
    program[0x3fff] = 0x22;
    program[0x4000] = 0x33;
    program[0x7fff] = 0x44;
    let mut memory = Memory::from_program(program);
    assert_eq!(memory.read(0x8000), 0x11);
    assert_eq!(memory.read(0xbfff), 0x22);
    assert_eq!(memory.read(0xc000), 0x33);
    assert_eq!(memory.read(0xffff), 0x44);
    assert_eq!(memory.program_rom_count(), 2);
}

#[test]
fn long_program_is_cut_and_short_program_is_filled() {
    let mut memory = Memory::from_program(vec![0xee; 0x9000]);
    assert_eq!(memory.read(0xffff), 0xee);
    let mut memory = Memory::from_program(vec![0xee; 3]);
    assert_eq!(memory.read(0x8002), 0xee);
    assert_eq!(memory.read(0x8003), 0x00);
    assert_eq!(memory.read(0xc000), 0x00);
}

#[test]
fn writes_to_rom_and_unmapped_regions_are_dropped() {
    let mut memory = Memory::from_program(vec![0x12, 0x34]);
    memory.write(0x8000, 0xff);
    memory.write(0xc123, 0xff);
    memory.write(0x4000, 0xff);
    memory.write(0x4017, 0xff);
    memory.write(0x4020, 0xff);
    memory.write(0x5000, 0xff);
    memory.write(0x6000, 0xff);
    assert_eq!(memory.read(0x8000), 0x12);
    assert_eq!(memory.read(0xc123), 0x00);
    assert_eq!(memory.read(0x4000), 0);
    assert_eq!(memory.read(0x4017), 0);
    assert_eq!(memory.read(0x4020), 0);
    assert_eq!(memory.read(0x5000), 0);
    assert_eq!(memory.read(0x6000), 0);
}

#[test]
fn save_ram_reads_back_when_present() {
    let mut memory = Memory::from_file(&image(1, 0, 0x02, 0)).unwrap();
    memory.write(0x6000, 0xab);
    memory.write(0x7fff, 0xcd);
    assert_eq!(memory.read(0x6000), 0xab);
    assert_eq!(memory.read(0x7fff), 0xcd);
    assert_eq!(memory.read(0x6001), 0);
}

#[test]
fn register_writes_are_mirrored_every_8_bytes() {
    let mut direct = Memory::from_program(vec![]);
    let mut mirrored = Memory::from_program(vec![]);
    direct.write(0x2003, 0x10);
    direct.write(0x2004, 0x99);
    mirrored.write(0x3ffb, 0x10);
    mirrored.write(0x2ffc, 0x99);
    assert_eq!(direct.ppu().peek_spram(0x10), 0x99);
    assert_eq!(mirrored.ppu().peek_spram(0x10), 0x99);
    assert_eq!(direct.ppu().registers(), mirrored.ppu().registers());
    assert_eq!(mirrored.read(0x2004), 0x99);
    assert_eq!(mirrored.read(0x200c), 0x99);
    assert_eq!(mirrored.read(0x3ffc), 0x99);
}

#[test]
fn sprite_and_video_memory_read_back_through_their_ports() {
    let mut memory = Memory::from_program(vec![]);
    memory.write(0x2003, 0x42);
    memory.write(0x2004, 0x5a);
    assert_eq!(memory.read(0x2004), 0x5a);
    memory.write(0x2006, 0x21);
    memory.write(0x2006, 0x07);
    memory.write(0x2007, 0xc3);
    assert_eq!(memory.read(0x2007), 0xc3);
    // the pair of address writes sets 0x2107 and then steps by one
    assert_eq!(memory.ppu().registers().vram_address, 0x2108);
    assert_eq!(memory.ppu().peek_vram(0x2108), 0xc3);
}

#[test]
fn status_read_through_the_bus_resets_the_latch() {
    let mut memory = Memory::from_program(vec![]);
    memory.write(0x2005, 0x11);
    assert!(memory.ppu().registers().second_write);
    let first = memory.read(0x2002);
    assert!(!memory.ppu().registers().second_write);
    let second = memory.read(0x2002);
    assert_eq!(first, second);
    assert!(!memory.ppu().registers().second_write);
    memory.write(0x2005, 0x22);
    assert_eq!(memory.ppu().registers().x_scroll, 0x22);
    // a write to the status register changes nothing
    memory.write(0x2002, 0xff);
    assert_eq!(memory.read(0x2002), first);
}

#[test]
fn mmio_map_gives_register_numbers() {
    assert_eq!(address_mmio_map(0x2000), 0);
    assert_eq!(address_mmio_map(0x2007), 7);
    assert_eq!(address_mmio_map(0x2008), 0);
    assert_eq!(address_mmio_map(0x3fff), 7);
    assert_eq!(address_mmio_map(0x4000), 0);
    assert_eq!(address_mmio_map(0x4014), 0x14);
    assert_eq!(address_mmio_map(0x401f), 0x1f);
}

#[test]
fn active_banks_can_be_switched() {
    let mut memory = Memory::from_file(&image(3, 0, 0, 0)).unwrap();
    assert_eq!(memory.program_rom_count(), 3);
    assert_eq!(memory.read(0x8000), 0);
    assert_eq!(memory.read(0xc000), 7);
    memory.set_active_ram(2, ProgramROMDst::One);
    assert_eq!(memory.read(0x8000), 14);
    assert_eq!(memory.read(0xc000), 7);
    memory.set_active_ram(0, ProgramROMDst::Two);
    assert_eq!(memory.read(0xc001), 1);
    assert_eq!(memory.get_program_rom(1).as_slice()[5], 12);
    assert_eq!(memory.get_program_rom(1).len(), 0x4000);
}

#[test]
fn ram_blocks() {
    let ram = RAM::new::<16>(0x100);
    assert_eq!(ram.len(), 16);
    assert_eq!(ram.start_address(), 0x100);
    assert!(ram.as_slice().iter().all(|b| *b == 0));
    assert!(RAM::new_dyn(0, 0).is_none());
    let mut ram = RAM::new_dyn(4, 0x6000).unwrap();
    assert_eq!(ram.as_slice(), &[0, 0, 0, 0]);
    ram.write(0x6002, 9);
    assert_eq!(ram.read(0x6002), 9);
    assert_eq!(ram.as_slice(), &[0, 0, 9, 0]);
    ram.as_slice_mut()[0] = 7;
    assert_eq!(ram.read(0x6000), 7);
    assert_eq!(ram.range(0x6000, 0x6003), &[7, 0, 9]);
    ram.set_start_address(0x10);
    assert_eq!(ram.read(0x12), 9);
    let ram = RAM::from_bytes(vec![1, 2, 3], 5);
    assert_eq!(ram.read(7), 3);
}
