use rust_nes_esp::cpu::CPU;
use rust_nes_esp::memory::{parse_header, Memory, NesError};
use rust_nes_esp::ppu::PPUState;

fn image(prg: u8, chr: u8, control_1: u8, control_2: u8) -> Vec<u8> {
    let mut bytes = vec![0x4e, 0x45, 0x53, 0x1a, prg, chr, control_1, control_2];
    bytes.resize(16, 0);
    if control_1 & 0x04 != 0 {
        for i in 0..512usize {
            bytes.push((i % 251) as u8 + 1);
        }
    }
    for bank in 0..prg as usize {
        for i in 0..0x4000usize {
            bytes.push(((bank * 7 + i) % 256) as u8);
        }
    }
    for bank in 0..chr as usize {
        for i in 0..0x2000usize {
            bytes.push(((bank * 3 + i / 16) % 256) as u8);
        }
    }
    bytes
}

fn message(result: Result<Memory, NesError>) -> &'static str {
    match result {
        Err(NesError::FileFormat(message)) => message,
        Err(_) => panic!("another kind of error"),
        Ok(_) => panic!("the image was loaded"),
    }
}

#[test]
fn short_header_is_refused() {
    assert_eq!(message(Memory::from_file(&[])), "file too short");
    assert_eq!(message(Memory::from_file(&image(1, 0, 0, 0)[..15])), "file too short");
}

#[test]
fn wrong_identifying_bytes_are_refused() {
    let mut bytes = image(1, 0, 0, 0);
    bytes[3] = 0x1b;
    assert_eq!(
        message(Memory::from_file(&bytes)),
        "incorrect identifying bytes, not a .nes file?"
    );
    let mut bytes = image(1, 0, 0, 0);
    bytes[0] = b'n';
    assert_eq!(
        message(Memory::from_file(&bytes)),
        "incorrect identifying bytes, not a .nes file?"
    );
}

#[test]
fn other_mappers_are_refused() {
    assert_eq!(message(Memory::from_file(&image(1, 0, 0x10, 0))), "unsupported mapper");
    assert_eq!(message(Memory::from_file(&image(1, 0, 0x00, 0x40))), "unsupported mapper");
}

#[test]
fn trainer_without_save_ram_is_refused() {
    assert_eq!(message(Memory::from_file(&image(1, 0, 0x04, 0))), "trainer without save RAM");
}

#[test]
fn image_without_program_is_refused() {
    assert_eq!(message(Memory::from_file(&image(0, 1, 0, 0))), "no program ROM");
}

#[test]
fn cut_off_banks_are_refused() {
    let bytes = image(2, 1, 0, 0);
    assert_eq!(message(Memory::from_file(&bytes[..bytes.len() - 1])), "file too short");
    assert_eq!(message(Memory::from_file(&bytes[..16 + 0x4000])), "file too short");
    assert!(Memory::from_file(&bytes).is_ok());
    let mut longer = bytes.clone();
    longer.push(0);
    assert!(Memory::from_file(&longer).is_ok());
}

#[test]
fn header_fields_are_read() {
    let mut bytes = image(2, 3, 0x03, 0x08);
    bytes[8] = 0;
    let header = parse_header(&bytes).unwrap();
    assert_eq!(header.prg_rom_count, 2);
    assert_eq!(header.vrom_count, 3);
    assert!(header.mirroring);
    assert!(header.battery_ram);
    assert!(!header.trainer);
    assert_eq!(header.mapper, 0);
    assert_eq!(header.ram_bank_count, 1);
    assert!(header.extended);
    bytes[6] = 0xa4;
    bytes[7] = 0x5c;
    bytes[8] = 4;
    let header = parse_header(&bytes).unwrap();
    assert_eq!(header.mapper, 0x5a);
    assert!(header.trainer);
    assert!(!header.battery_ram);
    assert!(!header.mirroring);
    assert_eq!(header.ram_bank_count, 4);
    assert!(!header.extended);
    assert!(matches!(parse_header(&bytes[..10]), Err(NesError::FileFormat("file too short"))));
}

#[test]
fn a_sole_bank_is_seen_in_both_windows() {
    let mut memory = Memory::from_file(&image(1, 0, 0, 0)).unwrap();
    assert_eq!(memory.program_rom_count(), 1);
    assert_eq!(memory.read(0x8005), 5);
    assert_eq!(memory.read(0xc005), 5);
    assert_eq!(memory.mapper(), 0);
    // no save RAM: reads give 0, writes are dropped
    memory.write(0x6000, 1);
    assert_eq!(memory.read(0x6000), 0);
}

#[test]
fn two_banks_fill_the_two_windows() {
    let mut memory = Memory::from_file(&image(2, 0, 0, 0)).unwrap();
    assert_eq!(memory.read(0x8005), 5);
    assert_eq!(memory.read(0xc005), 12);
    assert_eq!(memory.read(0xffff), ((7 + 0x3fff) % 256) as u8);
}

#[test]
fn trainer_is_placed_in_save_ram() {
    let mut memory = Memory::from_file(&image(1, 0, 0x06, 0)).unwrap();
    assert_eq!(memory.read(0x6fff), 0);
    assert_eq!(memory.read(0x7000), 1);
    assert_eq!(memory.read(0x7001), 2);
    assert_eq!(memory.read(0x71ff), (511 % 251) as u8 + 1);
    assert_eq!(memory.read(0x7200), 0);
    // the program follows the trainer
    assert_eq!(memory.read(0x8003), 3);
}

#[test]
fn character_banks_become_pattern_tables() {
    let memory = Memory::from_file(&image(1, 2, 0, 0)).unwrap();
    let ppu = memory.ppu();
    // first half of the first bank is pattern table 0, second half pattern table 1
    assert_eq!(ppu.peek_vram(0x0000), 0);
    assert_eq!(ppu.peek_vram(0x0010), 1);
    assert_eq!(ppu.peek_vram(0x0fff), 255);
    assert_eq!(ppu.peek_vram(0x1000), 0);
    assert_eq!(ppu.peek_vram(0x1010), 1);
    assert_eq!(ppu.peek_vram(0x2000), 0);
    assert_eq!(ppu.state(), PPUState::PreRender(0));
}

#[test]
fn processor_starts_at_the_reset_vector() {
    let mut bytes = image(1, 0, 0, 0);
    bytes[16 + 0x3ffc] = 0x34;
    bytes[16 + 0x3ffd] = 0x92;
    let cpu = CPU::from_file(&bytes).unwrap();
    assert_eq!(cpu.program_counter, 0x9234);
    assert_eq!(cpu.stack_pointer, 0xff);
    assert_eq!(cpu.accumulator, 0);
    assert_eq!(cpu.idx_register_x, 0);
    assert_eq!(cpu.idx_register_y, 0);
    assert_eq!(cpu.processor_status.bits(), 0);
    assert!(matches!(CPU::from_file(&bytes[..3]), Err(NesError::FileFormat("file too short"))));
}

#[test]
fn diagnostic_entry_is_fixed() {
    let cpu = CPU::from_file_nestest(&image(1, 1, 0, 0)).unwrap();
    assert_eq!(cpu.program_counter, 0xc000);
    assert_eq!(cpu.stack_pointer, 0xfd);
    assert_eq!(cpu.processor_status.bits(), 0x24);
    assert_eq!(cpu.accumulator, 0);
    let mut bytes = image(1, 1, 0, 0);
    bytes[1] = 0;
    assert!(matches!(
        CPU::from_file_nestest(&bytes),
        Err(NesError::FileFormat("incorrect identifying bytes, not a .nes file?"))
    ));
}

#[test]
fn io_errors_become_nes_errors() {
    let error = NesError::from(std::io::Error::new(std::io::ErrorKind::NotFound, "gone"));
    assert!(matches!(error, NesError::IO(_)));
    assert!(format!("{:?}", NesError::Emulator("stuck")).contains("stuck"));
}
