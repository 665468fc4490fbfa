use rust_nes_esp::cpu::CPU;
use rust_nes_esp::grey_image::GreyImage;
use rust_nes_esp::opmap::{count_valid_ops, decode, op_name, AddressingMode, Operation};
use rust_nes_esp::palette::{palette_channel, PALETTE};
use rust_nes_esp::status::ProcessorStatusFlags;
use rust_nes_esp::tiles::{NameTable, PatternTable};
use rust_nes_esp::trace::{hex_digit, obj_dump, push_hex_byte, push_hex_word, push_padded};

#[test]
fn pixels_join_the_two_planes() {
    let mut data = [0u8; 16];
    data[2] = 0b0100_0001;
    data[10] = 0b0000_0011;
    let tile = PatternTable::from(&data);
    assert_eq!(tile.get_pixel((2, 1)), 1);
    assert_eq!(tile.get_pixel((2, 6)), 2);
    assert_eq!(tile.get_pixel((2, 7)), 3);
    assert_eq!(tile.get_pixel((2, 0)), 0);
    assert_eq!(tile.get_pixel((3, 7)), 0);
}

#[test]
fn grey_tiles_use_the_low_bit() {
    let mut data = [0u8; 16];
    data[0] = 0b1010_0000;
    data[8] = 0b1100_0000;
    let tile = PatternTable::from(&data);
    let mut pixels = [9u8; 64];
    tile.write_greyscale_pixels(&mut pixels);
    assert_eq!(&pixels[0..4], &[128, 0, 128, 0]);
    assert!(pixels[4..].iter().all(|p| *p == 0));
}

#[test]
fn tile_rows_become_colour_bytes() {
    let mut data = [0u8; 16];
    data[5] = 0b1000_0000;
    data[13] = 0b0100_0000;
    let tile = PatternTable::from(&data);
    let mut buf = [7u8; 30];
    tile.write_rgb_row(&mut buf, 3, 5, 8);
    assert_eq!(&buf[0..3], &[7, 7, 7]);
    assert_eq!(&buf[3..6], &PALETTE[27..30]);
    assert_eq!(&buf[6..9], &PALETTE[30..33]);
    assert_eq!(&buf[9..12], &PALETTE[24..27]);
    assert_eq!(&buf[27..30], &[7, 7, 7]);
    assert_eq!(palette_channel(9, 2), 0);
    assert_eq!(palette_channel(9, 1), 58);
    assert_eq!(palette_channel(0x21, 0), 76);
    assert_eq!(palette_channel(63, 2), 0);
}

#[test]
fn pattern_table_picture_has_16_tiles_to_a_row() {
    let mut table = vec![0u8; 4096];
    // tile 17 is the second tile of the second row: its top left pixel
    table[17 * 16] = 0x80;
    // tile 255, bottom right pixel
    table[255 * 16 + 7] = 0x01;
    let pixels = PatternTable::pattern_table_pixels(&table);
    assert_eq!(pixels.len(), 128 * 128);
    assert_eq!(pixels[8 * 128 + 8], 128);
    assert_eq!(pixels[127 * 128 + 127], 128);
    assert_eq!(pixels.iter().filter(|p| **p != 0).count(), 2);
    let image = PatternTable::generate_pattern_table_image(&table);
    assert_eq!(image.width(), 128);
    let raw = image.into_raw();
    assert_eq!(raw, pixels);
    // the picture is one that the image crate takes as 128 by 128
    let again = image::GrayImage::from_vec(128, 128, raw).unwrap();
    assert_eq!(again.get_pixel(8, 8).0, [128]);
    assert_eq!(again.get_pixel(127, 127).0, [128]);
    assert_eq!(again.get_pixel(9, 8).0, [0]);
}

#[test]
fn grey_pictures_need_enough_pixels() {
    assert!(GreyImage::from_pixels(4, 4, vec![0; 15]).is_none());
    let picture = GreyImage::from_pixels(4, 3, vec![7; 12]).unwrap();
    assert_eq!(picture.width(), 4);
    assert_eq!(picture.into_raw(), vec![7; 12]);
    let picture = GreyImage::from_pixels(2, 2, vec![1, 2, 3, 4, 5]).unwrap();
    assert_eq!(picture.width(), 2);
    assert_eq!(picture.into_raw(), vec![1, 2, 3, 4, 5]);
    assert!(GreyImage::from_pixels(0, 0, vec![]).is_some());
    assert!(GreyImage::from_pixels(u32::MAX, u32::MAX, vec![0; 8]).is_none());
}

#[test]
fn attribute_bits_follow_the_cell() {
    let mut bytes = vec![0u8; 1024];
    bytes[960] = 0b0000_1011;
    bytes[960 + 8 + 1] = 0b0000_0110;
    let table = NameTable::from(&bytes);
    // cells 0 and 1 use shift 0, cells 2 and 3 shift 1, the row below shifts 2 and 3
    assert_eq!(table.map_pattern_to_attribute(0), 1);
    assert_eq!(table.map_pattern_to_attribute(1), 1);
    assert_eq!(table.map_pattern_to_attribute(2), 2);
    assert_eq!(table.map_pattern_to_attribute(3), 2);
    assert_eq!(table.map_pattern_to_attribute(32), 1);
    assert_eq!(table.map_pattern_to_attribute(34), 3);
    assert_eq!(table.map_pattern_to_attribute(4), 0);
    // cell 128 + 4 uses attribute byte 8 + 1
    assert_eq!(table.map_pattern_to_attribute(132), 0);
    assert_eq!(table.map_pattern_to_attribute(134), 1);
    assert_eq!(table.map_pattern_to_attribute(164), 3);
    assert_eq!(table.map_pattern_to_attribute(166), 2);
    assert_eq!(table.tile_id(959), 0);
}

#[test]
fn a_name_table_fills_a_frame() {
    let mut bytes = vec![0u8; 1024];
    bytes[0] = 1;
    bytes[33] = 1;
    bytes[959] = 1;
    bytes[960] = 0b0000_1000;
    let table = NameTable::from(&bytes);
    let mut patterns = vec![0u8; 4096];
    patterns[16] = 0x80;
    patterns[16 + 7] = 0x01;
    let mut frame = vec![0xaau8; 256 * 240 * 3];
    table.get_frame(&patterns, &mut frame);
    // cell 0: palette bits 1, pixel 1 in the top left corner
    assert_eq!(&frame[0..3], &PALETTE[15..18]);
    assert_eq!(&frame[3..6], &PALETTE[12..15]);
    // cell 33 is in the second row, second column; its pixel in row 7, column 7;
    // its palette bits are bits 2 and 1 of the attribute byte
    let offset = ((8 + 7) * 256 + 8 + 7) * 3;
    assert_eq!(&frame[offset..offset + 3], &PALETTE[3..6]);
    // the last cell, bottom right pixel, palette bits 0
    assert_eq!(&frame[frame.len() - 3..], &PALETTE[3..6]);
    assert_eq!(&frame[frame.len() - 6..frame.len() - 3], &PALETTE[0..3]);
    let tile = PatternTable::from(&patterns[16..32]);
    let mut strip = vec![0u8; 24];
    table.write_tile_row(0, 0, &tile, &mut strip, 0);
    assert_eq!(&strip[..], &frame[0..24]);
}

#[test]
fn status_text_names_every_flag() {
    assert_eq!(ProcessorStatusFlags(0x81).to_text(), "N:1 V:0 -:0 B:0 D:0 I:0 Z:0 C:1");
    assert_eq!(ProcessorStatusFlags(0x7e).to_text(), "N:0 V:1 -:1 B:1 D:1 I:1 Z:1 C:0");
    assert_eq!(ProcessorStatusFlags::empty().to_text(), "N:0 V:0 -:0 B:0 D:0 I:0 Z:0 C:0");
}

#[test]
fn flags_are_sets_of_bits() {
    let mut flags = ProcessorStatusFlags::from_bits_retain(0x24);
    assert!(flags.contains(ProcessorStatusFlags::INTERRUPT | ProcessorStatusFlags::UNUSED));
    assert!(!flags.contains(ProcessorStatusFlags::INTERRUPT | ProcessorStatusFlags::CARRY));
    flags.insert(ProcessorStatusFlags::CARRY);
    assert_eq!(flags.bits(), 0x25);
    flags.remove(ProcessorStatusFlags::INTERRUPT | ProcessorStatusFlags::ZERO);
    assert_eq!(flags.bits(), 0x21);
    flags.set(ProcessorStatusFlags::OVERFLOW, true);
    flags.set(ProcessorStatusFlags::CARRY, false);
    assert_eq!(flags, ProcessorStatusFlags(0x60));
    assert_eq!(flags.union(ProcessorStatusFlags::BREAK).bits(), 0x70);
    assert_eq!(flags.complement().bits(), 0x9f);
    assert!(!flags.is_empty());
    assert!(ProcessorStatusFlags::empty().is_empty());
    assert_eq!(ProcessorStatusFlags::from_bits_truncate(0xff).bits(), 0xff);
}

#[test]
fn opcodes_are_decoded() {
    assert_eq!(count_valid_ops(), 150);
    assert_eq!(decode(0xa9).operation, Operation::LoadA);
    assert_eq!(decode(0xa9).mode, AddressingMode::Immediate);
    assert_eq!(decode(0x6c).operation, Operation::Jump);
    assert_eq!(decode(0x6c).mode, AddressingMode::AbsoluteIndirect);
    assert_eq!(decode(0x96).mode, AddressingMode::ZeroPageY);
    assert_eq!(decode(0xea).operation, Operation::NoOperation);
    assert_eq!(decode(0xff).operation, Operation::Invalid);
    assert_eq!(op_name(0x09), "ORA");
    assert_eq!(op_name(0xc9), "CMP");
    assert_eq!(op_name(0x00), "BRK");
    assert_eq!(op_name(0x02), "! INVALID !");
}

#[test]
fn numbers_are_written_in_capital_hexadecimal() {
    let mut text = String::new();
    push_hex_byte(&mut text, 0x0a);
    push_hex_byte(&mut text, 0xf9);
    push_hex_word(&mut text, 0xc05e);
    push_hex_word(&mut text, 0x0001);
    assert_eq!(text, "0AF9C05E0001");
    assert_eq!(hex_digit(0), "0");
    assert_eq!(hex_digit(11), "B");
    assert_eq!(hex_digit(15), "F");
    let mut text = String::from("[");
    push_padded(&mut text, "LDA", 6);
    push_padded(&mut text, "]", 1);
    push_padded(&mut text, "toolong", 3);
    assert_eq!(text, "[LDA   ]toolong");
}

#[test]
fn trace_lines_show_the_state_before_each_step() {
    let mut cpu = CPU::with_program(vec![0xa9, 0x8f, 0xaa, 0x02]);
    let mut sink = String::new();
    cpu.execute_nestest(Some(3), &mut sink);
    let lines: Vec<&str> = sink.lines().collect();
    assert_eq!(lines.len(), 3);
    assert_eq!(
        lines[0],
        "8000 OP:(A9)LDA                            A:00 X:00 Y:00 P:00 SP:FF"
    );
    assert_eq!(
        lines[1],
        "8002 OP:(AA)TAX                            A:8F X:00 Y:00 P:80 SP:FF"
    );
    assert_eq!(
        lines[2],
        "8003 OP:(02)! INVALID !                    A:8F X:8F Y:00 P:80 SP:FF"
    );
    assert!(sink.ends_with('\n'));
    assert_eq!(cpu.program_counter, 0x8004);
    assert_eq!(cpu.idx_register_x, 0x8f);
    let mut one = String::from(">");
    cpu.push_trace_line(&mut one);
    assert_eq!(one, ">8004 OP:(00)BRK                            A:8F X:8F Y:00 P:80 SP:FF\n");
    cpu.execute_nestest(Some(0), &mut one);
    assert_eq!(one.len(), 70);
}

#[test]
fn listings_name_every_byte() {
    let rom = [0xa9, 0x10, 0x4c, 0xff];
    assert_eq!(
        obj_dump(&rom, 0, None),
        "0x0000:(0xA9)LDA\n0x0001:(0x10)BPL\n0x0002:(0x4C)JMP\n0x0003:(0xFF)! INVALID !\n"
    );
    assert_eq!(obj_dump(&rom, 2, Some(1)), "0x0002:(0x4C)JMP\n");
    assert_eq!(obj_dump(&rom, 1, Some(9)).lines().count(), 3);
    assert_eq!(obj_dump(&rom, 4, None), "");
    assert_eq!(obj_dump(&rom, 9, Some(2)), "");
    assert_eq!(obj_dump(&rom, 0, Some(0)), "");
}
