use rust_nes_esp::memory::RAM;
use rust_nes_esp::palette::PALETTE;
use rust_nes_esp::ppu::{PPUScanLineState, PPUState, PPU};

const FRAME: usize = 256 * 240 * 3;

fn colour(index: usize) -> [u8; 3] {
    [PALETTE[3 * index], PALETTE[3 * index + 1], PALETTE[3 * index + 2]]
}

fn point_at(ppu: &mut PPU, address: u16) {
    // a pair of address writes ends with a step of one
    let before = address.wrapping_sub(1);
    ppu.read(0x2002);
    ppu.set_vram_address((before >> 8) as u8);
    ppu.set_vram_address((before & 0xff) as u8);
    assert_eq!(ppu.registers().vram_address, address);
}

fn poke(ppu: &mut PPU, address: u16, data: u8) {
    point_at(ppu, address);
    ppu.write_vram(data);
}

#[test]
fn power_on_state() {
    let ppu = PPU::new(vec![]);
    assert_eq!(ppu.state(), PPUState::PreRender(0));
    let registers = ppu.registers();
    assert_eq!(registers.control_1, 0);
    assert_eq!(registers.control_2, 0);
    assert_eq!(registers.status, 0);
    assert_eq!(registers.vram_address, 0);
    assert!(!registers.second_write);
    assert_eq!(ppu.peek_vram(0), 0);
    assert_eq!(ppu.peek_spram(0), 0);
}

#[test]
fn vrom_is_installed_at_power_on() {
    let ppu = PPU::new(vec![RAM::from_bytes(vec![0x11; 4096], 0)]);
    assert_eq!(ppu.peek_vram(0x0000), 0x11);
    assert_eq!(ppu.peek_vram(0x0fff), 0x11);
    assert_eq!(ppu.peek_vram(0x1000), 0x11);
    assert_eq!(ppu.peek_vram(0x1fff), 0x11);
    assert_eq!(ppu.peek_vram(0x2000), 0x00);
    let mut ppu = PPU::new(vec![
        RAM::from_bytes(vec![0x11; 4096], 0),
        RAM::from_bytes(vec![0x22; 4096], 0),
        RAM::from_bytes(vec![0x33; 4096], 0),
    ]);
    assert_eq!(ppu.peek_vram(0x0fff), 0x11);
    assert_eq!(ppu.peek_vram(0x1000), 0x22);
    assert_eq!(ppu.vrom_count(), 3);
    assert_eq!(ppu.get_vrom(1).as_slice()[4095], 0x22);
    ppu.load_vrom(2, 0);
    assert_eq!(ppu.peek_vram(0x0000), 0x33);
    assert_eq!(ppu.peek_vram(0x0fff), 0x33);
    assert_eq!(ppu.peek_vram(0x1000), 0x22);
}

#[test]
fn control_registers_are_stored() {
    let mut ppu = PPU::new(vec![]);
    ppu.set_ppu_control_1(0x93);
    ppu.set_ppu_control_2(0x1e);
    ppu.set_spr_ram_address(0x40);
    ppu.ignore(0xff);
    let registers = ppu.registers();
    assert_eq!(registers.control_1, 0x93);
    assert_eq!(registers.control_2, 0x1e);
    assert_eq!(registers.spr_ram_address, 0x40);
    ppu.write_register(0, 0x04);
    ppu.write_register(2, 0xff);
    assert_eq!(ppu.registers().control_1, 0x04);
    assert_eq!(ppu.registers().status, 0);
}

#[test]
fn two_scroll_writes_set_both_offsets() {
    let mut ppu = PPU::new(vec![]);
    ppu.set_scroll(0x12);
    assert_eq!(ppu.registers().x_scroll, 0x12);
    assert_eq!(ppu.registers().y_scroll, 0);
    assert!(ppu.registers().second_write);
    ppu.set_scroll(0x34);
    assert_eq!(ppu.registers().x_scroll, 0x12);
    assert_eq!(ppu.registers().y_scroll, 0x34);
    assert!(!ppu.registers().second_write);
}

#[test]
fn two_address_writes_set_the_whole_address() {
    let mut ppu = PPU::new(vec![]);
    ppu.set_vram_address(0x21);
    assert_eq!(ppu.registers().vram_address, 0x2100);
    assert!(ppu.registers().second_write);
    ppu.set_vram_address(0x07);
    assert_eq!(ppu.registers().vram_address, 0x2108);
    assert!(!ppu.registers().second_write);
    ppu.set_ppu_control_1(0x04);
    ppu.set_vram_address(0x3f);
    ppu.set_vram_address(0xf0);
    assert_eq!(ppu.registers().vram_address, 0x3ff0 + 32);
    ppu.set_vram_address(0xff);
    ppu.set_vram_address(0xff);
    assert_eq!(ppu.registers().vram_address, 31);
}

#[test]
fn scroll_and_address_share_the_latch() {
    let mut ppu = PPU::new(vec![]);
    ppu.set_scroll(0x12);
    ppu.set_vram_address(0x07);
    // the address write was the second of the pair: it set the low byte
    assert_eq!(ppu.registers().vram_address, 0x0008);
    assert!(!ppu.registers().second_write);
}

#[test]
fn status_read_resets_the_latch_and_keeps_the_status() {
    let mut ppu = PPU::new(vec![]);
    let mut frame = vec![0u8; FRAME];
    ppu.advance(82524, &mut frame);
    ppu.set_scroll(1);
    assert!(ppu.registers().second_write);
    let first = ppu.read(0x2002);
    assert_eq!(first, 0x80);
    assert!(!ppu.registers().second_write);
    let second = ppu.read(0x200a);
    assert_eq!(second, first);
    assert!(!ppu.registers().second_write);
    assert_eq!(ppu.read(0x2000), 0);
    assert_eq!(ppu.read(0x2001), 0);
    assert_eq!(ppu.read(0x4002), 0);
    assert_eq!(ppu.read(0x1002), 0);
}

#[test]
fn phases_follow_the_frame() {
    let mut ppu = PPU::new(vec![]);
    let mut frame = vec![0u8; FRAME];
    ppu.advance(0, &mut frame);
    assert_eq!(ppu.state(), PPUState::PreRender(0));
    ppu.advance(1, &mut frame);
    assert_eq!(ppu.state(), PPUState::PreRender(1));
    ppu.advance(340, &mut frame);
    assert_eq!(ppu.state(), PPUState::PreRender(341));
    ppu.advance(1, &mut frame);
    assert_eq!(ppu.state(), PPUState::VisibleLines(0, PPUScanLineState::Idle(1)));
    ppu.advance(1, &mut frame);
    assert_eq!(ppu.state(), PPUState::VisibleLines(0, PPUScanLineState::Render(1)));
    ppu.advance(255, &mut frame);
    assert_eq!(ppu.state(), PPUState::VisibleLines(0, PPUScanLineState::Render(256)));
    ppu.advance(1, &mut frame);
    assert_eq!(ppu.state(), PPUState::VisibleLines(0, PPUScanLineState::SpriteFetch(1)));
    ppu.advance(63, &mut frame);
    assert_eq!(ppu.state(), PPUState::VisibleLines(0, PPUScanLineState::SpriteFetch(64)));
    ppu.advance(1, &mut frame);
    assert_eq!(ppu.state(), PPUState::VisibleLines(0, PPUScanLineState::PreFetch(1)));
    ppu.advance(16, &mut frame);
    assert_eq!(ppu.state(), PPUState::VisibleLines(0, PPUScanLineState::OtherFetch(1)));
    ppu.advance(3, &mut frame);
    assert_eq!(ppu.state(), PPUState::VisibleLines(0, PPUScanLineState::OtherFetch(4)));
    ppu.advance(1, &mut frame);
    assert_eq!(ppu.state(), PPUState::VisibleLines(1, PPUScanLineState::Idle(1)));
    ppu.advance(341 * 239 - 1, &mut frame);
    assert_eq!(ppu.state(), PPUState::VisibleLines(239, PPUScanLineState::OtherFetch(4)));
    ppu.advance(1, &mut frame);
    assert_eq!(ppu.state(), PPUState::PostRender(1));
    ppu.advance(341, &mut frame);
    assert_eq!(ppu.state(), PPUState::Vblank(1));
    ppu.advance(6819, &mut frame);
    assert_eq!(ppu.state(), PPUState::Vblank(6820));
    ppu.advance(1, &mut frame);
    assert_eq!(ppu.state(), PPUState::PreRender(1));
    ppu.advance(89342, &mut frame);
    assert_eq!(ppu.state(), PPUState::PreRender(1));
}

#[test]
fn vertical_blank_is_set_at_its_second_cycle_and_cleared_by_pre_render() {
    let mut ppu = PPU::new(vec![]);
    let mut frame = vec![0u8; FRAME];
    ppu.advance(82523, &mut frame);
    assert_eq!(ppu.state(), PPUState::Vblank(1));
    assert_eq!(ppu.registers().status, 0x00);
    ppu.advance(1, &mut frame);
    assert_eq!(ppu.state(), PPUState::Vblank(2));
    assert_eq!(ppu.registers().status, 0x80);
    ppu.advance(6818, &mut frame);
    assert_eq!(ppu.state(), PPUState::Vblank(6820));
    assert_eq!(ppu.registers().status, 0x80);
    ppu.advance(1, &mut frame);
    assert_eq!(ppu.state(), PPUState::PreRender(1));
    assert_eq!(ppu.registers().status, 0x00);
}

#[test]
fn a_burst_of_eight_pixels_is_drawn_when_its_cycles_are_spent() {
    let mut vrom = vec![0u8; 4096];
    // tile 1, row 0: pixels 3, 2, 1, 0, 0, 0, 0, 0
    vrom[16] = 0b1010_0000;
    vrom[16 + 8] = 0b1100_0000;
    // tile 1, row 1: all pixels 1
    vrom[17] = 0xff;
    let mut ppu = PPU::new(vec![RAM::from_bytes(vrom, 0)]);
    poke(&mut ppu, 0x2000, 1);
    poke(&mut ppu, 0x2001, 1);
    let mut frame = vec![0xeeu8; FRAME];
    // pre-render line, one idle cycle, seven cycles of rendering: nothing yet
    ppu.advance(341 + 1 + 7, &mut frame);
    assert!(frame.iter().all(|b| *b == 0xee));
    ppu.advance(1, &mut frame);
    assert_eq!(ppu.state(), PPUState::VisibleLines(0, PPUScanLineState::Render(8)));
    assert_eq!(&frame[0..3], &colour(3));
    assert_eq!(&frame[3..6], &colour(2));
    assert_eq!(&frame[6..9], &colour(1));
    for pixel in 3..8 {
        assert_eq!(&frame[3 * pixel..3 * pixel + 3], &colour(0));
    }
    assert!(frame[24..].iter().all(|b| *b == 0xee));
    assert_eq!(colour(3), [48, 0, 136]);
    // the second burst of the line
    ppu.advance(8, &mut frame);
    assert_eq!(&frame[24..27], &colour(3));
    assert_eq!(&frame[45..48], &colour(0));
    assert!(frame[48..].iter().all(|b| *b == 0xee));
    // the first burst of the second line shows row 1 of the tile
    ppu.advance(341, &mut frame);
    let line = 256 * 3;
    for pixel in 0..16 {
        assert_eq!(&frame[line + 3 * pixel..line + 3 * pixel + 3], &colour(1));
    }
    assert_eq!(frame[line + 48], 0xee);
    assert_eq!(frame[2 * line], 0xee);
}

#[test]
fn attributes_and_tables_select_colours_and_tiles() {
    let mut low_table = vec![0u8; 4096];
    let mut high_table = vec![0u8; 4096];
    low_table[0] = 0x80;
    high_table[0] = 0x80;
    high_table[8] = 0x80;
    let mut ppu = PPU::new(vec![RAM::from_bytes(low_table, 0), RAM::from_bytes(high_table, 0)]);
    // attribute byte of cell 0: bits 3 and 2 are the palette bits of shift 0
    poke(&mut ppu, 0x23c0, 0b0000_1000);
    let mut frame = vec![0u8; FRAME];
    ppu.advance(350, &mut frame);
    // palette bits 1, pixel value 1: colour 5
    assert_eq!(&frame[0..3], &colour(5));
    assert_eq!(&frame[3..6], &colour(4));
    // the second pattern table for the background
    ppu.set_ppu_control_1(0x10);
    ppu.advance(89342, &mut frame);
    assert_eq!(&frame[0..3], &colour(7));
    // the second name table has no attributes set
    ppu.set_ppu_control_1(0x11);
    ppu.advance(89342, &mut frame);
    assert_eq!(&frame[0..3], &colour(3));
    assert_eq!(colour(7), [60, 24, 0]);
}

#[test]
fn scrolling_moves_the_picture() {
    let mut vrom = vec![0u8; 4096];
    vrom[16] = 0x80;
    vrom[32 + 3] = 0x80;
    vrom[32 + 11] = 0x80;
    let mut ppu = PPU::new(vec![RAM::from_bytes(vrom, 0)]);
    poke(&mut ppu, 0x2001, 1);
    poke(&mut ppu, 0x2000 + 32, 2);
    let mut frame = vec![0u8; FRAME];
    ppu.read(0x2002);
    ppu.set_scroll(8);
    ppu.set_scroll(0);
    ppu.advance(350, &mut frame);
    // the tile of cell 1 shows at the left edge
    assert_eq!(&frame[0..3], &colour(1));
    ppu.set_scroll(0);
    ppu.set_scroll(11);
    ppu.advance(89342, &mut frame);
    // line 0 shows row 3 of the tile in the second row of cells
    assert_eq!(&frame[0..3], &colour(3));
    assert_eq!(PPU::map_pixel_to_pattern(0), 0);
    assert_eq!(PPU::map_pixel_to_pattern(255), 31);
    assert_eq!(PPU::map_pixel_to_pattern(256 * 8), 32);
    assert_eq!(PPU::map_pixel_to_pattern(256 * 239 + 255), 959);
}

#[test]
fn states_step_one_by_one() {
    assert_eq!(PPUState::PreRender(341).normalised(),
        PPUState::VisibleLines(0, PPUScanLineState::Idle(0)));
    assert_eq!(PPUState::PreRender(340).normalised(), PPUState::PreRender(340));
    assert_eq!(PPUState::VisibleLines(239, PPUScanLineState::OtherFetch(4)).normalised(),
        PPUState::PostRender(0));
    assert_eq!(PPUState::Vblank(6820).next(), PPUState::PreRender(1));
    assert_eq!(PPUState::VisibleLines(7, PPUScanLineState::Render(256)).next(),
        PPUState::VisibleLines(7, PPUScanLineState::SpriteFetch(1)));
    let mut ppu = PPU::new(vec![]);
    let mut frame = vec![0u8; FRAME];
    ppu.tick(&mut frame);
    assert_eq!(ppu.state(), PPUState::PreRender(1));
    ppu.render_burst(239, 248, &mut frame);
    assert_eq!(&frame[FRAME - 3..], &colour(0));
}

#[test]
fn quiet_stretches_are_taken_in_one_step() {
    assert_eq!(PPUState::PreRender(0).quiet(), 0);
    assert_eq!(PPUState::PreRender(1).quiet(), 340);
    assert_eq!(PPUState::VisibleLines(3, PPUScanLineState::Idle(0)).quiet(), 1);
    assert_eq!(PPUState::VisibleLines(3, PPUScanLineState::Render(0)).quiet(), 7);
    assert_eq!(PPUState::VisibleLines(3, PPUScanLineState::Render(7)).quiet(), 0);
    assert_eq!(PPUState::VisibleLines(3, PPUScanLineState::Render(8)).quiet(), 7);
    assert_eq!(PPUState::VisibleLines(3, PPUScanLineState::Render(255)).quiet(), 0);
    assert_eq!(PPUState::VisibleLines(3, PPUScanLineState::SpriteFetch(4)).quiet(), 60);
    assert_eq!(PPUState::VisibleLines(3, PPUScanLineState::PreFetch(0)).quiet(), 16);
    assert_eq!(PPUState::VisibleLines(3, PPUScanLineState::OtherFetch(3)).quiet(), 1);
    assert_eq!(PPUState::PostRender(0).quiet(), 341);
    assert_eq!(PPUState::Vblank(0).quiet(), 1);
    assert_eq!(PPUState::Vblank(1).quiet(), 0);
    assert_eq!(PPUState::Vblank(2).quiet(), 6818);
    assert_eq!(PPUState::PostRender(0).forward(341), PPUState::PostRender(341));
    assert_eq!(
        PPUState::VisibleLines(9, PPUScanLineState::Render(8)).forward(7),
        PPUState::VisibleLines(9, PPUScanLineState::Render(15))
    );
}

#[test]
fn many_frames_in_one_call_equal_cycle_by_cycle() {
    let mut vrom = vec![0u8; 4096];
    for (i, byte) in vrom.iter_mut().enumerate() {
        *byte = (i * 7 % 251) as u8;
    }
    let mut fast = PPU::new(vec![RAM::from_bytes(vrom.clone(), 0)]);
    let mut slow = PPU::new(vec![RAM::from_bytes(vrom, 0)]);
    for ppu in [&mut fast, &mut slow] {
        for cell in 0..64u16 {
            poke(ppu, 0x2000 + cell * 15, (cell * 3 + 1) as u8);
        }
        poke(ppu, 0x23c0, 0x5b);
        ppu.read(0x2002);
        ppu.set_scroll(19);
        ppu.set_scroll(5);
    }
    let mut fast_frame = vec![0u8; FRAME];
    let mut slow_frame = vec![0u8; FRAME];
    let cycles = 89342 + 82524 + 17;
    fast.advance(cycles, &mut fast_frame);
    for _ in 0..cycles {
        slow.tick(&mut slow_frame);
    }
    assert_eq!(fast.state(), slow.state());
    assert_eq!(fast.registers(), slow.registers());
    assert_eq!(fast.registers().status, 0x80);
    assert!(fast_frame == slow_frame);
    assert!(fast_frame.iter().any(|b| *b != 0));
    fast.advance(89342 * 200, &mut fast_frame);
    assert_eq!(fast.state(), slow.state());
    assert!(fast_frame == slow_frame);
}
