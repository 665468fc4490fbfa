//! The picture unit: video memory, sprite memory, eight registers seen by
//! the processor, and the state machine that walks through a frame one
//! cycle at a time and draws the background as it goes.

use crate::memory::{zeroed, IO_REGISTERS, MMIO, RAM};
use crate::tiles::{
    palette_high_bits, splice, tile_of, tile_row_rgb, NameTable, PatternTable, FRAME_BYTES,
    FRAME_HEIGHT, FRAME_WIDTH, NAME_TABLE_SIZE, NAME_TABLE_TILES, PATTERN_TABLE_SIZE,
};
use vstd::prelude::*;

verus! {

/// Bytes of video memory.
pub const VRAM_SIZE: u16 = 0x4000;

/// Bytes of sprite memory.
pub const SPRAM_SIZE: u16 = 0x0100;

/// Where the first name table starts in video memory.
pub const NAME_TABLES: u16 = 0x2000;

/// Cycles in one scanline.
pub const CYCLES_SCANLINE: usize = 341;

/// Scanlines of vertical blank.
pub const SCANLINES_VBLANK: usize = 20;

/// Scanlines that show pixels.
pub const SCANLINES_VISIBLE: usize = 240;

/// Cycles a visible scanline idles before it renders.
pub const IDLE_CYCLES: usize = 1;

/// Cycles a visible scanline renders: one per pixel.
pub const RENDER_CYCLES: usize = 256;

/// Cycles a visible scanline fetches sprites.
pub const SPRITE_FETCH_CYCLES: usize = 64;

/// Cycles a visible scanline fetches the first tiles of the next line.
pub const PRE_FETCH_CYCLES: usize = 16;

/// Cycles that end a visible scanline.
pub const OTHER_FETCH_CYCLES: usize = 4;

/// Cycles of vertical blank.
pub const VBLANK_CYCLES: usize = 6820;

/// Cycles in a frame: 262 scanlines.
pub const FRAME_CYCLES: usize = 89342;

/// Cycles from the start of a frame to the end of the visible scanlines.
pub const VISIBLE_END: usize = 82181;

/// Cycles from the start of a frame to the start of vertical blank.
pub const VBLANK_START: usize = 82522;

/// Control register 1: which of the four name tables is shown.
pub const CONTROL_NAME_TABLE: u8 = 0x03;

/// Control register 1: the video address grows by 32, not by 1.
pub const CONTROL_ADDRESS_INCREMENT: u8 = 0x04;

/// Control register 1: sprites take their tiles from the second pattern table.
pub const CONTROL_SPRITE_PATTERN_TABLE: u8 = 0x08;

/// Control register 1: the background takes its tiles from the second pattern table.
pub const CONTROL_BACKGROUND_TABLE: u8 = 0x10;

/// Control register 1: sprites are 8 by 16.
pub const CONTROL_SPRITE_SIZE: u8 = 0x20;

/// Control register 1: an interrupt is asked for when vertical blank starts.
pub const CONTROL_INTERRUPT_ON_VBLANK: u8 = 0x80;

/// Control register 2: monochrome.
pub const CONTROL_COLOR_MODE: u8 = 0x01;

/// Control register 2: the background shows in the leftmost eight pixels.
pub const CONTROL_BACKGROUND_CLIP: u8 = 0x02;

/// Control register 2: sprites show in the leftmost eight pixels.
pub const CONTROL_SPRITE_CLIP: u8 = 0x04;

/// Control register 2: the background is shown.
pub const CONTROL_DISPLAY_BACKGROUND: u8 = 0x08;

/// Control register 2: sprites are shown.
pub const CONTROL_DISPLAY_SPRITE: u8 = 0x10;

/// Control register 2: colour emphasis.
pub const CONTROL_BACKGROUND_COLOR: u8 = 0xe0;

/// Status: more sprites on a scanline than can be shown.
pub const STATUS_SPRITE_OVERFLOW: u8 = 0x20;

/// Status: sprite 0 met the background.
pub const STATUS_SPRITE_COLLISION: u8 = 0x40;

/// Status: vertical blank has begun.
pub const STATUS_VBLANK: u8 = 0x80;

/// The status bits that the first cycle of the pre-render line leaves standing.
pub const STATUS_KEPT_BY_PRERENDER: u8 = 0x1f;

/// Where a visible scanline stands, with the cycles spent in that part.
#[derive(Clone, Copy, Debug, PartialEq, Eq, Structural)]
pub enum PPUScanLineState {
    Idle(usize),
    Render(usize),
    SpriteFetch(usize),
    PreFetch(usize),
    OtherFetch(usize),
}

/// Where the frame stands, with the cycles spent in that phase.
#[derive(Clone, Copy, Debug, PartialEq, Eq, Structural)]
pub enum PPUState {
    PreRender(usize),
    VisibleLines(usize, PPUScanLineState),
    PostRender(usize),
    Vblank(usize),
}

impl PPUScanLineState {
    /// No part holds more cycles than it lasts.
    pub open spec fn wf(self) -> bool {
        match self {
            PPUScanLineState::Idle(c) => c <= IDLE_CYCLES,
            PPUScanLineState::Render(c) => c <= RENDER_CYCLES,
            PPUScanLineState::SpriteFetch(c) => c <= SPRITE_FETCH_CYCLES,
            PPUScanLineState::PreFetch(c) => c <= PRE_FETCH_CYCLES,
            PPUScanLineState::OtherFetch(c) => c <= OTHER_FETCH_CYCLES,
        }
    }

    /// Cycles spent since the scanline began.
    pub open spec fn dot(self) -> int {
        match self {
            PPUScanLineState::Idle(c) => c as int,
            PPUScanLineState::Render(c) => 1 + c,
            PPUScanLineState::SpriteFetch(c) => 257 + c,
            PPUScanLineState::PreFetch(c) => 321 + c,
            PPUScanLineState::OtherFetch(c) => 337 + c,
        }
    }

    /// The part in which cycle number `dot` (1 to 341) of a scanline falls,
    /// that cycle counted as spent.
    pub open spec fn at(dot: int) -> PPUScanLineState {
        if dot <= 1 {
            PPUScanLineState::Idle(dot as usize)
        } else if dot <= 257 {
            PPUScanLineState::Render((dot - 1) as usize)
        } else if dot <= 321 {
            PPUScanLineState::SpriteFetch((dot - 257) as usize)
        } else if dot <= 337 {
            PPUScanLineState::PreFetch((dot - 321) as usize)
        } else {
            PPUScanLineState::OtherFetch((dot - 337) as usize)
        }
    }
}

impl PPUState {
    /// No phase holds more cycles than it lasts, and there are 240 visible lines.
    pub open spec fn wf(self) -> bool {
        match self {
            PPUState::PreRender(c) => c <= CYCLES_SCANLINE,
            PPUState::VisibleLines(line, part) => line < SCANLINES_VISIBLE && part.wf(),
            PPUState::PostRender(c) => c <= CYCLES_SCANLINE,
            PPUState::Vblank(c) => c <= VBLANK_CYCLES,
        }
    }

    /// Cycles spent since the frame began, from 0 to `FRAME_CYCLES`. The end
    /// of one phase and the start of the next are the same position.
    pub open spec fn position(self) -> int {
        match self {
            PPUState::PreRender(c) => c as int,
            PPUState::VisibleLines(line, part) => 341 + 341 * line + part.dot(),
            PPUState::PostRender(c) => VISIBLE_END + c,
            PPUState::Vblank(c) => VBLANK_START + c,
        }
    }

    /// The phase in which cycle number `position` (1 to `FRAME_CYCLES`) of a
    /// frame falls, that cycle counted as spent.
    #[verifier::opaque]
    pub open spec fn at(position: int) -> PPUState {
        if position <= 341 {
            PPUState::PreRender(position as usize)
        } else if position <= VISIBLE_END {
            PPUState::VisibleLines(
                ((position - 342) / 341) as usize,
                PPUScanLineState::at((position - 342) % 341 + 1),
            )
        } else if position <= VBLANK_START {
            PPUState::PostRender((position - VISIBLE_END) as usize)
        } else {
            PPUState::Vblank((position - VBLANK_START) as usize)
        }
    }
}

/// The registers of the picture unit.
#[derive(Clone, Copy, Debug, PartialEq, Eq, Structural)]
pub struct PPURegisters {
    pub control_1: u8,
    pub control_2: u8,
    pub status: u8,
    pub spr_ram_address: u8,
    pub vram_address: u16,
    /// The write latch that the scroll and the video address registers share:
    /// false while the next write is the first of a pair.
    pub second_write: bool,
    pub x_scroll: u8,
    pub y_scroll: u8,
}

/// What the picture unit holds, as plain values.
pub struct PPUView {
    pub state: PPUState,
    pub vrom: Seq<Seq<u8>>,
    pub vram: Seq<u8>,
    pub sprite_ram: Seq<u8>,
    pub registers: PPURegisters,
}

/// The number, 0 to 7, of the register that `address` reaches.
pub open spec fn register_of(address: u16) -> int {
    (address % 8) as int
}

/// The high byte of `address` replaced by `data`.
pub open spec fn with_high_byte(address: u16, data: u8) -> u16 {
    (256 * data + address % 256) as u16
}

/// The low byte of `address` replaced by `data`.
pub open spec fn with_low_byte(address: u16, data: u8) -> u16 {
    (256 * (address / 256) + data) as u16
}

/// By how much control register 1 lets the video address grow.
pub open spec fn address_step(control_1: u8) -> int {
    if control_1 & CONTROL_ADDRESS_INCREMENT != 0 {
        32
    } else {
        1
    }
}

/// Whether cycle number `position` of a frame ends a group of eight rendered
/// pixels. In a visible scanline, which starts 341 cycles into the frame and
/// idles for one cycle, `(position - 342) % 341` pixels are rendered once that
/// cycle is spent.
pub open spec fn burst_ends_at(position: int) -> bool {
    &&& 341 < position <= VISIBLE_END
    &&& 8 <= (position - 342) % 341 <= 256
    &&& ((position - 342) % 341) % 8 == 0
}

/// Whether cycle number `position` of a frame brings anything about but the
/// passing of time: it clears status bits, sets vertical blank, or draws.
pub open spec fn eventful(position: int) -> bool {
    position == 1 || position == VBLANK_START + 2 || burst_ends_at(position)
}

/// The cell of the 32x30 grid that holds pixel number `pixel` of a frame,
/// pixels counted row by row.
pub open spec fn pattern_of_pixel(pixel: int) -> int {
    (pixel / 2048) * 32 + (pixel % 256) / 8
}

impl PPUView {
    /// The memories have their sizes and the state is within its bounds.
    pub open spec fn wf(self) -> bool {
        &&& self.state.wf()
        &&& self.vram.len() == VRAM_SIZE
        &&& self.sprite_ram.len() == SPRAM_SIZE
        &&& forall|i: int| 0 <= i < self.vrom.len() ==> (#[trigger] self.vrom[i]).len() == PATTERN_TABLE_SIZE
    }

    /// The byte that a read at `address` returns. Registers repeat every
    /// eight addresses from `MMIO` up to `IO_REGISTERS`; beyond, reads give 0.
    pub open spec fn read(self, address: u16) -> u8 {
        if MMIO <= address < IO_REGISTERS {
            if register_of(address) == 2 {
                self.registers.status
            } else if register_of(address) == 4 {
                self.sprite_ram[self.registers.spr_ram_address as int]
            } else if register_of(address) == 7 {
                self.vram[(self.registers.vram_address % VRAM_SIZE) as int]
            } else {
                0
            }
        } else {
            0
        }
    }

    /// The picture unit after a read at `address`: a read of the status
    /// register makes the next write the first of a pair.
    pub open spec fn after_read(self, address: u16) -> PPUView {
        if MMIO <= address < IO_REGISTERS && register_of(address) == 2 {
            PPUView { registers: PPURegisters { second_write: false, ..self.registers }, ..self }
        } else {
            self
        }
    }

    /// Control register 1 takes the byte written.
    pub open spec fn set_ppu_control_1(self, data: u8) -> PPUView {
        PPUView { registers: PPURegisters { control_1: data, ..self.registers }, ..self }
    }

    /// Control register 2 takes the byte written.
    pub open spec fn set_ppu_control_2(self, data: u8) -> PPUView {
        PPUView { registers: PPURegisters { control_2: data, ..self.registers }, ..self }
    }

    /// The sprite address register takes the byte written.
    pub open spec fn set_spr_ram_address(self, data: u8) -> PPUView {
        PPUView { registers: PPURegisters { spr_ram_address: data, ..self.registers }, ..self }
    }

    /// The first write of a pair sets the horizontal scroll, the second the vertical.
    pub open spec fn set_scroll(self, data: u8) -> PPUView {
        if self.registers.second_write {
            PPUView {
                registers: PPURegisters { y_scroll: data, second_write: false, ..self.registers },
                ..self
            }
        } else {
            PPUView {
                registers: PPURegisters { x_scroll: data, second_write: true, ..self.registers },
                ..self
            }
        }
    }

    /// The first write of a pair sets the high byte of the video address,
    /// the second sets the low byte, after which the address grows by the
    /// step that control register 1 asks for.
    pub open spec fn set_vram_address(self, data: u8) -> PPUView {
        if self.registers.second_write {
            PPUView {
                registers: PPURegisters {
                    vram_address: ((with_low_byte(self.registers.vram_address, data)
                        + address_step(self.registers.control_1)) % 0x10000) as u16,
                    second_write: false,
                    ..self.registers
                },
                ..self
            }
        } else {
            PPUView {
                registers: PPURegisters {
                    vram_address: with_high_byte(self.registers.vram_address, data),
                    second_write: true,
                    ..self.registers
                },
                ..self
            }
        }
    }

    /// Sprite memory takes the byte where the sprite address register points.
    pub open spec fn write_spram(self, data: u8) -> PPUView {
        PPUView {
            sprite_ram: self.sprite_ram.update(self.registers.spr_ram_address as int, data),
            ..self
        }
    }

    /// Video memory takes the byte where the video address register points,
    /// the address taken modulo the size of the memory.
    pub open spec fn write_vram(self, data: u8) -> PPUView {
        PPUView {
            vram: self.vram.update((self.registers.vram_address % VRAM_SIZE) as int, data),
            ..self
        }
    }

    /// The picture unit after `data` was written to register `register`.
    /// Register 2 is read-only: a write to it changes nothing.
    pub open spec fn write_register(self, register: int, data: u8) -> PPUView {
        if register == 0 {
            self.set_ppu_control_1(data)
        } else if register == 1 {
            self.set_ppu_control_2(data)
        } else if register == 3 {
            self.set_spr_ram_address(data)
        } else if register == 4 {
            self.write_spram(data)
        } else if register == 5 {
            self.set_scroll(data)
        } else if register == 6 {
            self.set_vram_address(data)
        } else if register == 7 {
            self.write_vram(data)
        } else {
            self
        }
    }

    /// Video memory with VROM bank `src` installed as pattern table `dst`.
    pub open spec fn load_vrom(self, src: int, dst: int) -> PPUView {
        PPUView { vram: splice(self.vram, dst * PATTERN_TABLE_SIZE, self.vrom[src]), ..self }
    }

    /// Where the shown name table starts in video memory.
    pub open spec fn name_table_base(self) -> int {
        NAME_TABLES + NAME_TABLE_SIZE * ((self.registers.control_1 & CONTROL_NAME_TABLE) as int)
    }

    /// Where the background's pattern table starts in video memory.
    pub open spec fn pattern_table_base(self) -> int {
        if self.registers.control_1 & CONTROL_BACKGROUND_TABLE != 0 {
            PATTERN_TABLE_SIZE as int
        } else {
            0
        }
    }

    /// The pixel of the name table's picture that scrolling brings to
    /// column `x` of scanline `line`.
    pub open spec fn scrolled_pixel(self, line: int, x: int) -> int {
        ((line + self.registers.y_scroll) % FRAME_HEIGHT as int) * FRAME_WIDTH + (x
            + self.registers.x_scroll) % FRAME_WIDTH as int
    }

    /// The 24 colour bytes of the eight pixels that start at column `x` of
    /// scanline `line`: one row of the tile that scrolling brings there.
    pub open spec fn burst(self, line: int, x: int) -> Seq<u8> {
        let pixel = self.scrolled_pixel(line, x);
        let p = pattern_of_pixel(pixel);
        let table = self.vram.subrange(self.name_table_base(), self.name_table_base() + NAME_TABLE_SIZE);
        let patterns = self.vram.subrange(
            self.pattern_table_base(),
            self.pattern_table_base() + PATTERN_TABLE_SIZE,
        );
        tile_row_rgb(
            tile_of(patterns, table[p]),
            (pixel / FRAME_WIDTH as int) % 8,
            palette_high_bits(table.subrange(NAME_TABLE_TILES as int, NAME_TABLE_SIZE as int), p) << 2,
        )
    }

    /// The frame after the eight pixels at column `x` of scanline `line` were drawn.
    pub open spec fn draw_burst(self, frame: Seq<u8>, line: int, x: int) -> Seq<u8> {
        splice(frame, 3 * (FRAME_WIDTH * line + x), self.burst(line, x))
    }

    /// The status register once cycle number `position` of a frame is spent:
    /// the first cycle of the frame clears vertical blank, sprite collision
    /// and sprite overflow, the second cycle of vertical blank sets vertical blank.
    pub open spec fn status_at(self, position: int) -> u8 {
        if position == 1 {
            self.registers.status & STATUS_KEPT_BY_PRERENDER
        } else if position == VBLANK_START + 2 {
            self.registers.status | STATUS_VBLANK
        } else {
            self.registers.status
        }
    }

    /// The picture unit with no register set, no memory written and the
    /// frame at its start, but for the pattern tables: where there is VROM,
    /// bank 0 is installed as pattern table 0, and bank 1, or bank 0 again
    /// where there is no other, as pattern table 1.
    pub open spec fn initial(vrom: Seq<Seq<u8>>) -> PPUView {
        let blank = PPUView {
            state: PPUState::PreRender(0),
            vrom,
            vram: Seq::new(VRAM_SIZE as nat, |i: int| 0u8),
            sprite_ram: Seq::new(SPRAM_SIZE as nat, |i: int| 0u8),
            registers: PPURegisters {
                control_1: 0,
                control_2: 0,
                status: 0,
                spr_ram_address: 0,
                vram_address: 0,
                second_write: false,
                x_scroll: 0,
                y_scroll: 0,
            },
        };
        if vrom.len() > 0 {
            blank.load_vrom(0, 0).load_vrom(
                if vrom.len() > 1 {
                    1
                } else {
                    0
                },
                1,
            )
        } else {
            blank
        }
    }

    /// The picture unit and the frame after one cycle. With `q` the number
    /// of that cycle in its frame, the state becomes the phase of `q`, the
    /// status follows `status_at`, and when the cycle ends a group of eight
    /// rendered pixels of a visible scanline, that group is drawn.
    #[verifier::opaque]
    pub open spec fn tick(self, frame: Seq<u8>) -> (PPUView, Seq<u8>) {
        let q = self.state.position() % (FRAME_CYCLES as int) + 1;
        let next = PPUView {
            state: PPUState::at(q),
            registers: PPURegisters { status: self.status_at(q), ..self.registers },
            ..self
        };
        if burst_ends_at(q) {
            (next, self.draw_burst(frame, (q - 342) / 341, (q - 342) % 341 - 8))
        } else {
            (next, frame)
        }
    }

    /// The picture unit and the frame after `cycles` cycles.
    pub open spec fn advance(self, cycles: nat, frame: Seq<u8>) -> (PPUView, Seq<u8>)
        decreases cycles,
    {
        if cycles == 0 {
            (self, frame)
        } else {
            let (ppu, drawn) = self.advance((cycles - 1) as nat, frame);
            ppu.tick(drawn)
        }
    }
}

impl PPUState {
    /// Whether the phase has cycles left to spend.
    pub open spec fn unfinished(self) -> bool {
        match self {
            PPUState::PreRender(c) => c < CYCLES_SCANLINE,
            PPUState::VisibleLines(line, part) => match part {
                PPUScanLineState::Idle(c) => c < IDLE_CYCLES,
                PPUScanLineState::Render(c) => c < RENDER_CYCLES,
                PPUScanLineState::SpriteFetch(c) => c < SPRITE_FETCH_CYCLES,
                PPUScanLineState::PreFetch(c) => c < PRE_FETCH_CYCLES,
                PPUScanLineState::OtherFetch(c) => c < OTHER_FETCH_CYCLES,
            },
            PPUState::PostRender(c) => c < CYCLES_SCANLINE,
            PPUState::Vblank(c) => c < VBLANK_CYCLES,
        }
    }

    /// The same position written as a phase that has cycles left: the end
    /// of a phase becomes the start of the next, the end of the frame its start.
    pub fn normalised(self) -> (state: PPUState)
        requires
            self.wf(),
        ensures
            state.wf(),
            state.unfinished(),
            state.position() == self.position() % (FRAME_CYCLES as int),
    {
        match self {
            PPUState::PreRender(c) => if c >= CYCLES_SCANLINE {
                PPUState::VisibleLines(0, PPUScanLineState::Idle(0))
            } else {
                self
            },
            PPUState::VisibleLines(line, part) => match part {
                PPUScanLineState::Idle(c) => if c >= IDLE_CYCLES {
                    PPUState::VisibleLines(line, PPUScanLineState::Render(0))
                } else {
                    self
                },
                PPUScanLineState::Render(c) => if c >= RENDER_CYCLES {
                    PPUState::VisibleLines(line, PPUScanLineState::SpriteFetch(0))
                } else {
                    self
                },
                PPUScanLineState::SpriteFetch(c) => if c >= SPRITE_FETCH_CYCLES {
                    PPUState::VisibleLines(line, PPUScanLineState::PreFetch(0))
                } else {
                    self
                },
                PPUScanLineState::PreFetch(c) => if c >= PRE_FETCH_CYCLES {
                    PPUState::VisibleLines(line, PPUScanLineState::OtherFetch(0))
                } else {
                    self
                },
                PPUScanLineState::OtherFetch(c) => if c >= OTHER_FETCH_CYCLES {
                    if line + 1 >= SCANLINES_VISIBLE {
                        PPUState::PostRender(0)
                    } else {
                        PPUState::VisibleLines(line + 1, PPUScanLineState::Idle(0))
                    }
                } else {
                    self
                },
            },
            PPUState::PostRender(c) => if c >= CYCLES_SCANLINE {
                PPUState::Vblank(0)
            } else {
                self
            },
            PPUState::Vblank(c) => if c >= VBLANK_CYCLES {
                PPUState::PreRender(0)
            } else {
                self
            },
        }
    }
}

/// Cycle number `dot` of visible scanline `line` is cycle number
/// `341 + 341 * line + dot` of the frame, and from that number the scanline
/// and the cycles it has rendered are found again.
pub proof fn lemma_visible_position(line: int, dot: int)
    requires
        0 <= line < SCANLINES_VISIBLE,
        1 <= dot <= CYCLES_SCANLINE,
    ensures
        341 < 341 + 341 * line + dot <= VISIBLE_END,
        (341 * line + dot - 1) / 341 == line,
        (341 * line + dot - 1) % 341 == dot - 1,
{
    vstd::arithmetic::div_mod::lemma_fundamental_div_mod_converse(
        341 * line + dot - 1,
        341,
        line,
        dot - 1,
    );
}

impl PPUState {
    /// The state one cycle later, with what that cycle brings about: the
    /// first cycle of a frame, the second cycle of vertical blank, or the
    /// end of a group of eight rendered pixels.
    pub fn next(self) -> (state: PPUState)
        requires
            self.wf(),
        ensures
            state.wf(),
            state == PPUState::at(self.position() % (FRAME_CYCLES as int) + 1),
            (state == PPUState::PreRender(1)) == (self.position() % (FRAME_CYCLES as int) + 1 == 1),
            (state == PPUState::Vblank(2)) == (self.position() % (FRAME_CYCLES as int) + 1
                == VBLANK_START + 2),
            match state {
                PPUState::VisibleLines(line, PPUScanLineState::Render(cycle)) => {
                    &&& line == (self.position() % (FRAME_CYCLES as int) - 341) / 341
                    &&& cycle == (self.position() % (FRAME_CYCLES as int) - 341) % 341
                    &&& burst_ends_at(self.position() % (FRAME_CYCLES as int) + 1) == (cycle >= 8
                        && cycle % 8 == 0)
                },
                _ => !burst_ends_at(self.position() % (FRAME_CYCLES as int) + 1),
            },
    {
        let state = self.normalised();
        proof {
            reveal(PPUState::at);
            match state {
                PPUState::VisibleLines(line, part) => {
                    lemma_visible_position(line as int, part.dot() + 1);
                },
                _ => {},
            }
        }
        match state {
            PPUState::PreRender(cycle) => PPUState::PreRender(cycle + 1),
            PPUState::VisibleLines(line, line_state) => match line_state {
                PPUScanLineState::Idle(cycle) => PPUState::VisibleLines(
                    line,
                    PPUScanLineState::Idle(cycle + 1),
                ),
                PPUScanLineState::Render(cycle) => PPUState::VisibleLines(
                    line,
                    PPUScanLineState::Render(cycle + 1),
                ),
                PPUScanLineState::SpriteFetch(cycle) => PPUState::VisibleLines(
                    line,
                    PPUScanLineState::SpriteFetch(cycle + 1),
                ),
                PPUScanLineState::PreFetch(cycle) => PPUState::VisibleLines(
                    line,
                    PPUScanLineState::PreFetch(cycle + 1),
                ),
                PPUScanLineState::OtherFetch(cycle) => PPUState::VisibleLines(
                    line,
                    PPUScanLineState::OtherFetch(cycle + 1),
                ),
            },
            PPUState::PostRender(cycle) => PPUState::PostRender(cycle + 1),
            PPUState::Vblank(cycle) => PPUState::Vblank(cycle + 1),
        }
    }
}

/// The phase of cycle number `position` of a frame stands at that position
/// and is within its bounds.
pub proof fn lemma_phase_of_position(position: int)
    requires
        1 <= position <= FRAME_CYCLES,
    ensures
        PPUState::at(position).wf(),
        PPUState::at(position).position() == position,
{
    reveal(PPUState::at);
    if 341 < position <= VISIBLE_END {
        let line = (position - 342) / 341;
        let dot = (position - 342) % 341 + 1;
        assert(position - 342 == 341 * line + (dot - 1));
    }
}

/// Counting on by one and wrapping round the frame can be done in either order.
pub proof fn lemma_wrap_step(x: int)
    requires
        x >= 0,
    ensures
        (x % (FRAME_CYCLES as int) + 1) % (FRAME_CYCLES as int) == (x + 1) % (FRAME_CYCLES as int),
{
}

/// Where the frame stands after `cycles` cycles, one at least: at the
/// position that lies `cycles` further on, positions counted round the
/// frame from 1 to `FRAME_CYCLES`. Registers and memories do not matter.
pub proof fn lemma_state_after(ppu: PPUView, cycles: nat, frame: Seq<u8>)
    requires
        ppu.state.wf(),
        cycles >= 1,
    ensures
        ppu.advance(cycles, frame).0.state == PPUState::at(
            (ppu.state.position() + cycles - 1) % (FRAME_CYCLES as int) + 1,
        ),
    decreases cycles,
{
    reveal(PPUView::tick);
    if cycles > 1 {
        lemma_state_after(ppu, (cycles - 1) as nat, frame);
        let before = (ppu.state.position() + cycles - 2) % (FRAME_CYCLES as int) + 1;
        lemma_phase_of_position(before);
        lemma_wrap_step(ppu.state.position() + cycles - 2);
    } else {
        assert(ppu.advance(0, frame) == (ppu, frame));
    }
}

/// A cycle in which nothing happens only moves the frame on.
pub proof fn lemma_quiet_tick(ppu: PPUView, frame: Seq<u8>)
    requires
        !eventful(ppu.state.position() % (FRAME_CYCLES as int) + 1),
    ensures
        ppu.tick(frame) == (
            PPUView {
                state: PPUState::at(ppu.state.position() % (FRAME_CYCLES as int) + 1),
                ..ppu
            },
            frame,
        ),
{
    reveal(PPUView::tick);
}

/// Cycles in which nothing happens only move the frame on: where none of
/// the `cycles` cycles after the position of the picture unit is eventful,
/// and the frame does not end among them, the picture unit ends at the
/// position that lies `cycles` further on, with registers, memories and
/// picture as they were.
pub proof fn lemma_quiet_cycles(ppu: PPUView, cycles: nat, frame: Seq<u8>)
    requires
        ppu.state.wf(),
        cycles >= 1,
        ppu.state.position() % (FRAME_CYCLES as int) + cycles <= FRAME_CYCLES,
        forall|q: int|
            ppu.state.position() % (FRAME_CYCLES as int) < q <= ppu.state.position() % (
            FRAME_CYCLES as int) + cycles ==> !eventful(q),
    ensures
        ppu.advance(cycles, frame) == (
            PPUView {
                state: PPUState::at(ppu.state.position() % (FRAME_CYCLES as int) + cycles),
                ..ppu
            },
            frame,
        ),
    decreases cycles,
{
    let start = ppu.state.position() % (FRAME_CYCLES as int);
    assert(!eventful(start + cycles));
    if cycles > 1 {
        lemma_quiet_cycles(ppu, (cycles - 1) as nat, frame);
        let before = PPUView { state: PPUState::at(start + cycles - 1), ..ppu };
        lemma_phase_of_position(start + cycles - 1);
        assert(before.state.position() % (FRAME_CYCLES as int) + 1 == start + cycles);
        lemma_quiet_tick(before, frame);
        assert(ppu.advance(cycles, frame) == before.tick(frame));
    } else {
        assert(ppu.advance(0, frame) == (ppu, frame));
        lemma_quiet_tick(ppu, frame);
    }
}

/// Running the picture unit for `first` cycles and then for `then` more is
/// running it for `first + then` cycles.
pub proof fn lemma_advance_split(ppu: PPUView, first: nat, then: nat, frame: Seq<u8>)
    ensures
        ppu.advance(first + then, frame) == ppu.advance(first, frame).0.advance(
            then,
            ppu.advance(first, frame).1,
        ),
    decreases then,
{
    if then > 0 {
        lemma_advance_split(ppu, first, (then - 1) as nat, frame);
        assert(first + then - 1 == first + (then - 1) as nat);
    }
}

/// Two writes to the scroll register in a row set both scroll offsets:
/// the horizontal first and the vertical second when the latch was clear,
/// the other way round when it was set. The latch ends as it began.
pub proof fn lemma_scroll_pair(ppu: PPUView, first: u8, second: u8)
    ensures
        !ppu.registers.second_write ==> ppu.set_scroll(first).set_scroll(second).registers == (
        PPURegisters { x_scroll: first, y_scroll: second, ..ppu.registers }),
        ppu.registers.second_write ==> ppu.set_scroll(first).set_scroll(second).registers == (
        PPURegisters { y_scroll: first, x_scroll: second, ..ppu.registers }),
        ppu.set_scroll(first).registers.second_write != ppu.registers.second_write,
{
}

/// Two writes to the video address register in a row, the latch clear
/// before them, set the whole address: the first byte is its high byte,
/// the second its low byte, and the step of control register 1 is added.
/// Nothing of the address from before is left, and the latch is clear again.
pub proof fn lemma_address_pair(ppu: PPUView, high: u8, low: u8)
    requires
        !ppu.registers.second_write,
    ensures
        ppu.set_vram_address(high).set_vram_address(low).registers == (PPURegisters {
            vram_address: ((256 * high + low + address_step(ppu.registers.control_1))
                % 0x10000) as u16,
            ..ppu.registers
        }),
        ppu.set_vram_address(high).registers.second_write,
{
}

/// The scroll register and the video address register share one latch: a
/// write to either makes the next write to the other the second of a pair.
pub proof fn lemma_shared_latch(ppu: PPUView, data: u8)
    ensures
        ppu.set_scroll(data).registers.second_write == !ppu.registers.second_write,
        ppu.set_vram_address(data).registers.second_write == !ppu.registers.second_write,
{
}

/// A read of the status register, at any of the addresses that reach it,
/// clears the latch and changes nothing else. A second read right after it
/// returns the same byte and changes nothing at all.
pub proof fn lemma_status_read(ppu: PPUView, address: u16)
    requires
        MMIO <= address < IO_REGISTERS,
        register_of(address) == 2,
    ensures
        ppu.read(address) == ppu.registers.status,
        ppu.after_read(address) == (PPUView {
            registers: PPURegisters { second_write: false, ..ppu.registers },
            ..ppu
        }),
        ppu.after_read(address).read(address) == ppu.read(address),
        ppu.after_read(address).after_read(address) == ppu.after_read(address),
{
}

/// A byte written through the sprite memory port is the byte that a read
/// of that port returns, and so for the video memory port.
pub proof fn lemma_port_round_trip(ppu: PPUView, data: u8)
    requires
        ppu.wf(),
    ensures
        ppu.write_spram(data).read(0x2004) == data,
        ppu.write_vram(data).read(0x2007) == data,
{
}

/// A write to a register address has the effect of the write to the
/// register that the address reaches, whichever of the repeats it is.
pub proof fn lemma_register_mirror(ppu: PPUView, address: u16, data: u8)
    requires
        MMIO <= address < IO_REGISTERS,
    ensures
        register_of(address) == register_of((MMIO + address % 8) as u16),
        ppu.write_register(register_of(address), data) == ppu.write_register(
            register_of((MMIO + address % 8) as u16),
            data,
        ),
        ppu.read(address) == ppu.read((MMIO + address % 8) as u16),
        ppu.after_read(address) == ppu.after_read((MMIO + address % 8) as u16),
{
}

/// Whether cycle number `dot` of visible scanline `line` ends a group of
/// eight rendered pixels: the cycles before it, but for the idle one, are a
/// multiple of 8 between 8 and 256.
pub proof fn lemma_burst_in_line(line: int, dot: int)
    requires
        0 <= line < SCANLINES_VISIBLE,
        1 <= dot <= CYCLES_SCANLINE,
    ensures
        burst_ends_at(341 + 341 * line + dot) == (8 <= dot - 1 <= 256 && (dot - 1) % 8 == 0),
        !(341 + 341 * line + dot == 1),
        !(341 + 341 * line + dot == VBLANK_START + 2),
{
    lemma_visible_position(line, dot);
}

impl PPUState {
    /// The cycles spent in the phase, or in the part of a visible scanline.
    pub open spec fn spent(self) -> int {
        match self {
            PPUState::PreRender(c) => c as int,
            PPUState::VisibleLines(line, part) => match part {
                PPUScanLineState::Idle(c) => c as int,
                PPUScanLineState::Render(c) => c as int,
                PPUScanLineState::SpriteFetch(c) => c as int,
                PPUScanLineState::PreFetch(c) => c as int,
                PPUScanLineState::OtherFetch(c) => c as int,
            },
            PPUState::PostRender(c) => c as int,
            PPUState::Vblank(c) => c as int,
        }
    }

    /// The cycles that the phase, or the part of a visible scanline, lasts.
    pub open spec fn lasts(self) -> int {
        match self {
            PPUState::PreRender(c) => CYCLES_SCANLINE as int,
            PPUState::VisibleLines(line, part) => match part {
                PPUScanLineState::Idle(c) => IDLE_CYCLES as int,
                PPUScanLineState::Render(c) => RENDER_CYCLES as int,
                PPUScanLineState::SpriteFetch(c) => SPRITE_FETCH_CYCLES as int,
                PPUScanLineState::PreFetch(c) => PRE_FETCH_CYCLES as int,
                PPUScanLineState::OtherFetch(c) => OTHER_FETCH_CYCLES as int,
            },
            PPUState::PostRender(c) => CYCLES_SCANLINE as int,
            PPUState::Vblank(c) => VBLANK_CYCLES as int,
        }
    }

    /// How many cycles can pass from here with nothing happening and
    /// without leaving the phase, or the part of a visible scanline: the
    /// longest such stretch. It ends where the phase or the part ends, or
    /// right before the next cycle in which something happens.
    pub fn quiet(self) -> (cycles: usize)
        requires
            self.wf(),
            self.unfinished(),
        ensures
            self.spent() + cycles <= self.lasts(),
            self.position() + cycles <= FRAME_CYCLES,
            forall|q: int| self.position() < q <= self.position() + cycles ==> !eventful(q),
            self.spent() + cycles == self.lasts() || eventful(self.position() + cycles + 1),
    {
        match self {
            PPUState::PreRender(c) => if c == 0 {
                0
            } else {
                CYCLES_SCANLINE - c
            },
            PPUState::VisibleLines(line, part) => {
                let cycles: usize = match part {
                    PPUScanLineState::Idle(c) => IDLE_CYCLES - c,
                    PPUScanLineState::Render(c) => (c / 8 + 1) * 8 - c - 1,
                    PPUScanLineState::SpriteFetch(c) => SPRITE_FETCH_CYCLES - c,
                    PPUScanLineState::PreFetch(c) => PRE_FETCH_CYCLES - c,
                    PPUScanLineState::OtherFetch(c) => OTHER_FETCH_CYCLES - c,
                };
                proof {
                    assert forall|q: int|
                        self.position() < q <= self.position() + cycles implies !eventful(q) by {
                        lemma_burst_in_line(line as int, q - 341 - 341 * line);
                    }
                    if part is Render {
                        lemma_burst_in_line(line as int, part.dot() + cycles + 1);
                    }
                }
                cycles
            },
            PPUState::PostRender(c) => CYCLES_SCANLINE - c,
            PPUState::Vblank(c) => if c == 0 {
                1
            } else if c == 1 {
                0
            } else {
                VBLANK_CYCLES - c
            },
        }
    }

    /// The state `cycles` cycles further on in the same phase, or part of a
    /// visible scanline.
    pub fn forward(self, cycles: usize) -> (state: PPUState)
        requires
            self.wf(),
            self.unfinished(),
            cycles >= 1,
            self.spent() + cycles <= self.lasts(),
        ensures
            state.wf(),
            state == PPUState::at(self.position() + cycles),
    {
        proof {
            reveal(PPUState::at);
            match self {
                PPUState::VisibleLines(line, part) => {
                    lemma_visible_position(line as int, part.dot() + cycles);
                },
                _ => {},
            }
        }
        match self {
            PPUState::PreRender(c) => PPUState::PreRender(c + cycles),
            PPUState::VisibleLines(line, part) => match part {
                PPUScanLineState::Idle(c) => PPUState::VisibleLines(
                    line,
                    PPUScanLineState::Idle(c + cycles),
                ),
                PPUScanLineState::Render(c) => PPUState::VisibleLines(
                    line,
                    PPUScanLineState::Render(c + cycles),
                ),
                PPUScanLineState::SpriteFetch(c) => PPUState::VisibleLines(
                    line,
                    PPUScanLineState::SpriteFetch(c + cycles),
                ),
                PPUScanLineState::PreFetch(c) => PPUState::VisibleLines(
                    line,
                    PPUScanLineState::PreFetch(c + cycles),
                ),
                PPUScanLineState::OtherFetch(c) => PPUState::VisibleLines(
                    line,
                    PPUScanLineState::OtherFetch(c + cycles),
                ),
            },
            PPUState::PostRender(c) => PPUState::PostRender(c + cycles),
            PPUState::Vblank(c) => PPUState::Vblank(c + cycles),
        }
    }
}

/// The name table number in control register 1 is at most 3.
pub proof fn lemma_name_table_number(control_1: u8)
    by (bit_vector)
    ensures
        control_1 & 0x03 <= 3,
{
}

/// The picture unit.
pub struct PPU {
    state: PPUState,
    vrom: Vec<RAM>,
    vram: RAM,
    sprite_ram: RAM,
    registers: PPURegisters,
}

/// The bytes of each block of a list of blocks.
pub open spec fn bytes_of(blocks: Seq<RAM>) -> Seq<Seq<u8>> {
    Seq::new(blocks.len(), |i: int| blocks[i]@)
}

impl View for PPU {
    type V = PPUView;

    closed spec fn view(&self) -> PPUView {
        PPUView {
            state: self.state,
            vrom: bytes_of(self.vrom@),
            vram: self.vram@,
            sprite_ram: self.sprite_ram@,
            registers: self.registers,
        }
    }
}

impl PPU {
    /// The memories have their sizes and start at address 0, and the state is
    /// within its bounds.
    pub closed spec fn wf(&self) -> bool {
        &&& self@.wf()
        &&& self.vram.start() == 0
        &&& self.sprite_ram.start() == 0
    }

    /// A well-formed picture unit has a well-formed view.
    pub proof fn lemma_view_wf(&self)
        requires
            self.wf(),
        ensures
            self@.wf(),
    {
    }

    /// The picture unit at power-on, with the VROM banks `vrom`, each the
    /// size of a pattern table.
    pub fn new(vrom: Vec<RAM>) -> (ppu: Self)
        requires
            forall|i: int| 0 <= i < vrom@.len() ==> (#[trigger] vrom@[i])@.len() == PATTERN_TABLE_SIZE,
        ensures
            ppu.wf(),
            ppu@ == PPUView::initial(bytes_of(vrom@)),
    {
        let mut ppu = PPU {
            state: PPUState::PreRender(0),
            vram: RAM::new::<0x4000>(0),
            vrom,
            sprite_ram: RAM::new::<0x100>(0),
            registers: PPURegisters {
                control_1: 0,
                control_2: 0,
                status: 0,
                spr_ram_address: 0,
                vram_address: 0,
                second_write: false,
                x_scroll: 0,
                y_scroll: 0,
            },
        };
        if ppu.vrom.len() > 0 {
            ppu.load_vrom(0, 0);
            let second: usize = if ppu.vrom.len() > 1 {
                1
            } else {
                0
            };
            ppu.load_vrom(second, 1);
        }
        ppu
    }

    /// Installs VROM bank `src` as pattern table `dst`, 0 or 1.
    pub fn load_vrom(&mut self, src: usize, dst: usize)
        requires
            old(self).wf(),
            src < old(self)@.vrom.len(),
            dst <= 1,
        ensures
            final(self).wf(),
            final(self)@ == old(self)@.load_vrom(src as int, dst as int),
    {
        let ghost before = self.vram@;
        let ghost bank = self.vrom@[src as int]@;
        let base: usize = dst * PATTERN_TABLE_SIZE;
        let mut k: usize = 0;
        while k < PATTERN_TABLE_SIZE
            invariant
                k <= PATTERN_TABLE_SIZE,
                base == dst * PATTERN_TABLE_SIZE,
                dst <= 1,
                src < self.vrom@.len(),
                self.vrom == old(self).vrom,
                self.state == old(self).state,
                self.sprite_ram == old(self).sprite_ram,
                self.registers == old(self).registers,
                self.vram.start() == 0,
                self.vram@.len() == VRAM_SIZE,
                bank == self.vrom@[src as int]@,
                bank.len() == PATTERN_TABLE_SIZE,
                before.len() == VRAM_SIZE,
                forall|m: int| 0 <= m < VRAM_SIZE && !(base <= m < base + k) ==> self.vram@[m] == before[m],
                forall|m: int| base <= m < base + k ==> self.vram@[m] == bank[m - base],
            decreases PATTERN_TABLE_SIZE - k,
        {
            let byte = self.vrom[src].as_slice()[k];
            self.vram.write((base + k) as u16, byte);
            k = k + 1;
        }
        assert(self.vram@ =~= splice(before, dst * PATTERN_TABLE_SIZE, bank));
    }

    /// The number of VROM banks.
    pub fn vrom_count(&self) -> (count: usize)
        ensures
            count == self@.vrom.len(),
    {
        self.vrom.len()
    }

    /// VROM bank `id`: the bytes of one pattern table.
    pub fn get_vrom(&self, id: usize) -> (bank: &RAM)
        requires
            self.wf(),
            id < self@.vrom.len(),
        ensures
            bank@ == self@.vrom[id as int],
            bank@.len() == PATTERN_TABLE_SIZE,
    {
        assert(self@.vrom[id as int] == self.vrom@[id as int]@);
        &self.vrom[id]
    }

    /// Where the frame stands.
    pub fn state(&self) -> (state: PPUState)
        ensures
            state == self@.state,
    {
        self.state
    }

    /// The registers as they stand.
    pub fn registers(&self) -> (registers: PPURegisters)
        ensures
            registers == self@.registers,
    {
        self.registers
    }

    /// The byte of video memory at `address`, taken modulo the memory's size.
    pub fn peek_vram(&self, address: u16) -> (byte: u8)
        requires
            self.wf(),
        ensures
            byte == self@.vram[(address % VRAM_SIZE) as int],
    {
        self.vram.read(address % VRAM_SIZE)
    }

    /// The byte of sprite memory at `address`.
    pub fn peek_spram(&self, address: u8) -> (byte: u8)
        requires
            self.wf(),
        ensures
            byte == self@.sprite_ram[address as int],
    {
        self.sprite_ram.read(address as u16)
    }

    /// Reads the register that `address` reaches. Only the status register,
    /// the sprite memory port and the video memory port can be read; the
    /// others give 0. A read of the status register resets the write latch.
    pub fn read(&mut self, address: u16) -> (byte: u8)
        requires
            old(self).wf(),
        ensures
            final(self).wf(),
            byte == old(self)@.read(address),
            final(self)@ == old(self)@.after_read(address),
    {
        if address >= MMIO && address < IO_REGISTERS {
            let register = address % 8;
            if register == 2 {
                self.registers.second_write = false;
                self.registers.status
            } else if register == 4 {
                self.sprite_ram.read(self.registers.spr_ram_address as u16)
            } else if register == 7 {
                self.vram.read(self.registers.vram_address % VRAM_SIZE)
            } else {
                0
            }
        } else {
            0
        }
    }

    /// Writes control register 1.
    pub fn set_ppu_control_1(&mut self, data: u8)
        requires
            old(self).wf(),
        ensures
            final(self).wf(),
            final(self)@ == old(self)@.set_ppu_control_1(data),
    {
        self.registers.control_1 = data;
    }

    /// Writes control register 2.
    pub fn set_ppu_control_2(&mut self, data: u8)
        requires
            old(self).wf(),
        ensures
            final(self).wf(),
            final(self)@ == old(self)@.set_ppu_control_2(data),
    {
        self.registers.control_2 = data;
    }

    /// Writes the sprite address register.
    pub fn set_spr_ram_address(&mut self, data: u8)
        requires
            old(self).wf(),
        ensures
            final(self).wf(),
            final(self)@ == old(self)@.set_spr_ram_address(data),
    {
        self.registers.spr_ram_address = data;
    }

    /// Writes the scroll register: the horizontal scroll on the first write
    /// of a pair, the vertical on the second.
    pub fn set_scroll(&mut self, data: u8)
        requires
            old(self).wf(),
        ensures
            final(self).wf(),
            final(self)@ == old(self)@.set_scroll(data),
    {
        if self.registers.second_write {
            self.registers.y_scroll = data;
        } else {
            self.registers.x_scroll = data;
        }
        self.registers.second_write = !self.registers.second_write;
    }

    /// Writes the video address register: the high byte on the first write
    /// of a pair, the low byte on the second, after which the address grows
    /// by 1 or by 32 as control register 1 asks.
    pub fn set_vram_address(&mut self, data: u8)
        requires
            old(self).wf(),
        ensures
            final(self).wf(),
            final(self)@ == old(self)@.set_vram_address(data),
    {
        let address = self.registers.vram_address;
        if self.registers.second_write {
            let step: u16 = if self.registers.control_1 & CONTROL_ADDRESS_INCREMENT != 0 {
                32
            } else {
                1
            };
            let set: u16 = (address / 256) * 256 + data as u16;
            self.registers.vram_address = set.wrapping_add(step);
            self.registers.second_write = false;
        } else {
            self.registers.vram_address = (data as u16) * 256 + address % 256;
            self.registers.second_write = true;
        }
    }

    /// Stores `data` in sprite memory where the sprite address register points.
    pub fn write_spram(&mut self, data: u8)
        requires
            old(self).wf(),
        ensures
            final(self).wf(),
            final(self)@ == old(self)@.write_spram(data),
    {
        self.sprite_ram.write(self.registers.spr_ram_address as u16, data);
    }

    /// Stores `data` in video memory where the video address register points.
    pub fn write_vram(&mut self, data: u8)
        requires
            old(self).wf(),
        ensures
            final(self).wf(),
            final(self)@ == old(self)@.write_vram(data),
    {
        self.vram.write(self.registers.vram_address % VRAM_SIZE, data);
    }

    /// A write that no register takes.
    pub fn ignore(&mut self, _data: u8)
        ensures
            *final(self) == *old(self),
    {
    }

    /// Writes `data` to register `register`, 0 to 7.
    pub fn write_register(&mut self, register: usize, data: u8)
        requires
            old(self).wf(),
            register < 8,
        ensures
            final(self).wf(),
            final(self)@ == old(self)@.write_register(register as int, data),
    {
        if register == 0 {
            self.set_ppu_control_1(data)
        } else if register == 1 {
            self.set_ppu_control_2(data)
        } else if register == 3 {
            self.set_spr_ram_address(data)
        } else if register == 4 {
            self.write_spram(data)
        } else if register == 5 {
            self.set_scroll(data)
        } else if register == 6 {
            self.set_vram_address(data)
        } else if register == 7 {
            self.write_vram(data)
        } else {
            self.ignore(data)
        }
    }

    /// The cell of the 32x30 grid that holds pixel number `pixel` of a frame.
    pub fn map_pixel_to_pattern(pixel: usize) -> (pattern: u16)
        requires
            pixel < FRAME_WIDTH * FRAME_HEIGHT,
        ensures
            pattern == pattern_of_pixel(pixel as int),
            pattern < NAME_TABLE_TILES,
    {
        ((pixel / (FRAME_WIDTH * 8)) * 32 + (pixel % FRAME_WIDTH) / 8) as u16
    }

    /// Draws into `buf` the eight pixels that start at column `x` of scanline `line`.
    pub fn render_burst(&self, line: usize, x: usize, buf: &mut [u8])
        requires
            self.wf(),
            line < FRAME_HEIGHT,
            x + 8 <= FRAME_WIDTH,
            old(buf)@.len() == FRAME_BYTES,
        ensures
            final(buf)@ == self@.draw_burst(old(buf)@, line as int, x as int),
            final(buf)@.len() == FRAME_BYTES,
    {
        let pixel = ((line + self.registers.y_scroll as usize) % FRAME_HEIGHT) * FRAME_WIDTH + (x
            + self.registers.x_scroll as usize) % FRAME_WIDTH;
        let pattern_idx = PPU::map_pixel_to_pattern(pixel);
        proof {
            lemma_name_table_number(self.registers.control_1);
        }
        let name_table_address: u16 = NAME_TABLES + 1024 * ((self.registers.control_1
            & CONTROL_NAME_TABLE) as u16);
        let name_table = NameTable::from(
            self.vram.range(name_table_address, name_table_address + 1024),
        );
        let pattern_table: u16 = if self.registers.control_1 & CONTROL_BACKGROUND_TABLE != 0 {
            0x1000
        } else {
            0
        };
        let id = name_table.tile_id(pattern_idx);
        let pattern_address: u16 = pattern_table + 16 * (id as u16);
        let pattern = PatternTable::from(self.vram.range(pattern_address, pattern_address + 16));
        proof {
            let table = self@.vram.subrange(
                self@.name_table_base(),
                self@.name_table_base() + NAME_TABLE_SIZE,
            );
            let patterns = self@.vram.subrange(
                self@.pattern_table_base(),
                self@.pattern_table_base() + PATTERN_TABLE_SIZE,
            );
            assert(name_table.ids()[pattern_idx as int] == table[pattern_idx as int]);
            assert(pattern@ =~= tile_of(patterns, id));
        }
        name_table.write_tile_row(
            pattern_idx,
            (pixel / FRAME_WIDTH) % 8,
            &pattern,
            buf,
            3 * (FRAME_WIDTH * line + x),
        );
    }

    /// Runs the picture unit for one cycle, drawing into `buf`.
    pub fn tick(&mut self, buf: &mut [u8])
        requires
            old(self).wf(),
            old(buf)@.len() == FRAME_BYTES,
        ensures
            final(self).wf(),
            final(buf)@.len() == FRAME_BYTES,
            (final(self)@, final(buf)@) == old(self)@.tick(old(buf)@),
    {
        reveal(PPUView::tick);
        let state = self.state.next();
        match state {
            PPUState::PreRender(cycle) => {
                if cycle == 1 {
                    self.registers.status = self.registers.status & STATUS_KEPT_BY_PRERENDER;
                }
            },
            PPUState::VisibleLines(line, line_state) => {
                match line_state {
                    PPUScanLineState::Render(cycle) => {
                        if cycle >= 8 && cycle % 8 == 0 {
                            self.render_burst(line, cycle - 8, buf);
                        }
                    },
                    _ => {},
                }
            },
            PPUState::PostRender(cycle) => {},
            PPUState::Vblank(cycle) => {
                if cycle == 2 {
                    self.registers.status = self.registers.status | STATUS_VBLANK;
                }
            },
        }
        self.state = state;
        assert(self@.vrom == old(self)@.vrom);
    }

    /// Runs the picture unit for `cycles` cycles, drawing into the frame
    /// `buf` whatever those cycles render. Stretches of cycles in which
    /// nothing happens are taken in one step.
    pub fn advance(&mut self, cycles: usize, buf: &mut [u8])
        requires
            old(self).wf(),
            old(buf)@.len() == FRAME_BYTES,
        ensures
            final(self).wf(),
            final(buf)@.len() == FRAME_BYTES,
            (final(self)@, final(buf)@) == old(self)@.advance(cycles as nat, old(buf)@),
    {
        let ghost start = self@;
        let ghost frame = buf@;
        let mut spent: usize = 0;
        while spent < cycles
            invariant
                spent <= cycles,
                self.wf(),
                buf@.len() == FRAME_BYTES,
                (self@, buf@) == start.advance(spent as nat, frame),
            decreases cycles - spent,
        {
            let state = self.state.normalised();
            let quiet = state.quiet();
            let left = cycles - spent;
            let stretch = if quiet < left {
                quiet
            } else {
                left
            };
            if stretch == 0 {
                proof {
                    lemma_advance_split(start, spent as nat, 1, frame);
                    assert(self@.advance(0, buf@) == (self@, buf@));
                }
                self.tick(buf);
                spent = spent + 1;
            } else {
                let ghost before = self@;
                proof {
                    lemma_quiet_cycles(before, stretch as nat, buf@);
                    lemma_advance_split(start, spent as nat, stretch as nat, frame);
                }
                self.state = state.forward(stretch);
                assert(self@.vrom == before.vrom);
                spent = spent + stretch;
            }
        }
    }
}

} // verus!
