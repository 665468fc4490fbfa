//! An emulator core for an 8-bit console: a 6502-family processor, the bus
//! that maps memory and picture-unit registers into its address space, and
//! the picture unit that turns video memory into frames.

pub mod cpu;
pub mod grey_image;
pub mod memory;
pub mod opmap;
pub mod palette;
pub mod ppu;
pub mod reference_log;
pub mod state;
pub mod status;
pub mod tiles;
pub mod trace;
