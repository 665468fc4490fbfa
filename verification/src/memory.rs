//! The memory bus: built-in RAM, the picture unit's registers, save RAM and
//! the program ROM banks, decoded into one 16-bit address space.

use crate::ppu::{bytes_of, PPUView, PPU};
use crate::tiles::splice;
use vstd::prelude::*;

verus! {

/// Start of the built-in RAM.
pub const BUILTIN_RAM: u16 = 0;

/// Bytes of built-in RAM; the region up to `MMIO` repeats them.
pub const BUILTIN_RAM_SIZE: u16 = 0x0800;

/// Start of the picture unit's registers.
pub const MMIO: u16 = 0x2000;

/// Start of the audio and controller registers.
pub const IO_REGISTERS: u16 = 0x4000;

/// Start of the expansion region.
pub const EXPANSION_ROM: u16 = 0x4020;

/// Start of the save RAM.
pub const SRAM: u16 = 0x6000;

/// Start of the first program ROM window.
pub const PROGRAM_ROM: u16 = 0x8000;

/// Bytes in one program ROM bank.
pub const PROGRAM_ROM_SIZE: u16 = 0x4000;

/// Start of the second program ROM window.
pub const PROGRAM_ROM_2: u16 = 0xC000;

/// Bytes in one pattern table, the unit in which character ROM is installed.
pub const VROM_SIZE: u16 = 0x1000;

/// Bytes in one character ROM bank of a cartridge image: two pattern tables.
pub const CHARACTER_BANK_SIZE: u16 = 0x2000;

/// Start of the battery-backed RAM, which is the save RAM.
pub const BATTERY_RAM: u16 = 0x6000;

/// Bytes of save RAM.
pub const BATTERY_RAM_SIZE: u16 = 0x2000;

/// Bytes of a trainer, where a cartridge image carries one.
pub const TRAINER_SIZE: u16 = 0x0200;

/// Offset in the save RAM at which a trainer is placed.
pub const TRAINER_OFFSET: u16 = 0x1000;

/// A block of bytes placed at a start address of some address space.
pub struct RAM {
    file: Vec<u8>,
    start_address: u16,
}

impl View for RAM {
    type V = Seq<u8>;

    closed spec fn view(&self) -> Seq<u8> {
        self.file@
    }
}

impl RAM {
    /// The address of the first byte.
    pub closed spec fn start(&self) -> u16 {
        self.start_address
    }

    /// Whether `address` falls inside the block.
    pub open spec fn covers(&self, address: u16) -> bool {
        self.start() <= address < self.start() + self@.len()
    }

    /// A block of `S` zero bytes at `start`.
    pub fn new<const S: usize>(start: u16) -> (ram: Self)
        ensures
            ram@ == Seq::new(S as nat, |i: int| 0u8),
            ram.start() == start,
    {
        RAM { file: zeroed(S), start_address: start }
    }

    /// A block of `size` zero bytes at `start`; there is no block of size 0.
    pub fn new_dyn(size: usize, start: u16) -> (ram: Option<Self>)
        ensures
            size == 0 ==> ram is None,
            size > 0 ==> ram is Some && ram->0@ == Seq::new(size as nat, |i: int| 0u8)
                && ram->0.start() == start,
    {
        if size == 0 {
            return None;
        }
        Some(RAM { file: zeroed(size), start_address: start })
    }

    /// The block that holds `bytes` at `start`.
    pub fn from_bytes(bytes: Vec<u8>, start: u16) -> (ram: Self)
        ensures
            ram@ == bytes@,
            ram.start() == start,
    {
        RAM { file: bytes, start_address: start }
    }

    /// The number of bytes in the block.
    pub fn len(&self) -> (n: usize)
        ensures
            n == self@.len(),
    {
        self.file.len()
    }

    /// The address of the first byte.
    pub fn start_address(&self) -> (start: u16)
        ensures
            start == self.start(),
    {
        self.start_address
    }

    /// Moves the block to another start address; the bytes stay.
    pub fn set_start_address(&mut self, start: u16)
        ensures
            final(self)@ == old(self)@,
            final(self).start() == start,
    {
        self.start_address = start;
    }

    /// The bytes of the block.
    pub fn as_slice(&self) -> (bytes: &[u8])
        ensures
            bytes@ == self@,
    {
        self.file.as_slice()
    }

    /// The bytes of the block, to be changed in place.
    pub fn as_slice_mut(&mut self) -> (bytes: &mut [u8])
        ensures
            bytes@ == old(self)@,
            final(self)@ == final(bytes)@,
            final(self).start() == old(self).start(),
    {
        self.file.as_mut_slice()
    }

    /// The byte at `address`.
    pub fn read(&self, address: u16) -> (byte: u8)
        requires
            self.covers(address),
        ensures
            byte == self@[address - self.start()],
    {
        self.file[(address - self.start_address) as usize]
    }

    /// Stores `data` at `address`.
    pub fn write(&mut self, address: u16, data: u8)
        requires
            old(self).covers(address),
        ensures
            final(self)@ == old(self)@.update(address - old(self).start(), data),
            final(self).start() == old(self).start(),
    {
        let offset = (address - self.start_address) as usize;
        self.file[offset] = data;
    }

    /// The bytes from address `from` up to, not including, address `to`.
    pub fn range(&self, from: u16, to: u16) -> (bytes: &[u8])
        requires
            self.start() <= from <= to <= self.start() + self@.len(),
        ensures
            bytes@ == self@.subrange(from - self.start(), to - self.start()),
    {
        vstd::slice::slice_subrange(
            self.file.as_slice(),
            (from - self.start_address) as usize,
            (to - self.start_address) as usize,
        )
    }
}

/// A vector of `size` zero bytes.
pub fn zeroed(size: usize) -> (bytes: Vec<u8>)
    ensures
        bytes@ == Seq::new(size as nat, |i: int| 0u8),
{
    let mut bytes: Vec<u8> = Vec::new();
    let mut n: usize = 0;
    while n < size
        invariant
            n <= size,
            bytes@ == Seq::new(n as nat, |i: int| 0u8),
        decreases size - n,
    {
        bytes.push(0u8);
        n = n + 1;
    }
    bytes
}

/// A vector with the bytes of `source` from `from` up to, not including, `to`.
pub fn copy_range(source: &[u8], from: usize, to: usize) -> (bytes: Vec<u8>)
    requires
        from <= to <= source@.len(),
    ensures
        bytes@ == source@.subrange(from as int, to as int),
{
    vstd::slice::slice_to_vec(vstd::slice::slice_subrange(source, from, to))
}

/// The two windows through which program ROM is seen.
#[derive(Clone, Copy, Debug, PartialEq, Eq, Structural)]
pub enum ProgramROMDst {
    /// The window that starts at `PROGRAM_ROM`.
    One,
    /// The window that starts at `PROGRAM_ROM_2`.
    Two,
}

/// Makes `std::io::Error` known as a type, so that an error of reading a
/// file can be carried in a `NesError`. Nothing is said of what it holds.
#[verifier::external_type_specification]
#[verifier::external_body]
pub struct ExIoError(std::io::Error);

/// What can go wrong when a cartridge is loaded.
#[derive(Debug)]
pub enum NesError {
    /// The cartridge file could not be read.
    IO(std::io::Error),
    /// The bytes are not a cartridge image that this machine can run.
    FileFormat(&'static str),
    /// A state that the emulator cannot be in.
    Emulator(&'static str),
}

impl From<std::io::Error> for NesError {
    fn from(value: std::io::Error) -> (error: Self) {
        NesError::IO(value)
    }
}

impl vstd::std_specs::convert::FromSpecImpl<std::io::Error> for NesError {
    open spec fn obeys_from_spec() -> bool {
        true
    }

    open spec fn from_spec(value: std::io::Error) -> Self {
        NesError::IO(value)
    }
}

/// The image ends before its header or before the banks that its header counts.
pub open spec fn file_too_short() -> &'static str {
    "file too short"
}

/// The image does not begin with the four identifying bytes.
pub open spec fn incorrect_identifying_bytes() -> &'static str {
    "incorrect identifying bytes, not a .nes file?"
}

/// The image asks for a mapper other than the one with fixed banks.
pub open spec fn unsupported_mapper() -> &'static str {
    "unsupported mapper"
}

/// The image carries a trainer but no save RAM to hold it.
pub open spec fn trainer_without_save_ram() -> &'static str {
    "trainer without save RAM"
}

/// The image holds no program ROM to map.
pub open spec fn no_program_rom() -> &'static str {
    "no program ROM"
}

/// Bytes in the header of a cartridge image.
pub const HEADER_SIZE: usize = 16;

/// What the header of a cartridge image says.
#[derive(Clone, Copy, Debug, PartialEq, Eq, Structural)]
pub struct RomHeader {
    /// Number of 16 KiB program ROM banks.
    pub prg_rom_count: u8,
    /// Number of 8 KiB character ROM banks.
    pub vrom_count: u8,
    /// The screen-mirroring select.
    pub mirroring: bool,
    /// Save RAM is present.
    pub battery_ram: bool,
    /// A trainer of 512 bytes follows the header.
    pub trainer: bool,
    /// The mapper number.
    pub mapper: u8,
    /// Number of 8 KiB RAM banks; an image that says 0 means 1.
    pub ram_bank_count: u8,
    /// The image marks itself as being in the extended format, which is
    /// read here as the plain one.
    pub extended: bool,
}

/// Whether the image begins with "NES" and the byte 0x1a.
pub open spec fn has_magic(image: Seq<u8>) -> bool {
    image[0] == 0x4e && image[1] == 0x45 && image[2] == 0x53 && image[3] == 0x1a
}

/// The header of an image of at least 16 bytes.
pub open spec fn header_of(image: Seq<u8>) -> RomHeader {
    RomHeader {
        prg_rom_count: image[4],
        vrom_count: image[5],
        mirroring: image[6] & 0x01 != 0,
        battery_ram: image[6] & 0x02 != 0,
        trainer: image[6] & 0x04 != 0,
        mapper: (image[7] & 0xf0) | (image[6] >> 4),
        ram_bank_count: if image[8] == 0 {
            1
        } else {
            image[8]
        },
        extended: image[7] & 0x0c == 0x08,
    }
}

impl RomHeader {
    /// Where the program ROM banks start in the image.
    pub open spec fn program_start(self) -> int {
        if self.trainer {
            HEADER_SIZE + TRAINER_SIZE
        } else {
            HEADER_SIZE as int
        }
    }

    /// Where the character ROM banks start in the image.
    pub open spec fn character_start(self) -> int {
        self.program_start() + PROGRAM_ROM_SIZE * self.prg_rom_count
    }

    /// The length of the image that the header describes.
    pub open spec fn image_len(self) -> int {
        self.character_start() + CHARACTER_BANK_SIZE * self.vrom_count
    }
}

/// Why the header of an image cannot be read, if it cannot.
pub open spec fn header_defect(image: Seq<u8>) -> Option<&'static str> {
    if image.len() < HEADER_SIZE {
        Some(file_too_short())
    } else if !has_magic(image) {
        Some(incorrect_identifying_bytes())
    } else {
        None
    }
}

/// Why an image cannot be loaded, if it cannot: the first of these that holds.
pub open spec fn image_defect(image: Seq<u8>) -> Option<&'static str> {
    if header_defect(image) is Some {
        header_defect(image)
    } else if header_of(image).mapper != 0 {
        Some(unsupported_mapper())
    } else if header_of(image).trainer && !header_of(image).battery_ram {
        Some(trainer_without_save_ram())
    } else if header_of(image).prg_rom_count == 0 {
        Some(no_program_rom())
    } else if image.len() < header_of(image).image_len() {
        Some(file_too_short())
    } else {
        None
    }
}

/// `size` zero bytes.
pub open spec fn zeros(size: nat) -> Seq<u8> {
    Seq::new(size, |i: int| 0u8)
}

/// `count` blocks of `size` bytes each, cut from `image` from `start` on.
pub open spec fn blocks_of(image: Seq<u8>, start: int, size: int, count: int) -> Seq<Seq<u8>> {
    Seq::new(count as nat, |i: int| image.subrange(start + size * i, start + size * (i + 1)))
}

/// What the bus holds, as plain values.
pub struct Bus {
    /// The built-in RAM.
    pub ram: Seq<u8>,
    /// The save RAM, where the cartridge has one.
    pub save_ram: Option<Seq<u8>>,
    /// The program ROM banks.
    pub banks: Seq<Seq<u8>>,
    /// The bank seen through the first window.
    pub active_1: int,
    /// The bank seen through the second window.
    pub active_2: int,
    pub ppu: PPUView,
    pub mapper: u8,
}

impl Bus {
    /// Every memory has its size, each window shows a bank that exists, and
    /// the picture unit is well formed.
    pub open spec fn wf(self) -> bool {
        &&& self.ram.len() == BUILTIN_RAM_SIZE
        &&& match self.save_ram {
            Some(ram) => ram.len() == BATTERY_RAM_SIZE,
            None => true,
        }
        &&& forall|i: int|
            0 <= i < self.banks.len() ==> (#[trigger] self.banks[i]).len() == PROGRAM_ROM_SIZE
        &&& 0 <= self.active_1 < self.banks.len()
        &&& 0 <= self.active_2 < self.banks.len()
        &&& self.ppu.wf()
    }

    /// The byte that a read at `address` returns.
    #[verifier::opaque]
    pub open spec fn read(self, address: u16) -> u8 {
        if address < MMIO {
            self.ram[(address % BUILTIN_RAM_SIZE) as int]
        } else if address < EXPANSION_ROM {
            self.ppu.read(address)
        } else if address < SRAM {
            0
        } else if address < PROGRAM_ROM {
            match self.save_ram {
                Some(ram) => ram[address - SRAM],
                None => 0,
            }
        } else if address < PROGRAM_ROM_2 {
            self.banks[self.active_1][address - PROGRAM_ROM]
        } else {
            self.banks[self.active_2][address - PROGRAM_ROM_2]
        }
    }

    /// The bus after a read at `address`: only the picture unit notices reads.
    #[verifier::opaque]
    pub open spec fn after_read(self, address: u16) -> Bus {
        if MMIO <= address < EXPANSION_ROM {
            Bus { ppu: self.ppu.after_read(address), ..self }
        } else {
            self
        }
    }

    /// The bus after `data` was written at `address`. Writes to the audio
    /// and controller registers, to the expansion region, to save RAM that
    /// is not there and to program ROM change nothing.
    #[verifier::opaque]
    pub open spec fn write(self, address: u16, data: u8) -> Bus {
        if address < MMIO {
            Bus { ram: self.ram.update((address % BUILTIN_RAM_SIZE) as int, data), ..self }
        } else if address < IO_REGISTERS {
            Bus { ppu: self.ppu.write_register((address % 8) as int, data), ..self }
        } else if SRAM <= address < PROGRAM_ROM {
            match self.save_ram {
                Some(ram) => Bus { save_ram: Some(ram.update(address - SRAM, data)), ..self },
                None => self,
            }
        } else {
            self
        }
    }

    /// The bus with bank `src` seen through the window `dst`.
    pub open spec fn set_active_ram(self, src: int, dst: ProgramROMDst) -> Bus {
        match dst {
            ProgramROMDst::One => Bus { active_1: src, ..self },
            ProgramROMDst::Two => Bus { active_2: src, ..self },
        }
    }

    /// The bus of a machine that runs `program` from `PROGRAM_ROM`: the
    /// program, cut off or filled up with zeros to the 32 KiB of the two
    /// windows, and nothing else.
    pub open spec fn of_program(program: Seq<u8>) -> Bus {
        let padded = Seq::new(
            32768,
            |i: int|
                if i < program.len() {
                    program[i]
                } else {
                    0u8
                },
        );
        Bus {
            ram: zeros(BUILTIN_RAM_SIZE as nat),
            save_ram: None,
            banks: blocks_of(padded, 0, PROGRAM_ROM_SIZE as int, 2),
            active_1: 0,
            active_2: 1,
            ppu: PPUView::initial(Seq::empty()),
            mapper: 0,
        }
    }

    /// The save RAM of a cartridge image: zeros, with the trainer, where the
    /// image has one, from `TRAINER_OFFSET` on.
    pub open spec fn save_ram_of(image: Seq<u8>) -> Option<Seq<u8>> {
        if !header_of(image).battery_ram {
            None
        } else if header_of(image).trainer {
            Some(
                splice(
                    zeros(BATTERY_RAM_SIZE as nat),
                    TRAINER_OFFSET as int,
                    image.subrange(HEADER_SIZE as int, HEADER_SIZE + TRAINER_SIZE),
                ),
            )
        } else {
            Some(zeros(BATTERY_RAM_SIZE as nat))
        }
    }

    /// The bus of a machine with the cartridge `image` in it: the first
    /// program bank in the first window, the second bank, or the first
    /// again where it is the only one, in the second window, and every
    /// character bank as two pattern tables of VROM.
    pub open spec fn of_image(image: Seq<u8>) -> Bus {
        let header = header_of(image);
        Bus {
            ram: zeros(BUILTIN_RAM_SIZE as nat),
            save_ram: Bus::save_ram_of(image),
            banks: blocks_of(
                image,
                header.program_start(),
                PROGRAM_ROM_SIZE as int,
                header.prg_rom_count as int,
            ),
            active_1: 0,
            active_2: if header.prg_rom_count > 1 {
                1
            } else {
                0
            },
            ppu: PPUView::initial(
                blocks_of(image, header.character_start(), VROM_SIZE as int, 2 * header.vrom_count),
            ),
            mapper: header.mapper,
        }
    }
}

/// Built-in RAM repeats every 0x0800 bytes up to `MMIO`: a read or a write
/// at any address below `MMIO` is the read or the write at that address
/// modulo 0x0800.
pub proof fn lemma_ram_mirror(bus: Bus, address: u16, data: u8)
    requires
        address < MMIO,
    ensures
        bus.read(address) == bus.read(address % BUILTIN_RAM_SIZE),
        bus.after_read(address) == bus,
        bus.write(address, data) == bus.write(address % BUILTIN_RAM_SIZE, data),
{
    reveal(Bus::read);
    reveal(Bus::after_read);
    reveal(Bus::write);
}

/// The picture unit's registers repeat every 8 bytes from `MMIO` up to
/// `IO_REGISTERS`: a write or a read at any address in between is the write
/// or the read at `MMIO` plus that address modulo 8.
pub proof fn lemma_register_mirror(bus: Bus, address: u16, data: u8)
    requires
        MMIO <= address < IO_REGISTERS,
    ensures
        bus.write(address, data) == bus.write((MMIO + address % 8) as u16, data),
        bus.read(address) == bus.read((MMIO + address % 8) as u16),
        bus.after_read(address) == bus.after_read((MMIO + address % 8) as u16),
{
    reveal(Bus::read);
    reveal(Bus::after_read);
    reveal(Bus::write);
    crate::ppu::lemma_register_mirror(bus.ppu, address, data);
}

/// A byte written to built-in RAM, to save RAM where there is one, to the
/// sprite memory port or to the video memory port is the byte that a read
/// at the same address returns.
pub proof fn lemma_round_trip(bus: Bus, address: u16, data: u8)
    requires
        bus.wf(),
        address < MMIO || (SRAM <= address < PROGRAM_ROM && bus.save_ram is Some) || (MMIO
            <= address < IO_REGISTERS && (address % 8 == 4 || address % 8 == 7)),
    ensures
        bus.write(address, data).read(address) == data,
{
    reveal(Bus::read);
    reveal(Bus::write);
    crate::ppu::lemma_port_round_trip(bus.ppu, data);
}

/// A read of the picture unit's status register returns the status and
/// clears the write latch; a second read right after the first returns the
/// same byte and changes nothing.
pub proof fn lemma_status_read(bus: Bus, address: u16)
    requires
        MMIO <= address < IO_REGISTERS,
        address % 8 == 2,
    ensures
        bus.read(address) == bus.ppu.registers.status,
        !bus.after_read(address).ppu.registers.second_write,
        bus.after_read(address).read(address) == bus.read(address),
        bus.after_read(address).after_read(address) == bus.after_read(address),
{
    reveal(Bus::read);
    reveal(Bus::after_read);
    crate::ppu::lemma_status_read(bus.ppu, address);
}

/// A write that the bus drops: to the status register of the picture
/// unit, to the audio and controller registers, to the expansion region, to
/// save RAM that is not there, and to program ROM.
pub proof fn lemma_dropped_writes(bus: Bus, address: u16, data: u8)
    requires
        (MMIO <= address < IO_REGISTERS && address % 8 == 2) || IO_REGISTERS <= address < SRAM || (
        SRAM <= address < PROGRAM_ROM && bus.save_ram is None) || PROGRAM_ROM <= address,
    ensures
        bus.write(address, data) == bus,
{
    reveal(Bus::write);
}

/// Reads of the audio and controller registers and of the expansion region
/// give 0, as do reads of save RAM that is not there, and no read but one
/// of the picture unit's status register changes the bus.
pub proof fn lemma_plain_reads(bus: Bus, address: u16)
    ensures
        IO_REGISTERS <= address < SRAM ==> bus.read(address) == 0,
        SRAM <= address < PROGRAM_ROM && bus.save_ram is None ==> bus.read(address) == 0,
        !(MMIO <= address < IO_REGISTERS && address % 8 == 2) ==> bus.after_read(address) == bus,
{
    reveal(Bus::read);
    reveal(Bus::after_read);
}

/// The index of the handler of a write at `address`, a register address:
/// for the picture unit's block the address modulo 8, for the block of the
/// audio and controller registers the distance from its start.
pub open spec fn mmio_index(address: u16) -> int {
    if address < IO_REGISTERS {
        (address - MMIO) % 8
    } else {
        address - IO_REGISTERS
    }
}

/// Maps a register address to the index of the handler of writes to it.
pub fn address_mmio_map(address: u16) -> (index: usize)
    requires
        MMIO <= address < EXPANSION_ROM,
    ensures
        index == mmio_index(address),
{
    if address < IO_REGISTERS {
        ((address - MMIO) % 8) as usize
    } else {
        (address - IO_REGISTERS) as usize
    }
}

/// Reads the header of a cartridge image.
pub fn parse_header(image: &[u8]) -> (header: Result<RomHeader, NesError>)
    ensures
        match header {
            Ok(h) => header_defect(image@) is None && h == header_of(image@),
            Err(NesError::FileFormat(message)) => header_defect(image@) == Some(message),
            Err(_) => false,
        },
{
    if image.len() < HEADER_SIZE {
        return Err(NesError::FileFormat("file too short"));
    }
    if image[0] != 0x4e || image[1] != 0x45 || image[2] != 0x53 || image[3] != 0x1a {
        return Err(NesError::FileFormat("incorrect identifying bytes, not a .nes file?"));
    }
    let rom_control_1 = image[6];
    let rom_control_2 = image[7];
    let ram_bank_count = image[8];
    Ok(
        RomHeader {
            prg_rom_count: image[4],
            vrom_count: image[5],
            mirroring: rom_control_1 & 0x01 != 0,
            battery_ram: rom_control_1 & 0x02 != 0,
            trainer: rom_control_1 & 0x04 != 0,
            mapper: (rom_control_2 & 0xf0) | (rom_control_1 >> 4),
            ram_bank_count: if ram_bank_count == 0 {
                1
            } else {
                ram_bank_count
            },
            extended: rom_control_2 & 0x0c == 0x08,
        },
    )
}

/// The memory bus.
pub struct Memory {
    program_rom: Vec<RAM>,
    active_program_1: usize,
    active_program_2: usize,
    ram: Vec<u8>,
    battery_ram: Option<RAM>,
    ppu: PPU,
    mapper: u8,
}

impl View for Memory {
    type V = Bus;

    closed spec fn view(&self) -> Bus {
        Bus {
            ram: self.ram@,
            save_ram: match self.battery_ram {
                Some(ram) => Some(ram@),
                None => None,
            },
            banks: bytes_of(self.program_rom@),
            active_1: self.active_program_1 as int,
            active_2: self.active_program_2 as int,
            ppu: self.ppu@,
            mapper: self.mapper,
        }
    }
}

impl Memory {
    /// Every memory has its size, each window shows a bank that exists,
    /// and the picture unit is well formed.
    pub closed spec fn wf(&self) -> bool {
        &&& self.ram@.len() == BUILTIN_RAM_SIZE
        &&& match self.battery_ram {
            Some(ram) => ram@.len() == BATTERY_RAM_SIZE && ram.start() == BATTERY_RAM,
            None => true,
        }
        &&& forall|i: int|
            0 <= i < self.program_rom@.len() ==> (#[trigger] self.program_rom@[i])@.len()
                == PROGRAM_ROM_SIZE
        &&& self.active_program_1 < self.program_rom@.len()
        &&& self.active_program_2 < self.program_rom@.len()
        &&& self.ppu.wf()
    }

    /// A well-formed bus has a well-formed view.
    pub proof fn lemma_view_wf(&self)
        requires
            self.wf(),
        ensures
            self@.wf(),
    {
        self.ppu.lemma_view_wf();
    }

    /// Reads the byte at `address`. A read of the picture unit's status
    /// register resets its write latch; no other read changes anything.
    pub fn read(&mut self, address: u16) -> (byte: u8)
        requires
            old(self).wf(),
        ensures
            final(self).wf(),
            byte == old(self)@.read(address),
            final(self)@ == old(self)@.after_read(address),
    {
        reveal(Bus::read);
        reveal(Bus::after_read);
        if address < MMIO {
            self.ram[(address % BUILTIN_RAM_SIZE) as usize]
        } else if address < EXPANSION_ROM {
            let byte = self.ppu.read(address);
            assert(bytes_of(self.program_rom@) == bytes_of(old(self).program_rom@));
            byte
        } else if address < SRAM {
            0
        } else if address < PROGRAM_ROM {
            match &self.battery_ram {
                Some(ram) => ram.read(address),
                None => 0,
            }
        } else if address < PROGRAM_ROM_2 {
            self.program_rom[self.active_program_1].as_slice()[(address - PROGRAM_ROM) as usize]
        } else {
            self.program_rom[self.active_program_2].as_slice()[(address - PROGRAM_ROM_2) as usize]
        }
    }

    /// Writes `data` at `address`. Built-in RAM, the picture unit's
    /// registers and save RAM take the write; everywhere else it is dropped.
    pub fn write(&mut self, address: u16, data: u8)
        requires
            old(self).wf(),
        ensures
            final(self).wf(),
            final(self)@ == old(self)@.write(address, data),
    {
        reveal(Bus::write);
        if address < MMIO {
            self.ram[(address % BUILTIN_RAM_SIZE) as usize] = data;
        } else if address < IO_REGISTERS {
            self.ppu.write_register(address_mmio_map(address), data);
        } else if address < EXPANSION_ROM {
        } else if address < SRAM {
        } else if address < PROGRAM_ROM {
            match &mut self.battery_ram {
                Some(ram) => {
                    ram.write(address, data);
                },
                None => {},
            }
        } else {
            self.mapper_write(address, data);
        }
        assert(bytes_of(self.program_rom@) == bytes_of(old(self).program_rom@));
    }

    /// A write to program ROM is a message to the mapper. The one mapper of
    /// this machine has fixed banks and takes no messages.
    fn mapper_write(&mut self, _address: u16, _data: u8)
        ensures
            *final(self) == *old(self),
    {
    }

    /// Shows program bank `src` through the window `dst`.
    pub fn set_active_ram(&mut self, src: usize, dst: ProgramROMDst)
        requires
            old(self).wf(),
            src < old(self)@.banks.len(),
        ensures
            final(self).wf(),
            final(self)@ == old(self)@.set_active_ram(src as int, dst),
    {
        match dst {
            ProgramROMDst::One => {
                self.active_program_1 = src;
            },
            ProgramROMDst::Two => {
                self.active_program_2 = src;
            },
        }
    }

    /// The number of program ROM banks.
    pub fn program_rom_count(&self) -> (count: usize)
        ensures
            count == self@.banks.len(),
    {
        self.program_rom.len()
    }

    /// Program ROM bank `id`.
    pub fn get_program_rom(&self, id: usize) -> (bank: &RAM)
        requires
            self.wf(),
            id < self@.banks.len(),
        ensures
            bank@ == self@.banks[id as int],
            bank@.len() == PROGRAM_ROM_SIZE,
    {
        &self.program_rom[id]
    }

    /// The mapper number of the cartridge.
    pub fn mapper(&self) -> (mapper: u8)
        ensures
            mapper == self@.mapper,
    {
        self.mapper
    }

    /// The picture unit.
    pub fn ppu(&self) -> (ppu: &PPU)
        requires
            self.wf(),
        ensures
            ppu.wf(),
            ppu@ == self@.ppu,
    {
        &self.ppu
    }

    /// Runs the picture unit for `cycles` cycles, drawing into the frame `buf`.
    pub fn advance_ppu(&mut self, cycles: usize, buf: &mut [u8])
        requires
            old(self).wf(),
            old(buf)@.len() == crate::tiles::FRAME_BYTES,
        ensures
            final(self).wf(),
            final(buf)@.len() == crate::tiles::FRAME_BYTES,
            final(self)@ == (Bus { ppu: old(self)@.ppu.advance(cycles as nat, old(buf)@).0, ..old(self)@ }),
            final(buf)@ == old(self)@.ppu.advance(cycles as nat, old(buf)@).1,
    {
        self.ppu.advance(cycles, buf);
        assert(bytes_of(self.program_rom@) == bytes_of(old(self).program_rom@));
    }

    /// The bus of a machine that runs `program` from `PROGRAM_ROM`, with no
    /// save RAM and no VROM.
    pub fn from_program(program: Vec<u8>) -> (memory: Self)
        ensures
            memory.wf(),
            memory@ == Bus::of_program(program@),
    {
        let ghost padded = Seq::new(
            32768,
            |i: int|
                if i < program@.len() {
                    program@[i]
                } else {
                    0u8
                },
        );
        let mut low: Vec<u8> = Vec::new();
        let mut high: Vec<u8> = Vec::new();
        let mut k: usize = 0;
        while k < 0x4000
            invariant
                k <= 0x4000,
                low@.len() == k,
                high@.len() == k,
                forall|m: int| 0 <= m < k ==> low@[m] == padded[m] && high@[m] == padded[m + 0x4000],
                padded == Seq::new(
                    32768,
                    |i: int|
                        if i < program@.len() {
                            program@[i]
                        } else {
                            0u8
                        },
                ),
            decreases 0x4000 - k,
        {
            low.push(
                if k < program.len() {
                    program[k]
                } else {
                    0
                },
            );
            high.push(
                if k + 0x4000 < program.len() {
                    program[k + 0x4000]
                } else {
                    0
                },
            );
            k = k + 1;
        }
        let mut program_rom: Vec<RAM> = Vec::new();
        program_rom.push(RAM::from_bytes(low, PROGRAM_ROM));
        program_rom.push(RAM::from_bytes(high, PROGRAM_ROM_2));
        let vrom: Vec<RAM> = Vec::new();
        let memory = Memory {
            program_rom,
            active_program_1: 0,
            active_program_2: 1,
            ram: zeroed(BUILTIN_RAM_SIZE as usize),
            battery_ram: None,
            ppu: PPU::new(vrom),
            mapper: 0,
        };
        proof {
            let banks = blocks_of(padded, 0, PROGRAM_ROM_SIZE as int, 2);
            assert(memory@.banks[0] =~= banks[0]);
            assert(memory@.banks[1] =~= banks[1]);
            assert(memory@.banks =~= banks);
            assert(bytes_of(vrom@) =~= Seq::<Seq<u8>>::empty());
        }
        memory
    }

    /// The bus of a machine with a cartridge in it, from the bytes of the
    /// cartridge's image: a header of 16 bytes, a trainer where the header
    /// says so, the program ROM banks, the character ROM banks. Bytes after
    /// those are not looked at.
    pub fn from_file(image: &[u8]) -> (memory: Result<Self, NesError>)
        ensures
            match memory {
                Ok(m) => image_defect(image@) is None && m.wf() && m@ == Bus::of_image(image@),
                Err(NesError::FileFormat(message)) => image_defect(image@) == Some(message),
                Err(_) => false,
            },
    {
        let header = match parse_header(image) {
            Ok(header) => header,
            Err(error) => {
                return Err(error);
            },
        };
        if header.mapper != 0 {
            return Err(NesError::FileFormat("unsupported mapper"));
        }
        if header.trainer && !header.battery_ram {
            return Err(NesError::FileFormat("trainer without save RAM"));
        }
        if header.prg_rom_count == 0 {
            return Err(NesError::FileFormat("no program ROM"));
        }
        let program_start: usize = if header.trainer {
            HEADER_SIZE + TRAINER_SIZE as usize
        } else {
            HEADER_SIZE
        };
        let character_start: usize = program_start + (PROGRAM_ROM_SIZE as usize) * (
        header.prg_rom_count as usize);
        let end: usize = character_start + (CHARACTER_BANK_SIZE as usize) * (
        header.vrom_count as usize);
        let length = image.len();
        if length < end {
            return Err(NesError::FileFormat("file too short"));
        }
        let battery_ram = if header.battery_ram {
            let mut ram = RAM::new::<0x2000>(BATTERY_RAM);
            if header.trainer {
                let mut k: usize = 0;
                while k < TRAINER_SIZE as usize
                    invariant
                        k <= TRAINER_SIZE,
                        image@.len() >= HEADER_SIZE + TRAINER_SIZE,
                        ram.start() == BATTERY_RAM,
                        ram@.len() == BATTERY_RAM_SIZE,
                        forall|m: int|
                            0 <= m < BATTERY_RAM_SIZE && !(TRAINER_OFFSET <= m < TRAINER_OFFSET + k)
                                ==> ram@[m] == 0,
                        forall|m: int|
                            TRAINER_OFFSET <= m < TRAINER_OFFSET + k ==> ram@[m] == image@[m
                                - TRAINER_OFFSET + HEADER_SIZE],
                    decreases TRAINER_SIZE - k,
                {
                    ram.write(BATTERY_RAM + TRAINER_OFFSET + k as u16, image[HEADER_SIZE + k]);
                    k = k + 1;
                }
            }
            Some(ram)
        } else {
            None
        };
        let mut program: Vec<RAM> = Vec::new();
        let banks = header.prg_rom_count as usize;
        let mut bank: usize = 0;
        while bank < banks
            invariant
                bank <= banks <= 255,
                program@.len() == bank,
                image@.len() == length,
                program_start <= 528,
                program_start + 0x4000 * banks <= length,
                forall|i: int|
                    0 <= i < bank ==> (#[trigger] program@[i])@ == image@.subrange(
                        program_start + 0x4000 * i,
                        program_start + 0x4000 * (i + 1),
                    ),
            decreases banks - bank,
        {
            let from = program_start + 0x4000 * bank;
            program.push(RAM::from_bytes(copy_range(image, from, from + 0x4000), PROGRAM_ROM));
            bank = bank + 1;
        }
        let mut vrom: Vec<RAM> = Vec::new();
        let tables: usize = 2 * (header.vrom_count as usize);
        let mut table: usize = 0;
        while table < tables
            invariant
                table <= tables <= 510,
                vrom@.len() == table,
                image@.len() == length,
                character_start <= length,
                character_start + 0x1000 * tables <= length,
                forall|i: int|
                    0 <= i < table ==> (#[trigger] vrom@[i])@ == image@.subrange(
                        character_start + 0x1000 * i,
                        character_start + 0x1000 * (i + 1),
                    ),
            decreases tables - table,
        {
            let from = character_start + 0x1000 * table;
            vrom.push(RAM::from_bytes(copy_range(image, from, from + 0x1000), 0));
            table = table + 1;
        }
        let second: usize = if header.prg_rom_count > 1 {
            1
        } else {
            0
        };
        let memory = Memory {
            program_rom: program,
            active_program_1: 0,
            active_program_2: second,
            ram: zeroed(BUILTIN_RAM_SIZE as usize),
            battery_ram,
            ppu: PPU::new(vrom),
            mapper: header.mapper,
        };
        proof {
            let expected = Bus::of_image(image@);
            assert(memory@.banks =~= expected.banks);
            assert(bytes_of(vrom@) =~= blocks_of(
                image@,
                header.character_start(),
                VROM_SIZE as int,
                2 * header.vrom_count,
            ));
            assert(memory@.ram =~= expected.ram);
            if header.battery_ram {
                assert(memory@.save_ram->0 =~= expected.save_ram->0);
            }
        }
        Ok(memory)
    }
}

} // verus!
