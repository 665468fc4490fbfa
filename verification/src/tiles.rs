//! Pattern tiles and name tables, and how a tile row becomes colour bytes.
//!
//! A pattern tile is 16 bytes: eight rows of a low bit plane, then eight
//! rows of a high bit plane. A name table is 960 tile numbers, one for each
//! 8x8 cell of a 32x30 grid, followed by 64 attribute bytes.

use crate::grey_image::{grey_image_from_vec, grey_image_pixels, grey_image_width, GreyImage};
use crate::palette::{colour_channel, palette_channel};
use vstd::prelude::*;

verus! {

/// Bytes in one pattern tile.
pub const TILE_BYTES: usize = 16;

/// Colour bytes of one row of a tile: eight pixels, three channels each.
pub const TILE_ROW_BYTES: usize = 24;

/// Tile numbers in a name table.
pub const NAME_TABLE_TILES: usize = 960;

/// Attribute bytes at the tail of a name table.
pub const ATTRIBUTE_BYTES: usize = 64;

/// Bytes in a name table, attributes included.
pub const NAME_TABLE_SIZE: usize = 1024;

/// Bytes in a pattern table of 256 tiles.
pub const PATTERN_TABLE_SIZE: usize = 4096;

/// Pixels in a row of a frame.
pub const FRAME_WIDTH: usize = 256;

/// Rows of pixels in a frame.
pub const FRAME_HEIGHT: usize = 240;

/// Bytes in a frame: three for each pixel, rows from the top, red first.
pub const FRAME_BYTES: usize = 184320;

/// Side of the square greyscale picture of a pattern table.
pub const PATTERN_IMAGE_SIDE: usize = 128;

/// Bytes in the greyscale picture of a pattern table.
pub const PATTERN_IMAGE_BYTES: usize = 16384;

/// The two-bit value of the pixel in row `row`, column `col` of a tile:
/// bit 0 from the low plane, bit 1 from the high plane, column 0 leftmost.
pub open spec fn pattern_pixel(tile: Seq<u8>, row: int, col: int) -> u8 {
    ((tile[row] >> ((7 - col) as usize)) & 1) | (((tile[row + 8] >> ((7 - col) as usize)) & 1) << 1)
}

/// The grey value of a pixel value in a pattern-table picture.
pub open spec fn grey_of(pixel: u8) -> u8 {
    pixel << 7
}

/// The 64 grey values of a tile, rows from the top.
pub open spec fn tile_greys(tile: Seq<u8>) -> Seq<u8> {
    Seq::new(64, |k: int| grey_of(pattern_pixel(tile, k / 8, k % 8)))
}

/// The 24 colour bytes of row `row` of a tile whose palette index has the
/// upper bits `upper_bits`.
pub open spec fn tile_row_rgb(tile: Seq<u8>, row: int, upper_bits: u8) -> Seq<u8> {
    Seq::new(24, |k: int| colour_channel(upper_bits | pattern_pixel(tile, row, k / 3), k % 3))
}

/// The sequence `whole` with `part` written over it from index `at` on.
pub open spec fn splice(whole: Seq<u8>, at: int, part: Seq<u8>) -> Seq<u8> {
    Seq::new(
        whole.len(),
        |k: int|
            if at <= k < at + part.len() {
                part[k - at]
            } else {
                whole[k]
            },
    )
}

/// The tile `id` of a pattern table.
pub open spec fn tile_of(patterns: Seq<u8>, id: u8) -> Seq<u8> {
    patterns.subrange(16 * (id as int), 16 * (id as int) + 16)
}

/// Which attribute byte holds the palette bits of the tile at position `p`
/// of the 32x30 grid: one byte for every four columns, a new row of eight
/// bytes every 128 positions.
pub open spec fn attribute_slot(p: int) -> int {
    (p % 32) / 4 + (p / 128) * 8
}

/// Which two-bit group of its attribute byte belongs to the tile at position `p`.
pub open spec fn attribute_shift(p: int) -> int {
    (p % 4) / 2 + 2 * ((p / 32) % 2)
}

/// The upper palette bits of the tile at position `p`, given the attribute bytes.
pub open spec fn palette_high_bits(attributes: Seq<u8>, p: int) -> u8 {
    (attributes[attribute_slot(p)] >> ((3 - attribute_shift(p)) as usize)) & 3
}

/// The frame that a name table shows without scrolling: byte `k` belongs to
/// the strip of eight pixels `k / 24`, strips counted row by row.
pub open spec fn name_table_frame(ids: Seq<u8>, attributes: Seq<u8>, patterns: Seq<u8>) -> Seq<u8> {
    Seq::new(
        FRAME_BYTES as nat,
        |k: int| name_table_strip(ids, attributes, patterns, k / 24)[k % 24],
    )
}

/// The colour bytes of strip `strip` of the frame of a name table. Strip
/// `strip` lies in pixel row `strip / 32` and tile column `strip % 32`.
pub open spec fn name_table_strip(
    ids: Seq<u8>,
    attributes: Seq<u8>,
    patterns: Seq<u8>,
    strip: int,
) -> Seq<u8> {
    let p = ((strip / 32) / 8) * 32 + strip % 32;
    tile_row_rgb(tile_of(patterns, ids[p]), (strip / 32) % 8, palette_high_bits(attributes, p) << 2)
}

/// The greyscale picture of a pattern table: 16 tiles to a row, byte `k` is
/// the pixel in row `k / 128`, column `k % 128`.
pub open spec fn pattern_table_greys(patterns: Seq<u8>) -> Seq<u8> {
    Seq::new(
        PATTERN_IMAGE_BYTES as nat,
        |k: int|
            grey_of(
                pattern_pixel(
                    tile_of(patterns, (((k / 128) / 8) * 16 + (k % 128) / 8) as u8),
                    (k / 128) % 8,
                    k % 8,
                ),
            ),
    )
}

/// A pixel value has two bits, and joined to upper bits below 64 it still
/// names one of the 64 colours.
pub proof fn lemma_pixel_bounds(low: u8, high: u8, shift: usize, upper_bits: u8)
    by (bit_vector)
    requires
        shift < 8,
        upper_bits < 64,
    ensures
        (((low >> shift) & 1) | (((high >> shift) & 1) << 1)) <= 3,
        (upper_bits | (((low >> shift) & 1) | (((high >> shift) & 1) << 1))) < 64,
{
}

/// Palette bits have two bits; moved up by two they stay below 64.
pub proof fn lemma_high_bits_bounds(attribute: u8, shift: usize)
    by (bit_vector)
    requires
        shift < 8,
    ensures
        ((attribute >> shift) & 3) <= 3,
        (((attribute >> shift) & 3) << 2) < 64,
{
}

/// The two-bit group of a tile, written with bit operations as in the
/// hardware manuals, is the sum used here.
pub proof fn lemma_attribute_shift_bits(p: u16)
    by (bit_vector)
    ensures
        ((p % 4) / 2) | (((p / 32) % 2) << 1) == (p % 4) / 2 + 2 * ((p / 32) % 2),
{
}

/// One tile of a pattern table.
pub struct PatternTable<'a> {
    data: &'a [u8],
}

impl<'a> View for PatternTable<'a> {
    type V = Seq<u8>;

    closed spec fn view(&self) -> Seq<u8> {
        self.data@
    }
}

impl<'a> PatternTable<'a> {
    /// A tile has 16 bytes.
    pub open spec fn wf(&self) -> bool {
        self@.len() == 16
    }

    /// The tile held in 16 bytes.
    pub fn from(value: &'a [u8]) -> (tile: Self)
        requires
            value@.len() == 16,
        ensures
            tile@ == value@,
            tile.wf(),
    {
        PatternTable { data: value }
    }

    /// The value, 0 to 3, of the pixel in row `idx.0`, column `idx.1`.
    pub fn get_pixel(&self, idx: (usize, usize)) -> (pixel: u8)
        requires
            self.wf(),
            idx.0 < 8,
            idx.1 < 8,
        ensures
            pixel == pattern_pixel(self@, idx.0 as int, idx.1 as int),
            pixel <= 3,
    {
        let (i, j) = idx;
        let shift: usize = 7 - j;
        let low = self.data[i];
        let high = self.data[i + 8];
        proof {
            lemma_pixel_bounds(low, high, shift, 0);
        }
        let low_bit = (low >> shift) & 1;
        let high_bit = (high >> shift) & 1;
        low_bit | (high_bit << 1)
    }

    /// Writes the tile's 64 grey values into `pixels`, rows from the top.
    pub fn write_greyscale_pixels(&self, pixels: &mut [u8])
        requires
            self.wf(),
            old(pixels)@.len() == 64,
        ensures
            final(pixels)@ == tile_greys(self@),
    {
        let mut k: usize = 0;
        while k < 64
            invariant
                self.wf(),
                k <= 64,
                pixels@.len() == 64,
                forall|m: int| 0 <= m < k ==> pixels@[m] == tile_greys(self@)[m],
            decreases 64 - k,
        {
            let pixel = self.get_pixel((k / 8, k % 8));
            pixels[k] = pixel << 7;
            k = k + 1;
        }
        assert(pixels@ =~= tile_greys(self@));
    }

    /// Writes the eight pixels of row `row` as colour bytes into `pixels`
    /// from `offset` on; `upper_bits` are the upper bits of the palette index.
    pub fn write_rgb_row(&self, pixels: &mut [u8], offset: usize, row: usize, upper_bits: u8)
        requires
            self.wf(),
            row < 8,
            upper_bits < 64,
            offset + 24 <= old(pixels)@.len(),
        ensures
            final(pixels)@ == splice(
                old(pixels)@,
                offset as int,
                tile_row_rgb(self@, row as int, upper_bits),
            ),
    {
        let ghost before = pixels@;
        let ghost part = tile_row_rgb(self@, row as int, upper_bits);
        let length = pixels.len();
        let mut k: usize = 0;
        while k < 24
            invariant
                self.wf(),
                row < 8,
                upper_bits < 64,
                k <= 24,
                pixels@.len() == before.len(),
                before.len() == length,
                offset + 24 <= length,
                part == tile_row_rgb(self@, row as int, upper_bits),
                forall|m: int| 0 <= m < before.len() && !(offset <= m < offset + k) ==> pixels@[m] == before[m],
                forall|m: int| offset <= m < offset + k ==> pixels@[m] == part[m - offset],
            decreases 24 - k,
        {
            let pixel = self.get_pixel((row, k / 3));
            proof {
                lemma_pixel_bounds(self@[row as int], self@[row + 8], (7 - k / 3) as usize, upper_bits);
            }
            pixels[offset + k] = palette_channel(upper_bits | pixel, k % 3);
            k = k + 1;
        }
        assert(pixels@ =~= splice(before, offset as int, part));
    }

    /// The grey values of the picture of a pattern table of 256 tiles: 128
    /// by 128 pixels, 16 tiles to a row.
    pub fn pattern_table_pixels(pattern_tables: &[u8]) -> (pixels: Vec<u8>)
        requires
            pattern_tables@.len() == PATTERN_TABLE_SIZE,
        ensures
            pixels@ == pattern_table_greys(pattern_tables@),
    {
        let mut image: Vec<u8> = Vec::new();
        let mut k: usize = 0;
        while k < PATTERN_IMAGE_BYTES
            invariant
                pattern_tables@.len() == PATTERN_TABLE_SIZE,
                k <= PATTERN_IMAGE_BYTES,
                image@.len() == k,
                forall|m: int| 0 <= m < k ==> image@[m] == pattern_table_greys(pattern_tables@)[m],
            decreases PATTERN_IMAGE_BYTES - k,
        {
            let y = k / 128;
            let x = k % 128;
            let id = (y / 8) * 16 + x / 8;
            let tile = PatternTable::from(
                vstd::slice::slice_subrange(pattern_tables, 16 * id, 16 * id + 16),
            );
            let pixel = tile.get_pixel((y % 8, x % 8));
            assert(x % 8 == k % 8);
            assert(id as u8 == id);
            image.push(pixel << 7);
            k = k + 1;
        }
        assert(image@ =~= pattern_table_greys(pattern_tables@));
        image
    }

    /// The greyscale picture of a pattern table of 256 tiles: 128 by 128
    /// pixels, 16 tiles to a row.
    pub fn generate_pattern_table_image(pattern_tables: &[u8]) -> (image: GreyImage)
        requires
            pattern_tables@.len() == PATTERN_TABLE_SIZE,
        ensures
            grey_image_pixels(image) == pattern_table_greys(pattern_tables@),
            grey_image_width(image) == PATTERN_IMAGE_SIDE,
    {
        let pixels = PatternTable::pattern_table_pixels(pattern_tables);
        match grey_image_from_vec(PATTERN_IMAGE_SIDE as u32, PATTERN_IMAGE_SIDE as u32, pixels) {
            Some(image) => image,
            None => vstd::pervasive::unreached(),
        }
    }
}

/// A name table: the tile number of every cell, and the attribute bytes.
pub struct NameTable<'a> {
    table_ids: &'a [u8],
    attribute: &'a [u8],
}

impl<'a> NameTable<'a> {
    /// The 960 tile numbers.
    pub closed spec fn ids(&self) -> Seq<u8> {
        self.table_ids@
    }

    /// The 64 attribute bytes.
    pub closed spec fn attributes(&self) -> Seq<u8> {
        self.attribute@
    }

    /// A name table has 960 tile numbers and 64 attribute bytes.
    pub open spec fn wf(&self) -> bool {
        &&& self.ids().len() == NAME_TABLE_TILES
        &&& self.attributes().len() == ATTRIBUTE_BYTES
    }

    /// The name table held in 1024 bytes: tile numbers first, attributes last.
    pub fn from(value: &'a [u8]) -> (table: Self)
        requires
            value@.len() == NAME_TABLE_SIZE,
        ensures
            table.ids() == value@.subrange(0, NAME_TABLE_TILES as int),
            table.attributes() == value@.subrange(NAME_TABLE_TILES as int, NAME_TABLE_SIZE as int),
            table.wf(),
    {
        NameTable {
            table_ids: vstd::slice::slice_subrange(value, 0, NAME_TABLE_TILES),
            attribute: vstd::slice::slice_subrange(value, NAME_TABLE_TILES, NAME_TABLE_SIZE),
        }
    }

    /// The tile number in cell `position`.
    pub fn tile_id(&self, position: u16) -> (id: u8)
        requires
            self.wf(),
            position < NAME_TABLE_TILES,
        ensures
            id == self.ids()[position as int],
    {
        self.table_ids[position as usize]
    }

    /// The upper palette bits, 0 to 3, of the tile in cell `pattern`.
    pub fn map_pattern_to_attribute(&self, pattern: u16) -> (bits: u8)
        requires
            self.wf(),
            pattern < NAME_TABLE_TILES,
        ensures
            bits == palette_high_bits(self.attributes(), pattern as int),
            bits <= 3,
            (bits << 2) < 64,
    {
        let attribute_byte = self.attribute[((pattern % 32) / 4 + (pattern / 128) * 8) as usize];
        let shift_amnt: usize = ((pattern % 4) / 2 + 2 * ((pattern / 32) % 2)) as usize;
        proof {
            lemma_high_bits_bounds(attribute_byte, (3 - shift_amnt) as usize);
        }
        (attribute_byte >> (3 - shift_amnt)) & 3
    }

    /// Writes row `row` of `pattern`, the tile in cell `position`, as colour
    /// bytes into `buf` from `offset` on, in the palette of that cell.
    pub fn write_tile_row(
        &self,
        position: u16,
        row: usize,
        pattern: &PatternTable,
        buf: &mut [u8],
        offset: usize,
    )
        requires
            self.wf(),
            pattern.wf(),
            position < NAME_TABLE_TILES,
            row < 8,
            offset + 24 <= old(buf)@.len(),
        ensures
            final(buf)@ == splice(
                old(buf)@,
                offset as int,
                tile_row_rgb(
                    pattern@,
                    row as int,
                    palette_high_bits(self.attributes(), position as int) << 2,
                ),
            ),
    {
        let bits = self.map_pattern_to_attribute(position);
        pattern.write_rgb_row(buf, offset, row, bits << 2);
    }

    /// Draws the whole name table into `buf`, a frame of 256 by 240 pixels,
    /// with the tiles of the pattern table `tables`.
    pub fn get_frame(&self, tables: &[u8], buf: &mut [u8])
        requires
            self.wf(),
            tables@.len() == PATTERN_TABLE_SIZE,
            old(buf)@.len() == FRAME_BYTES,
        ensures
            final(buf)@ == name_table_frame(self.ids(), self.attributes(), tables@),
    {
        let ghost frame = name_table_frame(self.ids(), self.attributes(), tables@);
        let mut strip: usize = 0;
        while strip < 7680
            invariant
                self.wf(),
                tables@.len() == PATTERN_TABLE_SIZE,
                buf@.len() == FRAME_BYTES,
                strip <= 7680,
                frame == name_table_frame(self.ids(), self.attributes(), tables@),
                forall|m: int| 0 <= m < 24 * strip ==> buf@[m] == frame[m],
            decreases 7680 - strip,
        {
            let pixel_row = strip / 32;
            let position = ((pixel_row / 8) * 32 + strip % 32) as u16;
            let id = self.tile_id(position) as usize;
            let tile = PatternTable::from(
                vstd::slice::slice_subrange(tables, 16 * id, 16 * id + 16),
            );
            let ghost before = buf@;
            self.write_tile_row(position, pixel_row % 8, &tile, buf, 24 * strip);
            proof {
                let part = name_table_strip(self.ids(), self.attributes(), tables@, strip as int);
                assert(buf@ == splice(before, 24 * strip, part));
                assert forall|m: int| 0 <= m < 24 * (strip + 1) implies buf@[m] == frame[m] by {
                    if m >= 24 * strip {
                        assert(m / 24 == strip as int);
                        assert(m % 24 == m - 24 * strip);
                    }
                }
            }
            strip = strip + 1;
        }
        assert(buf@ =~= frame);
    }
}

} // verus!
