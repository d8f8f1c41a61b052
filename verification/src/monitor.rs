//! Video scan-out: from the bytes of a framebuffer page to drawing
//! operations on a 280 by 192 pixel screen.
use vstd::prelude::*;
use crate::bits::lemma_glyph_fields;
use crate::bits::lemma_nibbles;
use crate::mapper::Mapper;
use crate::mapper::ScreenState;
use crate::mapper::RAM_SIZE;
use crate::mapper::APPLE_II_TEXT_WIDTH;
use crate::mapper::APPLE_II_TEXT_HEIGHT;

verus! {

/// Pixels in a row of the screen.
pub const APPLE_II_SCREEN_WIDTH: usize = 280;

/// Rows of the screen.
pub const APPLE_II_SCREEN_HEIGHT: usize = 192;

/// Offset of each row of text within a text or lo-res page.
pub const TEXT_ROW_MAP: [usize; 24] = [
    0x000, 0x080, 0x100, 0x180, 0x200, 0x280, 0x300, 0x380,
    0x028, 0x0A8, 0x128, 0x1A8, 0x228, 0x2A8, 0x328, 0x3A8,
    0x050, 0x0D0, 0x150, 0x1D0, 0x250, 0x2D0, 0x350, 0x3D0,
];

/// The sixteen lo-res colours, each as `0xRRGGBB`.
pub const COLOR_MAP: [u32; 16] = [
    0x000000, 0xD00030, 0x000080, 0xFF00FF, 0x008000, 0x808080, 0x0000FF, 0x60A0FF,
    0x805000, 0xFF8000, 0xC0C0C0, 0xFF9080, 0x00FF00, 0xFFFF00, 0x40FF90, 0xFFFFFF,
];

/// The hi-res colours, each as `0xRRGGBB`.
pub const BLACK: u32 = 0x000000;

pub const WHITE: u32 = 0xFFFFFF;

pub const BLUE: u32 = 0x0080FF;

pub const RED: u32 = 0xF05000;

pub const VIOLET: u32 = 0xA000FF;

pub const GREEN: u32 = 0x20C000;

/// CPU cycles in one period of a blinking character.
pub const BLINK_PERIOD: u64 = 1000000;

/// One operation on the screen. Coordinates are in pixels from the top
/// left corner; a later operation paints over an earlier one.
#[derive(Clone, Copy, Debug, PartialEq, Eq)]
pub enum DrawOp {
    /// Copy the 7 by 8 glyph whose top left corner in the font sheet is
    /// (`font_x`, `font_y`) to (`x`, `y`).
    Glyph { font_x: i32, font_y: i32, x: i32, y: i32 },
    /// Fill the rectangle of `w` by `h` pixels at (`x`, `y`).
    Rect { x: i32, y: i32, w: u32, h: u32, rgb: u32 },
    /// Set the pixel at (`x`, `y`).
    Point { x: i32, y: i32, rgb: u32 },
}

/// Whether a blinking character shows its inverse form at this cycle
/// count: the first half of every period.
pub open spec fn blink_shown(cycles: u64) -> bool {
    cycles % BLINK_PERIOD < BLINK_PERIOD / 2
}

/// The character whose glyph stands for the byte `b` of a text page.
/// The top two bits of `b` give its kind: 0 is inverse and has bit 6
/// forced on, 1 blinks between that and the normal form, 2 and 3 are
/// normal and have the top bits cleared.
pub open spec fn glyph_code(b: u8, cycles: u64) -> u8 {
    let kind = b >> 6;
    if kind == 0 || (kind == 1 && blink_shown(cycles)) {
        b | 0x40
    } else {
        b & 0x3F
    }
}

/// The operation that draws the text cell in column `x` of row `y`.
pub open spec fn text_cell(ram: Seq<u8>, scr_base: int, x: int, y: int, cycles: u64) -> DrawOp {
    let c = glyph_code(ram[scr_base + TEXT_ROW_MAP[y] + x], cycles);
    DrawOp::Glyph {
        font_x: (((c & 0x78) >> 3) * 7) as i32,
        font_y: ((c & 0x7) * 8) as i32,
        x: (x * 7) as i32,
        y: (y * 8) as i32,
    }
}

/// The forty glyphs of row `y` of the text page at `scr_base`, left to
/// right.
pub open spec fn text_row(ram: Seq<u8>, scr_base: int, y: int, cycles: u64) -> Seq<DrawOp> {
    Seq::new(APPLE_II_TEXT_WIDTH as nat, |x: int| text_cell(ram, scr_base, x, y, cycles))
}

/// One half of a lo-res cell: `k / 2` is the column, and `k % 2` tells
/// the top half, coloured by the low nibble, from the bottom half,
/// coloured by the high nibble.
pub open spec fn lores_half(ram: Seq<u8>, scr_base: int, k: int, y: int) -> DrawOp {
    let b = ram[scr_base + TEXT_ROW_MAP[y] + k / 2];
    if k % 2 == 0 {
        DrawOp::Rect { x: (k / 2 * 7) as i32, y: (y * 8) as i32, w: 7, h: 4, rgb: COLOR_MAP[(b & 0xF) as int] }
    } else {
        DrawOp::Rect { x: (k / 2 * 7) as i32, y: (y * 8 + 4) as i32, w: 7, h: 4, rgb: COLOR_MAP[(b >> 4) as int] }
    }
}

/// The eighty rectangles of row `y` of the lo-res page at `scr_base`: for
/// each column its top half, then its bottom half.
pub open spec fn lores_row(ram: Seq<u8>, scr_base: int, y: int) -> Seq<DrawOp> {
    Seq::new(2 * APPLE_II_TEXT_WIDTH as nat, |k: int| lores_half(ram, scr_base, k, y))
}

/// Offset of scan line `y` within a hi-res page.
pub open spec fn hires_row_offset(y: int) -> int {
    (y % 8) * 0x400 + (y / 8 % 8) * 0x80 + (y / 64) * 0x28
}

/// The offset of a scan line, put together from the bits of its number:
/// the low three bits count in steps of `$400`, the next three in steps
/// of `$80`, the top two in steps of `$28`.
pub proof fn law_row_offset_from_bits(y: u16)
    by (bit_vector)
    requires
        y < 192,
    ensures
        (y & 7) << 10 | ((y >> 3) & 7) << 7 | ((y >> 6) * 0x28) as u16 == (y % 8) * 0x400 + (y / 8 % 8)
            * 0x80 + (y / 64) * 0x28,
{
}

/// Data bit `k` of a scan line that starts at `base`: each byte holds
/// seven of them, lowest first.
pub open spec fn hires_bit(ram: Seq<u8>, base: int, k: int) -> bool {
    ram[base + k / 7] & (1u8 << (k % 7) as u8) != 0
}

/// The colour of a hi-res pixel from its window of three data bits, the
/// palette bit of its byte and the parity of its column.
pub open spec fn hires_color(prev: bool, curr: bool, next: bool, palette: bool, odd: bool) -> u32 {
    if curr {
        if prev || next {
            WHITE
        } else if palette {
            if odd { BLUE } else { RED }
        } else {
            if odd { VIOLET } else { GREEN }
        }
    } else if prev && next {
        if palette {
            if odd { RED } else { BLUE }
        } else {
            if odd { GREEN } else { VIOLET }
        }
    } else {
        BLACK
    }
}

/// The pixel in column `x` of the scan line that starts at `base`. Its
/// window ends at data bit `x`: the pixel shows bit `x - 1` between bit
/// `x - 2` and bit `x`. Left of the line there is no light, except that
/// the first pixel shows bit 0 itself.
pub open spec fn hires_pixel(ram: Seq<u8>, base: int, x: int) -> u32 {
    let prev = x >= 1 && hires_bit(ram, base, if x >= 2 { x - 2 } else { 0 });
    let curr = hires_bit(ram, base, if x >= 1 { x - 1 } else { 0 });
    let next = hires_bit(ram, base, x);
    let palette = ram[base + x / 7] & 0x80 != 0;
    hires_color(prev, curr, next, palette, x % 2 == 1)
}

/// The 280 pixels of scan line `y` of the hi-res page at `scr_base`, left
/// to right.
pub open spec fn hires_row(ram: Seq<u8>, scr_base: int, y: int) -> Seq<DrawOp> {
    Seq::new(
        APPLE_II_SCREEN_WIDTH as nat,
        |x: int|
            DrawOp::Point {
                x: x as i32,
                y: y as i32,
                rgb: hires_pixel(ram, scr_base + hires_row_offset(y), x),
            },
    )
}

/// Rows `from` up to, not including, `to` of the text page at `scr_base`,
/// top to bottom.
pub open spec fn text_rows(ram: Seq<u8>, scr_base: int, from: int, to: int, cycles: u64) -> Seq<
    DrawOp,
>
    decreases to - from,
{
    if to <= from {
        Seq::empty()
    } else {
        text_rows(ram, scr_base, from, to - 1, cycles) + text_row(ram, scr_base, to - 1, cycles)
    }
}

/// The first `rows` rows of the lo-res page at `scr_base`, top to bottom.
pub open spec fn lores_rows(ram: Seq<u8>, scr_base: int, rows: int) -> Seq<DrawOp>
    decreases rows,
{
    if rows <= 0 {
        Seq::empty()
    } else {
        lores_rows(ram, scr_base, rows - 1) + lores_row(ram, scr_base, rows - 1)
    }
}

/// The first `lines` scan lines of the hi-res page at `scr_base`, top to
/// bottom.
pub open spec fn hires_rows(ram: Seq<u8>, scr_base: int, lines: int) -> Seq<DrawOp>
    decreases lines,
{
    if lines <= 0 {
        Seq::empty()
    } else {
        hires_rows(ram, scr_base, lines - 1) + hires_row(ram, scr_base, lines - 1)
    }
}

/// Where the page that the screen shows starts in RAM: text and lo-res
/// pages at `$400` and `$800`, hi-res pages at `$2000` and `$4000`.
pub open spec fn page_base(screen: ScreenState) -> int {
    if screen.graphics && !screen.low_res {
        if screen.primary { 0x2000 } else { 0x4000 }
    } else {
        if screen.primary { 0x400 } else { 0x800 }
    }
}

/// The operations that draw one frame. Text mode shows the 24 rows of a
/// text page. Graphics mode shows a lo-res or a hi-res page, either on the
/// whole screen or, in mixed mode, on its top 20 rows, above rows 20 to 23
/// of text page 1.
pub open spec fn frame(screen: ScreenState, ram: Seq<u8>, cycles: u64) -> Seq<DrawOp> {
    let rows: int = if screen.all { 24 } else { 20 };
    if !screen.graphics {
        text_rows(ram, page_base(screen), 0, 24, cycles)
    } else {
        let picture = if screen.low_res {
            lores_rows(ram, page_base(screen), rows)
        } else {
            hires_rows(ram, page_base(screen), rows * 8)
        };
        if screen.all {
            picture
        } else {
            picture + text_rows(ram, 0x400, 20, 24, cycles)
        }
    }
}

/// Appends to `ops` the glyphs of one row of text.
pub fn draw_text_row(
    ops: &mut Vec<DrawOp>,
    ram: &[u8; RAM_SIZE],
    scr_base: usize,
    y: usize,
    cycles: u64,
)
    requires
        y < APPLE_II_TEXT_HEIGHT,
        scr_base + 0x400 <= RAM_SIZE,
    ensures
        final(ops)@ == old(ops)@ + text_row(ram@, scr_base as int, y as int, cycles),
{
    let base: usize = scr_base + TEXT_ROW_MAP[y];
    let ghost before = ops@;
    for x in 0..APPLE_II_TEXT_WIDTH
        invariant
            y < APPLE_II_TEXT_HEIGHT,
            base == scr_base + TEXT_ROW_MAP[y as int],
            base + APPLE_II_TEXT_WIDTH <= RAM_SIZE,
            ops@.len() == before.len() + x,
            forall|i: int| 0 <= i < before.len() ==> ops@[i] == before[i],
            forall|i: int|
                0 <= i < x ==> ops@[before.len() + i] == text_cell(
                    ram@,
                    scr_base as int,
                    i,
                    y as int,
                    cycles,
                ),
    {
        let mut character: u8 = ram[base + x];
        let char_type: u8 = character >> 6;
        if char_type == 0 || (char_type == 1 && cycles % BLINK_PERIOD < BLINK_PERIOD / 2) {
            character |= 0x40;
        } else {
            character &= 0x3F;
        }
        proof {
            lemma_glyph_fields(character);
        }
        let font_y: i32 = (character & 0x7) as i32 * 8;
        let font_x: i32 = ((character & 0x78) >> 3) as i32 * 7;
        ops.push(DrawOp::Glyph { font_x, font_y, x: x as i32 * 7, y: y as i32 * 8 });
    }
    assert(ops@ =~= before + text_row(ram@, scr_base as int, y as int, cycles));
}

/// Appends to `ops` the rectangles of one row of lo-res cells.
pub fn draw_low_res_row(ops: &mut Vec<DrawOp>, ram: &[u8; RAM_SIZE], scr_base: usize, y: usize)
    requires
        y < APPLE_II_TEXT_HEIGHT,
        scr_base + 0x400 <= RAM_SIZE,
    ensures
        final(ops)@ == old(ops)@ + lores_row(ram@, scr_base as int, y as int),
{
    let base: usize = scr_base + TEXT_ROW_MAP[y];
    let ghost before = ops@;
    for x in 0..APPLE_II_TEXT_WIDTH
        invariant
            y < APPLE_II_TEXT_HEIGHT,
            base == scr_base + TEXT_ROW_MAP[y as int],
            base + APPLE_II_TEXT_WIDTH <= RAM_SIZE,
            ops@.len() == before.len() + 2 * x,
            forall|i: int| 0 <= i < before.len() ==> ops@[i] == before[i],
            forall|k: int|
                0 <= k < 2 * x ==> ops@[before.len() + k] == lores_half(
                    ram@,
                    scr_base as int,
                    k,
                    y as int,
                ),
    {
        let colors: u8 = ram[base + x];
        proof {
            lemma_nibbles(colors);
        }
        ops.push(
            DrawOp::Rect {
                x: x as i32 * 7,
                y: y as i32 * 8,
                w: 7,
                h: 4,
                rgb: COLOR_MAP[(colors & 0xF) as usize],
            },
        );
        ops.push(
            DrawOp::Rect {
                x: x as i32 * 7,
                y: y as i32 * 8 + 4,
                w: 7,
                h: 4,
                rgb: COLOR_MAP[(colors >> 4) as usize],
            },
        );
    }
    assert(ops@ =~= before + lores_row(ram@, scr_base as int, y as int));
}

/// Offset of scan line `y` within a hi-res page.
pub fn high_res_row_offset(y: usize) -> (offset: usize)
    requires
        y < APPLE_II_SCREEN_HEIGHT,
    ensures
        offset == hires_row_offset(y as int),
        offset + APPLE_II_SCREEN_WIDTH / 7 <= 0x2000,
{
    (y % 8) * 0x400 + (y / 8 % 8) * 0x80 + (y / 64) * 0x28
}

/// Appends to `ops` the pixels of one hi-res scan line.
pub fn draw_high_res_row(ops: &mut Vec<DrawOp>, ram: &[u8; RAM_SIZE], scr_base: usize, y: usize)
    requires
        y < APPLE_II_SCREEN_HEIGHT,
        scr_base + 0x2000 <= RAM_SIZE,
    ensures
        final(ops)@ == old(ops)@ + hires_row(ram@, scr_base as int, y as int),
{
    let base: usize = scr_base + high_res_row_offset(y);
    let ghost before = ops@;
    let mut prev: bool;
    let mut curr: bool = false;
    // Start the window on the first bit itself, so that it is seen.
    let mut next: bool = ram[base] & (1u8 << 0u8) != 0;
    let mut x: i32 = 0;
    for byte in 0..APPLE_II_SCREEN_WIDTH / 7
        invariant
            y < APPLE_II_SCREEN_HEIGHT,
            base + APPLE_II_SCREEN_WIDTH / 7 <= RAM_SIZE,
            base == scr_base + hires_row_offset(y as int),
            x == 7 * byte,
            curr == (x >= 1 && hires_bit(ram@, base as int, if x >= 2 { x - 2 } else { 0 })),
            next == hires_bit(ram@, base as int, if x >= 1 { x - 1 } else { 0 }),
            ops@.len() == before.len() + x,
            forall|i: int| 0 <= i < before.len() ==> ops@[i] == before[i],
            forall|i: int|
                0 <= i < x ==> ops@[before.len() + i] == (DrawOp::Point {
                    x: i as i32,
                    y: y as i32,
                    rgb: hires_pixel(ram@, base as int, i),
                }),
    {
        let data: u8 = ram[base + byte];
        let colorset: bool = data & 0x80 != 0;
        for bit in 0..7u8
            invariant
                y < APPLE_II_SCREEN_HEIGHT,
                byte < APPLE_II_SCREEN_WIDTH / 7,
                base + APPLE_II_SCREEN_WIDTH / 7 <= RAM_SIZE,
                data == ram@[base + byte],
                colorset == (data & 0x80 != 0),
                x == 7 * byte + bit,
                curr == (x >= 1 && hires_bit(ram@, base as int, if x >= 2 { x - 2 } else { 0 })),
                next == hires_bit(ram@, base as int, if x >= 1 { x - 1 } else { 0 }),
                ops@.len() == before.len() + x,
                forall|i: int| 0 <= i < before.len() ==> ops@[i] == before[i],
                forall|i: int|
                    0 <= i < x ==> ops@[before.len() + i] == (DrawOp::Point {
                        x: i as i32,
                        y: y as i32,
                        rgb: hires_pixel(ram@, base as int, i),
                    }),
        {
            prev = curr;
            curr = next;
            next = data & (1u8 << bit) != 0;
            let odd: bool = x % 2 == 1;
            let rgb: u32 = if curr {
                if prev || next {
                    WHITE
                } else if colorset {
                    if odd { BLUE } else { RED }
                } else {
                    if odd { VIOLET } else { GREEN }
                }
            } else if prev && next {
                if colorset {
                    if odd { RED } else { BLUE }
                } else {
                    if odd { GREEN } else { VIOLET }
                }
            } else {
                BLACK
            };
            ops.push(DrawOp::Point { x, y: y as i32, rgb });
            x += 1;
        }
    }
    assert(ops@ =~= before + hires_row(ram@, scr_base as int, y as int));
}

/// The operations that draw the frame which `memory` holds, at a time
/// `cycles` CPU cycles after the machine was switched on.
pub fn update_window(memory: &Mapper, cycles: u64) -> (ops: Vec<DrawOp>)
    ensures
        ops@ == frame(memory@.screen, memory@.ram, cycles),
{
    let mut ops: Vec<DrawOp> = Vec::new();
    let rows: usize = if memory.screen.all {
        APPLE_II_TEXT_HEIGHT
    } else {
        APPLE_II_TEXT_HEIGHT - 4
    };
    if memory.screen.graphics {
        if memory.screen.low_res {
            let scr_base: usize = if memory.screen.primary { 0x400 } else { 0x800 };
            for y in 0..rows
                invariant
                    rows <= APPLE_II_TEXT_HEIGHT,
                    scr_base + 0x400 <= RAM_SIZE,
                    ops@ == lores_rows(memory.ram@, scr_base as int, y as int),
            {
                draw_low_res_row(&mut ops, &memory.ram, scr_base, y);
            }
        } else {
            let scr_base: usize = if memory.screen.primary { 0x2000 } else { 0x4000 };
            for y in 0..rows * 8
                invariant
                    rows <= APPLE_II_TEXT_HEIGHT,
                    scr_base + 0x2000 <= RAM_SIZE,
                    ops@ == hires_rows(memory.ram@, scr_base as int, y as int),
            {
                draw_high_res_row(&mut ops, &memory.ram, scr_base, y);
            }
        }
        if !memory.screen.all {
            let ghost picture = ops@;
            for y in APPLE_II_TEXT_HEIGHT - 4..APPLE_II_TEXT_HEIGHT
                invariant
                    ops@ == picture + text_rows(memory.ram@, 0x400, 20, y as int, cycles),
            {
                draw_text_row(&mut ops, &memory.ram, 0x400, y, cycles);
            }
        }
    } else {
        let scr_base: usize = if memory.screen.primary { 0x400 } else { 0x800 };
        for y in 0..APPLE_II_TEXT_HEIGHT
            invariant
                scr_base + 0x400 <= RAM_SIZE,
                ops@ == text_rows(memory.ram@, scr_base as int, 0, y as int, cycles),
        {
            draw_text_row(&mut ops, &memory.ram, scr_base, y, cycles);
        }
    }
    ops
}

} // verus!
