use vstd::prelude::*;
use crate::flags::has_flag;
use crate::frame::{frame_pixel, in_frame, system_color, system_palette, Frame, HEIGHT, WIDTH};
use crate::ppu::{Mirroring, NesPPU, PpuView};
use crate::ppu_registers::{nametable_base, BACKROUND_PATTERN_ADDR, SPRITE_PATTERN_ADDR};

verus! {

/// The 2-bit colour number of pixel column `x` (0 = leftmost) of a tile row whose
/// low bit plane is `lo` and high bit plane is `hi`.
pub open spec fn tile_pixel(lo: u8, hi: u8, x: u8) -> u8 {
    (((hi >> (7 - x) as u8) & 1) * 2 + ((lo >> (7 - x) as u8) & 1)) as u8
}

/// The background palette number that attribute byte `attr` gives the tile at
/// (`col`, `row`): two bits for each 2x2-tile quadrant of its 4x4-tile block.
pub open spec fn attribute_palette(attr: u8, col: int, row: int) -> u8 {
    let qx = col % 4 / 2;
    let qy = row % 4 / 2;
    if qx == 0 && qy == 0 {
        attr & 3
    } else if qx == 1 && qy == 0 {
        (attr >> 2u8) & 3
    } else if qx == 0 && qy == 1 {
        (attr >> 4u8) & 3
    } else {
        (attr >> 6u8) & 3
    }
}

/// Which half of nametable memory is shown first, and which one scrolling reveals,
/// for a mirroring mode and the base nametable that the control register selects.
pub open spec fn nametable_halves(mirroring: Mirroring, base: u16) -> (usize, usize) {
    let first = match mirroring {
        Mirroring::Vertical => base == 0x2000 || base == 0x2800,
        Mirroring::Horizontal => base == 0x2000 || base == 0x2400,
    };
    if first { (0, 0x400) } else { (0x400, 0) }
}

/// The pattern bank that background tiles use.
pub open spec fn bg_bank(p: PpuView) -> int {
    if has_flag(p.ctrl, BACKROUND_PATTERN_ADDR) { 0x1000 } else { 0 }
}

/// The colour of pixel (`px`, `py`) of the nametable that starts at `base`: its
/// tile's colour number, looked up in the backdrop (colour 0) or in the palette that
/// the attribute table gives the tile.
pub open spec fn bg_pixel(p: PpuView, base: int, px: int, py: int) -> (u8, u8, u8) {
    let col = px / 8;
    let row = py / 8;
    let tile = bg_bank(p) + p.vram[base + row * 32 + col] * 16;
    let v = tile_pixel(p.chr[tile + py % 8], p.chr[tile + py % 8 + 8], (px % 8) as u8);
    let attr = p.vram[base + 0x3c0 + row / 4 * 8 + col / 4];
    let start = 1 + attribute_palette(attr, col, row) * 4;
    system_color(if v == 0 { p.palette[0] } else { p.palette[start + v - 1] })
}

/// Whether the drawing of a nametable has reached its pixel (`px`, `py`) once it has
/// done the tiles before tile `i`, and in tile `i` the rows before `y` and the
/// columns before `x` of row `y`.
pub open spec fn bg_drawn(px: int, py: int, i: int, y: int, x: int) -> bool {
    let t = (py / 8) * 32 + px / 8;
    t < i || (t == i && (py % 8 < y || (py % 8 == y && px % 8 < x)))
}

/// Whether nametable pixel (`px`, `py`) lies in the nametable and in the view port
/// `x1..x2` by `y1..y2`.
pub open spec fn bg_visible(px: int, py: int, x1: int, y1: int, x2: int, y2: int) -> bool {
    0 <= px < 256 && 0 <= py < 240 && x1 <= px < x2 && y1 <= py < y2
}

/// The pattern bank that sprites use.
pub open spec fn sprite_bank(p: PpuView) -> int {
    if has_flag(p.ctrl, SPRITE_PATTERN_ADDR) { 0x1000 } else { 0 }
}

/// Where frame pixel (`x`, `y`) falls in sprite `n`: its column and row in the tile
/// after the flip bits are applied, if the sprite's 8x8 square covers the pixel.
pub open spec fn sprite_cell(p: PpuView, n: int, x: int, y: int) -> Option<(int, int)> {
    let attr = p.oam[4 * n + 2];
    let dx = x - p.oam[4 * n + 3];
    let dy = y - p.oam[4 * n];
    if 0 <= dx < 8 && 0 <= dy < 8 {
        Some((if attr / 0x40 % 2 == 1 { 7 - dx } else { dx }, if attr >= 0x80 { 7 - dy } else { dy }))
    } else {
        None
    }
}

/// The colour that sprite `n` paints at frame pixel (`x`, `y`): none where it does
/// not cover the pixel or where its colour number is 0 (transparent); else the
/// entry of its sprite palette for that colour number.
pub open spec fn sprite_pixel(p: PpuView, n: int, x: int, y: int) -> Option<(u8, u8, u8)> {
    match sprite_cell(p, n, x, y) {
        Some((col, row)) => {
            let attr = p.oam[4 * n + 2];
            let tile = sprite_bank(p) + p.oam[4 * n + 1] * 16;
            let v = tile_pixel(p.chr[tile + row], p.chr[tile + row + 8], col as u8);
            if v == 0 {
                None
            } else {
                Some(system_color(p.palette[0x11 + (attr % 4) * 4 + v - 1]))
            }
        },
        None => None,
    }
}

/// The colour that sprites `n..64` show at (`x`, `y`): that of the lowest-numbered
/// sprite that paints the pixel.
pub open spec fn sprites_from(p: PpuView, n: int, x: int, y: int) -> Option<(u8, u8, u8)>
    decreases 64 - n,
{
    if n < 0 || n >= 64 {
        None
    } else {
        match sprite_pixel(p, n, x, y) {
            Some(c) => Some(c),
            None => sprites_from(p, n + 1, x, y),
        }
    }
}

/// Whether the drawing of sprite `n` has reached pixel (`x`, `y`) once it has done
/// the tile rows before `row` and the columns before `col` of row `row`.
pub open spec fn sprite_drawn(p: PpuView, n: int, x: int, y: int, row: int, col: int) -> bool {
    match sprite_cell(p, n, x, y) {
        Some((c, r)) => r < row || (r == row && c < col),
        None => false,
    }
}

/// Sprite priority: where sprite `k` paints a pixel and no sprite numbered from `m`
/// up to `k` does, the sprites from `m` on show sprite `k`'s colour there.
pub proof fn lemma_lowest_sprite_shows(p: PpuView, m: int, k: int, x: int, y: int)
    requires
        0 <= m <= k < 64,
        sprite_pixel(p, k, x, y) is Some,
        forall|j: int| m <= j < k ==> #[trigger] sprite_pixel(p, j, x, y) is None,
    ensures
        sprites_from(p, m, x, y) == sprite_pixel(p, k, x, y),
    decreases k - m,
{
    if m < k {
        lemma_lowest_sprite_shows(p, m + 1, k, x, y);
    }
}

proof fn lemma_two_bits(b: u8, k: u8)
    ensures
        (b >> k) & 1 <= 1,
        (b >> k) & 3 <= 3,
        b & 3 <= 3,
{
    assert((b >> k) & 1 <= 1) by (bit_vector);
    assert((b >> k) & 3 <= 3) by (bit_vector);
    assert(b & 3 <= 3) by (bit_vector);
}

/// The colour number of column `x` of a tile row.
pub fn tile_pixel_value(lo: u8, hi: u8, x: u8) -> (r: u8)
    requires
        x < 8,
    ensures
        r == tile_pixel(lo, hi, x),
        r < 4,
{
    proof {
        lemma_two_bits(hi, (7 - x) as u8);
        lemma_two_bits(lo, (7 - x) as u8);
    }
    ((hi >> (7 - x)) & 1) * 2 + ((lo >> (7 - x)) & 1)
}

/// The halves of nametable memory to draw first and to reveal by scrolling.
pub fn select_nametables(mirroring: Mirroring, base: u16) -> (r: (usize, usize))
    ensures
        r == nametable_halves(mirroring, base),
{
    let first = match mirroring {
        Mirroring::Vertical => base == 0x2000 || base == 0x2800,
        Mirroring::Horizontal => base == 0x2000 || base == 0x2400,
    };
    if first { (0, 0x400) } else { (0x400, 0) }
}

/// The four palette-memory colour indices of the background tile at (`col`, `row`)
/// of the nametable that starts at `base`: the shared backdrop, then three entries of
/// the palette that the attribute table selects.
fn bg_pallette(ppu: &NesPPU, base: usize, tile_column: usize, tile_row: usize) -> (r: [u8; 4])
    requires
        ppu@.wf(),
        base == 0 || base == 0x400,
        tile_column < 32,
        tile_row < 30,
    ensures
        ({
            let attr = ppu@.vram[base + 0x3c0 + tile_row / 4 * 8 + tile_column / 4];
            let start = 1 + attribute_palette(attr, tile_column as int, tile_row as int) * 4;
            r@ == seq![ppu@.palette[0], ppu@.palette[start], ppu@.palette[start + 1], ppu@.palette[start + 2]]
        }),
{
    let attr_byte = ppu.vram[base + 0x3c0 + tile_row / 4 * 8 + tile_column / 4];
    proof {
        lemma_two_bits(attr_byte, 2);
        lemma_two_bits(attr_byte, 4);
        lemma_two_bits(attr_byte, 6);
    }
    let qx = tile_column % 4 / 2;
    let qy = tile_row % 4 / 2;
    let pallet_idx = if qx == 0 && qy == 0 {
        attr_byte & 3
    } else if qx == 1 && qy == 0 {
        (attr_byte >> 2) & 3
    } else if qx == 0 && qy == 1 {
        (attr_byte >> 4) & 3
    } else {
        (attr_byte >> 6) & 3
    };
    let start: usize = 1 + (pallet_idx as usize) * 4;
    let r = [ppu.palette_table[0], ppu.palette_table[start], ppu.palette_table[start + 1], ppu.palette_table[start + 2]];
    assert(r@ =~= seq![ppu@.palette[0], ppu@.palette[start as int], ppu@.palette[start + 1], ppu@.palette[start + 2]]);
    r
}

/// The four palette-memory colour indices of sprite palette `idx`; entry 0 is transparent.
fn sprite_palette(ppu: &NesPPU, idx: u8) -> (r: [u8; 4])
    requires
        ppu@.wf(),
        idx < 4,
    ensures
        ({
            let start = 0x11 + idx * 4;
            r@ == seq![0u8, ppu@.palette[start], ppu@.palette[start + 1], ppu@.palette[start + 2]]
        }),
{
    let start: usize = 0x11 + (idx as usize) * 4;
    let r = [0u8, ppu.palette_table[start], ppu.palette_table[start + 1], ppu.palette_table[start + 2]];
    assert(r@ =~= seq![0u8, ppu@.palette[start as int], ppu@.palette[start + 1], ppu@.palette[start + 2]]);
    r
}

/// A rectangle of nametable pixels, `x1..x2` by `y1..y2`.
struct Rect {
    x1: usize,
    y1: usize,
    x2: usize,
    y2: usize,
}

impl Rect {
    fn new(x1: usize, y1: usize, x2: usize, y2: usize) -> (r: Self)
        ensures
            r.x1 == x1 && r.y1 == y1 && r.x2 == x2 && r.y2 == y2,
    {
        Rect { x1, y1, x2, y2 }
    }
}

/// Draws the nametable that starts at `base`, keeping the pixels inside `view_port`
/// and moving each by (`shift_x`, `shift_y`); what lands outside the frame is dropped.
fn render_name_table(
    ppu: &NesPPU,
    frame: &mut Frame,
    base: usize,
    view_port: Rect,
    shift_x: i32,
    shift_y: i32,
)
    requires
        ppu@.wf(),
        old(frame).wf(),
        base == 0 || base == 0x400,
        -0x100 <= shift_x <= 0x100,
        -0x100 <= shift_y <= 0x100,
    ensures
        final(frame).wf(),
        forall|qx: int, qy: int| #[trigger] in_frame(qx, qy) ==> frame_pixel(final(frame).data@, qx, qy)
            == if bg_visible(qx - shift_x, qy - shift_y, view_port.x1 as int, view_port.y1 as int,
                view_port.x2 as int, view_port.y2 as int) {
                bg_pixel(ppu@, base as int, qx - shift_x, qy - shift_y)
            } else {
                frame_pixel(old(frame).data@, qx, qy)
            },
{
    let bank = ppu.ctrl.bknd_pattern_addr() as usize;
    let ghost p = ppu@;
    let ghost old_data = old(frame).data@;
    let ghost (x1, y1, x2, y2) = (view_port.x1 as int, view_port.y1 as int, view_port.x2 as int, view_port.y2 as int);
    let mut i: usize = 0;
    while i < 0x3c0
        invariant
            ppu@.wf(),
            p == ppu@,
            frame.wf(),
            base == 0 || base == 0x400,
            bank == bg_bank(p),
            i <= 0x3c0,
            x1 == view_port.x1 && y1 == view_port.y1 && x2 == view_port.x2 && y2 == view_port.y2,
            -0x100 <= shift_x <= 0x100,
            -0x100 <= shift_y <= 0x100,
            forall|qx: int, qy: int| #[trigger] in_frame(qx, qy) ==> frame_pixel(frame.data@, qx, qy)
                == if bg_visible(qx - shift_x, qy - shift_y, x1, y1, x2, y2)
                    && bg_drawn(qx - shift_x, qy - shift_y, i as int, 0, 0) {
                    bg_pixel(p, base as int, qx - shift_x, qy - shift_y)
                } else {
                    frame_pixel(old_data, qx, qy)
                },
        decreases 0x3c0 - i,
    {
        let tile_column = i % 32;
        let tile_row = i / 32;
        let tile_idx = ppu.vram[base + i] as usize;
        let tile = bank + tile_idx * 16;
        let palette = bg_pallette(ppu, base, tile_column, tile_row);
        let mut y: usize = 0;
        while y < 8
            invariant
                ppu@.wf(),
                p == ppu@,
                frame.wf(),
                base == 0 || base == 0x400,
                i < 0x3c0,
                tile_column == i % 32,
                tile_row == i / 32,
                tile == bg_bank(p) + p.vram[base + i] * 16,
                tile + 15 < 0x2000,
                palette@ == ({
                    let attr = p.vram[base + 0x3c0 + tile_row / 4 * 8 + tile_column / 4];
                    let start = 1 + attribute_palette(attr, tile_column as int, tile_row as int) * 4;
                    seq![p.palette[0], p.palette[start], p.palette[start + 1], p.palette[start + 2]]
                }),
                y <= 8,
                x1 == view_port.x1 && y1 == view_port.y1 && x2 == view_port.x2 && y2 == view_port.y2,
                -0x100 <= shift_x <= 0x100,
                -0x100 <= shift_y <= 0x100,
                forall|qx: int, qy: int| #[trigger] in_frame(qx, qy) ==> frame_pixel(frame.data@, qx, qy)
                    == if bg_visible(qx - shift_x, qy - shift_y, x1, y1, x2, y2)
                        && bg_drawn(qx - shift_x, qy - shift_y, i as int, y as int, 0) {
                        bg_pixel(p, base as int, qx - shift_x, qy - shift_y)
                    } else {
                        frame_pixel(old_data, qx, qy)
                    },
            decreases 8 - y,
        {
            let upper = ppu.chr_rom[tile + y];
            let lower = ppu.chr_rom[tile + y + 8];
            let mut x: u8 = 0;
            while x < 8
                invariant
                    ppu@.wf(),
                    p == ppu@,
                    frame.wf(),
                    base == 0 || base == 0x400,
                    i < 0x3c0,
                    tile_column == i % 32,
                    tile_row == i / 32,
                    tile == bg_bank(p) + p.vram[base + i] * 16,
                    tile + 15 < 0x2000,
                    palette@ == ({
                        let attr = p.vram[base + 0x3c0 + tile_row / 4 * 8 + tile_column / 4];
                        let start = 1 + attribute_palette(attr, tile_column as int, tile_row as int) * 4;
                        seq![p.palette[0], p.palette[start], p.palette[start + 1], p.palette[start + 2]]
                    }),
                    upper == p.chr[tile + y],
                    lower == p.chr[tile + y + 8],
                    y < 8,
                    x <= 8,
                    x1 == view_port.x1 && y1 == view_port.y1 && x2 == view_port.x2 && y2 == view_port.y2,
                    -0x100 <= shift_x <= 0x100,
                    -0x100 <= shift_y <= 0x100,
                    forall|qx: int, qy: int| #[trigger] in_frame(qx, qy) ==> frame_pixel(frame.data@, qx, qy)
                        == if bg_visible(qx - shift_x, qy - shift_y, x1, y1, x2, y2)
                            && bg_drawn(qx - shift_x, qy - shift_y, i as int, y as int, x as int) {
                            bg_pixel(p, base as int, qx - shift_x, qy - shift_y)
                        } else {
                            frame_pixel(old_data, qx, qy)
                        },
                decreases 8 - x,
            {
                let value = tile_pixel_value(upper, lower, x);
                let rgb = system_palette(palette[value as usize]);
                let pixel_x = tile_column * 8 + x as usize;
                let pixel_y = tile_row * 8 + y;
                proof {
                    lemma_tile_coordinates(i as int, tile_column as int, tile_row as int, x as int, y as int);
                }
                let fx = shift_x + pixel_x as i32;
                let fy = shift_y + pixel_y as i32;
                if pixel_x >= view_port.x1 && pixel_x < view_port.x2 && pixel_y >= view_port.y1
                    && pixel_y < view_port.y2 && fx >= 0 && fy >= 0 {
                    frame.set_pixel(fx as usize, fy as usize, rgb);
                }
                assert forall|qx: int, qy: int| #[trigger] in_frame(qx, qy) implies frame_pixel(frame.data@, qx, qy)
                    == if bg_visible(qx - shift_x, qy - shift_y, x1, y1, x2, y2)
                        && bg_drawn(qx - shift_x, qy - shift_y, i as int, y as int, x + 1) {
                        bg_pixel(p, base as int, qx - shift_x, qy - shift_y)
                    } else {
                        frame_pixel(old_data, qx, qy)
                    } by {
                    let px = qx - shift_x;
                    let py = qy - shift_y;
                    if px == pixel_x && py == pixel_y {
                    } else if 0 <= px < 256 && 0 <= py < 240 {
                        lemma_drawn_step(px, py, i as int, y as int, x as int, pixel_x as int, pixel_y as int);
                    }
                }
                x = x + 1;
            }
            assert forall|qx: int, qy: int| #[trigger] in_frame(qx, qy) implies
                bg_drawn(qx - shift_x, qy - shift_y, i as int, y as int, 8)
                    == bg_drawn(qx - shift_x, qy - shift_y, i as int, y + 1, 0) by {
                lemma_drawn_row(qx - shift_x, qy - shift_y, i as int, y as int);
            }
            y = y + 1;
        }
        assert forall|qx: int, qy: int| #[trigger] in_frame(qx, qy) implies
            bg_drawn(qx - shift_x, qy - shift_y, i as int, 8, 0)
                == bg_drawn(qx - shift_x, qy - shift_y, i + 1, 0, 0) by {
            lemma_drawn_tile(qx - shift_x, qy - shift_y, i as int);
        }
        i = i + 1;
    }
    assert forall|qx: int, qy: int| #[trigger] in_frame(qx, qy) implies
        (bg_visible(qx - shift_x, qy - shift_y, x1, y1, x2, y2) ==> bg_drawn(qx - shift_x, qy - shift_y, 0x3c0, 0, 0)) by {
        if bg_visible(qx - shift_x, qy - shift_y, x1, y1, x2, y2) {
            lemma_drawn_all(qx - shift_x, qy - shift_y);
        }
    }
}

proof fn lemma_tile_coordinates(i: int, col: int, row: int, x: int, y: int)
    requires
        0 <= i < 0x3c0,
        col == i % 32,
        row == i / 32,
        0 <= x < 8,
        0 <= y < 8,
    ensures
        (col * 8 + x) / 8 == col,
        (col * 8 + x) % 8 == x,
        (row * 8 + y) / 8 == row,
        (row * 8 + y) % 8 == y,
        row * 32 + col == i,
        0 <= col * 8 + x < 256,
        0 <= row * 8 + y < 240,
{
    assert((col * 8 + x) / 8 == col && (col * 8 + x) % 8 == x) by (nonlinear_arith)
        requires 0 <= x < 8, 0 <= col;
    assert((row * 8 + y) / 8 == row && (row * 8 + y) % 8 == y) by (nonlinear_arith)
        requires 0 <= y < 8, 0 <= row;
}

proof fn lemma_drawn_step(px: int, py: int, i: int, y: int, x: int, pixel_x: int, pixel_y: int)
    requires
        0 <= px < 256,
        0 <= py < 240,
        pixel_x / 8 == i % 32,
        pixel_y / 8 == i / 32,
        pixel_x % 8 == x,
        pixel_y % 8 == y,
        0 <= i,
        !(px == pixel_x && py == pixel_y),
    ensures
        bg_drawn(px, py, i, y, x + 1) == bg_drawn(px, py, i, y, x),
{
    if (py / 8) * 32 + px / 8 == i && py % 8 == y && px % 8 == x {
        assert(px / 8 < 32) by (nonlinear_arith) requires 0 <= px < 256;
        assert(py / 8 == i / 32 && px / 8 == i % 32) by (nonlinear_arith)
            requires (py / 8) * 32 + px / 8 == i, 0 <= px / 8 < 32, 0 <= py;
        assert(px == 8 * (px / 8) + px % 8) by (nonlinear_arith);
        assert(py == 8 * (py / 8) + py % 8) by (nonlinear_arith);
        assert(pixel_x == 8 * (pixel_x / 8) + pixel_x % 8) by (nonlinear_arith);
        assert(pixel_y == 8 * (pixel_y / 8) + pixel_y % 8) by (nonlinear_arith);
    }
}

proof fn lemma_drawn_row(px: int, py: int, i: int, y: int)
    ensures
        bg_drawn(px, py, i, y, 8) == bg_drawn(px, py, i, y + 1, 0),
{
    assert(0 <= px % 8 < 8) by (nonlinear_arith);
}

proof fn lemma_drawn_tile(px: int, py: int, i: int)
    ensures
        bg_drawn(px, py, i, 8, 0) == bg_drawn(px, py, i + 1, 0, 0),
{
    assert(0 <= py % 8 < 8) by (nonlinear_arith);
}

proof fn lemma_drawn_all(px: int, py: int)
    requires
        0 <= px < 256,
        0 <= py < 240,
    ensures
        bg_drawn(px, py, 0x3c0, 0, 0),
{
    assert((py / 8) * 32 + px / 8 < 0x3c0) by (nonlinear_arith)
        requires 0 <= px < 256, 0 <= py < 240;
}

/// Draws the 8x8 sprite of OAM entry `n`, skipping its transparent pixels and
/// mirroring it as its flip bits say.
fn render_sprite(ppu: &NesPPU, frame: &mut Frame, n: usize)
    requires
        ppu@.wf(),
        old(frame).wf(),
        n < 64,
    ensures
        final(frame).wf(),
        forall|qx: int, qy: int| #[trigger] in_frame(qx, qy) ==> frame_pixel(final(frame).data@, qx, qy)
            == match sprite_pixel(ppu@, n as int, qx, qy) {
                Some(c) => c,
                None => frame_pixel(old(frame).data@, qx, qy),
            },
{
    let i = n * 4;
    let tile_y = ppu.oam_data[i] as usize;
    let tile_idx = ppu.oam_data[i + 1] as usize;
    let attr = ppu.oam_data[i + 2];
    let tile_x = ppu.oam_data[i + 3] as usize;
    let flip_vertical = attr >= 0x80;
    let flip_horizontal = attr / 0x40 % 2 == 1;
    let palette = sprite_palette(ppu, attr % 4);
    let bank = ppu.ctrl.sprt_pattern_addr() as usize;
    let tile = bank + tile_idx * 16;
    let ghost p = ppu@;
    let ghost n_i = n as int;
    let ghost old_data = old(frame).data@;
    assert(bank == sprite_bank(p));
    let mut y: usize = 0;
    while y < 8
        invariant
            ppu@.wf(),
            p == ppu@,
            n < 64,
            n_i == n,
            i == 4 * n,
            frame.wf(),
            tile == sprite_bank(p) + p.oam[4 * n_i + 1] * 16,
            tile + 15 < 0x2000,
            tile_x == p.oam[4 * n_i + 3],
            tile_y == p.oam[4 * n_i],
            attr == p.oam[4 * n_i + 2],
            flip_vertical == (attr >= 0x80),
            flip_horizontal == (attr / 0x40 % 2 == 1),
            palette@ == seq![0u8, p.palette[0x11 + (attr % 4) * 4], p.palette[0x11 + (attr % 4) * 4 + 1], p.palette[0x11 + (attr % 4) * 4 + 2]],
            y <= 8,
            forall|qx: int, qy: int| #[trigger] in_frame(qx, qy) ==> frame_pixel(frame.data@, qx, qy)
                == if sprite_drawn(p, n_i, qx, qy, y as int, 0) && sprite_pixel(p, n_i, qx, qy) is Some {
                    sprite_pixel(p, n_i, qx, qy)->0
                } else {
                    frame_pixel(old_data, qx, qy)
                },
        decreases 8 - y,
    {
        let upper = ppu.chr_rom[tile + y];
        let lower = ppu.chr_rom[tile + y + 8];
        let mut x: u8 = 0;
        while x < 8
            invariant
                ppu@.wf(),
                p == ppu@,
                n < 64,
                n_i == n,
                frame.wf(),
                tile == sprite_bank(p) + p.oam[4 * n_i + 1] * 16,
                tile + 15 < 0x2000,
                tile_x == p.oam[4 * n_i + 3],
                tile_y == p.oam[4 * n_i],
                attr == p.oam[4 * n_i + 2],
                flip_vertical == (attr >= 0x80),
                flip_horizontal == (attr / 0x40 % 2 == 1),
                palette@ == seq![0u8, p.palette[0x11 + (attr % 4) * 4], p.palette[0x11 + (attr % 4) * 4 + 1], p.palette[0x11 + (attr % 4) * 4 + 2]],
                upper == p.chr[tile + y],
                lower == p.chr[tile + y + 8],
                y < 8,
                x <= 8,
                forall|qx: int, qy: int| #[trigger] in_frame(qx, qy) ==> frame_pixel(frame.data@, qx, qy)
                    == if sprite_drawn(p, n_i, qx, qy, y as int, x as int) && sprite_pixel(p, n_i, qx, qy) is Some {
                        sprite_pixel(p, n_i, qx, qy)->0
                    } else {
                        frame_pixel(old_data, qx, qy)
                    },
            decreases 8 - x,
        {
            let value = tile_pixel_value(upper, lower, x);
            let px = if flip_horizontal { tile_x + 7 - x as usize } else { tile_x + x as usize };
            let py = if flip_vertical { tile_y + 7 - y } else { tile_y + y };
            assert(sprite_cell(p, n_i, px as int, py as int) == Some((x as int, y as int)));
            if value != 0 {
                let rgb = system_palette(palette[value as usize]);
                frame.set_pixel(px, py, rgb);
            }
            assert forall|qx: int, qy: int| #[trigger] in_frame(qx, qy) implies frame_pixel(frame.data@, qx, qy)
                == if sprite_drawn(p, n_i, qx, qy, y as int, x + 1) && sprite_pixel(p, n_i, qx, qy) is Some {
                    sprite_pixel(p, n_i, qx, qy)->0
                } else {
                    frame_pixel(old_data, qx, qy)
                } by {
                if qx == px && qy == py {
                } else {
                    assert(sprite_drawn(p, n_i, qx, qy, y as int, x + 1) == sprite_drawn(p, n_i, qx, qy, y as int, x as int));
                }
            }
            x = x + 1;
        }
        y = y + 1;
    }
}

/// Draws the 64 sprites from the last to the first, so that where several paint a
/// pixel the lowest-numbered one shows.
fn render_sprites(ppu: &NesPPU, frame: &mut Frame)
    requires
        ppu@.wf(),
        old(frame).wf(),
    ensures
        final(frame).wf(),
        forall|qx: int, qy: int| #[trigger] in_frame(qx, qy) ==> frame_pixel(final(frame).data@, qx, qy)
            == match sprites_from(ppu@, 0, qx, qy) {
                Some(c) => c,
                None => frame_pixel(old(frame).data@, qx, qy),
            },
{
    let ghost old_data = old(frame).data@;
    let mut n: usize = 64;
    while n > 0
        invariant
            ppu@.wf(),
            frame.wf(),
            n <= 64,
            forall|qx: int, qy: int| #[trigger] in_frame(qx, qy) ==> frame_pixel(frame.data@, qx, qy)
                == match sprites_from(ppu@, n as int, qx, qy) {
                    Some(c) => c,
                    None => frame_pixel(old_data, qx, qy),
                },
        decreases n,
    {
        n = n - 1;
        render_sprite(ppu, frame, n);
        assert forall|qx: int, qy: int| #[trigger] in_frame(qx, qy) implies frame_pixel(frame.data@, qx, qy)
            == match sprites_from(ppu@, n as int, qx, qy) {
                Some(c) => c,
                None => frame_pixel(old_data, qx, qy),
            } by {
            reveal_with_fuel(sprites_from, 2);
        }
    }
}

/// The background colour of frame pixel (`x`, `y`), if a pass draws it: the selected
/// nametable moved left and up by the scroll position, and where the horizontal
/// scroll (or else the vertical one) is not zero, the other nametable in the strip
/// that the scroll exposes at the right (or the bottom).
pub open spec fn frame_background(p: PpuView, x: int, y: int) -> Option<(u8, u8, u8)> {
    let sx = p.scroll.scroll_x as int;
    let sy = p.scroll.scroll_y as int;
    let (main, second) = nametable_halves(p.mirroring, nametable_base(p.ctrl));
    if sx > 0 && bg_visible(x - (256 - sx), y, 0, 0, sx, 240) {
        Some(bg_pixel(p, second as int, x - (256 - sx), y))
    } else if sx == 0 && sy > 0 && bg_visible(x, y - (240 - sy), 0, 0, 256, sy) {
        Some(bg_pixel(p, second as int, x, y - (240 - sy)))
    } else if bg_visible(x + sx, y + sy, sx, sy, 256, 240) {
        Some(bg_pixel(p, main as int, x + sx, y + sy))
    } else {
        None
    }
}

/// Renders one frame: the background of the selected nametable moved by the scroll
/// position, the other nametable in the strip that scrolling exposes, then the 64
/// sprites from the last to the first, so that lower-numbered sprites end on top.
pub fn render(ppu: &NesPPU, frame: &mut Frame)
    requires
        ppu@.wf(),
        old(frame).wf(),
    ensures
        final(frame).wf(),
        forall|qx: int, qy: int| #[trigger] in_frame(qx, qy) ==> frame_pixel(final(frame).data@, qx, qy)
            == match sprites_from(ppu@, 0, qx, qy) {
                Some(c) => c,
                None => match frame_background(ppu@, qx, qy) {
                    Some(c) => c,
                    None => frame_pixel(old(frame).data@, qx, qy),
                },
            },
{
    let ghost old_data = old(frame).data@;
    let scroll_x = ppu.scroll.scroll_x as usize;
    let scroll_y = ppu.scroll.scroll_y as usize;
    let (main_nametable, second_nametable) = select_nametables(ppu.mirroring, ppu.ctrl.nametable_addr());
    render_name_table(
        ppu,
        frame,
        main_nametable,
        Rect::new(scroll_x, scroll_y, WIDTH, HEIGHT),
        -(scroll_x as i32),
        -(scroll_y as i32),
    );
    if scroll_x > 0 {
        render_name_table(ppu, frame, second_nametable, Rect::new(0, 0, scroll_x, HEIGHT), (WIDTH - scroll_x) as i32, 0);
    } else if scroll_y > 0 {
        render_name_table(ppu, frame, second_nametable, Rect::new(0, 0, WIDTH, scroll_y), 0, HEIGHT as i32 - scroll_y as i32);
    }
    let ghost bg_data = frame.data@;
    assert forall|qx: int, qy: int| #[trigger] in_frame(qx, qy) implies frame_pixel(bg_data, qx, qy)
        == match frame_background(ppu@, qx, qy) {
            Some(c) => c,
            None => frame_pixel(old_data, qx, qy),
        } by {}
    render_sprites(ppu, frame);
}

} // verus!
