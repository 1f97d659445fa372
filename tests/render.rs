use nes_emu::frame::{system_palette, Frame, HEIGHT, WIDTH};
use nes_emu::ppu::{Mirroring, NesPPU};
use nes_emu::render::{render, select_nametables, tile_pixel_value};

#[test]
fn blank_background_uses_backdrop_colour() {
    let mut ppu = NesPPU::new(vec![0u8; 0x2000], Mirroring::Horizontal);
    ppu.palette_table[0] = 0x21;
    ppu.palette_table[1] = 0x05;
    let mut frame = Frame::new();
    render(&ppu, &mut frame);
    let expected = system_palette(0x21);
    assert_eq!(expected, (0x0F, 0xD7, 0xFF));
    for y in 0..HEIGHT {
        for x in 0..WIDTH {
            assert_eq!(frame.get_pixel(x, y), expected);
        }
    }
}

#[test]
fn background_tile_uses_attribute_palette() {
    let mut chr = vec![0u8; 0x2000];
    // tile 1: every pixel colour 1 (low plane set)
    for r in 0..8 {
        chr[16 + r] = 0xff;
    }
    let mut ppu = NesPPU::new(chr, Mirroring::Horizontal);
    ppu.vram[0] = 1; // tile (0, 0)
    ppu.vram[2] = 1; // tile (2, 0): second quadrant of the block
    ppu.vram[0x3c0] = 0b0000_1000; // quadrant (1, 0) uses palette 2
    ppu.palette_table[1] = 0x16;
    ppu.palette_table[9] = 0x2a;
    let mut frame = Frame::new();
    render(&ppu, &mut frame);
    assert_eq!(frame.get_pixel(3, 3), system_palette(0x16));
    assert_eq!(frame.get_pixel(19, 5), system_palette(0x2a));
    assert_eq!(frame.get_pixel(9, 0), system_palette(0));
}

#[test]
fn lower_numbered_sprite_wins_overlap() {
    let mut chr = vec![0u8; 0x2000];
    for r in 0..8 {
        chr[16 + r] = 0xff; // tile 1 opaque, colour 1
    }
    let mut ppu = NesPPU::new(chr, Mirroring::Horizontal);
    // move every sprite off the visible rows first
    for i in 0..64 {
        ppu.oam_data[i * 4] = 0xf0;
    }
    ppu.oam_data[0..4].copy_from_slice(&[10, 1, 0, 10]); // sprite 0, palette 0
    ppu.oam_data[4..8].copy_from_slice(&[14, 1, 1, 14]); // sprite 1, palette 1
    ppu.palette_table[0x11] = 0x16;
    ppu.palette_table[0x15] = 0x2a;
    let mut frame = Frame::new();
    render(&ppu, &mut frame);
    assert_eq!(frame.get_pixel(15, 15), system_palette(0x16));
    assert_eq!(frame.get_pixel(20, 20), system_palette(0x2a));
    assert_eq!(frame.get_pixel(11, 11), system_palette(0x16));
}

#[test]
fn sprite_flip_and_transparency() {
    let mut chr = vec![0u8; 0x2000];
    chr[16] = 0b1000_0000; // tile 1: only its top-left pixel set
    let mut ppu = NesPPU::new(chr, Mirroring::Horizontal);
    for i in 0..64 {
        ppu.oam_data[i * 4] = 0xf0;
    }
    ppu.palette_table[0] = 0x0f;
    ppu.palette_table[0x11] = 0x30;
    ppu.oam_data[0..4].copy_from_slice(&[20, 1, 0b1100_0000, 40]);
    let mut frame = Frame::new();
    render(&ppu, &mut frame);
    assert_eq!(frame.get_pixel(47, 27), system_palette(0x30));
    assert_eq!(frame.get_pixel(40, 20), system_palette(0x0f));
}

#[test]
fn horizontal_scroll_reveals_second_nametable() {
    let mut chr = vec![0u8; 0x2000];
    for r in 0..8 {
        chr[16 + r] = 0xff;
    }
    let mut ppu = NesPPU::new(chr, Mirroring::Vertical);
    for i in 0..0x3c0 {
        ppu.vram[0x400 + i] = 1; // second table all tile 1
    }
    ppu.palette_table[0] = 0x0f;
    ppu.palette_table[1] = 0x16;
    ppu.scroll.scroll_x = 16;
    let mut frame = Frame::new();
    render(&ppu, &mut frame);
    assert_eq!(frame.get_pixel(239, 0), system_palette(0x0f));
    assert_eq!(frame.get_pixel(240, 0), system_palette(0x16));
    assert_eq!(frame.get_pixel(255, 100), system_palette(0x16));
}

#[test]
fn tile_pixel_bits() {
    assert_eq!(tile_pixel_value(0b1000_0000, 0b0000_0000, 0), 1);
    assert_eq!(tile_pixel_value(0b0000_0000, 0b1000_0000, 0), 2);
    assert_eq!(tile_pixel_value(0b0000_0001, 0b0000_0001, 7), 3);
    assert_eq!(tile_pixel_value(0b0000_0001, 0b0000_0001, 6), 0);
}

#[test]
fn nametable_selection_by_mirroring() {
    assert_eq!(select_nametables(Mirroring::Vertical, 0x2000), (0, 0x400));
    assert_eq!(select_nametables(Mirroring::Vertical, 0x2400), (0x400, 0));
    assert_eq!(select_nametables(Mirroring::Horizontal, 0x2400), (0, 0x400));
    assert_eq!(select_nametables(Mirroring::Horizontal, 0x2800), (0x400, 0));
}

#[test]
fn frame_pixel_outside_is_ignored() {
    let mut frame = Frame::new();
    frame.set_pixel(256, 0, (1, 2, 3));
    frame.set_pixel(0, 240, (1, 2, 3));
    assert!(frame.data.iter().all(|b| *b == 0));
    frame.set_pixel(255, 239, (1, 2, 3));
    assert_eq!(frame.get_pixel(255, 239), (1, 2, 3));
}
