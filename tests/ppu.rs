use nes_emu::bus::Bus;
use nes_emu::ppu::{Mirroring, NesPPU};
use nes_emu::ppu_registers::{
    AddrRegister, Color, ControlRegister, MaskRegister, ScrollRegister, StatusRegister,
};

fn bus(mirroring: Mirroring) -> Bus {
    Bus::new(vec![0u8; 0x4000], vec![0u8; 0x2000], mirroring)
}

#[test]
fn control_register_fields() {
    let mut c = ControlRegister::new();
    assert_eq!(c.nametable_addr(), 0x2000);
    assert_eq!(c.vram_addr_increment(), 1);
    assert_eq!(c.sprite_size(), 8);
    c.update(0b1011_1111);
    assert_eq!(c.nametable_addr(), 0x2c00);
    assert_eq!(c.vram_addr_increment(), 32);
    assert_eq!(c.sprt_pattern_addr(), 0x1000);
    assert_eq!(c.bknd_pattern_addr(), 0x1000);
    assert_eq!(c.sprite_size(), 16);
    assert_eq!(c.master_slave_select(), 0);
    assert!(c.generate_vblank_nmi());
    c.update(0b0100_0001);
    assert_eq!(c.nametable_addr(), 0x2400);
    assert_eq!(c.master_slave_select(), 1);
    assert!(!c.generate_vblank_nmi());
}

#[test]
fn mask_register_fields() {
    let mut m = MaskRegister::new();
    assert!(m.emphasise().is_empty());
    m.update(0b1111_1111);
    assert!(m.is_grayscale());
    assert!(m.leftmost_8pxl_background());
    assert!(m.leftmost_8pxl_sprite());
    assert!(m.show_background());
    assert!(m.show_sprites());
    assert_eq!(m.emphasise(), vec![Color::Red, Color::Blue, Color::Green]);
    m.update(0b0100_1000);
    assert!(m.show_background());
    assert!(!m.show_sprites());
    assert_eq!(m.emphasise(), vec![Color::Green]);
}

#[test]
fn status_register_flags() {
    let mut s = StatusRegister::new();
    s.set_vblank_status(true);
    s.set_sprite_zero_hit(true);
    s.set_sprite_overflow(true);
    assert!(s.is_in_vblank());
    assert_eq!(s.snapshot(), 0b1110_0000);
    s.reset_vblank_status();
    assert!(!s.is_in_vblank());
    assert_eq!(s.snapshot(), 0b0110_0000);
}

#[test]
fn scroll_register_alternates() {
    let mut s = ScrollRegister::new();
    s.write(5);
    s.write(7);
    assert_eq!((s.scroll_x, s.scroll_y, s.latch), (5, 7, false));
    s.write(9);
    assert_eq!((s.scroll_x, s.latch), (9, true));
    s.reset_latch();
    s.write(1);
    assert_eq!((s.scroll_x, s.scroll_y), (1, 7));
}

#[test]
fn address_register_high_byte_first() {
    let mut a = AddrRegister::new();
    a.update(0x7f);
    a.update(0xff);
    assert_eq!(a.get(), 0x3fff);
    a.increment(1);
    assert_eq!(a.get(), 0x0000);
}

#[test]
fn vram_write_and_buffered_read() {
    let mut b = bus(Mirroring::Horizontal);
    b.mem_write(0x2006, 0x23);
    b.mem_write(0x2006, 0x05);
    b.mem_write(0x2007, 0x66);
    b.mem_write(0x2006, 0x23);
    b.mem_write(0x2006, 0x05);
    b.mem_read(0x2007);
    assert_eq!(b.mem_read(0x2007), 0x66);
    assert_eq!(b.ppu().vram[0x305], 0x66);
}

#[test]
fn horizontal_mirroring_shares_second_pair() {
    let mut b = bus(Mirroring::Horizontal);
    b.mem_write(0x2006, 0x24);
    b.mem_write(0x2006, 0x05);
    b.mem_write(0x2007, 0x11);
    // $2405 is the first table again; $2805 the second
    assert_eq!(b.ppu().vram[0x005], 0x11);
    b.mem_write(0x2006, 0x28);
    b.mem_write(0x2006, 0x05);
    b.mem_write(0x2007, 0x22);
    assert_eq!(b.ppu().vram[0x405], 0x22);
}

#[test]
fn vertical_mirroring_and_increment_32() {
    let mut b = bus(Mirroring::Vertical);
    b.mem_write(0x2000, 0b100);
    b.mem_write(0x2006, 0x28);
    b.mem_write(0x2006, 0x00);
    b.mem_write(0x2007, 0x33);
    b.mem_write(0x2007, 0x44);
    assert_eq!(b.ppu().vram[0x000], 0x33);
    assert_eq!(b.ppu().vram[0x020], 0x44);
}

#[test]
fn palette_mirrors_backdrop_entries() {
    let mut b = bus(Mirroring::Horizontal);
    b.mem_write(0x2006, 0x3f);
    b.mem_write(0x2006, 0x10);
    b.mem_write(0x2007, 0x2a);
    assert_eq!(b.ppu().palette_table[0], 0x2a);
    b.mem_write(0x2006, 0x3f);
    b.mem_write(0x2006, 0x00);
    assert_eq!(b.mem_read(0x2007), 0x2a);
}

#[test]
fn status_read_clears_vblank_and_latch() {
    let mut b = bus(Mirroring::Horizontal);
    // run to vertical blank: 241 scanlines of 341 PPU cycles
    for _ in 0..(241 * 341 / 3 + 1) {
        b.tick(1);
    }
    let s = b.mem_read(0x2002);
    assert_eq!(s & 0x80, 0x80);
    assert_eq!(b.mem_read(0x2002) & 0x80, 0);
    b.mem_write(0x2006, 0x21);
    let _ = b.mem_read(0x2002);
    b.mem_write(0x2006, 0x23);
    b.mem_write(0x2006, 0x00);
    assert_eq!(b.ppu().addr.get(), 0x2300);
}

#[test]
fn nmi_raised_at_vblank_when_enabled() {
    let mut b = bus(Mirroring::Horizontal);
    b.mem_write(0x2000, 0x80);
    assert!(!b.poll_nmi_status());
    for _ in 0..(241 * 341 / 3 + 1) {
        b.tick(1);
    }
    assert!(b.poll_nmi_status());
    assert!(!b.poll_nmi_status());
}

#[test]
fn oam_port_writes_advance_address() {
    let mut b = bus(Mirroring::Horizontal);
    b.mem_write(0x2003, 0x10);
    b.mem_write(0x2004, 0xaa);
    b.mem_write(0x2004, 0xbb);
    assert_eq!(b.ppu().oam_data[0x10], 0xaa);
    assert_eq!(b.ppu().oam_data[0x11], 0xbb);
    b.mem_write(0x2003, 0x11);
    assert_eq!(b.mem_read(0x2004), 0xbb);
}

#[test]
fn ppu_registers_mirror_every_eight_bytes() {
    let mut b = bus(Mirroring::Horizontal);
    b.mem_write(0x3ff8 + 3, 0x40);
    b.mem_write(0x2004 + 0x1000, 0x99);
    assert_eq!(b.ppu().oam_data[0x40], 0x99);
}

#[test]
fn program_memory_half_bank_mirrors() {
    let mut prg = vec![0u8; 0x4000];
    prg[0x3ffc] = 0x34;
    let mut b = Bus::new(prg, vec![0u8; 0x2000], Mirroring::Horizontal);
    assert_eq!(b.mem_read(0xfffc), 0x34);
    assert_eq!(b.mem_read(0xbffc), 0x34);
    assert_eq!(b.mem_read(0x5000), 0);
}

#[test]
fn new_ppu_is_blank() {
    let p = NesPPU::new(vec![0u8; 0x2000], Mirroring::Vertical);
    assert_eq!(p.vram.len(), 0x800);
    assert_eq!(p.oam_data.len(), 0x100);
    assert_eq!(p.palette_table.len(), 0x20);
    assert_eq!(p.mirror_vram_addr(0x2c10), 0x410);
}
