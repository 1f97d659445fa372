use vstd::prelude::*;
use crate::flags::{has_flag, with_flag};

verus! {

pub const NAMETABLE1: u8 = 0b0000_0001;
pub const NAMETABLE2: u8 = 0b0000_0010;
pub const VRAM_ADD_INCREMENT: u8 = 0b0000_0100;
pub const SPRITE_PATTERN_ADDR: u8 = 0b0000_1000;
pub const BACKROUND_PATTERN_ADDR: u8 = 0b0001_0000;
pub const SPRITE_SIZE: u8 = 0b0010_0000;
pub const MASTER_SLAVE_SELECT: u8 = 0b0100_0000;
pub const GENERATE_NMI: u8 = 0b1000_0000;

/// The PPU control register: nametable base, VRAM increment, pattern banks,
/// sprite size, master/slave select and NMI enable.
#[derive(Clone, Copy, Debug, PartialEq, Eq, Structural)]
pub struct ControlRegister {
    pub bits: u8,
}

/// The base address of the nametable that the two low bits of the control byte select.
pub open spec fn nametable_base(bits: u8) -> u16 {
    (0x2000 + (bits % 4) as int * 0x400) as u16
}

impl ControlRegister {
    pub fn new() -> (r: Self)
        ensures
            r.bits == 0,
    {
        ControlRegister { bits: 0 }
    }

    pub fn bits(&self) -> (r: u8)
        ensures
            r == self.bits,
    {
        self.bits
    }

    pub fn nametable_addr(&self) -> (r: u16)
        ensures
            r == nametable_base(self.bits),
            r == 0x2000 || r == 0x2400 || r == 0x2800 || r == 0x2c00,
    {
        let sel = self.bits % 4;
        if sel == 0 {
            0x2000
        } else if sel == 1 {
            0x2400
        } else if sel == 2 {
            0x2800
        } else {
            0x2c00
        }
    }

    pub fn vram_addr_increment(&self) -> (r: u8)
        ensures
            r == if has_flag(self.bits, VRAM_ADD_INCREMENT) { 32u8 } else { 1u8 },
    {
        if self.bits & VRAM_ADD_INCREMENT != VRAM_ADD_INCREMENT {
            1
        } else {
            32
        }
    }

    pub fn sprt_pattern_addr(&self) -> (r: u16)
        ensures
            r == if has_flag(self.bits, SPRITE_PATTERN_ADDR) { 0x1000u16 } else { 0u16 },
    {
        if self.bits & SPRITE_PATTERN_ADDR != SPRITE_PATTERN_ADDR {
            0
        } else {
            0x1000
        }
    }

    pub fn bknd_pattern_addr(&self) -> (r: u16)
        ensures
            r == if has_flag(self.bits, BACKROUND_PATTERN_ADDR) { 0x1000u16 } else { 0u16 },
    {
        if self.bits & BACKROUND_PATTERN_ADDR != BACKROUND_PATTERN_ADDR {
            0
        } else {
            0x1000
        }
    }

    pub fn sprite_size(&self) -> (r: u8)
        ensures
            r == if has_flag(self.bits, SPRITE_SIZE) { 16u8 } else { 8u8 },
    {
        if self.bits & SPRITE_SIZE != SPRITE_SIZE {
            8
        } else {
            16
        }
    }

    pub fn master_slave_select(&self) -> (r: u8)
        ensures
            r == if has_flag(self.bits, MASTER_SLAVE_SELECT) { 1u8 } else { 0u8 },
    {
        if self.bits & MASTER_SLAVE_SELECT != MASTER_SLAVE_SELECT {
            0
        } else {
            1
        }
    }

    pub fn generate_vblank_nmi(&self) -> (r: bool)
        ensures
            r == has_flag(self.bits, GENERATE_NMI),
    {
        self.bits & GENERATE_NMI == GENERATE_NMI
    }

    pub fn update(&mut self, data: u8)
        ensures
            final(self).bits == data,
    {
        self.bits = data;
    }
}

pub const GREYSCALE: u8 = 0b0000_0001;
pub const LEFTMOST_8PXL_BACKGROUND: u8 = 0b0000_0010;
pub const LEFTMOST_8PXL_SPRITE: u8 = 0b0000_0100;
pub const SHOW_BACKGROUND: u8 = 0b0000_1000;
pub const SHOW_SPRITES: u8 = 0b0001_0000;
pub const EMPHASISE_RED: u8 = 0b0010_0000;
pub const EMPHASISE_GREEN: u8 = 0b0100_0000;
pub const EMPHASISE_BLUE: u8 = 0b1000_0000;

/// A colour channel that the mask register can emphasise.
#[derive(Clone, Copy, Debug, PartialEq, Eq, Structural)]
pub enum Color {
    Red,
    Green,
    Blue,
}

/// The emphasised channels of a mask byte: red, then blue, then green, each if its bit is set.
pub open spec fn emphasised(bits: u8) -> Seq<Color> {
    let r = if has_flag(bits, EMPHASISE_RED) { seq![Color::Red] } else { Seq::empty() };
    let b = if has_flag(bits, EMPHASISE_BLUE) { seq![Color::Blue] } else { Seq::empty() };
    let g = if has_flag(bits, EMPHASISE_GREEN) { seq![Color::Green] } else { Seq::empty() };
    r + b + g
}

/// The PPU mask register: greyscale, left-column clipping, layer toggles and emphasis.
#[derive(Clone, Copy, Debug, PartialEq, Eq, Structural)]
pub struct MaskRegister {
    pub bits: u8,
}

impl MaskRegister {
    pub fn new() -> (r: Self)
        ensures
            r.bits == 0,
    {
        MaskRegister { bits: 0 }
    }

    pub fn is_grayscale(&self) -> (r: bool)
        ensures
            r == has_flag(self.bits, GREYSCALE),
    {
        self.bits & GREYSCALE == GREYSCALE
    }

    pub fn leftmost_8pxl_background(&self) -> (r: bool)
        ensures
            r == has_flag(self.bits, LEFTMOST_8PXL_BACKGROUND),
    {
        self.bits & LEFTMOST_8PXL_BACKGROUND == LEFTMOST_8PXL_BACKGROUND
    }

    pub fn leftmost_8pxl_sprite(&self) -> (r: bool)
        ensures
            r == has_flag(self.bits, LEFTMOST_8PXL_SPRITE),
    {
        self.bits & LEFTMOST_8PXL_SPRITE == LEFTMOST_8PXL_SPRITE
    }

    pub fn show_background(&self) -> (r: bool)
        ensures
            r == has_flag(self.bits, SHOW_BACKGROUND),
    {
        self.bits & SHOW_BACKGROUND == SHOW_BACKGROUND
    }

    pub fn show_sprites(&self) -> (r: bool)
        ensures
            r == has_flag(self.bits, SHOW_SPRITES),
    {
        self.bits & SHOW_SPRITES == SHOW_SPRITES
    }

    pub fn emphasise(&self) -> (r: Vec<Color>)
        ensures
            r@ == emphasised(self.bits),
    {
        let mut result: Vec<Color> = Vec::new();
        if self.bits & EMPHASISE_RED == EMPHASISE_RED {
            result.push(Color::Red);
        }
        if self.bits & EMPHASISE_BLUE == EMPHASISE_BLUE {
            result.push(Color::Blue);
        }
        if self.bits & EMPHASISE_GREEN == EMPHASISE_GREEN {
            result.push(Color::Green);
        }
        assert(result@ =~= emphasised(self.bits));
        result
    }

    pub fn update(&mut self, data: u8)
        ensures
            final(self).bits == data,
    {
        self.bits = data;
    }
}

pub const SPRITE_OVERFLOW: u8 = 0b0010_0000;
pub const SPRITE_ZERO_HIT: u8 = 0b0100_0000;
pub const VBLANK_STARTED: u8 = 0b1000_0000;

/// The PPU status register: vertical blank, sprite-zero hit and sprite overflow.
#[derive(Clone, Copy, Debug, PartialEq, Eq, Structural)]
pub struct StatusRegister {
    pub bits: u8,
}

impl StatusRegister {
    pub fn new() -> (r: Self)
        ensures
            r.bits == 0,
    {
        StatusRegister { bits: 0 }
    }

    pub fn set_vblank_status(&mut self, status: bool)
        ensures
            final(self).bits == with_flag(old(self).bits, VBLANK_STARTED, status),
    {
        self.bits = if status { self.bits | VBLANK_STARTED } else { self.bits & !VBLANK_STARTED };
    }

    pub fn set_sprite_zero_hit(&mut self, status: bool)
        ensures
            final(self).bits == with_flag(old(self).bits, SPRITE_ZERO_HIT, status),
    {
        self.bits = if status { self.bits | SPRITE_ZERO_HIT } else { self.bits & !SPRITE_ZERO_HIT };
    }

    pub fn set_sprite_overflow(&mut self, status: bool)
        ensures
            final(self).bits == with_flag(old(self).bits, SPRITE_OVERFLOW, status),
    {
        self.bits = if status { self.bits | SPRITE_OVERFLOW } else { self.bits & !SPRITE_OVERFLOW };
    }

    pub fn reset_vblank_status(&mut self)
        ensures
            final(self).bits == with_flag(old(self).bits, VBLANK_STARTED, false),
    {
        self.bits = self.bits & !VBLANK_STARTED;
    }

    pub fn is_in_vblank(&self) -> (r: bool)
        ensures
            r == has_flag(self.bits, VBLANK_STARTED),
    {
        self.bits & VBLANK_STARTED == VBLANK_STARTED
    }

    pub fn snapshot(&self) -> (r: u8)
        ensures
            r == self.bits,
    {
        self.bits
    }
}

/// The scroll register: two bytes written through one port, alternately x then y.
#[derive(Clone, Copy, Debug, PartialEq, Eq, Structural)]
pub struct ScrollRegister {
    pub scroll_x: u8,
    pub scroll_y: u8,
    pub latch: bool,
}

impl ScrollRegister {
    pub fn new() -> (r: Self)
        ensures
            r == (ScrollRegister { scroll_x: 0, scroll_y: 0, latch: false }),
    {
        ScrollRegister { scroll_x: 0, scroll_y: 0, latch: false }
    }

    pub fn write(&mut self, data: u8)
        ensures
            *final(self) == (if !old(self).latch {
                ScrollRegister { scroll_x: data, scroll_y: old(self).scroll_y, latch: true }
            } else {
                ScrollRegister { scroll_x: old(self).scroll_x, scroll_y: data, latch: false }
            }),
    {
        if !self.latch {
            self.scroll_x = data;
        } else {
            self.scroll_y = data;
        }
        self.latch = !self.latch;
    }

    pub fn reset_latch(&mut self)
        ensures
            *final(self) == (ScrollRegister { latch: false, ..*old(self) }),
    {
        self.latch = false;
    }
}

/// The VRAM address register: a 14-bit address written high byte first through one port.
#[derive(Clone, Copy, Debug, PartialEq, Eq, Structural)]
pub struct AddrRegister {
    pub value: u16,
    pub hi_ptr: bool,
}

/// The address after a byte is written through the port: the high byte when the latch
/// says so, else the low byte, folded into the 14-bit PPU address space.
pub open spec fn addr_after_write(value: u16, hi: bool, data: u8) -> u16 {
    if hi {
        ((data % 0x40) as int * 0x100 + value % 0x100) as u16
    } else {
        ((value % 0x4000) as int / 0x100 * 0x100 + data) as u16
    }
}

impl AddrRegister {
    pub fn new() -> (r: Self)
        ensures
            r == (AddrRegister { value: 0, hi_ptr: true }),
    {
        AddrRegister { value: 0, hi_ptr: true }
    }

    pub fn update(&mut self, data: u8)
        ensures
            *final(self) == (AddrRegister {
                value: addr_after_write(old(self).value, old(self).hi_ptr, data),
                hi_ptr: !old(self).hi_ptr,
            }),
    {
        if self.hi_ptr {
            self.value = (data % 0x40) as u16 * 0x100 + self.value % 0x100;
        } else {
            self.value = (self.value % 0x4000) / 0x100 * 0x100 + data as u16;
        }
        self.hi_ptr = !self.hi_ptr;
    }

    pub fn increment(&mut self, inc: u8)
        ensures
            *final(self) == (AddrRegister {
                value: ((old(self).value + inc) % 0x4000) as u16,
                hi_ptr: old(self).hi_ptr,
            }),
    {
        self.value = ((self.value as u32 + inc as u32) % 0x4000) as u16;
    }

    pub fn reset_latch(&mut self)
        ensures
            *final(self) == (AddrRegister { hi_ptr: true, ..*old(self) }),
    {
        self.hi_ptr = true;
    }

    pub fn get(&self) -> (r: u16)
        ensures
            r == self.value,
    {
        self.value
    }
}

} // verus!
