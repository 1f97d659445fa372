use vstd::prelude::*;
use crate::flags::{has_flag, with_flag};
use crate::ppu_registers::{
    addr_after_write, AddrRegister, ControlRegister, MaskRegister, ScrollRegister, StatusRegister, GENERATE_NMI,
    SPRITE_ZERO_HIT, VBLANK_STARTED, VRAM_ADD_INCREMENT,
};

verus! {

/// How the cartridge maps the four logical nametables onto the two physical ones.
#[derive(Clone, Copy, Debug, PartialEq, Eq, Structural)]
pub enum Mirroring {
    Vertical,
    Horizontal,
}

/// Bytes of nametable memory.
pub const VRAM_SIZE: usize = 0x800;
/// Bytes of sprite (OAM) memory.
pub const OAM_SIZE: usize = 0x100;
/// Bytes of palette memory.
pub const PALETTE_SIZE: usize = 0x20;
/// Bytes of pattern memory: two banks of 4 KiB.
pub const CHR_SIZE: usize = 0x2000;
/// PPU cycles in one scanline.
pub const SCANLINE_CYCLES: u16 = 341;
/// The scanline at which vertical blank begins.
pub const VBLANK_LINE: u16 = 241;
/// Scanlines in one frame.
pub const FRAME_LINES: u16 = 262;

/// The state of the picture-processing unit, as plain values.
pub ghost struct PpuView {
    pub chr: Seq<u8>,
    pub mirroring: Mirroring,
    pub ctrl: u8,
    pub mask: u8,
    pub status: u8,
    pub scroll: ScrollRegister,
    pub addr: AddrRegister,
    pub vram: Seq<u8>,
    pub oam_addr: u8,
    pub oam: Seq<u8>,
    pub palette: Seq<u8>,
    pub data_buf: u8,
    pub scanline: u16,
    pub cycles: u16,
    pub nmi: bool,
}

/// The picture-processing unit: its registers and the memories the renderer reads.
pub struct NesPPU {
    pub chr_rom: Vec<u8>,
    pub mirroring: Mirroring,
    pub ctrl: ControlRegister,
    pub mask: MaskRegister,
    pub status: StatusRegister,
    pub scroll: ScrollRegister,
    pub addr: AddrRegister,
    pub vram: Vec<u8>,
    pub oam_addr: u8,
    pub oam_data: Vec<u8>,
    pub palette_table: Vec<u8>,
    pub internal_data_buf: u8,
    pub scanline: u16,
    pub cycles: u16,
    pub nmi_interrupt: bool,
}

impl View for NesPPU {
    type V = PpuView;

    open spec fn view(&self) -> PpuView {
        PpuView {
            chr: self.chr_rom@,
            mirroring: self.mirroring,
            ctrl: self.ctrl.bits,
            mask: self.mask.bits,
            status: self.status.bits,
            scroll: self.scroll,
            addr: self.addr,
            vram: self.vram@,
            oam_addr: self.oam_addr,
            oam: self.oam_data@,
            palette: self.palette_table@,
            data_buf: self.internal_data_buf,
            scanline: self.scanline,
            cycles: self.cycles,
            nmi: self.nmi_interrupt,
        }
    }
}

impl PpuView {
    /// Memory sizes as the hardware has them, and counters within a frame.
    pub open spec fn wf(self) -> bool {
        &&& self.chr.len() == CHR_SIZE
        &&& self.vram.len() == VRAM_SIZE
        &&& self.oam.len() == OAM_SIZE
        &&& self.palette.len() == PALETTE_SIZE
        &&& self.addr.value < 0x4000
        &&& self.cycles < SCANLINE_CYCLES
        &&& self.scanline < FRAME_LINES
    }
}

/// Where a nametable address (0x2000..0x3EFF) lands in the 2 KiB of nametable memory.
pub open spec fn vram_index(mirroring: Mirroring, addr: u16) -> int {
    let idx = (addr - 0x2000) % 0x1000;
    let table = idx / 0x400;
    match mirroring {
        Mirroring::Vertical => if table >= 2 { idx - 0x800 } else { idx },
        Mirroring::Horizontal => if table == 0 { idx } else if table == 3 { idx - 0x800 } else { idx - 0x400 },
    }
}

/// Where a palette address (0x3F00..0x3FFF) lands in the 32 bytes of palette memory:
/// the backdrop entries of the sprite palettes alias those of the background palettes.
pub open spec fn palette_index(addr: u16) -> int {
    let i = (addr - 0x3f00) % 0x20;
    if i == 0x10 || i == 0x14 || i == 0x18 || i == 0x1c { i - 0x10 } else { i }
}

/// A write to the control register; turning NMI on during vertical blank raises it.
pub open spec fn write_ctrl_spec(p: PpuView, data: u8) -> PpuView {
    let raise = !has_flag(p.ctrl, GENERATE_NMI) && has_flag(data, GENERATE_NMI)
        && has_flag(p.status, VBLANK_STARTED);
    PpuView { ctrl: data, nmi: p.nmi || raise, ..p }
}

/// A read of the status register: it returns the status, then clears vertical blank
/// and both write latches.
pub open spec fn read_status_spec(p: PpuView) -> (PpuView, u8) {
    (PpuView {
        status: with_flag(p.status, VBLANK_STARTED, false),
        addr: AddrRegister { hi_ptr: true, ..p.addr },
        scroll: ScrollRegister { latch: false, ..p.scroll },
        ..p
    }, p.status)
}

/// A write through the OAM data port, which then advances the OAM address.
pub open spec fn write_oam_data_spec(p: PpuView, data: u8) -> PpuView {
    PpuView { oam: p.oam.update(p.oam_addr as int, data), oam_addr: ((p.oam_addr + 1) % 256) as u8, ..p }
}

/// The VRAM address after a data access: advanced by the step the control register selects.
pub open spec fn advanced_addr(p: PpuView) -> AddrRegister {
    let inc: int = if has_flag(p.ctrl, VRAM_ADD_INCREMENT) { 32 } else { 1 };
    AddrRegister { value: ((p.addr.value + inc) % 0x4000) as u16, hi_ptr: p.addr.hi_ptr }
}

/// A write through the data port: pattern memory is read-only, nametables go through
/// mirroring, palette addresses alias as the hardware does.
pub open spec fn write_data_spec(p: PpuView, data: u8) -> PpuView {
    let a = p.addr.value;
    let q = PpuView { addr: advanced_addr(p), ..p };
    if a < 0x2000 {
        q
    } else if a < 0x3f00 {
        PpuView { vram: p.vram.update(vram_index(p.mirroring, a), data), ..q }
    } else {
        PpuView { palette: p.palette.update(palette_index(a), data), ..q }
    }
}

/// A read through the data port: pattern and nametable reads come one read late
/// through the internal buffer; palette reads come at once.
pub open spec fn read_data_spec(p: PpuView) -> (PpuView, u8) {
    let a = p.addr.value;
    let q = PpuView { addr: advanced_addr(p), ..p };
    if a < 0x2000 {
        (PpuView { data_buf: p.chr[a as int], ..q }, p.data_buf)
    } else if a < 0x3f00 {
        (PpuView { data_buf: p.vram[vram_index(p.mirroring, a)], ..q }, p.data_buf)
    } else {
        (q, p.palette[palette_index(a)])
    }
}

/// `n` PPU cycles: at the end of a scanline the next begins; vertical blank starts at
/// its line (raising NMI when enabled) and ends when the frame wraps.
pub open spec fn tick_spec(p: PpuView, n: u16) -> PpuView {
    let c = p.cycles + n;
    if c < SCANLINE_CYCLES {
        PpuView { cycles: c as u16, ..p }
    } else {
        let line = p.scanline + 1;
        if line == VBLANK_LINE {
            PpuView {
                cycles: (c - SCANLINE_CYCLES) as u16,
                scanline: line as u16,
                status: with_flag(with_flag(p.status, VBLANK_STARTED, true), SPRITE_ZERO_HIT, false),
                nmi: p.nmi || has_flag(p.ctrl, GENERATE_NMI),
                ..p
            }
        } else if line >= FRAME_LINES {
            PpuView {
                cycles: (c - SCANLINE_CYCLES) as u16,
                scanline: 0,
                status: with_flag(with_flag(p.status, SPRITE_ZERO_HIT, false), VBLANK_STARTED, false),
                nmi: false,
                ..p
            }
        } else {
            PpuView { cycles: (c - SCANLINE_CYCLES) as u16, scanline: line as u16, ..p }
        }
    }
}

/// The PPU at power-on: zeroed memories and registers, address latch on the high byte.
pub open spec fn power_on(chr: Seq<u8>, mirroring: Mirroring) -> PpuView {
    PpuView {
        chr,
        mirroring,
        ctrl: 0,
        mask: 0,
        status: 0,
        scroll: ScrollRegister { scroll_x: 0, scroll_y: 0, latch: false },
        addr: AddrRegister { value: 0, hi_ptr: true },
        vram: Seq::new(VRAM_SIZE as nat, |i: int| 0u8),
        oam_addr: 0,
        oam: Seq::new(OAM_SIZE as nat, |i: int| 0u8),
        palette: Seq::new(PALETTE_SIZE as nat, |i: int| 0u8),
        data_buf: 0,
        scanline: 0,
        cycles: 0,
        nmi: false,
    }
}

impl NesPPU {
    /// A PPU at power-on with the given pattern memory and mirroring.
    pub fn new(chr_rom: Vec<u8>, mirroring: Mirroring) -> (r: NesPPU)
        requires
            chr_rom@.len() == CHR_SIZE,
        ensures
            r@ == power_on(chr_rom@, mirroring),
            r@.wf(),
    {
        let vram = vec![0u8; VRAM_SIZE];
        let oam = vec![0u8; OAM_SIZE];
        let palette = vec![0u8; PALETTE_SIZE];
        let r = NesPPU {
            chr_rom,
            mirroring,
            ctrl: ControlRegister::new(),
            mask: MaskRegister::new(),
            status: StatusRegister::new(),
            scroll: ScrollRegister::new(),
            addr: AddrRegister::new(),
            vram,
            oam_addr: 0,
            oam_data: oam,
            palette_table: palette,
            internal_data_buf: 0,
            scanline: 0,
            cycles: 0,
            nmi_interrupt: false,
        };
        assert(r@.vram =~= Seq::new(VRAM_SIZE as nat, |i: int| 0u8));
        assert(r@.oam =~= Seq::new(OAM_SIZE as nat, |i: int| 0u8));
        assert(r@.palette =~= Seq::new(PALETTE_SIZE as nat, |i: int| 0u8));
        r
    }

    pub fn write_to_ctrl(&mut self, value: u8)
        requires
            old(self)@.wf(),
        ensures
            final(self)@ == write_ctrl_spec(old(self)@, value),
    {
        let before = self.ctrl.generate_vblank_nmi();
        self.ctrl.update(value);
        if !before && self.ctrl.generate_vblank_nmi() && self.status.is_in_vblank() {
            self.nmi_interrupt = true;
        }
    }

    pub fn write_to_mask(&mut self, value: u8)
        ensures
            final(self)@ == (PpuView { mask: value, ..old(self)@ }),
    {
        self.mask.update(value);
    }

    pub fn read_status(&mut self) -> (r: u8)
        ensures
            (final(self)@, r) == read_status_spec(old(self)@),
    {
        let data = self.status.snapshot();
        self.status.reset_vblank_status();
        self.addr.reset_latch();
        self.scroll.reset_latch();
        data
    }

    pub fn write_to_oam_addr(&mut self, value: u8)
        ensures
            final(self)@ == (PpuView { oam_addr: value, ..old(self)@ }),
    {
        self.oam_addr = value;
    }

    pub fn write_to_oam_data(&mut self, value: u8)
        requires
            old(self)@.wf(),
        ensures
            final(self)@ == write_oam_data_spec(old(self)@, value),
    {
        self.oam_data.set(self.oam_addr as usize, value);
        self.oam_addr = ((self.oam_addr as u16 + 1) % 256) as u8;
    }

    pub fn read_oam_data(&self) -> (r: u8)
        requires
            self@.wf(),
        ensures
            r == self@.oam[self@.oam_addr as int],
    {
        self.oam_data[self.oam_addr as usize]
    }

    pub fn write_to_scroll(&mut self, value: u8)
        ensures
            final(self)@ == (PpuView {
                scroll: if !old(self)@.scroll.latch {
                    ScrollRegister { scroll_x: value, scroll_y: old(self)@.scroll.scroll_y, latch: true }
                } else {
                    ScrollRegister { scroll_x: old(self)@.scroll.scroll_x, scroll_y: value, latch: false }
                },
                ..old(self)@
            }),
    {
        self.scroll.write(value);
    }

    pub fn write_to_ppu_addr(&mut self, value: u8)
        ensures
            final(self)@ == (PpuView {
                addr: AddrRegister {
                    value: addr_after_write(old(self)@.addr.value, old(self)@.addr.hi_ptr, value),
                    hi_ptr: !old(self)@.addr.hi_ptr,
                },
                ..old(self)@
            }),
    {
        self.addr.update(value);
    }

    /// The index in nametable memory of a nametable address.
    pub fn mirror_vram_addr(&self, addr: u16) -> (r: usize)
        requires
            0x2000 <= addr < 0x3f00,
        ensures
            r == vram_index(self.mirroring, addr),
            r < VRAM_SIZE,
    {
        let idx = (addr - 0x2000) % 0x1000;
        let table = idx / 0x400;
        let i = match self.mirroring {
            Mirroring::Vertical => if table >= 2 { idx - 0x800 } else { idx },
            Mirroring::Horizontal => if table == 0 { idx } else if table == 3 { idx - 0x800 } else { idx - 0x400 },
        };
        i as usize
    }

    fn increment_vram_addr(&mut self)
        requires
            old(self)@.wf(),
        ensures
            final(self)@ == (PpuView { addr: advanced_addr(old(self)@), ..old(self)@ }),
    {
        let inc = self.ctrl.vram_addr_increment();
        self.addr.increment(inc);
    }

    fn palette_slot(addr: u16) -> (r: usize)
        requires
            0x3f00 <= addr,
        ensures
            r == palette_index(addr),
            r < PALETTE_SIZE,
    {
        let i = (addr - 0x3f00) % 0x20;
        if i == 0x10 || i == 0x14 || i == 0x18 || i == 0x1c { (i - 0x10) as usize } else { i as usize }
    }

    pub fn write_to_data(&mut self, value: u8)
        requires
            old(self)@.wf(),
        ensures
            final(self)@ == write_data_spec(old(self)@, value),
    {
        let a = self.addr.get();
        self.increment_vram_addr();
        if a < 0x2000 {
        } else if a < 0x3f00 {
            let i = self.mirror_vram_addr(a);
            self.vram.set(i, value);
        } else {
            let i = NesPPU::palette_slot(a);
            self.palette_table.set(i, value);
        }
    }

    pub fn read_data(&mut self) -> (r: u8)
        requires
            old(self)@.wf(),
        ensures
            (final(self)@, r) == read_data_spec(old(self)@),
    {
        let a = self.addr.get();
        self.increment_vram_addr();
        if a < 0x2000 {
            let result = self.internal_data_buf;
            self.internal_data_buf = self.chr_rom[a as usize];
            result
        } else if a < 0x3f00 {
            let result = self.internal_data_buf;
            let i = self.mirror_vram_addr(a);
            self.internal_data_buf = self.vram[i];
            result
        } else {
            self.palette_table[NesPPU::palette_slot(a)]
        }
    }

    /// Advances the PPU by `cycles` of its own clock (at most one scanline); returns
    /// whether a new frame began.
    pub fn tick(&mut self, cycles: u16) -> (r: bool)
        requires
            old(self)@.wf(),
            cycles <= SCANLINE_CYCLES,
        ensures
            final(self)@ == tick_spec(old(self)@, cycles),
            final(self)@.wf(),
            r == (old(self)@.cycles + cycles >= SCANLINE_CYCLES && old(self)@.scanline + 1 >= FRAME_LINES),
    {
        self.cycles = self.cycles + cycles;
        if self.cycles < SCANLINE_CYCLES {
            return false;
        }
        self.cycles = self.cycles - SCANLINE_CYCLES;
        self.scanline = self.scanline + 1;
        if self.scanline == VBLANK_LINE {
            self.status.set_vblank_status(true);
            self.status.set_sprite_zero_hit(false);
            if self.ctrl.generate_vblank_nmi() {
                self.nmi_interrupt = true;
            }
        } else if self.scanline >= FRAME_LINES {
            self.scanline = 0;
            self.nmi_interrupt = false;
            self.status.set_sprite_zero_hit(false);
            self.status.reset_vblank_status();
            return true;
        }
        false
    }

    /// Reports a pending NMI and clears it.
    pub fn poll_nmi_interrupt(&mut self) -> (r: bool)
        ensures
            r == old(self)@.nmi,
            final(self)@ == (PpuView { nmi: false, ..old(self)@ }),
    {
        let r = self.nmi_interrupt;
        self.nmi_interrupt = false;
        r
    }
}

} // verus!
