use vstd::prelude::*;
use crate::ppu::{
    power_on,    read_data_spec, read_status_spec, tick_spec, write_ctrl_spec, write_data_spec,
    write_oam_data_spec, Mirroring, NesPPU, PpuView, CHR_SIZE,
};
use crate::ppu_registers::{addr_after_write, AddrRegister, ScrollRegister};

verus! {

/// Bytes of CPU work RAM.
pub const RAM_SIZE: usize = 0x800;
/// Bytes in one bank of program memory.
pub const PRG_BANK: usize = 0x4000;

/// The bus as plain values: RAM, program memory, the PPU and the CPU cycle count.
pub ghost struct BusView {
    pub ram: Seq<u8>,
    pub prg: Seq<u8>,
    pub ppu: PpuView,
    pub cycles: u64,
}

impl BusView {
    pub open spec fn wf(self) -> bool {
        &&& self.ram.len() == RAM_SIZE
        &&& (self.prg.len() == PRG_BANK || self.prg.len() == 2 * PRG_BANK)
        &&& self.ppu.wf()
    }
}

/// Where an address of 0x8000..=0xFFFF lands in program memory; a single bank is mirrored.
pub open spec fn prg_index(b: BusView, addr: u16) -> int {
    (addr - 0x8000) % (b.prg.len() as int)
}

/// What a read of `addr` returns and leaves behind. RAM is mirrored every 2 KiB below
/// 0x2000; the eight PPU registers every 8 bytes below 0x4000, and only status, OAM
/// data and VRAM data can be read (the others read as 0); 0x4000..0x7FFF reads as 0.
pub open spec fn bus_read(b: BusView, addr: u16) -> (BusView, u8) {
    if addr < 0x2000 {
        (b, b.ram[(addr % 0x800) as int])
    } else if addr < 0x4000 {
        let reg = addr % 8;
        if reg == 2 {
            let (p, v) = read_status_spec(b.ppu);
            (BusView { ppu: p, ..b }, v)
        } else if reg == 4 {
            (b, b.ppu.oam[b.ppu.oam_addr as int])
        } else if reg == 7 {
            let (p, v) = read_data_spec(b.ppu);
            (BusView { ppu: p, ..b }, v)
        } else {
            (b, 0)
        }
    } else if addr < 0x8000 {
        (b, 0)
    } else {
        (b, b.prg[prg_index(b, addr)])
    }
}

/// The register that a write of `data` to PPU register `reg` (0..8) leaves behind.
pub open spec fn ppu_write(p: PpuView, reg: u16, data: u8) -> PpuView {
    if reg == 0 {
        write_ctrl_spec(p, data)
    } else if reg == 1 {
        PpuView { mask: data, ..p }
    } else if reg == 3 {
        PpuView { oam_addr: data, ..p }
    } else if reg == 4 {
        write_oam_data_spec(p, data)
    } else if reg == 5 {
        PpuView {
            scroll: if !p.scroll.latch {
                ScrollRegister { scroll_x: data, scroll_y: p.scroll.scroll_y, latch: true }
            } else {
                ScrollRegister { scroll_x: p.scroll.scroll_x, scroll_y: data, latch: false }
            },
            ..p
        }
    } else if reg == 6 {
        PpuView {
            addr: AddrRegister {
                value: addr_after_write(p.addr.value, p.addr.hi_ptr, data),
                hi_ptr: !p.addr.hi_ptr,
            },
            ..p
        }
    } else if reg == 7 {
        write_data_spec(p, data)
    } else {
        p
    }
}

/// What a write of `data` to `addr` leaves behind: RAM and PPU registers mirrored as
/// for reads (status is read-only), 0x4000..0x7FFF ignored, program memory written.
pub open spec fn bus_write(b: BusView, addr: u16, data: u8) -> BusView {
    if addr < 0x2000 {
        BusView { ram: b.ram.update((addr % 0x800) as int, data), ..b }
    } else if addr < 0x4000 {
        BusView { ppu: ppu_write(b.ppu, addr % 8, data), ..b }
    } else if addr < 0x8000 {
        b
    } else {
        BusView { prg: b.prg.update(prg_index(b, addr), data), ..b }
    }
}

/// The PPU after `k` CPU cycles, three PPU cycles each.
pub open spec fn ppu_run(p: PpuView, k: nat) -> PpuView
    decreases k,
{
    if k == 0 {
        p
    } else {
        tick_spec(ppu_run(p, (k - 1) as nat), 3)
    }
}

/// The bus after `n` CPU cycles: the count wraps at 64 bits, the PPU runs three times as fast.
pub open spec fn bus_tick(b: BusView, n: u8) -> BusView {
    BusView {
        cycles: ((b.cycles + n) % 0x1_0000_0000_0000_0000int) as u64,
        ppu: ppu_run(b.ppu, n as nat),
        ..b
    }
}

/// The address decoder that joins CPU RAM, the PPU and program memory.
pub struct Bus {
    cpu_vram: Vec<u8>,
    prg_rom: Vec<u8>,
    ppu: NesPPU,
    cycles: u64,
}

impl View for Bus {
    type V = BusView;

    closed spec fn view(&self) -> BusView {
        BusView { ram: self.cpu_vram@, prg: self.prg_rom@, ppu: self.ppu@, cycles: self.cycles }
    }
}

impl Bus {
    /// A bus over the given program memory (one or two 16 KiB banks) and pattern memory.
    pub fn new(prg_rom: Vec<u8>, chr_rom: Vec<u8>, mirroring: Mirroring) -> (r: Bus)
        requires
            prg_rom@.len() == PRG_BANK || prg_rom@.len() == 2 * PRG_BANK,
            chr_rom@.len() == CHR_SIZE,
        ensures
            r@.wf(),
            r@.ram == Seq::new(RAM_SIZE as nat, |i: int| 0u8),
            r@.prg == prg_rom@,
            r@.ppu == power_on(chr_rom@, mirroring),
            r@.cycles == 0,
    {
        let ppu = NesPPU::new(chr_rom, mirroring);
        let ram = vec![0u8; RAM_SIZE];
        let r = Bus { cpu_vram: ram, prg_rom, ppu, cycles: 0 };
        assert(r@.ram =~= Seq::new(RAM_SIZE as nat, |i: int| 0u8));
        r
    }

    /// Read access to the PPU, for the renderer.
    pub fn ppu(&self) -> (r: &NesPPU)
        ensures
            r@ == self@.ppu,
    {
        &self.ppu
    }

    pub fn mem_read(&mut self, addr: u16) -> (r: u8)
        requires
            old(self)@.wf(),
        ensures
            (final(self)@, r) == bus_read(old(self)@, addr),
            final(self)@.wf(),
    {
        if addr < 0x2000 {
            self.cpu_vram[(addr % 0x800) as usize]
        } else if addr < 0x4000 {
            let reg = addr % 8;
            if reg == 2 {
                self.ppu.read_status()
            } else if reg == 4 {
                self.ppu.read_oam_data()
            } else if reg == 7 {
                self.ppu.read_data()
            } else {
                0
            }
        } else if addr < 0x8000 {
            0
        } else {
            let i = ((addr - 0x8000) as usize) % self.prg_rom.len();
            self.prg_rom[i]
        }
    }

    pub fn mem_write(&mut self, addr: u16, data: u8)
        requires
            old(self)@.wf(),
        ensures
            final(self)@ == bus_write(old(self)@, addr, data),
            final(self)@.wf(),
    {
        if addr < 0x2000 {
            self.cpu_vram.set((addr % 0x800) as usize, data);
        } else if addr < 0x4000 {
            let reg = addr % 8;
            if reg == 0 {
                self.ppu.write_to_ctrl(data);
            } else if reg == 1 {
                self.ppu.write_to_mask(data);
            } else if reg == 3 {
                self.ppu.write_to_oam_addr(data);
            } else if reg == 4 {
                self.ppu.write_to_oam_data(data);
            } else if reg == 5 {
                self.ppu.write_to_scroll(data);
            } else if reg == 6 {
                self.ppu.write_to_ppu_addr(data);
            } else if reg == 7 {
                self.ppu.write_to_data(data);
            }
        } else if addr < 0x8000 {
        } else {
            let i = ((addr - 0x8000) as usize) % self.prg_rom.len();
            self.prg_rom.set(i, data);
        }
    }

    /// Advances the clock by `cycles` CPU cycles and the PPU by three times as many.
    pub fn tick(&mut self, cycles: u8)
        requires
            old(self)@.wf(),
        ensures
            final(self)@ == bus_tick(old(self)@, cycles),
            final(self)@.wf(),
    {
        self.cycles = ((self.cycles as u128 + cycles as u128) % 0x1_0000_0000_0000_0000u128) as u64;
        let ghost p0 = self.ppu@;
        let mut i: u8 = 0;
        while i < cycles
            invariant
                i <= cycles,
                p0.wf(),
                self.ppu@ == ppu_run(p0, i as nat),
                self.ppu@.wf(),
                self.cpu_vram@ == old(self)@.ram,
                self.prg_rom@ == old(self)@.prg,
                self.cycles == bus_tick(old(self)@, cycles).cycles,
                p0 == old(self)@.ppu,
            decreases cycles - i,
        {
            self.ppu.tick(3);
            i = i + 1;
        }
    }

    /// Reports whether the PPU has raised an NMI since the last poll, and clears it.
    pub fn poll_nmi_status(&mut self) -> (r: bool)
        requires
            old(self)@.wf(),
        ensures
            r == old(self)@.ppu.nmi,
            final(self)@ == (BusView { ppu: PpuView { nmi: false, ..old(self)@.ppu }, ..old(self)@ }),
            final(self)@.wf(),
    {
        self.ppu.poll_nmi_interrupt()
    }
}

} // verus!
