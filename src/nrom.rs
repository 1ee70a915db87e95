use vstd::prelude::*;

use crate::memory_block::{wrapped_read, wrapped_write, MemoryBlock};
use crate::mirroring::{nametable_offset, resolve, Mirroring};
use crate::noise::NoiseChannelState;

verus! {

/// Size of the nametable store that the board carries: room for four
/// physical tables, so that four-screen layouts are served too.
pub const VRAM_SIZE: usize = 0x1000;

/// What a loaded cartridge image declares and supplies.
pub struct CartridgeImage {
    pub prg_rom: Vec<u8>,
    /// Volatile PRG-RAM, in bytes.
    pub prg_ram_size: usize,
    /// Battery-backed PRG-RAM, in bytes.
    pub prg_nvram_size: usize,
    pub chr_rom: Vec<u8>,
    /// CHR-RAM, in bytes.
    pub chr_ram_size: usize,
    pub mirroring: Mirroring,
}

/// The PRG-RAM shape cannot be served: volatile and battery-backed RAM are
/// both declared.
pub open spec fn prg_ram_incompatible(c: CartridgeImage) -> bool {
    c.prg_ram_size > 0 && c.prg_nvram_size > 0
}

/// The CHR shape cannot be served: both ROM and RAM are declared, or neither.
pub open spec fn chr_incompatible(c: CartridgeImage) -> bool {
    (c.chr_rom@.len() > 0 && c.chr_ram_size > 0) || (c.chr_rom@.len() == 0 && c.chr_ram_size
        == 0)
}

/// The message that loading reports for an incompatible image: the PRG-RAM
/// shape is checked first, then the CHR shape.
pub open spec fn load_error(c: CartridgeImage) -> Seq<char> {
    if prg_ram_incompatible(c) {
        "cartridge declares both volatile and battery-backed PRG-RAM"@
    } else if c.chr_rom@.len() > 0 {
        "cartridge declares both CHR-ROM and CHR-RAM"@
    } else {
        "cartridge supplies neither CHR-ROM nor CHR-RAM"@
    }
}

/// The state of the board, as plain values.
pub ghost struct NromView {
    pub prg_rom: Seq<u8>,
    pub prg_ram: Seq<u8>,
    pub battery: bool,
    pub chr: Seq<u8>,
    pub chr_writable: bool,
    pub mirroring: Mirroring,
    pub vram: Seq<u8>,
}

/// What the board answers to a CPU read.
pub open spec fn cpu_read(v: NromView, address: u16) -> Option<u8> {
    if 0x6000 <= address && address <= 0x7FFF {
        wrapped_read(v.prg_ram, address - 0x6000)
    } else if address >= 0x8000 {
        wrapped_read(v.prg_rom, address - 0x8000)
    } else {
        None
    }
}

/// The board after a CPU write: only PRG-RAM takes it.
pub open spec fn cpu_write(v: NromView, address: u16, data: u8) -> NromView {
    if 0x6000 <= address && address <= 0x7FFF {
        NromView { prg_ram: wrapped_write(v.prg_ram, address - 0x6000, data), ..v }
    } else {
        v
    }
}

/// What the board answers to a PPU read.
pub open spec fn ppu_read(v: NromView, address: u16) -> Option<u8> {
    if address <= 0x1FFF {
        wrapped_read(v.chr, address as int)
    } else if address <= 0x3FFF {
        Some(v.vram[nametable_offset(v.mirroring, address as int)])
    } else {
        None
    }
}

/// The board after a PPU write: CHR takes it when it is RAM; nametable
/// addresses go to VRAM through the mirroring mode's resolver.
pub open spec fn ppu_write(v: NromView, address: u16, data: u8) -> NromView {
    if address <= 0x1FFF {
        if v.chr_writable {
            NromView { chr: wrapped_write(v.chr, address as int, data), ..v }
        } else {
            v
        }
    } else if address <= 0x3FFF {
        NromView { vram: v.vram.update(nametable_offset(v.mirroring, address as int), data), ..v }
    } else {
        v
    }
}

/// The board built from a cartridge whose shapes are compatible.
pub open spec fn loaded(c: CartridgeImage) -> NromView {
    NromView {
        prg_rom: c.prg_rom@,
        prg_ram: Seq::new((c.prg_ram_size + c.prg_nvram_size) as nat, |_i: int| 0u8),
        battery: c.prg_nvram_size > 0,
        chr: if c.chr_rom@.len() > 0 {
            c.chr_rom@
        } else {
            Seq::new(c.chr_ram_size as nat, |_i: int| 0u8)
        },
        chr_writable: c.chr_rom@.len() == 0,
        mirroring: c.mirroring,
        vram: Seq::new(VRAM_SIZE as nat, |_i: int| 0u8),
    }
}

/// A board with no bank switching: PRG-ROM at 0x8000, PRG-RAM at 0x6000,
/// CHR at the bottom of PPU space and nametables on the board's own VRAM.
pub struct Nrom {
    prg_rom: MemoryBlock,
    prg_ram: MemoryBlock,
    battery: bool,
    chr: MemoryBlock,
    chr_writable: bool,
    mirroring: Mirroring,
    vram: Vec<u8>,
}

impl View for Nrom {
    type V = NromView;

    closed spec fn view(&self) -> NromView {
        NromView {
            prg_rom: self.prg_rom@,
            prg_ram: self.prg_ram@,
            battery: self.battery,
            chr: self.chr@,
            chr_writable: self.chr_writable,
            mirroring: self.mirroring,
            vram: self.vram@,
        }
    }
}

impl Nrom {
    /// Every board keeps its full nametable store.
    pub open spec fn wf(&self) -> bool {
        self@.vram.len() == VRAM_SIZE
    }

    /// Builds the board from a cartridge image; fails when the image declares
    /// a PRG-RAM or CHR shape that this board cannot serve.
    pub fn from_ines(ines: CartridgeImage) -> (r: Result<Nrom, String>)
        ensures
            r is Err <==> prg_ram_incompatible(ines) || chr_incompatible(ines),
            r matches Ok(n) ==> n.wf() && n@ == loaded(ines),
            r matches Err(m) ==> m@ == load_error(ines),
    {
        if ines.prg_ram_size > 0 && ines.prg_nvram_size > 0 {
            return Err(
                String::from_str("cartridge declares both volatile and battery-backed PRG-RAM"),
            );
        }
        if ines.chr_rom.len() > 0 && ines.chr_ram_size > 0 {
            return Err(String::from_str("cartridge declares both CHR-ROM and CHR-RAM"));
        }
        if ines.chr_rom.len() == 0 && ines.chr_ram_size == 0 {
            return Err(String::from_str("cartridge supplies neither CHR-ROM nor CHR-RAM"));
        }
        let prg_rom = MemoryBlock::new(ines.prg_rom.as_slice());
        let prg_ram = MemoryBlock::zeroed(ines.prg_ram_size + ines.prg_nvram_size);
        let chr_writable = ines.chr_rom.len() == 0;
        let chr = if chr_writable {
            MemoryBlock::zeroed(ines.chr_ram_size)
        } else {
            MemoryBlock::new(ines.chr_rom.as_slice())
        };
        let vram = MemoryBlock::zeroed(VRAM_SIZE).as_vec();
        let n = Nrom {
            prg_rom,
            prg_ram,
            battery: ines.prg_nvram_size > 0,
            chr,
            chr_writable,
            mirroring: ines.mirroring,
            vram,
        };
        proof {
            assert(n@ =~= loaded(ines));
        }
        Ok(n)
    }

    /// The current mirroring mode.
    pub fn mirroring(&self) -> (r: Mirroring)
        ensures
            r == self@.mirroring,
    {
        self.mirroring
    }

    /// Whether PRG-RAM is battery-backed and so worth keeping across sessions.
    pub fn has_sram(&self) -> (r: bool)
        ensures
            r == (self@.battery && self@.prg_ram.len() > 0),
    {
        self.battery && self.prg_ram.len() > 0
    }

    /// The sound channels that the board adds to the console's own: this
    /// board has none.
    pub fn channels(&self) -> (r: Vec<NoiseChannelState>)
        ensures
            r@.len() == 0,
    {
        Vec::new()
    }

    /// The contents of PRG-RAM, for saving.
    pub fn sram(&self) -> (r: Vec<u8>)
        ensures
            r@ == self@.prg_ram,
    {
        self.prg_ram.as_vec()
    }

    /// Answers a CPU read without side effects.
    pub fn read_cpu(&self, address: u16) -> (r: Option<u8>)
        ensures
            r == cpu_read(self@, address),
    {
        if 0x6000 <= address && address <= 0x7FFF {
            self.prg_ram.wrapping_read((address - 0x6000) as usize)
        } else if address >= 0x8000 {
            self.prg_rom.wrapping_read((address - 0x8000) as usize)
        } else {
            None
        }
    }

    /// Takes a CPU write; only PRG-RAM is writable.
    pub fn write_cpu(&mut self, address: u16, data: u8)
        ensures
            final(self)@ == cpu_write(old(self)@, address, data),
    {
        if 0x6000 <= address && address <= 0x7FFF {
            self.prg_ram.wrapping_write((address - 0x6000) as usize, data);
        }
    }

    /// Answers a PPU read without side effects.
    pub fn read_ppu(&self, address: u16) -> (r: Option<u8>)
        requires
            self.wf(),
        ensures
            r == ppu_read(self@, address),
    {
        if address <= 0x1FFF {
            self.chr.wrapping_read(address as usize)
        } else if address <= 0x3FFF {
            Some(self.vram[resolve(self.mirroring, address) as usize])
        } else {
            None
        }
    }

    /// Takes a PPU write where the store behind the address is writable.
    pub fn write_ppu(&mut self, address: u16, data: u8)
        requires
            old(self).wf(),
        ensures
            final(self).wf(),
            final(self)@ == ppu_write(old(self)@, address, data),
    {
        if address <= 0x1FFF {
            if self.chr_writable {
                self.chr.wrapping_write(address as usize, data);
            }
        } else if address <= 0x3FFF {
            let offset = resolve(self.mirroring, address) as usize;
            self.vram.set(offset, data);
        }
    }
}

/// CPU routing: 0x8000 reads the first byte of PRG-ROM; a write to 0x6000 is
/// read back when there is PRG-RAM, and 0x6000 reads as absent when there is
/// none; a write to 0x8000 never changes what 0x8000 reads.
pub proof fn lemma_cpu_routing(v: NromView, data: u8)
    ensures
        v.prg_rom.len() > 0 ==> cpu_read(v, 0x8000) == Some(v.prg_rom[0]),
        v.prg_ram.len() > 0 ==> cpu_read(cpu_write(v, 0x6000, data), 0x6000) == Some(data),
        v.prg_ram.len() == 0 ==> cpu_read(v, 0x6000) is None,
        cpu_read(cpu_write(v, 0x8000, data), 0x8000) == cpu_read(v, 0x8000),
{
}

} // verus!
