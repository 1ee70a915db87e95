use nes_core::memory_block::MemoryBlock;
use nes_core::mirroring::{
    four_banks, horizontal_mirroring, resolve, single_screen_a, single_screen_b,
    vertical_mirroring, Mirroring,
};
use nes_core::nrom::{CartridgeImage, Nrom};

fn cartridge(prg: usize, ram: usize, nvram: usize, chr_rom: usize, chr_ram: usize, m: Mirroring) -> CartridgeImage {
    let prg_rom: Vec<u8> = (0..prg).map(|i| (i % 251) as u8).collect();
    let chr: Vec<u8> = (0..chr_rom).map(|i| (i % 13) as u8 + 100).collect();
    CartridgeImage {
        prg_rom,
        prg_ram_size: ram,
        prg_nvram_size: nvram,
        chr_rom: chr,
        chr_ram_size: chr_ram,
        mirroring: m,
    }
}

#[test]
fn memory_block_wraps_reads() {
    let block = MemoryBlock::new(&[1, 2, 3]);
    assert_eq!(block.len(), 3);
    assert_eq!(block.wrapping_read(0), Some(1));
    assert_eq!(block.wrapping_read(4), Some(2));
    assert_eq!(block.wrapping_read(4), block.wrapping_read(4 % 3));
    assert_eq!(block.wrapping_read(usize::MAX), block.wrapping_read(usize::MAX % 3));
}

#[test]
fn memory_block_wraps_writes() {
    let mut block = MemoryBlock::zeroed(4);
    block.wrapping_write(6, 9);
    assert_eq!(block.as_vec(), vec![0, 0, 9, 0]);
    assert_eq!(block.wrapping_read(2), Some(9));
}

#[test]
fn empty_memory_block_is_absent() {
    let mut block = MemoryBlock::zeroed(0);
    assert_eq!(block.wrapping_read(0), None);
    assert_eq!(block.wrapping_read(12345), None);
    block.wrapping_write(7, 1);
    assert_eq!(block.len(), 0);
    assert_eq!(block.wrapping_read(7), None);
}

#[test]
fn mirroring_offsets() {
    assert_eq!(horizontal_mirroring(0x2000), 0x000);
    assert_eq!(horizontal_mirroring(0x2400), 0x000);
    assert_eq!(horizontal_mirroring(0x2800), 0x400);
    assert_eq!(horizontal_mirroring(0x2C05), 0x405);
    assert_eq!(vertical_mirroring(0x2000), 0x000);
    assert_eq!(vertical_mirroring(0x2400), 0x400);
    assert_eq!(vertical_mirroring(0x2800), 0x000);
    assert_eq!(vertical_mirroring(0x2C05), 0x405);
    assert_eq!(single_screen_a(0x2C05), 0x005);
    assert_eq!(single_screen_b(0x2005), 0x405);
    assert_eq!(four_banks(0x2C05), 0xC05);
    assert_eq!(resolve(Mirroring::FourScreen, 0x2801), 0x801);
}

#[test]
fn mirroring_aliases_ignored_bit() {
    for a in 0x2000u16..0x3000 {
        assert_eq!(horizontal_mirroring(a), horizontal_mirroring(a ^ 0x400));
        assert_eq!(vertical_mirroring(a), vertical_mirroring(a ^ 0x800));
    }
    let mut seen = std::collections::HashSet::new();
    for a in 0x2000u16..0x3000 {
        assert!(seen.insert(four_banks(a)));
    }
}

#[test]
fn nrom_cpu_routing() {
    let mut nrom = Nrom::from_ines(cartridge(0x4000, 0x2000, 0, 0x2000, 0, Mirroring::Vertical)).unwrap();
    assert_eq!(nrom.read_cpu(0x8000), Some(0));
    assert_eq!(nrom.read_cpu(0x8001), Some(1));
    assert_eq!(nrom.read_cpu(0xBFFF), Some((0x3FFF % 251) as u8));
    assert_eq!(nrom.read_cpu(0xC000), Some(0));
    nrom.write_cpu(0x6000, 0x5A);
    assert_eq!(nrom.read_cpu(0x6000), Some(0x5A));
    nrom.write_cpu(0x8000, 0x77);
    assert_eq!(nrom.read_cpu(0x8000), Some(0));
    assert_eq!(nrom.read_cpu(0x4020), None);
    assert_eq!(nrom.read_cpu(0x0000), None);
}

#[test]
fn nrom_without_prg_ram_reads_absent() {
    let mut nrom = Nrom::from_ines(cartridge(0x2000, 0, 0, 0, 0x2000, Mirroring::Horizontal)).unwrap();
    assert_eq!(nrom.read_cpu(0x6000), None);
    nrom.write_cpu(0x6000, 3);
    assert_eq!(nrom.read_cpu(0x6000), None);
    // 8 KiB of PRG-ROM repeats across the 32 KiB window.
    assert_eq!(nrom.read_cpu(0xA000), nrom.read_cpu(0x8000));
}

#[test]
fn nrom_ppu_routing() {
    let mut rom = Nrom::from_ines(cartridge(0x2000, 0, 0, 0x2000, 0, Mirroring::Vertical)).unwrap();
    assert_eq!(rom.read_ppu(0x0000), Some(100));
    rom.write_ppu(0x0000, 1);
    assert_eq!(rom.read_ppu(0x0000), Some(100));
    rom.write_ppu(0x2005, 42);
    assert_eq!(rom.read_ppu(0x2805), Some(42));
    assert_eq!(rom.read_ppu(0x2405), Some(0));
    assert_eq!(rom.read_ppu(0x4000), None);

    let mut ram = Nrom::from_ines(cartridge(0x2000, 0, 0, 0, 0x2000, Mirroring::FourScreen)).unwrap();
    ram.write_ppu(0x0010, 7);
    assert_eq!(ram.read_ppu(0x0010), Some(7));
    ram.write_ppu(0x2C00, 9);
    assert_eq!(ram.read_ppu(0x2C00), Some(9));
    assert_eq!(ram.read_ppu(0x2000), Some(0));

    let mut single_a = Nrom::from_ines(cartridge(0x2000, 0, 0, 0x2000, 0, Mirroring::SingleScreenA)).unwrap();
    single_a.write_ppu(0x2C05, 11);
    assert_eq!(single_a.read_ppu(0x2005), Some(11));
    assert_eq!(single_a.read_ppu(0x2405), Some(11));
    assert_eq!(single_a.read_ppu(0x3805), Some(11));
    let mut single_b = Nrom::from_ines(cartridge(0x2000, 0, 0, 0x2000, 0, Mirroring::SingleScreenB)).unwrap();
    single_b.write_ppu(0x2003, 12);
    assert_eq!(single_b.read_ppu(0x2803), Some(12));
    assert!(single_b.read_ppu(0x2000).is_some());
}

#[test]
fn nrom_load_errors() {
    let err = |c: CartridgeImage| Nrom::from_ines(c).err().unwrap();
    assert_eq!(
        err(cartridge(0x2000, 0x2000, 0x2000, 0x2000, 0x2000, Mirroring::Vertical)),
        "cartridge declares both volatile and battery-backed PRG-RAM"
    );
    assert_eq!(
        err(cartridge(0x2000, 0, 0, 0x2000, 0x2000, Mirroring::Vertical)),
        "cartridge declares both CHR-ROM and CHR-RAM"
    );
    assert_eq!(
        err(cartridge(0x2000, 0, 0, 0, 0, Mirroring::Vertical)),
        "cartridge supplies neither CHR-ROM nor CHR-RAM"
    );
}

#[test]
fn nrom_battery_ram() {
    let mut nrom = Nrom::from_ines(cartridge(0x2000, 0, 0x2000, 0x2000, 0, Mirroring::Vertical)).unwrap();
    assert!(nrom.has_sram());
    nrom.write_cpu(0x6001, 5);
    let sram = nrom.sram();
    assert_eq!(sram.len(), 0x2000);
    assert_eq!(sram[1], 5);
    let plain = Nrom::from_ines(cartridge(0x2000, 0x2000, 0, 0x2000, 0, Mirroring::Vertical)).unwrap();
    assert!(!plain.has_sram());
}

#[test]
fn end_to_end_cartridge() {
    let nrom = Nrom::from_ines(cartridge(0x2000, 0, 0, 0x2000, 0, Mirroring::Horizontal)).unwrap();
    assert!(!nrom.has_sram());
    assert!(nrom.channels().is_empty());
    assert_eq!(nrom.read_cpu(0x7000), None);
    assert_eq!(nrom.mirroring(), Mirroring::Horizontal);
    assert_eq!(horizontal_mirroring(0x2400), horizontal_mirroring(0x2000));
    assert_eq!(nrom.read_ppu(0x2400), nrom.read_ppu(0x2000));
}
