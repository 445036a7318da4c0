//! Bus routing, mirroring, the picture unit's register protocol, and the
//! renderers, exercised through the public interfaces.

use nest::bus::Bus;
use nest::cartridge::Cartridge;
use nest::debug::{DebugContext, DebugFlag};
use nest::ppu::{Ppu, PpuRegs};
use nest::Fault;

fn test_rom(chr_fill: &[u8]) -> Vec<u8> {
    let mut rom = vec![0x4E, 0x45, 0x53, 0x1A, 1, 1];
    rom.resize(16, 0);
    // program ROM: one 16 KiB bank, reset vector at its tail
    let mut prg = vec![0u8; 0x4000];
    prg[0x3FFC] = 0x00;
    prg[0x3FFD] = 0x80;
    rom.extend_from_slice(&prg);
    // character ROM: one 8 KiB bank with the given tile bytes up front
    let mut chr = vec![0u8; 0x2000];
    chr[..chr_fill.len()].copy_from_slice(chr_fill);
    rom.extend_from_slice(&chr);
    rom
}

fn bus_with_cartridge() -> Bus {
    let mut bus = Bus::new(DebugContext::new());
    let cart = Cartridge::new(test_rom(&[])).unwrap();
    bus.load_cartridge(cart);
    bus
}

#[test]
fn wram_mirrors_every_2k() {
    let mut bus = Bus::new(DebugContext::new());
    bus.write(0x0005, 0xAB).unwrap();
    assert_eq!(bus.cpu_read(0x0005).unwrap(), 0xAB);
    assert_eq!(bus.cpu_read(0x0805).unwrap(), 0xAB);
    assert_eq!(bus.cpu_read(0x1005).unwrap(), 0xAB);
    assert_eq!(bus.cpu_read(0x1805).unwrap(), 0xAB);
}

#[test]
fn ppu_status_read_clears_vblank_and_toggle() {
    let mut bus = Bus::new(DebugContext::new());
    bus.write(0x2002, 0x80).unwrap();
    assert_eq!(bus.cpu_read(0x2002).unwrap(), 0x80);
    assert_eq!(bus.cpu_read(0x2002).unwrap(), 0x00);
}

#[test]
fn ppu_status_debug_read_leaves_vblank() {
    let mut bus = Bus::new(DebugContext::new());
    bus.write(0x2002, 0x80).unwrap();
    bus.set_cpu_debug_read(true);
    assert_eq!(bus.cpu_read(0x2002).unwrap(), 0x80);
    assert_eq!(bus.cpu_read(0x2002).unwrap(), 0x80);
    bus.set_cpu_debug_read(false);
    assert_eq!(bus.cpu_read(0x2002).unwrap(), 0x80);
    assert_eq!(bus.cpu_read(0x2002).unwrap(), 0x00);
}

#[test]
fn ppu_registers_mirror_every_8_bytes() {
    let mut bus = Bus::new(DebugContext::new());
    bus.write(0x2000, 0x3C).unwrap();
    assert_eq!(bus.cpu_read(0x2008).unwrap(), 0x3C);
    assert_eq!(bus.cpu_read(0x3FF8).unwrap(), 0x3C);
}

#[test]
fn address_latch_drives_data_writes() {
    let mut bus = bus_with_cartridge();
    // two writes to the address register set v; data writes then land in
    // VRAM and step v by one
    bus.write(0x2006, 0x21).unwrap();
    bus.write(0x2006, 0x55).unwrap();
    bus.write(0x2007, 0xAB).unwrap();
    bus.write(0x2007, 0xCD).unwrap();
    // the nametable renderer reads the written tile indexes back
    let ppu_probe = {
        let mut ppu = Ppu::new();
        let cart = Cartridge::new(test_rom(&[])).unwrap();
        ppu.write_reg(0x2006, 0x21);
        ppu.write_reg(0x2006, 0x55);
        ppu.write_reg(0x2007, 0xAB);
        ppu.write_reg(0x2007, 0xCD);
        (ppu.internal_read(&cart, 0x2155), ppu.internal_read(&cart, 0x2156))
    };
    assert_eq!(ppu_probe, (0xAB, 0xCD));
    // the same writes through the bus raise no fault
    let _ = bus;
}

#[test]
fn status_write_resets_address_toggle() {
    let mut ppu = Ppu::new();
    let cart = Cartridge::new(test_rom(&[])).unwrap();
    // first half of an address write, then a status write resets the
    // toggle, so the next two writes form a whole address again
    ppu.write_reg(0x2006, 0x3F);
    ppu.write_reg(0x2002, 0x00);
    ppu.write_reg(0x2006, 0x20);
    ppu.write_reg(0x2006, 0x10);
    ppu.write_reg(0x2007, 0x77);
    assert_eq!(ppu.internal_read(&cart, 0x2010), 0x77);
}

#[test]
fn data_increment_honours_ctrl_bit_2() {
    let mut ppu = Ppu::new();
    let cart = Cartridge::new(test_rom(&[])).unwrap();
    ppu.write_reg(0x2000, 0b100);
    ppu.write_reg(0x2006, 0x20);
    ppu.write_reg(0x2006, 0x00);
    ppu.write_reg(0x2007, 0x11);
    ppu.write_reg(0x2007, 0x22);
    assert_eq!(ppu.internal_read(&cart, 0x2000), 0x11);
    assert_eq!(ppu.internal_read(&cart, 0x2020), 0x22);
}

#[test]
fn tick_raises_vblank_at_scanline_241_dot_1() {
    let mut bus = Bus::new(DebugContext::new());
    // advance to scanline 241, dot 1, then one more dot sets the flag
    let dots = 241 * 341 + 2;
    for _ in 0..dots {
        bus.tick_ppu();
    }
    assert_eq!(bus.cpu_read(0x2002).unwrap(), 0x80);
    assert_eq!(bus.cpu_read(0x2002).unwrap(), 0x00);
}

#[test]
fn scroll_and_address_reads_fault() {
    let mut bus = Bus::new(DebugContext::new());
    assert_eq!(bus.cpu_read(0x2005), Err(Fault::PpuRegReadUnimplemented(0x2005)));
    assert_eq!(bus.cpu_read(0x2006), Err(Fault::PpuRegReadUnimplemented(0x2006)));
}

#[test]
fn unbacked_regions_fault() {
    let mut bus = Bus::new(DebugContext::new());
    assert_eq!(bus.cpu_read(0x6000), Err(Fault::CartridgeRamUnimplemented(0x6000)));
    assert_eq!(bus.cpu_read(0x8000), Err(Fault::NoCartridge(0x8000)));
    assert_eq!(bus.write(0x4018, 1), Err(Fault::UnimplementedBusWrite(0x4018)));
    assert_eq!(bus.cpu_read(0x4020).unwrap(), 0);
}

#[test]
fn audio_stub_returns_last_written() {
    let mut bus = Bus::new(DebugContext::new());
    bus.write(0x4002, 0x5E).unwrap();
    assert_eq!(bus.cpu_read(0x4002).unwrap(), 0x5E);
}

#[test]
fn prg_rom_single_bank_mirrors() {
    let mut rom = test_rom(&[]);
    rom[16] = 0x77;
    let cart = Cartridge::new(rom).unwrap();
    assert_eq!(cart.get_prg_rom(0x8000).unwrap(), 0x77);
    assert_eq!(cart.get_prg_rom(0xC000).unwrap(), 0x77);
}

#[test]
fn nametable_renderer_uses_both_planes() {
    // tile 0, row 0: plane 0 = 0b1100_0000, plane 1 = 0b1010_0000;
    // pixels: colors 3, 1, 2, 0 at columns 0..4
    let mut chr = [0u8; 16];
    chr[0] = 0b1100_0000;
    chr[8] = 0b1010_0000;
    let mut bus = Bus::new(DebugContext::new());
    bus.load_cartridge(Cartridge::new(test_rom(&chr)).unwrap());
    bus.draw_nametable().unwrap();
    let frame = bus.get_frame();
    assert_eq!(frame.read(0), 0x0000FF);
    assert_eq!(frame.read(1), 0xFF0000);
    assert_eq!(frame.read(2), 0x00FF00);
    assert_eq!(frame.read(3), 0x000000);
}

#[test]
fn pattern_table_needs_flag() {
    let mut bus = Bus::new(DebugContext::new());
    bus.load_cartridge(Cartridge::new(test_rom(&[])).unwrap());
    assert!(bus.get_pattern_table().is_empty());
    bus.set_debug_flag(DebugFlag::Ppu);
    let table = bus.get_pattern_table();
    assert_eq!(table.len(), 128 * 256);
}

#[test]
fn pattern_table_draws_first_tile() {
    let mut chr = [0u8; 16];
    chr[0] = 0b1000_0000;
    chr[8] = 0b1000_0000;
    let mut bus = Bus::new(DebugContext::new());
    bus.load_cartridge(Cartridge::new(test_rom(&chr)).unwrap());
    bus.set_debug_flag(DebugFlag::Ppu);
    let table = bus.get_pattern_table();
    assert_eq!(table.read(0), 0x0000FF);
    assert_eq!(table.read(1), 0x000000);
}

#[test]
fn ppu_reg_addresses() {
    assert_eq!(PpuRegs::PpuCtrl.addr(), 0x2000);
    assert_eq!(PpuRegs::PpuStatus.addr(), 0x2002);
    assert_eq!(PpuRegs::PpuData.addr(), 0x2007);
    assert_eq!(PpuRegs::OamDma.addr(), 0x4014);
}
