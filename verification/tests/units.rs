//! Unit tests: the cartridge loader's error cases, the decode table, the
//! frame buffer, the debug context, the harness helpers, and the frame loop.

use nest::cartridge::{Cartridge, CartridgeError};
use nest::cpu::CpuState;
use nest::debug::{DebugContext, DebugFlag, StepMode};
use nest::emulator::Emulator;
use nest::frame_buffer::FrameBuffer;
use nest::opcode::Opcode;
use nest::testing::{run_single_test, test_valid_opcode, Test, Test2, TestState};

fn test_rom() -> Vec<u8> {
    let mut rom = vec![0x4E, 0x45, 0x53, 0x1A, 1, 1];
    rom.resize(16, 0);
    let mut prg = vec![0u8; 0x4000];
    // reset vector points at an endless absolute jump to itself
    prg[0] = 0x4C;
    prg[1] = 0x00;
    prg[2] = 0x80;
    prg[0x3FFC] = 0x00;
    prg[0x3FFD] = 0x80;
    rom.extend_from_slice(&prg);
    rom.extend_from_slice(&vec![0u8; 0x2000]);
    rom
}

#[test]
fn cartridge_rejects_short_image() {
    assert_eq!(Cartridge::new(vec![0x4E, 0x45]).err(), Some(CartridgeError::TooShort));
}

#[test]
fn cartridge_rejects_bad_magic() {
    let mut rom = test_rom();
    rom[0] = 0x4D;
    assert_eq!(Cartridge::new(rom).err(), Some(CartridgeError::BadMagic));
}

#[test]
fn cartridge_rejects_chr_ram() {
    let mut rom = test_rom();
    rom[5] = 0;
    assert_eq!(Cartridge::new(rom).err(), Some(CartridgeError::ChrRamUnsupported));
}

#[test]
fn cartridge_accepts_declared_bank_counts() {
    // three 16 KiB program banks: the loader takes the declared sizes
    let mut rom = vec![0x4E, 0x45, 0x53, 0x1A, 3, 1];
    rom.resize(16, 0);
    let mut prg = vec![0u8; 3 * 0x4000];
    prg[0] = 0x55;
    rom.extend_from_slice(&prg);
    rom.extend_from_slice(&vec![0u8; 0x2000]);
    let cart = Cartridge::new(rom).unwrap();
    assert_eq!(cart.get_prg_rom(0x8000).unwrap(), 0x55);
}

#[test]
fn prg_read_past_declared_size_faults() {
    // zero program banks load, but every program-ROM read is out of range
    let mut rom = vec![0x4E, 0x45, 0x53, 0x1A, 0, 1];
    rom.resize(16, 0);
    rom.extend_from_slice(&vec![0u8; 0x2000]);
    let cart = Cartridge::new(rom).unwrap();
    assert_eq!(cart.get_prg_rom(0x8000).err(), Some(nest::Fault::PrgRomOutOfRange(0x8000)));
}

#[test]
fn cartridge_rejects_truncated_body() {
    let mut rom = test_rom();
    rom.truncate(1000);
    assert_eq!(Cartridge::new(rom).err(), Some(CartridgeError::TooShort));
}

#[test]
fn cartridge_reads_chr() {
    let mut rom = test_rom();
    rom[16 + 0x4000 + 5] = 0x99;
    let cart = Cartridge::new(rom).unwrap();
    assert_eq!(cart.get_chr_rom(5), 0x99);
}

#[test]
fn opcode_map_holds_exactly_the_official_codes() {
    let map = Opcode::get_opcode_map();
    assert_eq!(map.len(), 151);
    for (&code, op) in map.iter() {
        assert_eq!(op.code, code);
        assert!(op.bytes >= 1 && op.bytes <= 3);
        assert!(op.cycles >= 2 && op.cycles <= 7);
    }
    assert!(map.contains_key(&0xA9));
    assert!(map.contains_key(&0xEA));
    assert!(!map.contains_key(&0x02));
}

#[test]
fn decode_matches_table_entries() {
    let lda = Opcode::decode(0xA9).unwrap();
    assert_eq!(lda.bytes, 2);
    assert_eq!(lda.cycles, 2);
    assert_eq!(lda.name.as_str(), "LDA");
    assert!(Opcode::decode(0x02).is_none());
}

#[test]
fn frame_buffer_rgb_packs_pixels() {
    let mut buf = FrameBuffer::new(2, 1);
    buf.write(0, 0x123456);
    buf.write(1, 0x00FF00);
    assert_eq!(buf.rgb(), vec![0x12, 0x34, 0x56, 0x00, 0xFF, 0x00]);
    assert_eq!(buf.raw(), &vec![0x123456, 0x00FF00]);
    assert!(!buf.is_empty());
}

#[test]
fn debug_flags_toggle_independently() {
    let mut ctx = DebugContext::new();
    ctx.set_debug_flag(DebugFlag::Cpu);
    ctx.set_debug_flag(DebugFlag::Step(StepMode::Frame));
    assert!(ctx.flag_enabled(&DebugFlag::Cpu));
    assert!(ctx.flag_enabled(&DebugFlag::Step(StepMode::Frame)));
    assert!(!ctx.flag_enabled(&DebugFlag::Step(StepMode::Instruction)));
    ctx.toggle_debug_flag(DebugFlag::Cpu);
    assert!(!ctx.flag_enabled(&DebugFlag::Cpu));
    ctx.clear_debug_flag(&DebugFlag::Step(StepMode::Frame));
    assert!(!ctx.flag_enabled(&DebugFlag::Step(StepMode::Frame)));
}

#[test]
fn debug_log_keeps_last_line() {
    let mut ctx = DebugContext::new();
    assert_eq!(ctx.last_instruction(), "");
    ctx.log_instr(String::from("first"));
    ctx.log_instr(String::from("second"));
    assert_eq!(ctx.last_instruction(), "second");
}

#[test]
fn instruction_log_records_disassembly() {
    let mut emu = Emulator::new();
    emu.set_debug_flag(DebugFlag::Json);
    emu.set_debug_flag(DebugFlag::Cpu);
    emu.load_state(CpuState {
        cycles: 0,
        r_a: 0,
        r_x: 0,
        r_y: 0,
        r_sp: 0xFD,
        r_pc: 0x8000,
        f_c: false,
        f_z: false,
        f_i: false,
        f_d: false,
        f_v: false,
        f_n: false,
        p: 0x24,
    });
    emu.write(0x8000, 0xA9).unwrap();
    emu.write(0x8001, 0xFF).unwrap();
    emu.tick_cpu().unwrap();
    let line = emu.last_instruction();
    assert!(line.starts_with("8000  A9 FF"));
    assert!(line.contains("LDA"));
    assert!(line.contains("#$FF"));
}

#[test]
fn harness_accepts_official_and_skips_unofficial() {
    assert!(test_valid_opcode("a9 imm"));
    assert!(test_valid_opcode("EA"));
    assert!(!test_valid_opcode("02 jam"));
    assert!(!test_valid_opcode("zz"));
    assert!(!test_valid_opcode("a"));
}

#[test]
fn single_test_passes_and_fails() {
    let mut emu = Emulator::new();
    emu.set_debug_flag(DebugFlag::Json);
    let passing = Test {
        name: String::from("a9 imm"),
        initial: TestState {
            pc: 0x8000,
            s: 0xFD,
            a: 0,
            x: 0,
            y: 0,
            p: 0x24,
            ram: vec![(0x8000, 0xA9), (0x8001, 0x05)],
        },
        fin: Test2 {
            pc: 0x8002,
            s: 0xFD,
            a: 0x05,
            x: 0,
            y: 0,
            p: 0x24,
            ram: vec![(0x8000, 0xA9), (0x8001, 0x05)],
        },
    };
    assert!(run_single_test(&mut emu, passing));
    let failing = Test {
        name: String::from("a9 imm"),
        initial: TestState {
            pc: 0x8000,
            s: 0xFD,
            a: 0,
            x: 0,
            y: 0,
            p: 0x24,
            ram: vec![(0x8000, 0xA9), (0x8001, 0x05)],
        },
        fin: Test2 {
            pc: 0x8002,
            s: 0xFD,
            a: 0x06,
            x: 0,
            y: 0,
            p: 0x24,
            ram: vec![],
        },
    };
    assert!(!run_single_test(&mut emu, failing));
}

#[test]
fn step_frame_runs_a_whole_frame() {
    let mut emu = Emulator::new();
    emu.load_cartridge(Cartridge::new(test_rom()).unwrap());
    emu.reset().unwrap();
    assert_eq!(emu.get_state().r_pc, 0x8000);
    let out = emu.step_frame().unwrap();
    assert!(out.is_none());
    // the frame was rastered from a cleared nametable and pattern zero
    assert_eq!(emu.get_frame().len(), 256 * 240);
    assert_eq!(emu.get_frame().read(0), 0x000000);
}

#[test]
fn run_in_loop_steps_one_instruction() {
    let mut emu = Emulator::new();
    emu.load_cartridge(Cartridge::new(test_rom()).unwrap());
    emu.reset().unwrap();
    emu.set_debug_flag(DebugFlag::Step(StepMode::Instruction));
    emu.start();
    assert!(emu.running());
    let out = emu.run_in_loop().unwrap();
    assert_eq!(out, Some(nest::cpu::BreakpointType::AfterInstruction));
    assert!(!emu.running());
    // idle when stopped
    assert_eq!(emu.run_in_loop().unwrap(), None);
}

#[test]
fn reset_loads_vector() {
    let mut emu = Emulator::new();
    emu.load_cartridge(Cartridge::new(test_rom()).unwrap());
    emu.reset().unwrap();
    let s = emu.get_state();
    assert_eq!(s.r_pc, 0x8000);
    assert_eq!(s.r_sp, 0xFD);
    assert!(s.f_i);
    assert_eq!(s.cycles, 5);
}
