//! End-to-end single-instruction scenarios over the flat test-mode
//! addressing, covering loads, arithmetic, jumps, branches and the stack.

use nest::cpu::{CpuState, CpuStatus};
use nest::debug::DebugFlag;
use nest::emulator::Emulator;
use nest::Fault;

fn json_emulator() -> Emulator {
    let mut emulator = Emulator::new();
    emulator.set_debug_flag(DebugFlag::Json);
    emulator
}

fn state(pc: u16, a: u8, x: u8, y: u8, sp: u8, p: u8) -> CpuState {
    CpuState {
        cycles: 0,
        r_a: a,
        r_x: x,
        r_y: y,
        r_sp: sp,
        r_pc: pc,
        f_c: false,
        f_z: false,
        f_i: false,
        f_d: false,
        f_v: false,
        f_n: false,
        p,
    }
}

#[test]
fn immediate_lda_sets_n() {
    let mut emu = json_emulator();
    emu.load_state(state(0x8000, 0, 0, 0, 0xFD, 0x24));
    emu.write(0x8000, 0xA9).unwrap();
    emu.write(0x8001, 0xFF).unwrap();
    let before = emu.get_state().cycles;
    emu.tick_cpu().unwrap();
    let s = emu.get_state();
    assert_eq!(s.r_a, 0xFF);
    assert!(!s.f_z);
    assert!(s.f_n);
    assert_eq!(s.r_pc, 0x8002);
    assert_eq!(s.cycles, before + 2);
}

#[test]
fn adc_with_carry_and_overflow() {
    let mut emu = json_emulator();
    emu.load_state(state(0x8000, 0x50, 0, 0, 0xFD, 0x24));
    emu.write(0x8000, 0x69).unwrap();
    emu.write(0x8001, 0x50).unwrap();
    emu.tick_cpu().unwrap();
    let s = emu.get_state();
    assert_eq!(s.r_a, 0xA0);
    assert!(!s.f_c);
    assert!(s.f_v);
    assert!(s.f_n);
    assert!(!s.f_z);
}

#[test]
fn indirect_jmp_page_bug() {
    let mut emu = json_emulator();
    emu.load_state(state(0x8000, 0, 0, 0, 0xFD, 0x24));
    emu.write(0x8000, 0x6C).unwrap();
    emu.write(0x8001, 0xFF).unwrap();
    emu.write(0x8002, 0x10).unwrap();
    emu.write(0x10FF, 0x34).unwrap();
    emu.write(0x1000, 0x12).unwrap();
    emu.write(0x1100, 0xFF).unwrap();
    emu.tick_cpu().unwrap();
    assert_eq!(emu.get_state().r_pc, 0x1234);
}

#[test]
fn jsr_rts_round_trip() {
    let mut emu = json_emulator();
    emu.load_state(state(0x8000, 0, 0, 0, 0xFD, 0x24));
    emu.write(0x8000, 0x20).unwrap();
    emu.write(0x8001, 0x10).unwrap();
    emu.write(0x8002, 0x90).unwrap();
    emu.write(0x9010, 0x60).unwrap();
    emu.tick_cpu().unwrap();
    let after_jsr = emu.get_state();
    assert_eq!(after_jsr.r_pc, 0x9010);
    assert_eq!(after_jsr.r_sp, 0xFB);
    assert_eq!(emu.read(0x01FD).unwrap(), 0x80);
    assert_eq!(emu.read(0x01FC).unwrap(), 0x02);
    emu.tick_cpu().unwrap();
    let after_rts = emu.get_state();
    assert_eq!(after_rts.r_pc, 0x8003);
    assert_eq!(after_rts.r_sp, 0xFD);
}

#[test]
fn branch_not_taken_vs_taken() {
    // BNE with Z set: not taken, the counter passes the two bytes
    let mut emu = json_emulator();
    emu.load_state(state(0x8000, 0, 0, 0, 0xFD, 0x26));
    emu.write(0x8000, 0xD0).unwrap();
    emu.write(0x8001, 0x02).unwrap();
    let before = emu.get_state().cycles;
    emu.tick_cpu().unwrap();
    let s = emu.get_state();
    assert_eq!(s.r_pc, 0x8002);
    assert_eq!(s.cycles, before + 2);

    // BNE with Z clear: taken, two operand bytes plus the displacement
    let mut emu = json_emulator();
    emu.load_state(state(0x8000, 0, 0, 0, 0xFD, 0x24));
    emu.write(0x8000, 0xD0).unwrap();
    emu.write(0x8001, 0x02).unwrap();
    let before = emu.get_state().cycles;
    emu.tick_cpu().unwrap();
    let s = emu.get_state();
    assert_eq!(s.r_pc, 0x8004);
    assert_eq!(s.cycles, before + 3);
}

#[test]
fn zero_page_wrap_indirect_x() {
    let mut emu = json_emulator();
    emu.load_state(state(0x8000, 0, 0, 0, 0xFD, 0x24));
    emu.write(0x8000, 0xA1).unwrap();
    emu.write(0x8001, 0xFF).unwrap();
    // pointer low from 0xFF, high from 0x00 (not 0x100)
    emu.write(0x00FF, 0x00).unwrap();
    emu.write(0x0000, 0x04).unwrap();
    emu.write(0x0400, 0x5A).unwrap();
    emu.tick_cpu().unwrap();
    assert_eq!(emu.get_state().r_a, 0x5A);
}

#[test]
fn absolute_x_page_cross_penalty() {
    // LDA $80FF,X with X = 1 crosses a page: one extra cycle over the base 4
    let mut emu = json_emulator();
    emu.load_state(state(0x8000, 0, 1, 0, 0xFD, 0x24));
    emu.write(0x8000, 0xBD).unwrap();
    emu.write(0x8001, 0xFF).unwrap();
    emu.write(0x8002, 0x80).unwrap();
    let before = emu.get_state().cycles;
    emu.tick_cpu().unwrap();
    assert_eq!(emu.get_state().cycles, before + 5);

    // STA $80FF,X with X = 1 crosses too, but stores take no penalty
    let mut emu = json_emulator();
    emu.load_state(state(0x8000, 0x11, 1, 0, 0xFD, 0x24));
    emu.write(0x8000, 0x9D).unwrap();
    emu.write(0x8001, 0xFF).unwrap();
    emu.write(0x8002, 0x80).unwrap();
    let before = emu.get_state().cycles;
    emu.tick_cpu().unwrap();
    assert_eq!(emu.get_state().cycles, before + 5);
    assert_eq!(emu.read(0x8100).unwrap(), 0x11);
}

#[test]
fn pha_pla_restores_a_and_flags() {
    let mut emu = json_emulator();
    emu.load_state(state(0x8000, 0x80, 0, 0, 0xFD, 0x24));
    emu.write(0x8000, 0x48).unwrap();
    emu.write(0x8001, 0x68).unwrap();
    emu.tick_cpu().unwrap();
    // clobber A in between through a fresh load of the same state fields
    let mid = emu.get_state();
    assert_eq!(mid.r_sp, 0xFC);
    emu.tick_cpu().unwrap();
    let s = emu.get_state();
    assert_eq!(s.r_a, 0x80);
    assert_eq!(s.r_sp, 0xFD);
    assert!(s.f_n);
    assert!(!s.f_z);
}

#[test]
fn php_plp_restores_status() {
    let mut emu = json_emulator();
    // C, Z and N set going in
    emu.load_state(state(0x8000, 0, 0, 0, 0xFD, 0xA7));
    emu.write(0x8000, 0x08).unwrap();
    emu.write(0x8001, 0x28).unwrap();
    emu.tick_cpu().unwrap();
    emu.tick_cpu().unwrap();
    let s = emu.get_state();
    assert!(s.f_c);
    assert!(s.f_z);
    assert!(s.f_n);
    assert_eq!(s.r_sp, 0xFD);
}

#[test]
fn brk_rti_round_trip() {
    let mut emu = json_emulator();
    emu.load_state(state(0x8000, 0x12, 0x34, 0x56, 0xFD, 0xA5));
    emu.write(0x8000, 0x00).unwrap();
    emu.write(0xFFFE, 0x00).unwrap();
    emu.write(0xFFFF, 0x90).unwrap();
    emu.write(0x9000, 0x40).unwrap();
    emu.tick_cpu().unwrap();
    let in_handler = emu.get_state();
    assert_eq!(in_handler.r_pc, 0x9000);
    assert!(in_handler.f_i);
    emu.tick_cpu().unwrap();
    let s = emu.get_state();
    assert_eq!(s.r_pc, 0x8002);
    assert_eq!(s.r_sp, 0xFD);
    assert_eq!(s.r_a, 0x12);
    assert_eq!(s.r_x, 0x34);
    assert_eq!(s.r_y, 0x56);
    assert!(s.f_c);
    assert!(!s.f_z);
    assert!(s.f_n);
}

#[test]
fn rol_ror_round_trip_byte() {
    // rotate the accumulator left then right with the carries that come out
    let mut emu = json_emulator();
    emu.load_state(state(0x8000, 0xB7, 0, 0, 0xFD, 0x25));
    emu.write(0x8000, 0x2A).unwrap();
    emu.write(0x8001, 0x6A).unwrap();
    emu.tick_cpu().unwrap();
    let mid = emu.get_state();
    assert_eq!(mid.r_a, 0x6F);
    assert!(mid.f_c);
    emu.tick_cpu().unwrap();
    let s = emu.get_state();
    assert_eq!(s.r_a, 0xB7);
    assert!(s.f_c);
}

#[test]
fn unknown_opcode_faults() {
    let mut emu = json_emulator();
    emu.load_state(state(0x8000, 0, 0, 0, 0xFD, 0x24));
    emu.write(0x8000, 0x02).unwrap();
    match emu.tick_cpu() {
        Err(Fault::UnknownOpcode { code, pc }) => {
            assert_eq!(code, 0x02);
            assert_eq!(pc, 0x8000);
        },
        other => panic!("expected an unknown-opcode fault, got {:?}", other),
    }
}

#[test]
fn breakpoint_stops_before_execution() {
    let mut emu = json_emulator();
    emu.load_state(state(0x8000, 0, 0, 0, 0xFD, 0x24));
    emu.write(0x8000, 0xA9).unwrap();
    emu.write(0x8001, 0x01).unwrap();
    emu.set_breakpoint(Some(0x8000));
    match emu.tick_cpu().unwrap() {
        CpuStatus::BreakpointHit(_) => {},
        other => panic!("expected a breakpoint, got {:?}", other),
    }
    assert_eq!(emu.get_state().r_a, 0);
    emu.set_breakpoint(None);
    emu.tick_cpu().unwrap();
    assert_eq!(emu.get_state().r_a, 1);
}

#[test]
fn cli_defers_interrupt_disable_update() {
    let mut emu = json_emulator();
    // I set going in; CLI, then NOP
    emu.load_state(state(0x8000, 0, 0, 0, 0xFD, 0x24));
    emu.write(0x8000, 0x58).unwrap();
    emu.write(0x8001, 0xEA).unwrap();
    emu.tick_cpu().unwrap();
    // the change waits for the next instruction boundary
    assert!(emu.get_state().f_i);
    emu.tick_cpu().unwrap();
    assert!(!emu.get_state().f_i);
}

#[test]
fn sp_wraps_on_push_past_zero() {
    let mut emu = json_emulator();
    emu.load_state(state(0x8000, 0x42, 0, 0, 0x00, 0x24));
    emu.write(0x8000, 0x48).unwrap();
    emu.tick_cpu().unwrap();
    let s = emu.get_state();
    assert_eq!(s.r_sp, 0xFF);
    assert_eq!(emu.read(0x0100).unwrap(), 0x42);
}

#[test]
fn status_pushed_by_php_has_bit5_and_break() {
    let mut emu = json_emulator();
    emu.load_state(state(0x8000, 0, 0, 0, 0xFD, 0x00));
    emu.write(0x8000, 0x08).unwrap();
    emu.tick_cpu().unwrap();
    let pushed = emu.read(0x01FD).unwrap();
    assert_eq!(pushed & 0x20, 0x20);
    assert_eq!(pushed & 0x10, 0x10);
}
