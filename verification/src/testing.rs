//! Single-instruction testing against third-party vectors: each record
//! names an opcode, an initial machine state with RAM contents, and the
//! state expected after exactly one instruction in the flat 64 KiB
//! addressing mode.

use vstd::prelude::*;

verus! {

use crate::cpu::{
    mem_r, spec_p, spec_poll, spec_set_p, spec_step, step_ok, BreakpointType, Cpu, StepOut,
};
use crate::emulator::Emulator;
use crate::opcode::Opcode;
use vstd::string::StringSliceAdditionalSpecFns;

/// One side of a test record: registers, the status byte, and a list of
/// address–byte pairs.
pub struct TestState {
    pub pc: u16,
    pub s: u8,
    pub a: u8,
    pub x: u8,
    pub y: u8,
    pub p: u8,
    pub ram: Vec<(u16, u8)>,
}

/// A single test record: a name whose leading two hexadecimal digits give
/// the opcode, an initial state, and the expected final state.
pub struct Test {
    pub name: String,
    pub initial: TestState,
    pub fin: Test2,
}

/// The expected final state of a test record.
pub struct Test2 {
    pub pc: u16,
    pub s: u8,
    pub a: u8,
    pub x: u8,
    pub y: u8,
    pub p: u8,
    pub ram: Vec<(u16, u8)>,
}

/// The flat memory after storing each pair of `ram`, in order; later pairs
/// overwrite earlier ones.
pub open spec fn write_ram(mem: Seq<u8>, ram: Seq<(u16, u8)>) -> Seq<u8>
    decreases ram.len(),
{
    if ram.len() == 0 {
        mem
    } else {
        write_ram(mem, ram.drop_last()).update(ram.last().0 as int, ram.last().1)
    }
}

/// Whether the stepped state matches the expected registers, status byte
/// and RAM bytes.
pub open spec fn spec_test_passes(so: StepOut, fin: Test2) -> bool {
    &&& so.cpu.r_pc == fin.pc
    &&& so.cpu.r_a == fin.a
    &&& so.cpu.r_x == fin.x
    &&& so.cpu.r_y == fin.y
    &&& so.cpu.r_sp == fin.s
    &&& spec_p(so.cpu, false) == fin.p
    &&& forall|i: int|
        0 <= i < fin.ram@.len() ==> so.mem[#[trigger] fin.ram@[i].0 as int] == fin.ram@[i].1
}

/// The CPU state a test record starts from, over the emulator's prior CPU.
pub open spec fn spec_test_cpu(prior: Cpu, initial: TestState) -> Cpu {
    spec_set_p(
        Cpu {
            r_pc: initial.pc,
            r_sp: initial.s,
            r_a: initial.a,
            r_x: initial.x,
            r_y: initial.y,
            ..prior
        },
        initial.p,
        true,
    )
}

/// Load a test record's initial state and RAM, run exactly one instruction,
/// and compare the resulting registers, status byte and RAM bytes against
/// the expected final state.
#[verifier::rlimit(60)]
pub fn run_single_test(emulator: &mut Emulator, test: Test) -> (r: bool)
    requires
        old(emulator).wf(),
        old(emulator).bus@.json(),
        old(emulator).bus@.ctx.breakpoint() is None,
        old(emulator).cpu.cycles + 10 <= usize::MAX,
    ensures
        final(emulator).wf(),
        ({
            let c_init = spec_test_cpu(old(emulator).cpu, test.initial);
            let mem_init = write_ram(old(emulator).bus@.raw_mem, test.initial.ram@);
            &&& (step_ok(spec_poll(c_init), mem_init) ==> r == spec_test_passes(
                spec_step(c_init, mem_init),
                test.fin,
            ))
            &&& (!step_ok(spec_poll(c_init), mem_init) ==> r == false)
        }),
{
    let initial = CpuStateRecord {
        pc: test.initial.pc,
        s: test.initial.s,
        a: test.initial.a,
        x: test.initial.x,
        y: test.initial.y,
        p: test.initial.p,
    };
    emulator.load_state(
        crate::cpu::CpuState {
            cycles: 0,
            r_pc: initial.pc,
            r_a: initial.a,
            r_x: initial.x,
            r_y: initial.y,
            r_sp: initial.s,
            p: initial.p,
            f_c: false,
            f_d: false,
            f_i: false,
            f_n: false,
            f_v: false,
            f_z: false,
        },
    );
    // load values to the specified addresses
    let n = test.initial.ram.len();
    let mut i: usize = 0;
    while i < n
        invariant
            emulator.wf(),
            emulator.bus@.json(),
            emulator.bus@.ctx.breakpoint() is None,
            emulator.cpu.cycles + 10 <= usize::MAX,
            i <= n,
            n == test.initial.ram@.len(),
            emulator.cpu == spec_test_cpu(old(emulator).cpu, test.initial),
            emulator.bus@ == (crate::bus::BusView {
                raw_mem: write_ram(old(emulator).bus@.raw_mem, test.initial.ram@.take(i as int)),
                ..old(emulator).bus@
            }),
        decreases n - i,
    {
        let (addr, value) = test.initial.ram[i];
        match emulator.write(addr, value) {
            Ok(()) => {},
            Err(_) => {
                proof {
                    assert(false);
                }
            },
        }
        proof {
            assert(test.initial.ram@.take(i + 1).drop_last() =~= test.initial.ram@.take(i as int));
            assert(test.initial.ram@.take(i + 1).last() == test.initial.ram@[i as int]);
        }
        i = i + 1;
    }
    proof {
        assert(test.initial.ram@.take(n as int) =~= test.initial.ram@);
    }
    // run the loaded instruction
    match emulator.tick_cpu() {
        Ok(_) => {},
        Err(_) => {
            return false;
        },
    }
    // test each register and flag against the expected state
    let result = emulator.get_state();
    if result.r_pc != test.fin.pc {
        return false;
    }
    if result.r_a != test.fin.a {
        return false;
    }
    if result.r_x != test.fin.x {
        return false;
    }
    if result.r_y != test.fin.y {
        return false;
    }
    if result.r_sp != test.fin.s {
        return false;
    }
    if result.p != test.fin.p {
        return false;
    }
    // compare the expected memory locations
    let ghost post_tick = *emulator;
    let m = test.fin.ram.len();
    let mut j: usize = 0;
    while j < m
        invariant
            emulator.wf(),
            emulator.bus@.json(),
            j <= m,
            m == test.fin.ram@.len(),
            emulator.cpu == post_tick.cpu,
            emulator.bus@ == post_tick.bus@,
            ({
                let c_init = spec_test_cpu(old(emulator).cpu, test.initial);
                let mem_init = write_ram(old(emulator).bus@.raw_mem, test.initial.ram@);
                step_ok(spec_poll(c_init), mem_init) ==> emulator.bus@.raw_mem == spec_step(
                    c_init,
                    mem_init,
                ).mem
            }),
            forall|k: int|
                0 <= k < j ==> emulator.bus@.raw_mem[#[trigger] test.fin.ram@[k].0 as int]
                    == test.fin.ram@[k].1,
        decreases m - j,
    {
        let (addr, expected) = test.fin.ram[j];
        let res = match emulator.read(addr) {
            Ok(v) => v,
            Err(_) => {
                proof {
                    assert(false);
                }
                0
            },
        };
        if res != expected {
            proof {
                assert(test.fin.ram@[j as int].0 == addr && test.fin.ram@[j as int].1
                    == expected);
                assert(emulator.bus@.raw_mem[test.fin.ram@[j as int].0 as int] != test.fin.ram@[
                    j as int].1);
            }
            return false;
        }
        j = j + 1;
    }
    true
}

/// A plain register record used while staging a test.
struct CpuStateRecord {
    pc: u16,
    s: u8,
    a: u8,
    x: u8,
    y: u8,
    p: u8,
}

/// The numeric value of an ASCII hexadecimal digit.
pub open spec fn spec_hex_digit(b: u8) -> Option<u8> {
    if 0x30 <= b <= 0x39 {
        Some((b - 0x30) as u8)
    } else if 0x61 <= b <= 0x66 {
        Some((b - 0x61 + 10) as u8)
    } else if 0x41 <= b <= 0x46 {
        Some((b - 0x41 + 10) as u8)
    } else {
        None
    }
}

/// The opcode byte a test name starts with, when its first two bytes are
/// hexadecimal digits.
pub open spec fn spec_name_opcode(bytes: Seq<u8>) -> Option<u8> {
    if bytes.len() >= 2 {
        match (spec_hex_digit(bytes[0]), spec_hex_digit(bytes[1])) {
            (Some(hi), Some(lo)) => Some((hi * 16 + lo) as u8),
            _ => None,
        }
    } else {
        None
    }
}

/// The numeric value of an ASCII hexadecimal digit.
fn hex_digit(b: u8) -> (r: Option<u8>)
    ensures
        r == spec_hex_digit(b),
{
    if 0x30 <= b && b <= 0x39 {
        Some(b - 0x30)
    } else if 0x61 <= b && b <= 0x66 {
        Some(b - 0x61 + 10)
    } else if 0x41 <= b && b <= 0x46 {
        Some(b - 0x41 + 10)
    } else {
        None
    }
}

/// Whether the opcode-hex prefix of a test record's name is in the decode
/// table: test vectors for unofficial opcodes are skipped.
pub fn test_valid_opcode(name: &str) -> (r: bool)
    ensures
        r == (match spec_name_opcode(name.spec_bytes()) {
            Some(code) => crate::opcode::spec_decode(code) is Some,
            None => false,
        }),
{
    let bytes = name.as_bytes();
    if bytes.len() < 2 {
        return false;
    }
    let hi = match hex_digit(bytes[0]) {
        Some(v) => v,
        None => return false,
    };
    let lo = match hex_digit(bytes[1]) {
        Some(v) => v,
        None => return false,
    };
    let code = hi * 16 + lo;
    match Opcode::decode(code) {
        Some(_) => true,
        None => false,
    }
}

} // verus!
