//! The 6502-family CPU interpreter: registers, flags, addressing-mode
//! resolution, instruction execution, cycle accounting, the reset and
//! interrupt-poll sequences, and the disassembly log.
//!
//! Every instruction's effect on the registers, flags and memory is stated
//! by a spec-level interpreter over a flat 64 KiB memory, and the executable
//! interpreter is proved to match it whenever the bus is in the flat
//! test-mode addressing. Outside that mode reads and writes pass through the
//! device map, and the contracts keep the bus well-formed.

use vstd::prelude::*;

verus! {

use crate::bus::{Bus, BusView};
use crate::debug::DebugFlag;
use vstd::string::StringExecFns;
use crate::opcode::{spec_decode, AddressingMode, Opcode, OpcodeName};
use crate::Fault;

/// CPU clock rate in cycles per second, used for the per-frame cycle budget.
pub const CLOCK_SPEED: usize = 21_441_960;

/// The kinds of stop event the debugger can raise.
#[derive(Clone, Copy, Debug, PartialEq, Eq, Structural)]
pub enum BreakpointType {
    /// Execution reached the program counter a breakpoint was set on.
    Pc(u16),
    /// A single stepped instruction finished.
    AfterInstruction,
    /// A single stepped frame finished.
    AfterFrame,
}

/// What one CPU tick did: either a normally executed instruction with the
/// cycles it consumed, or a stop at a breakpoint before anything ran.
#[derive(Clone, Copy, Debug, PartialEq, Eq, Structural)]
pub enum CpuStatus {
    /// An instruction completed, consuming the given number of cycles,
    /// penalties included.
    Normal(usize),
    /// The debugger asked to stop; no instruction was executed.
    BreakpointHit(BreakpointType),
}

/// The processor state: registers, flags, the deferred interrupt-disable
/// latch, the cycle counter, and the per-instruction page-cross marker.
#[derive(Clone, Copy, Debug, PartialEq, Eq, Structural)]
pub struct Cpu {
    /// Cycles consumed since reset.
    pub cycles: usize,
    /// Whether the current instruction's addressing crossed a page.
    pub page_crossed: bool,
    /// Accumulator.
    pub r_a: u8,
    /// X index register.
    pub r_x: u8,
    /// Y index register.
    pub r_y: u8,
    /// Stack pointer, offset into page 1.
    pub r_sp: u8,
    /// Program counter.
    pub r_pc: u16,
    /// Carry flag.
    pub f_c: bool,
    /// Zero flag.
    pub f_z: bool,
    /// Interrupt-disable flag.
    pub f_i: bool,
    /// Decimal-mode flag, stored but without effect on arithmetic.
    pub f_d: bool,
    /// Overflow flag.
    pub f_v: bool,
    /// Negative flag.
    pub f_n: bool,
    /// The value the interrupt-disable flag will take at the next poll.
    pub pending_iflag_value: bool,
    /// Whether a deferred interrupt-disable update is pending.
    pub pending_iflag_update: bool,
}

/// CPU state as a flat record, for the single-instruction test interface.
pub struct CpuState {
    pub cycles: usize,
    pub r_a: u8,
    pub r_x: u8,
    pub r_y: u8,
    pub r_sp: u8,
    pub r_pc: u16,
    pub f_c: bool,
    pub f_z: bool,
    pub f_i: bool,
    pub f_d: bool,
    pub f_v: bool,
    pub f_n: bool,
    pub p: u8,
}

/// An effective address resolved from an addressing mode: the address, the
/// program counter after the operand bytes, and whether a page was crossed.
pub struct EaOut {
    pub addr: u16,
    pub pc: u16,
    pub crossed: bool,
}

/// A CPU and a flat memory after executing part of an instruction.
pub struct StepOut {
    pub cpu: Cpu,
    pub mem: Seq<u8>,
}

/// The byte of the flat memory at `addr`.
pub open spec fn mem_r(mem: Seq<u8>, addr: u16) -> u8 {
    mem[addr as int]
}

/// The flat memory with `value` stored at `addr`.
pub open spec fn mem_w(mem: Seq<u8>, addr: u16, value: u8) -> Seq<u8> {
    mem.update(addr as int, value)
}

/// The instruction families dispatched through the data half of the
/// interpreter: loads, stores, transfers, arithmetic, register steps,
/// shifts, logic, the bit test and the comparisons.
pub open spec fn mem_family(name: OpcodeName) -> bool {
    match name {
        OpcodeName::Lda | OpcodeName::Sta | OpcodeName::Ldx | OpcodeName::Stx | OpcodeName::Ldy
            | OpcodeName::Sty | OpcodeName::Tax | OpcodeName::Tay | OpcodeName::Txa
            | OpcodeName::Tya | OpcodeName::Adc | OpcodeName::Sbc | OpcodeName::Inc
            | OpcodeName::Dec | OpcodeName::Inx | OpcodeName::Dex | OpcodeName::Iny
            | OpcodeName::Dey | OpcodeName::Asl | OpcodeName::Lsr | OpcodeName::Rol
            | OpcodeName::Ror | OpcodeName::And | OpcodeName::Ora | OpcodeName::Eor
            | OpcodeName::Bit | OpcodeName::Cmp | OpcodeName::Cpx | OpcodeName::Cpy => true,
        _ => false,
    }
}

/// Whether `mode` resolves to a memory address at all.
pub open spec fn mode_addressable(mode: AddressingMode) -> bool {
    !(mode is Accumulator || mode is Implicit || mode is Relative)
}

/// The effective address `mode` resolves to, with the program counter at the
/// first operand byte. Zero-page indexing wraps on page 0; absolute indexing
/// wraps at the top of memory and records the page crossing; the indirect
/// jump reads its high pointer byte without carrying into the pointer's high
/// byte, preserving the page-boundary quirk.
pub open spec fn spec_ea(c: Cpu, mem: Seq<u8>, mode: AddressingMode) -> EaOut {
    match mode {
        AddressingMode::Immediate => EaOut {
            addr: c.r_pc,
            pc: c.r_pc.wrapping_add(1),
            crossed: false,
        },
        AddressingMode::ZeroPage => EaOut {
            addr: mem_r(mem, c.r_pc) as u16,
            pc: c.r_pc.wrapping_add(1),
            crossed: false,
        },
        AddressingMode::ZeroPageX => EaOut {
            addr: mem_r(mem, c.r_pc).wrapping_add(c.r_x) as u16,
            pc: c.r_pc.wrapping_add(1),
            crossed: false,
        },
        AddressingMode::ZeroPageY => EaOut {
            addr: mem_r(mem, c.r_pc).wrapping_add(c.r_y) as u16,
            pc: c.r_pc.wrapping_add(1),
            crossed: false,
        },
        AddressingMode::Absolute => {
            let lo = mem_r(mem, c.r_pc) as u16;
            let hi = mem_r(mem, c.r_pc.wrapping_add(1)) as u16;
            EaOut { addr: ((hi << 8) | lo) as u16, pc: c.r_pc.wrapping_add(2), crossed: false }
        },
        AddressingMode::AbsoluteX => {
            let lo = mem_r(mem, c.r_pc) as u16;
            let hi = mem_r(mem, c.r_pc.wrapping_add(1)) as u16;
            let base = ((hi << 8) | lo) as u16;
            let addr = base.wrapping_add(c.r_x as u16);
            EaOut { addr, pc: c.r_pc.wrapping_add(2), crossed: (addr >> 8) != (base >> 8) }
        },
        AddressingMode::AbsoluteY => {
            let lo = mem_r(mem, c.r_pc) as u16;
            let hi = mem_r(mem, c.r_pc.wrapping_add(1)) as u16;
            let base = ((hi << 8) | lo) as u16;
            let addr = base.wrapping_add(c.r_y as u16);
            EaOut { addr, pc: c.r_pc.wrapping_add(2), crossed: (addr >> 8) != (base >> 8) }
        },
        AddressingMode::Indirect => {
            let lo_ptr = mem_r(mem, c.r_pc);
            let hi_ptr = mem_r(mem, c.r_pc.wrapping_add(1));
            let ptr_lo = (((hi_ptr as u16) << 8) | (lo_ptr as u16)) as u16;
            let ptr_hi = (((hi_ptr as u16) << 8) | (lo_ptr.wrapping_add(1) as u16)) as u16;
            let lo = mem_r(mem, ptr_lo) as u16;
            let hi = mem_r(mem, ptr_hi) as u16;
            EaOut { addr: ((hi << 8) | lo) as u16, pc: c.r_pc.wrapping_add(2), crossed: false }
        },
        AddressingMode::IndirectX => {
            let base = mem_r(mem, c.r_pc);
            let lo_ptr = base.wrapping_add(c.r_x);
            let lo = mem_r(mem, lo_ptr as u16) as u16;
            let hi = mem_r(mem, lo_ptr.wrapping_add(1) as u16) as u16;
            EaOut { addr: ((hi << 8) | lo) as u16, pc: c.r_pc.wrapping_add(1), crossed: false }
        },
        AddressingMode::IndirectY => {
            let lo_ptr = mem_r(mem, c.r_pc);
            let lo = mem_r(mem, lo_ptr as u16) as u16;
            let hi = mem_r(mem, lo_ptr.wrapping_add(1) as u16) as u16;
            let base = ((hi << 8) | lo) as u16;
            let addr = base.wrapping_add(c.r_y as u16);
            EaOut { addr, pc: c.r_pc.wrapping_add(1), crossed: (addr >> 8) != (base >> 8) }
        },
        _ => EaOut { addr: 0, pc: c.r_pc, crossed: false },
    }
}

/// The CPU with its zero and negative flags set from `value`.
pub open spec fn spec_zn(c: Cpu, value: u8) -> Cpu {
    Cpu { f_z: value == 0, f_n: (value & 0x80) > 0, ..c }
}

/// The CPU with one extra cycle when `crossed` holds.
pub open spec fn spec_penalty(c: Cpu, crossed: bool) -> Cpu {
    if crossed {
        Cpu { cycles: (c.cycles + 1) as usize, ..c }
    } else {
        c
    }
}

/// The packed status byte: NV1BDIZC, with bit 5 always set and bit 4 from
/// `f_b`.
pub open spec fn spec_p(c: Cpu, f_b: bool) -> u8 {
    ((if c.f_n {
        128int
    } else {
        0int
    }) + (if c.f_v {
        64int
    } else {
        0int
    }) + 32 + (if f_b {
        16int
    } else {
        0int
    }) + (if c.f_d {
        8int
    } else {
        0int
    }) + (if c.f_i {
        4int
    } else {
        0int
    }) + (if c.f_z {
        2int
    } else {
        0int
    }) + (if c.f_c {
        1int
    } else {
        0int
    })) as u8
}

/// The CPU with its flags unpacked from the status byte `flags`; the
/// interrupt-disable bit is applied at once or deferred to the next poll.
pub open spec fn spec_set_p(c: Cpu, flags: u8, update_i_now: bool) -> Cpu {
    let c1 = Cpu {
        f_c: (flags & 0x01) > 0,
        f_z: (flags & 0x02) > 0,
        f_d: (flags & 0x08) > 0,
        f_v: (flags & 0x40) > 0,
        f_n: (flags & 0x80) > 0,
        ..c
    };
    if update_i_now {
        Cpu { f_i: (flags & 0x04) > 0, ..c1 }
    } else {
        Cpu { pending_iflag_value: (flags & 0x04) > 0, pending_iflag_update: true, ..c1 }
    }
}

/// The CPU after the interrupt poll at an instruction boundary: a pending
/// interrupt-disable update is applied.
pub open spec fn spec_poll(c: Cpu) -> Cpu {
    if c.pending_iflag_update {
        Cpu { f_i: c.pending_iflag_value, pending_iflag_update: false, ..c }
    } else {
        c
    }
}

/// The state after pushing `value`: it lands at the stack pointer's page-1
/// address and the stack pointer moves down with 8-bit wrap.
pub open spec fn spec_push(c: Cpu, mem: Seq<u8>, value: u8) -> StepOut {
    StepOut {
        cpu: Cpu { r_sp: c.r_sp.wrapping_sub(1), ..c },
        mem: mem_w(mem, (0x0100 + c.r_sp) as u16, value),
    }
}

/// The stack pointer after a pop, and the byte it exposes: the pointer moves
/// up with 8-bit wrap and the byte at its new page-1 address is read.
pub open spec fn spec_pop(c: Cpu, mem: Seq<u8>) -> (Cpu, u8) {
    let sp = c.r_sp.wrapping_add(1);
    (Cpu { r_sp: sp, ..c }, mem_r(mem, (0x0100 + sp) as u16))
}

/// The branch target: the program counter plus the sign-extended
/// displacement, plus one for the displacement byte itself.
pub open spec fn spec_branch_target(pc: u16, offset: u8) -> u16 {
    if offset >= 0x80 {
        pc.wrapping_add(offset as u16).wrapping_sub(0x100).wrapping_add(1)
    } else {
        pc.wrapping_add(offset as u16).wrapping_add(1)
    }
}

/// Whether a branch with mnemonic `name` is taken under the CPU's flags.
pub open spec fn spec_branch_taken(c: Cpu, name: OpcodeName) -> bool {
    match name {
        OpcodeName::Bcc => !c.f_c,
        OpcodeName::Bcs => c.f_c,
        OpcodeName::Beq => c.f_z,
        OpcodeName::Bne => !c.f_z,
        OpcodeName::Bpl => !c.f_n,
        OpcodeName::Bmi => c.f_n,
        OpcodeName::Bvc => !c.f_v,
        OpcodeName::Bvs => c.f_v,
        _ => false,
    }
}

/// A branch instruction with the program counter at the displacement byte:
/// not taken, the counter just passes the displacement; taken, it moves to
/// the target and one cycle is added.
pub open spec fn spec_branch(c: Cpu, mem: Seq<u8>, name: OpcodeName) -> Cpu {
    if spec_branch_taken(c, name) {
        Cpu {
            cycles: (c.cycles + 1) as usize,
            r_pc: spec_branch_target(c.r_pc, mem_r(mem, c.r_pc)),
            ..c
        }
    } else {
        Cpu { r_pc: c.r_pc.wrapping_add(1), ..c }
    }
}

/// A load into the accumulator: sets Z and N, with the page-cross penalty.
pub open spec fn spec_lda(c: Cpu, mem: Seq<u8>, mode: AddressingMode) -> Cpu {
    let ea = spec_ea(c, mem, mode);
    let v = mem_r(mem, ea.addr);
    spec_penalty(
        spec_zn(Cpu { r_a: v, r_pc: ea.pc, page_crossed: c.page_crossed || ea.crossed, ..c }, v),
        ea.crossed,
    )
}

/// A load into the X register.
pub open spec fn spec_ldx(c: Cpu, mem: Seq<u8>, mode: AddressingMode) -> Cpu {
    let ea = spec_ea(c, mem, mode);
    let v = mem_r(mem, ea.addr);
    spec_penalty(
        spec_zn(Cpu { r_x: v, r_pc: ea.pc, page_crossed: c.page_crossed || ea.crossed, ..c }, v),
        ea.crossed,
    )
}

/// A load into the Y register.
pub open spec fn spec_ldy(c: Cpu, mem: Seq<u8>, mode: AddressingMode) -> Cpu {
    let ea = spec_ea(c, mem, mode);
    let v = mem_r(mem, ea.addr);
    spec_penalty(
        spec_zn(Cpu { r_y: v, r_pc: ea.pc, page_crossed: c.page_crossed || ea.crossed, ..c }, v),
        ea.crossed,
    )
}

/// A store of `value` through the addressing mode, leaving the flags alone.
pub open spec fn spec_store(c: Cpu, mem: Seq<u8>, mode: AddressingMode, value: u8) -> StepOut {
    let ea = spec_ea(c, mem, mode);
    StepOut {
        cpu: Cpu { r_pc: ea.pc, page_crossed: c.page_crossed || ea.crossed, ..c },
        mem: mem_w(mem, ea.addr, value),
    }
}

/// Add with carry, or subtract via the ones complement of the operand: the
/// sum of accumulator, operand and carry-in, with C the unsigned carry-out
/// and V the signed-overflow predicate, and the page-cross penalty.
pub open spec fn spec_adc(c: Cpu, mem: Seq<u8>, mode: AddressingMode, sub: bool) -> Cpu {
    let ea = spec_ea(c, mem, mode);
    let a = c.r_a as u16;
    let m = if sub {
        (mem_r(mem, ea.addr) ^ 0xFF) as u16
    } else {
        mem_r(mem, ea.addr) as u16
    };
    let sum = (a + m + (if c.f_c {
        1int
    } else {
        0int
    })) as u16;
    let c1 = Cpu {
        r_a: sum as u8,
        r_pc: ea.pc,
        page_crossed: c.page_crossed || ea.crossed,
        f_c: sum > 0xFF,
        f_v: ((sum ^ a) & (sum ^ m) & 0x80) > 0,
        ..c
    };
    spec_penalty(spec_zn(c1, sum as u8), ea.crossed)
}

/// An increment or decrement of a memory byte, setting Z and N.
pub open spec fn spec_inc_dec(c: Cpu, mem: Seq<u8>, mode: AddressingMode, down: bool) -> StepOut {
    let ea = spec_ea(c, mem, mode);
    let v = if down {
        mem_r(mem, ea.addr).wrapping_sub(1)
    } else {
        mem_r(mem, ea.addr).wrapping_add(1)
    };
    StepOut {
        cpu: spec_zn(Cpu { r_pc: ea.pc, page_crossed: c.page_crossed || ea.crossed, ..c }, v),
        mem: mem_w(mem, ea.addr, v),
    }
}

/// The shifted or rotated byte and the carry bit it shifts out.
pub open spec fn spec_shift_byte(kind: OpcodeName, value: u8, carry: bool) -> (u8, bool) {
    match kind {
        OpcodeName::Asl => (((value as u16) << 1) as u8, (value & 0x80) > 0),
        OpcodeName::Lsr => ((value >> 1) as u8, (value & 1) > 0),
        OpcodeName::Rol => (
            (((value as u16) << 1) as u8 | (if carry {
                1u8
            } else {
                0u8
            })) as u8,
            (value & 0x80) > 0,
        ),
        _ => (
            ((value >> 1) | (if carry {
                0x80u8
            } else {
                0u8
            })) as u8,
            (value & 1) > 0,
        ),
    }
}

/// A shift or rotate on the accumulator or on memory: the carry takes the
/// shifted-out bit and Z and N follow the shifted value.
pub open spec fn spec_shift(c: Cpu, mem: Seq<u8>, mode: AddressingMode, kind: OpcodeName) -> StepOut {
    if mode is Accumulator {
        let (v, cy) = spec_shift_byte(kind, c.r_a, c.f_c);
        StepOut { cpu: spec_zn(Cpu { r_a: v, f_c: cy, ..c }, v), mem }
    } else {
        let ea = spec_ea(c, mem, mode);
        let (v, cy) = spec_shift_byte(kind, mem_r(mem, ea.addr), c.f_c);
        StepOut {
            cpu: spec_zn(
                Cpu { r_pc: ea.pc, page_crossed: c.page_crossed || ea.crossed, f_c: cy, ..c },
                v,
            ),
            mem: mem_w(mem, ea.addr, v),
        }
    }
}

/// The accumulator combined with the operand by AND, OR or XOR.
pub open spec fn spec_logic_byte(kind: OpcodeName, a: u8, m: u8) -> u8 {
    match kind {
        OpcodeName::And => (a & m) as u8,
        OpcodeName::Ora => (a | m) as u8,
        _ => (a ^ m) as u8,
    }
}

/// A bitwise operation on the accumulator, setting Z and N, with the
/// page-cross penalty.
pub open spec fn spec_logic(c: Cpu, mem: Seq<u8>, mode: AddressingMode, kind: OpcodeName) -> Cpu {
    let ea = spec_ea(c, mem, mode);
    let v = spec_logic_byte(kind, c.r_a, mem_r(mem, ea.addr));
    spec_penalty(
        spec_zn(Cpu { r_a: v, r_pc: ea.pc, page_crossed: c.page_crossed || ea.crossed, ..c }, v),
        ea.crossed,
    )
}

/// The bit test: N and V from the memory byte's top bits, Z from its AND
/// with the accumulator.
pub open spec fn spec_bit(c: Cpu, mem: Seq<u8>, mode: AddressingMode) -> Cpu {
    let ea = spec_ea(c, mem, mode);
    let m = mem_r(mem, ea.addr);
    Cpu {
        r_pc: ea.pc,
        page_crossed: c.page_crossed || ea.crossed,
        f_v: (m & 0x40) > 0,
        f_n: (m & 0x80) > 0,
        f_z: (c.r_a & m) == 0,
        ..c
    }
}

/// A comparison of `reg` with the operand: C says the register is at least
/// the operand, Z and N follow their wrapped difference, and the page-cross
/// penalty applies.
pub open spec fn spec_compare(c: Cpu, mem: Seq<u8>, mode: AddressingMode, reg: u8) -> Cpu {
    let ea = spec_ea(c, mem, mode);
    let v = mem_r(mem, ea.addr);
    spec_penalty(
        spec_zn(
            Cpu {
                r_pc: ea.pc,
                page_crossed: c.page_crossed || ea.crossed,
                f_c: reg >= v,
                ..c
            },
            reg.wrapping_sub(v),
        ),
        ea.crossed,
    )
}

/// A jump to subroutine: the return address minus one is pushed high byte
/// first, and the counter moves to the absolute target.
pub open spec fn spec_jsr(c: Cpu, mem: Seq<u8>) -> StepOut {
    let ea = spec_ea(c, mem, AddressingMode::Absolute);
    let ret = ea.pc.wrapping_sub(1);
    let s1 = spec_push(Cpu { r_pc: ea.pc, ..c }, mem, (ret >> 8) as u8);
    let s2 = spec_push(s1.cpu, s1.mem, ret as u8);
    StepOut { cpu: Cpu { r_pc: ea.addr, ..s2.cpu }, mem: s2.mem }
}

/// A return from subroutine: the counter is popped low byte first and
/// advanced past the call's last byte.
pub open spec fn spec_rts(c: Cpu, mem: Seq<u8>) -> Cpu {
    let (c1, lo) = spec_pop(c, mem);
    let (c2, hi) = spec_pop(c1, mem);
    Cpu { r_pc: ((((hi as u16) << 8) | (lo as u16)) as u16).wrapping_add(1), ..c2 }
}

/// The break instruction: the counter past the padding byte and the status
/// with the break bit are pushed, interrupts are disabled, and the counter
/// is loaded from the vector at 0xFFFE.
pub open spec fn spec_brk(c: Cpu, mem: Seq<u8>) -> StepOut {
    let addr = c.r_pc.wrapping_add(1);
    let s1 = spec_push(c, mem, (addr >> 8) as u8);
    let s2 = spec_push(s1.cpu, s1.mem, addr as u8);
    let s3 = spec_push(s2.cpu, s2.mem, spec_p(c, true));
    let lo = mem_r(s3.mem, 0xFFFE) as u16;
    let hi = mem_r(s3.mem, 0xFFFF) as u16;
    StepOut { cpu: Cpu { f_i: true, r_pc: ((hi << 8) | lo) as u16, ..s3.cpu }, mem: s3.mem }
}

/// A return from interrupt: the status is popped and applied at once, then
/// the counter is popped low byte first, without the extra increment.
pub open spec fn spec_rti(c: Cpu, mem: Seq<u8>) -> Cpu {
    let (c1, p) = spec_pop(c, mem);
    let c2 = spec_set_p(c1, p, true);
    let (c3, lo) = spec_pop(c2, mem);
    let (c4, hi) = spec_pop(c3, mem);
    Cpu { r_pc: (((hi as u16) << 8) | (lo as u16)) as u16, ..c4 }
}

/// One instruction's effect, with the counter already past the opcode byte;
/// the base cycle cost is added by `spec_step`.
pub open spec fn spec_exec(c: Cpu, mem: Seq<u8>, op: Opcode) -> StepOut {
    match op.name {
        OpcodeName::Lda => StepOut { cpu: spec_lda(c, mem, op.mode), mem },
        OpcodeName::Ldx => StepOut { cpu: spec_ldx(c, mem, op.mode), mem },
        OpcodeName::Ldy => StepOut { cpu: spec_ldy(c, mem, op.mode), mem },
        OpcodeName::Sta => spec_store(c, mem, op.mode, c.r_a),
        OpcodeName::Stx => spec_store(c, mem, op.mode, c.r_x),
        OpcodeName::Sty => spec_store(c, mem, op.mode, c.r_y),
        OpcodeName::Tax => StepOut { cpu: spec_zn(Cpu { r_x: c.r_a, ..c }, c.r_a), mem },
        OpcodeName::Tay => StepOut { cpu: spec_zn(Cpu { r_y: c.r_a, ..c }, c.r_a), mem },
        OpcodeName::Txa => StepOut { cpu: spec_zn(Cpu { r_a: c.r_x, ..c }, c.r_x), mem },
        OpcodeName::Tya => StepOut { cpu: spec_zn(Cpu { r_a: c.r_y, ..c }, c.r_y), mem },
        OpcodeName::Adc => StepOut { cpu: spec_adc(c, mem, op.mode, false), mem },
        OpcodeName::Sbc => StepOut { cpu: spec_adc(c, mem, op.mode, true), mem },
        OpcodeName::Inc => spec_inc_dec(c, mem, op.mode, false),
        OpcodeName::Dec => spec_inc_dec(c, mem, op.mode, true),
        OpcodeName::Inx => StepOut {
            cpu: spec_zn(Cpu { r_x: c.r_x.wrapping_add(1), ..c }, c.r_x.wrapping_add(1)),
            mem,
        },
        OpcodeName::Dex => StepOut {
            cpu: spec_zn(Cpu { r_x: c.r_x.wrapping_sub(1), ..c }, c.r_x.wrapping_sub(1)),
            mem,
        },
        OpcodeName::Iny => StepOut {
            cpu: spec_zn(Cpu { r_y: c.r_y.wrapping_add(1), ..c }, c.r_y.wrapping_add(1)),
            mem,
        },
        OpcodeName::Dey => StepOut {
            cpu: spec_zn(Cpu { r_y: c.r_y.wrapping_sub(1), ..c }, c.r_y.wrapping_sub(1)),
            mem,
        },
        OpcodeName::Asl => spec_shift(c, mem, op.mode, OpcodeName::Asl),
        OpcodeName::Lsr => spec_shift(c, mem, op.mode, OpcodeName::Lsr),
        OpcodeName::Rol => spec_shift(c, mem, op.mode, OpcodeName::Rol),
        OpcodeName::Ror => spec_shift(c, mem, op.mode, OpcodeName::Ror),
        OpcodeName::And => StepOut { cpu: spec_logic(c, mem, op.mode, OpcodeName::And), mem },
        OpcodeName::Ora => StepOut { cpu: spec_logic(c, mem, op.mode, OpcodeName::Ora), mem },
        OpcodeName::Eor => StepOut { cpu: spec_logic(c, mem, op.mode, OpcodeName::Eor), mem },
        OpcodeName::Bit => StepOut { cpu: spec_bit(c, mem, op.mode), mem },
        OpcodeName::Cmp => StepOut { cpu: spec_compare(c, mem, op.mode, c.r_a), mem },
        OpcodeName::Cpx => StepOut { cpu: spec_compare(c, mem, op.mode, c.r_x), mem },
        OpcodeName::Cpy => StepOut { cpu: spec_compare(c, mem, op.mode, c.r_y), mem },
        OpcodeName::Bcc => StepOut { cpu: spec_branch(c, mem, op.name), mem },
        OpcodeName::Bcs => StepOut { cpu: spec_branch(c, mem, op.name), mem },
        OpcodeName::Beq => StepOut { cpu: spec_branch(c, mem, op.name), mem },
        OpcodeName::Bne => StepOut { cpu: spec_branch(c, mem, op.name), mem },
        OpcodeName::Bpl => StepOut { cpu: spec_branch(c, mem, op.name), mem },
        OpcodeName::Bmi => StepOut { cpu: spec_branch(c, mem, op.name), mem },
        OpcodeName::Bvc => StepOut { cpu: spec_branch(c, mem, op.name), mem },
        OpcodeName::Bvs => StepOut { cpu: spec_branch(c, mem, op.name), mem },
        OpcodeName::Jmp => {
            let ea = spec_ea(c, mem, op.mode);
            StepOut {
                cpu: Cpu {
                    r_pc: ea.addr,
                    page_crossed: c.page_crossed || ea.crossed,
                    ..c
                },
                mem,
            }
        },
        OpcodeName::Jsr => spec_jsr(c, mem),
        OpcodeName::Rts => StepOut { cpu: spec_rts(c, mem), mem },
        OpcodeName::Brk => spec_brk(c, mem),
        OpcodeName::Rti => StepOut { cpu: spec_rti(c, mem), mem },
        OpcodeName::Pha => spec_push(c, mem, c.r_a),
        OpcodeName::Pla => {
            let (c1, v) = spec_pop(c, mem);
            StepOut { cpu: spec_zn(Cpu { r_a: v, ..c1 }, v), mem }
        },
        OpcodeName::Php => spec_push(c, mem, spec_p(c, true)),
        OpcodeName::Plp => {
            let (c1, p) = spec_pop(c, mem);
            StepOut { cpu: spec_set_p(c1, p, false), mem }
        },
        OpcodeName::Txs => StepOut { cpu: Cpu { r_sp: c.r_x, ..c }, mem },
        OpcodeName::Tsx => StepOut { cpu: spec_zn(Cpu { r_x: c.r_sp, ..c }, c.r_sp), mem },
        OpcodeName::Clc => StepOut { cpu: Cpu { f_c: false, ..c }, mem },
        OpcodeName::Sec => StepOut { cpu: Cpu { f_c: true, ..c }, mem },
        OpcodeName::Cli => StepOut {
            cpu: Cpu { pending_iflag_value: false, pending_iflag_update: true, ..c },
            mem,
        },
        OpcodeName::Sei => StepOut {
            cpu: Cpu { pending_iflag_value: true, pending_iflag_update: true, ..c },
            mem,
        },
        OpcodeName::Cld => StepOut { cpu: Cpu { f_d: false, ..c }, mem },
        OpcodeName::Sed => StepOut { cpu: Cpu { f_d: true, ..c }, mem },
        OpcodeName::Clv => StepOut { cpu: Cpu { f_v: false, ..c }, mem },
        OpcodeName::Nop => StepOut { cpu: c, mem },
    }
}

/// Whether a whole instruction step is defined: the byte at the program
/// counter decodes to an official opcode.
pub open spec fn step_ok(c: Cpu, mem: Seq<u8>) -> bool {
    spec_decode(mem_r(mem, c.r_pc)) is Some
}

/// One whole instruction over a flat memory: the interrupt poll, the opcode
/// fetch, the instruction's effect, and the base cycle cost.
pub open spec fn spec_step(c: Cpu, mem: Seq<u8>) -> StepOut {
    let c0 = spec_poll(c);
    let op = spec_decode(mem_r(mem, c0.r_pc))->Some_0;
    let c1 = Cpu { r_pc: c0.r_pc.wrapping_add(1), page_crossed: false, ..c0 };
    let so = spec_exec(c1, mem, op);
    StepOut { cpu: Cpu { cycles: (so.cpu.cycles + op.cycles) as usize, ..so.cpu }, mem: so.mem }
}


impl Cpu {
    /// A processor in its power-on configuration: interrupts disabled, the
    /// stack pointer at 0xFD, and the program counter at the reset vector.
    pub fn new() -> (r: Cpu)
        ensures
            r == (Cpu {
                cycles: 0,
                page_crossed: false,
                r_a: 0,
                r_x: 0,
                r_y: 0,
                r_sp: 0xFD,
                r_pc: 0xFFFC,
                f_c: false,
                f_z: false,
                f_i: true,
                f_d: false,
                f_v: false,
                f_n: false,
                pending_iflag_value: false,
                pending_iflag_update: false,
            }),
    {
        Cpu {
            cycles: 0,
            page_crossed: false,
            r_a: 0,
            r_x: 0,
            r_y: 0,
            r_sp: 0xFD,
            r_pc: 0xFFFC,
            f_c: false,
            f_z: false,
            f_i: true,
            f_d: false,
            f_v: false,
            f_n: false,
            pending_iflag_value: false,
            pending_iflag_update: false,
        }
    }

    /// Cycles consumed since reset.
    pub fn cycles(&self) -> (r: usize)
        ensures
            r == self.cycles,
    {
        self.cycles
    }

    /// The packed status byte, with bit 5 set and bit 4 from `f_b`.
    fn get_p(&self, f_b: bool) -> (r: u8)
        ensures
            r == spec_p(*self, f_b),
    {
        (if self.f_n {
            128u8
        } else {
            0u8
        }) + (if self.f_v {
            64u8
        } else {
            0u8
        }) + 32 + (if f_b {
            16u8
        } else {
            0u8
        }) + (if self.f_d {
            8u8
        } else {
            0u8
        }) + (if self.f_i {
            4u8
        } else {
            0u8
        }) + (if self.f_z {
            2u8
        } else {
            0u8
        }) + (if self.f_c {
            1u8
        } else {
            0u8
        })
    }

    /// Unpack the status byte `flags`, applying or deferring the
    /// interrupt-disable bit.
    fn set_p(&mut self, flags: u8, update_i_now: bool)
        ensures
            *final(self) == spec_set_p(*old(self), flags, update_i_now),
    {
        self.f_c = (flags & 0x01) > 0;
        self.f_z = (flags & 0x02) > 0;
        self.f_d = (flags & 0x08) > 0;
        self.f_v = (flags & 0x40) > 0;
        self.f_n = (flags & 0x80) > 0;
        if update_i_now {
            self.f_i = (flags & 0x04) > 0;
        } else {
            self.pending_iflag_value = (flags & 0x04) > 0;
            self.pending_iflag_update = true;
        }
    }

    /// Set the zero and negative flags from `value`.
    fn update_zn_flags(&mut self, value: u8)
        ensures
            *final(self) == spec_zn(*old(self), value),
    {
        self.f_z = value == 0;
        self.f_n = (value & 0x80) > 0;
    }

    /// The current registers, flags and status byte as a flat record.
    pub fn get_state(&self) -> (r: CpuState)
        ensures
            r.cycles == self.cycles,
            r.r_a == self.r_a && r.r_x == self.r_x && r.r_y == self.r_y,
            r.r_sp == self.r_sp && r.r_pc == self.r_pc,
            r.f_c == self.f_c && r.f_z == self.f_z && r.f_i == self.f_i,
            r.f_d == self.f_d && r.f_v == self.f_v && r.f_n == self.f_n,
            r.p == spec_p(*self, false),
    {
        let p = self.get_p(false);
        CpuState {
            cycles: self.cycles,
            r_a: self.r_a,
            r_x: self.r_x,
            r_y: self.r_y,
            r_sp: self.r_sp,
            r_pc: self.r_pc,
            f_c: self.f_c,
            f_z: self.f_z,
            f_i: self.f_i,
            f_d: self.f_d,
            f_v: self.f_v,
            f_n: self.f_n,
            p,
        }
    }

    /// Load registers and the status byte from a flat record; the
    /// interrupt-disable bit applies at once.
    pub fn load_state(&mut self, state: CpuState)
        ensures
            *final(self) == spec_set_p(
                Cpu {
                    r_pc: state.r_pc,
                    r_sp: state.r_sp,
                    r_a: state.r_a,
                    r_x: state.r_x,
                    r_y: state.r_y,
                    ..*old(self)
                },
                state.p,
                true,
            ),
    {
        self.r_pc = state.r_pc;
        self.r_sp = state.r_sp;
        self.r_a = state.r_a;
        self.r_x = state.r_x;
        self.r_y = state.r_y;
        self.set_p(state.p, true);
    }

    /// Apply a pending interrupt-disable update at the instruction boundary.
    fn poll_irq(&mut self)
        ensures
            *final(self) == spec_poll(*old(self)),
    {
        if self.pending_iflag_update {
            self.f_i = self.pending_iflag_value;
            self.pending_iflag_update = false;
        }
    }

    /// Push `value` onto the page-1 stack; the stack pointer decrements with
    /// 8-bit wrap.
    fn push_stack(&mut self, bus: &mut Bus, value: u8) -> (r: Result<(), Fault>)
        requires
            old(bus)@.wf(),
        ensures
            final(bus)@.wf(),
            r is Ok,
            *final(self) == (Cpu { r_sp: old(self).r_sp.wrapping_sub(1), ..*old(self) }),
            final(bus)@ == old(bus)@.after_write((0x0100 + old(self).r_sp) as u16, value),
            old(bus)@.json() ==> {
                let so = spec_push(*old(self), old(bus)@.raw_mem, value);
                *final(self) == so.cpu && final(bus)@ == (BusView {
                    raw_mem: so.mem,
                    ..old(bus)@
                })
            },
    {
        let addr = (self.r_sp as u16) + 0x0100;
        match bus.write(addr, value) {
            Ok(()) => {},
            Err(_) => {
                // the stack lives below the device window, so this write
                // cannot fault; the branch keeps the routing total
                proof {
                    assert(false);
                }
            },
        }
        self.r_sp = self.r_sp.wrapping_sub(1);
        Ok(())
    }

    /// Pop a byte from the page-1 stack; the stack pointer increments with
    /// 8-bit wrap.
    fn pop_stack(&mut self, bus: &mut Bus) -> (r: Result<u8, Fault>)
        requires
            old(bus)@.wf(),
        ensures
            final(bus)@.wf(),
            final(bus)@ == old(bus)@,
            *final(self) == (Cpu { r_sp: old(self).r_sp.wrapping_add(1), ..*old(self) }),
            r == Ok::<u8, Fault>(
                old(bus)@.read_val((0x0100 + old(self).r_sp.wrapping_add(1)) as u16),
            ),
            old(bus)@.json() ==> {
                let (c1, v) = spec_pop(*old(self), old(bus)@.raw_mem);
                *final(self) == c1 && r == Ok::<u8, Fault>(v)
            },
    {
        self.r_sp = self.r_sp.wrapping_add(1);
        let addr = (self.r_sp as u16) + 0x0100;
        let v = match bus.cpu_read(addr) {
            Ok(v) => v,
            Err(_) => {
                proof {
                    assert(false);
                }
                0
            },
        };
        Ok(v)
    }

    /// Resolve the effective address for `mode`, consuming the operand bytes
    /// and recording any page crossing.
    #[verifier::rlimit(60)]
    fn get_address(&mut self, bus: &mut Bus, mode: AddressingMode) -> (r: Result<u16, Fault>)
        requires
            old(bus)@.wf(),
            mode_addressable(mode),
        ensures
            final(bus)@.wf(),
            final(self).cycles == old(self).cycles,
            old(bus)@.json() ==> {
                let ea = spec_ea(*old(self), old(bus)@.raw_mem, mode);
                &&& r == Ok::<u16, Fault>(ea.addr)
                &&& *final(self) == (Cpu {
                    r_pc: ea.pc,
                    page_crossed: old(self).page_crossed || ea.crossed,
                    ..*old(self)
                })
                &&& final(bus)@ == old(bus)@
            },
    {
        match mode {
            AddressingMode::Immediate => {
                let addr = self.r_pc;
                self.r_pc = self.r_pc.wrapping_add(1);
                Ok(addr)
            },
            AddressingMode::ZeroPage => {
                let v = match bus.cpu_read(self.r_pc) {
                    Ok(v) => v,
                    Err(e) => return Err(e),
                };
                self.r_pc = self.r_pc.wrapping_add(1);
                Ok(v as u16)
            },
            AddressingMode::ZeroPageX => {
                let v = match bus.cpu_read(self.r_pc) {
                    Ok(v) => v,
                    Err(e) => return Err(e),
                };
                self.r_pc = self.r_pc.wrapping_add(1);
                Ok(v.wrapping_add(self.r_x) as u16)
            },
            AddressingMode::ZeroPageY => {
                let v = match bus.cpu_read(self.r_pc) {
                    Ok(v) => v,
                    Err(e) => return Err(e),
                };
                self.r_pc = self.r_pc.wrapping_add(1);
                Ok(v.wrapping_add(self.r_y) as u16)
            },
            AddressingMode::Absolute => {
                let lo = match bus.cpu_read(self.r_pc) {
                    Ok(v) => v,
                    Err(e) => return Err(e),
                };
                self.r_pc = self.r_pc.wrapping_add(1);
                let hi = match bus.cpu_read(self.r_pc) {
                    Ok(v) => v,
                    Err(e) => return Err(e),
                };
                self.r_pc = self.r_pc.wrapping_add(1);
                Ok(((hi as u16) << 8) | (lo as u16))
            },
            AddressingMode::AbsoluteX => {
                let lo = match bus.cpu_read(self.r_pc) {
                    Ok(v) => v,
                    Err(e) => return Err(e),
                };
                self.r_pc = self.r_pc.wrapping_add(1);
                let hi = match bus.cpu_read(self.r_pc) {
                    Ok(v) => v,
                    Err(e) => return Err(e),
                };
                self.r_pc = self.r_pc.wrapping_add(1);
                let base = ((hi as u16) << 8) | (lo as u16);
                let addr = base.wrapping_add(self.r_x as u16);
                if (addr >> 8) != (base >> 8) {
                    self.page_crossed = true;
                }
                Ok(addr)
            },
            AddressingMode::AbsoluteY => {
                let lo = match bus.cpu_read(self.r_pc) {
                    Ok(v) => v,
                    Err(e) => return Err(e),
                };
                self.r_pc = self.r_pc.wrapping_add(1);
                let hi = match bus.cpu_read(self.r_pc) {
                    Ok(v) => v,
                    Err(e) => return Err(e),
                };
                self.r_pc = self.r_pc.wrapping_add(1);
                let base = ((hi as u16) << 8) | (lo as u16);
                let addr = base.wrapping_add(self.r_y as u16);
                if (addr >> 8) != (base >> 8) {
                    self.page_crossed = true;
                }
                Ok(addr)
            },
            AddressingMode::Indirect => {
                let lo_ptr = match bus.cpu_read(self.r_pc) {
                    Ok(v) => v,
                    Err(e) => return Err(e),
                };
                self.r_pc = self.r_pc.wrapping_add(1);
                let hi_ptr = match bus.cpu_read(self.r_pc) {
                    Ok(v) => v,
                    Err(e) => return Err(e),
                };
                self.r_pc = self.r_pc.wrapping_add(1);
                // the high pointer byte wraps within the page: the
                // page-boundary quirk of the indirect jump
                let ptr_lo = ((hi_ptr as u16) << 8) | (lo_ptr as u16);
                let ptr_hi = ((hi_ptr as u16) << 8) | (lo_ptr.wrapping_add(1) as u16);
                let lo = match bus.cpu_read(ptr_lo) {
                    Ok(v) => v,
                    Err(e) => return Err(e),
                };
                let hi = match bus.cpu_read(ptr_hi) {
                    Ok(v) => v,
                    Err(e) => return Err(e),
                };
                Ok(((hi as u16) << 8) | (lo as u16))
            },
            AddressingMode::IndirectX => {
                let base = match bus.cpu_read(self.r_pc) {
                    Ok(v) => v,
                    Err(e) => return Err(e),
                };
                self.r_pc = self.r_pc.wrapping_add(1);
                let lo_ptr = base.wrapping_add(self.r_x);
                let lo = match bus.cpu_read(lo_ptr as u16) {
                    Ok(v) => v,
                    Err(e) => return Err(e),
                };
                let hi = match bus.cpu_read(lo_ptr.wrapping_add(1) as u16) {
                    Ok(v) => v,
                    Err(e) => return Err(e),
                };
                Ok(((hi as u16) << 8) | (lo as u16))
            },
            AddressingMode::IndirectY => {
                let lo_ptr = match bus.cpu_read(self.r_pc) {
                    Ok(v) => v,
                    Err(e) => return Err(e),
                };
                self.r_pc = self.r_pc.wrapping_add(1);
                let lo = match bus.cpu_read(lo_ptr as u16) {
                    Ok(v) => v,
                    Err(e) => return Err(e),
                };
                let hi = match bus.cpu_read(lo_ptr.wrapping_add(1) as u16) {
                    Ok(v) => v,
                    Err(e) => return Err(e),
                };
                let base = ((hi as u16) << 8) | (lo as u16);
                let addr = base.wrapping_add(self.r_y as u16);
                if (addr >> 8) != (base >> 8) {
                    self.page_crossed = true;
                }
                Ok(addr)
            },
            _ => {
                proof {
                    assert(false);
                }
                Ok(0)
            },
        }
    }
}


impl Cpu {
    /// Load the accumulator, setting Z and N, with the page-cross penalty.
    fn i_lda(&mut self, bus: &mut Bus, mode: AddressingMode) -> (r: Result<(), Fault>)
        requires
            old(bus)@.wf(),
            mode_addressable(mode),
            !old(self).page_crossed,
            old(self).cycles < usize::MAX,
        ensures
            final(bus)@.wf(),
            old(self).cycles <= final(self).cycles <= old(self).cycles + 1,
            old(bus)@.json() ==> r is Ok && final(bus)@ == old(bus)@ && *final(self) == spec_lda(
                *old(self),
                old(bus)@.raw_mem,
                mode,
            ),
    {
        let addr = match self.get_address(bus, mode) {
            Ok(a) => a,
            Err(e) => return Err(e),
        };
        let v = match bus.cpu_read(addr) {
            Ok(v) => v,
            Err(e) => return Err(e),
        };
        self.r_a = v;
        self.update_zn_flags(v);
        if self.page_crossed {
            self.cycles = self.cycles + 1;
        }
        Ok(())
    }

    /// Load the X register, setting Z and N, with the page-cross penalty.
    fn i_ldx(&mut self, bus: &mut Bus, mode: AddressingMode) -> (r: Result<(), Fault>)
        requires
            old(bus)@.wf(),
            mode_addressable(mode),
            !old(self).page_crossed,
            old(self).cycles < usize::MAX,
        ensures
            final(bus)@.wf(),
            old(self).cycles <= final(self).cycles <= old(self).cycles + 1,
            old(bus)@.json() ==> r is Ok && final(bus)@ == old(bus)@ && *final(self) == spec_ldx(
                *old(self),
                old(bus)@.raw_mem,
                mode,
            ),
    {
        let addr = match self.get_address(bus, mode) {
            Ok(a) => a,
            Err(e) => return Err(e),
        };
        let v = match bus.cpu_read(addr) {
            Ok(v) => v,
            Err(e) => return Err(e),
        };
        self.r_x = v;
        self.update_zn_flags(v);
        if self.page_crossed {
            self.cycles = self.cycles + 1;
        }
        Ok(())
    }

    /// Load the Y register, setting Z and N, with the page-cross penalty.
    fn i_ldy(&mut self, bus: &mut Bus, mode: AddressingMode) -> (r: Result<(), Fault>)
        requires
            old(bus)@.wf(),
            mode_addressable(mode),
            !old(self).page_crossed,
            old(self).cycles < usize::MAX,
        ensures
            final(bus)@.wf(),
            old(self).cycles <= final(self).cycles <= old(self).cycles + 1,
            old(bus)@.json() ==> r is Ok && final(bus)@ == old(bus)@ && *final(self) == spec_ldy(
                *old(self),
                old(bus)@.raw_mem,
                mode,
            ),
    {
        let addr = match self.get_address(bus, mode) {
            Ok(a) => a,
            Err(e) => return Err(e),
        };
        let v = match bus.cpu_read(addr) {
            Ok(v) => v,
            Err(e) => return Err(e),
        };
        self.r_y = v;
        self.update_zn_flags(v);
        if self.page_crossed {
            self.cycles = self.cycles + 1;
        }
        Ok(())
    }

    /// Store `value` through the addressing mode.
    fn store(&mut self, bus: &mut Bus, mode: AddressingMode, value: u8) -> (r: Result<(), Fault>)
        requires
            old(bus)@.wf(),
            mode_addressable(mode),
            !old(self).page_crossed,
        ensures
            final(bus)@.wf(),
            final(self).cycles == old(self).cycles,
            old(bus)@.json() ==> {
                let so = spec_store(*old(self), old(bus)@.raw_mem, mode, value);
                r is Ok && *final(self) == so.cpu && final(bus)@ == (BusView {
                    raw_mem: so.mem,
                    ..old(bus)@
                })
            },
    {
        let addr = match self.get_address(bus, mode) {
            Ok(a) => a,
            Err(e) => return Err(e),
        };
        match bus.write(addr, value) {
            Ok(()) => Ok(()),
            Err(e) => Err(e),
        }
    }

    /// Add the operand and the carry to the accumulator, or subtract via the
    /// ones complement; C is the carry-out and V the signed overflow.
    #[verifier::rlimit(60)]
    fn adc_helper(&mut self, bus: &mut Bus, mode: AddressingMode, sub: bool) -> (r: Result<
        (),
        Fault,
    >)
        requires
            old(bus)@.wf(),
            mode_addressable(mode),
            !old(self).page_crossed,
            old(self).cycles < usize::MAX,
        ensures
            final(bus)@.wf(),
            old(self).cycles <= final(self).cycles <= old(self).cycles + 1,
            old(bus)@.json() ==> r is Ok && final(bus)@ == old(bus)@ && *final(self) == spec_adc(
                *old(self),
                old(bus)@.raw_mem,
                mode,
                sub,
            ),
    {
        let addr = match self.get_address(bus, mode) {
            Ok(a) => a,
            Err(e) => return Err(e),
        };
        let m0 = match bus.cpu_read(addr) {
            Ok(v) => v,
            Err(e) => return Err(e),
        };
        let a = self.r_a as u16;
        let b: u16 = if sub {
            (m0 ^ 0xFF) as u16
        } else {
            m0 as u16
        };
        let mut sum = a + b;
        if self.f_c {
            sum = sum + 1;
        }
        self.r_a = sum as u8;
        self.f_c = sum > 0xFF;
        self.f_v = ((sum ^ a) & (sum ^ b) & 0x80) > 0;
        self.update_zn_flags(sum as u8);
        if self.page_crossed {
            self.cycles = self.cycles + 1;
        }
        Ok(())
    }

    /// Increment or decrement the addressed memory byte, setting Z and N.
    fn inc_dec(&mut self, bus: &mut Bus, mode: AddressingMode, down: bool) -> (r: Result<
        (),
        Fault,
    >)
        requires
            old(bus)@.wf(),
            mode_addressable(mode),
            !old(self).page_crossed,
        ensures
            final(bus)@.wf(),
            final(self).cycles == old(self).cycles,
            old(bus)@.json() ==> {
                let so = spec_inc_dec(*old(self), old(bus)@.raw_mem, mode, down);
                r is Ok && *final(self) == so.cpu && final(bus)@ == (BusView {
                    raw_mem: so.mem,
                    ..old(bus)@
                })
            },
    {
        let addr = match self.get_address(bus, mode) {
            Ok(a) => a,
            Err(e) => return Err(e),
        };
        let v0 = match bus.cpu_read(addr) {
            Ok(v) => v,
            Err(e) => return Err(e),
        };
        let v = if down {
            v0.wrapping_sub(1)
        } else {
            v0.wrapping_add(1)
        };
        match bus.write(addr, v) {
            Ok(()) => {},
            Err(e) => return Err(e),
        }
        self.update_zn_flags(v);
        Ok(())
    }

    /// Shift or rotate the accumulator or the addressed byte; the carry
    /// takes the shifted-out bit.
    fn shift(&mut self, bus: &mut Bus, mode: AddressingMode, kind: OpcodeName) -> (r: Result<
        (),
        Fault,
    >)
        requires
            old(bus)@.wf(),
            kind is Asl || kind is Lsr || kind is Rol || kind is Ror,
            !(mode is Implicit || mode is Relative),
            !old(self).page_crossed,
        ensures
            final(bus)@.wf(),
            final(self).cycles == old(self).cycles,
            old(bus)@.json() ==> {
                let so = spec_shift(*old(self), old(bus)@.raw_mem, mode, kind);
                r is Ok && *final(self) == so.cpu && final(bus)@ == (BusView {
                    raw_mem: so.mem,
                    ..old(bus)@
                })
            },
    {
        if let AddressingMode::Accumulator = mode {
            let (v, cy) = shift_byte(kind, self.r_a, self.f_c);
            self.r_a = v;
            self.f_c = cy;
            self.update_zn_flags(v);
            proof {
                assert(final(bus)@ == (BusView { raw_mem: old(bus)@.raw_mem, ..old(bus)@ }));
            }
            return Ok(());
        }
        let addr = match self.get_address(bus, mode) {
            Ok(a) => a,
            Err(e) => return Err(e),
        };
        let v0 = match bus.cpu_read(addr) {
            Ok(v) => v,
            Err(e) => return Err(e),
        };
        let (v, cy) = shift_byte(kind, v0, self.f_c);
        match bus.write(addr, v) {
            Ok(()) => {},
            Err(e) => return Err(e),
        }
        self.f_c = cy;
        self.update_zn_flags(v);
        Ok(())
    }

    /// Combine the accumulator with the operand by AND, OR or XOR, setting Z
    /// and N, with the page-cross penalty.
    fn logic(&mut self, bus: &mut Bus, mode: AddressingMode, kind: OpcodeName) -> (r: Result<
        (),
        Fault,
    >)
        requires
            old(bus)@.wf(),
            mode_addressable(mode),
            !old(self).page_crossed,
            old(self).cycles < usize::MAX,
        ensures
            final(bus)@.wf(),
            old(self).cycles <= final(self).cycles <= old(self).cycles + 1,
            old(bus)@.json() ==> r is Ok && final(bus)@ == old(bus)@ && *final(self) == spec_logic(
                *old(self),
                old(bus)@.raw_mem,
                mode,
                kind,
            ),
    {
        let addr = match self.get_address(bus, mode) {
            Ok(a) => a,
            Err(e) => return Err(e),
        };
        let m = match bus.cpu_read(addr) {
            Ok(v) => v,
            Err(e) => return Err(e),
        };
        let v = match kind {
            OpcodeName::And => self.r_a & m,
            OpcodeName::Ora => self.r_a | m,
            _ => self.r_a ^ m,
        };
        self.r_a = v;
        self.update_zn_flags(v);
        if self.page_crossed {
            self.cycles = self.cycles + 1;
        }
        Ok(())
    }

    /// The bit test: N and V from the memory byte, Z from its AND with the
    /// accumulator.
    fn i_bit(&mut self, bus: &mut Bus, mode: AddressingMode) -> (r: Result<(), Fault>)
        requires
            old(bus)@.wf(),
            mode_addressable(mode),
            !old(self).page_crossed,
        ensures
            final(bus)@.wf(),
            final(self).cycles == old(self).cycles,
            old(bus)@.json() ==> r is Ok && final(bus)@ == old(bus)@ && *final(self) == spec_bit(
                *old(self),
                old(bus)@.raw_mem,
                mode,
            ),
    {
        let addr = match self.get_address(bus, mode) {
            Ok(a) => a,
            Err(e) => return Err(e),
        };
        let m = match bus.cpu_read(addr) {
            Ok(v) => v,
            Err(e) => return Err(e),
        };
        self.f_v = (m & 0x40) > 0;
        self.f_n = (m & 0x80) > 0;
        self.f_z = (self.r_a & m) == 0;
        Ok(())
    }

    /// Compare `reg` with the operand: C, Z and N from the wrapped
    /// difference, with the page-cross penalty.
    fn compare(&mut self, bus: &mut Bus, mode: AddressingMode, reg: u8) -> (r: Result<(), Fault>)
        requires
            old(bus)@.wf(),
            mode_addressable(mode),
            !old(self).page_crossed,
            old(self).cycles < usize::MAX,
        ensures
            final(bus)@.wf(),
            old(self).cycles <= final(self).cycles <= old(self).cycles + 1,
            old(bus)@.json() ==> r is Ok && final(bus)@ == old(bus)@ && *final(self)
                == spec_compare(*old(self), old(bus)@.raw_mem, mode, reg),
    {
        let addr = match self.get_address(bus, mode) {
            Ok(a) => a,
            Err(e) => return Err(e),
        };
        let v = match bus.cpu_read(addr) {
            Ok(v) => v,
            Err(e) => return Err(e),
        };
        self.f_c = reg >= v;
        self.update_zn_flags(reg.wrapping_sub(v));
        if self.page_crossed {
            self.cycles = self.cycles + 1;
        }
        Ok(())
    }

    /// The branch target: the program counter plus the sign-extended
    /// displacement, plus one for the displacement byte.
    fn calculate_branch_addr(&self, offset: u8) -> (r: u16)
        ensures
            r == spec_branch_target(self.r_pc, offset),
    {
        if offset >= 0x80 {
            self.r_pc.wrapping_add(offset as u16).wrapping_sub(0x100).wrapping_add(1)
        } else {
            self.r_pc.wrapping_add(offset as u16).wrapping_add(1)
        }
    }

    /// A conditional branch with the program counter at the displacement
    /// byte: taken, the counter moves to the target and a cycle is added;
    /// not taken, it passes the displacement.
    fn branch(&mut self, bus: &mut Bus, name: OpcodeName) -> (r: Result<(), Fault>)
        requires
            old(bus)@.wf(),
            name is Bcc || name is Bcs || name is Beq || name is Bne || name is Bpl || name is Bmi
                || name is Bvc || name is Bvs,
            old(self).cycles < usize::MAX,
        ensures
            final(bus)@.wf(),
            old(self).cycles <= final(self).cycles <= old(self).cycles + 1,
            old(bus)@.json() ==> r is Ok && final(bus)@ == old(bus)@ && *final(self) == spec_branch(
                *old(self),
                old(bus)@.raw_mem,
                name,
            ),
    {
        let taken = match name {
            OpcodeName::Bcc => !self.f_c,
            OpcodeName::Bcs => self.f_c,
            OpcodeName::Beq => self.f_z,
            OpcodeName::Bne => !self.f_z,
            OpcodeName::Bpl => !self.f_n,
            OpcodeName::Bmi => self.f_n,
            OpcodeName::Bvc => !self.f_v,
            _ => self.f_v,
        };
        if taken {
            self.cycles = self.cycles + 1;
            let offset = match bus.cpu_read(self.r_pc) {
                Ok(v) => v,
                Err(e) => return Err(e),
            };
            self.r_pc = self.calculate_branch_addr(offset);
        } else {
            self.r_pc = self.r_pc.wrapping_add(1);
        }
        Ok(())
    }

    /// Jump to subroutine: push the return address minus one, high byte
    /// first, then jump to the absolute target.
    fn i_jsr(&mut self, bus: &mut Bus) -> (r: Result<(), Fault>)
        requires
            old(bus)@.wf(),
            !old(self).page_crossed,
        ensures
            final(bus)@.wf(),
            final(self).cycles == old(self).cycles,
            old(bus)@.json() ==> {
                let so = spec_jsr(*old(self), old(bus)@.raw_mem);
                r is Ok && *final(self) == so.cpu && final(bus)@ == (BusView {
                    raw_mem: so.mem,
                    ..old(bus)@
                })
            },
    {
        let addr = match self.get_address(bus, AddressingMode::Absolute) {
            Ok(a) => a,
            Err(e) => return Err(e),
        };
        let ret = self.r_pc.wrapping_sub(1);
        match self.push_stack(bus, (ret >> 8) as u8) {
            Ok(()) => {},
            Err(e) => return Err(e),
        }
        match self.push_stack(bus, ret as u8) {
            Ok(()) => {},
            Err(e) => return Err(e),
        }
        self.r_pc = addr;
        Ok(())
    }

    /// Return from subroutine: pop the counter low byte first and advance
    /// past the call's last byte.
    fn i_rts(&mut self, bus: &mut Bus) -> (r: Result<(), Fault>)
        requires
            old(bus)@.wf(),
        ensures
            final(bus)@.wf(),
            final(self).cycles == old(self).cycles,
            old(bus)@.json() ==> r is Ok && final(bus)@ == old(bus)@ && *final(self) == spec_rts(
                *old(self),
                old(bus)@.raw_mem,
            ),
    {
        let lo = match self.pop_stack(bus) {
            Ok(v) => v,
            Err(e) => return Err(e),
        };
        let hi = match self.pop_stack(bus) {
            Ok(v) => v,
            Err(e) => return Err(e),
        };
        let addr = ((hi as u16) << 8) | (lo as u16);
        self.r_pc = addr.wrapping_add(1);
        Ok(())
    }

    /// The break instruction: push the counter past the padding byte and the
    /// status with the break bit, disable interrupts, and load the counter
    /// from the vector at 0xFFFE.
    fn i_brk(&mut self, bus: &mut Bus) -> (r: Result<(), Fault>)
        requires
            old(bus)@.wf(),
        ensures
            final(bus)@.wf(),
            final(self).cycles == old(self).cycles,
            old(bus)@.json() ==> {
                let so = spec_brk(*old(self), old(bus)@.raw_mem);
                r is Ok && *final(self) == so.cpu && final(bus)@ == (BusView {
                    raw_mem: so.mem,
                    ..old(bus)@
                })
            },
    {
        let addr = self.r_pc.wrapping_add(1);
        let p = self.get_p(true);
        match self.push_stack(bus, (addr >> 8) as u8) {
            Ok(()) => {},
            Err(e) => return Err(e),
        }
        match self.push_stack(bus, addr as u8) {
            Ok(()) => {},
            Err(e) => return Err(e),
        }
        match self.push_stack(bus, p) {
            Ok(()) => {},
            Err(e) => return Err(e),
        }
        self.f_i = true;
        let lo = match bus.cpu_read(0xFFFE) {
            Ok(v) => v,
            Err(e) => return Err(e),
        };
        let hi = match bus.cpu_read(0xFFFF) {
            Ok(v) => v,
            Err(e) => return Err(e),
        };
        self.r_pc = ((hi as u16) << 8) | (lo as u16);
        Ok(())
    }

    /// Return from interrupt: pop and apply the status at once, then pop the
    /// counter low byte first.
    fn i_rti(&mut self, bus: &mut Bus) -> (r: Result<(), Fault>)
        requires
            old(bus)@.wf(),
        ensures
            final(bus)@.wf(),
            final(self).cycles == old(self).cycles,
            old(bus)@.json() ==> r is Ok && final(bus)@ == old(bus)@ && *final(self) == spec_rti(
                *old(self),
                old(bus)@.raw_mem,
            ),
    {
        let p = match self.pop_stack(bus) {
            Ok(v) => v,
            Err(e) => return Err(e),
        };
        self.set_p(p, true);
        let lo = match self.pop_stack(bus) {
            Ok(v) => v,
            Err(e) => return Err(e),
        };
        let hi = match self.pop_stack(bus) {
            Ok(v) => v,
            Err(e) => return Err(e),
        };
        self.r_pc = ((hi as u16) << 8) | (lo as u16);
        Ok(())
    }
}

/// The shifted or rotated byte and the bit it shifts out.
fn shift_byte(kind: OpcodeName, value: u8, carry: bool) -> (r: (u8, bool))
    requires
        kind is Asl || kind is Lsr || kind is Rol || kind is Ror,
    ensures
        r == spec_shift_byte(kind, value, carry),
{
    match kind {
        OpcodeName::Asl => (((value as u16) << 1) as u8, (value & 0x80) > 0),
        OpcodeName::Lsr => (value >> 1, (value & 1) > 0),
        OpcodeName::Rol => (
            ((value as u16) << 1) as u8 | (if carry {
                1u8
            } else {
                0u8
            }),
            (value & 0x80) > 0,
        ),
        _ => (
            (value >> 1) | (if carry {
                0x80u8
            } else {
                0u8
            }),
            (value & 1) > 0,
        ),
    }
}


/// The upper-case hexadecimal digit for the value `n`.
pub open spec fn spec_nibble(n: u8) -> char {
    if n == 0 {
        '0'
    } else if n == 1 {
        '1'
    } else if n == 2 {
        '2'
    } else if n == 3 {
        '3'
    } else if n == 4 {
        '4'
    } else if n == 5 {
        '5'
    } else if n == 6 {
        '6'
    } else if n == 7 {
        '7'
    } else if n == 8 {
        '8'
    } else if n == 9 {
        '9'
    } else if n == 10 {
        'A'
    } else if n == 11 {
        'B'
    } else if n == 12 {
        'C'
    } else if n == 13 {
        'D'
    } else if n == 14 {
        'E'
    } else {
        'F'
    }
}

/// The two hexadecimal digits of a byte.
pub open spec fn spec_hex2(v: u8) -> Seq<char> {
    seq![spec_nibble(v >> 4), spec_nibble(v & 0x0F)]
}

/// The four hexadecimal digits of a sixteen-bit value.
pub open spec fn spec_hex4(v: u16) -> Seq<char> {
    spec_hex2((v >> 8) as u8) + spec_hex2(v as u8)
}

/// One hexadecimal digit.
fn hex_nibble(n: u8) -> (r: &'static str)
    requires
        n < 16,
    ensures
        r@ == seq![spec_nibble(n)],
{
    proof {
        reveal_strlit("0");
        reveal_strlit("1");
        reveal_strlit("2");
        reveal_strlit("3");
        reveal_strlit("4");
        reveal_strlit("5");
        reveal_strlit("6");
        reveal_strlit("7");
        reveal_strlit("8");
        reveal_strlit("9");
        reveal_strlit("A");
        reveal_strlit("B");
        reveal_strlit("C");
        reveal_strlit("D");
        reveal_strlit("E");
        reveal_strlit("F");
    }
    match n {
        0 => "0",
        1 => "1",
        2 => "2",
        3 => "3",
        4 => "4",
        5 => "5",
        6 => "6",
        7 => "7",
        8 => "8",
        9 => "9",
        10 => "A",
        11 => "B",
        12 => "C",
        13 => "D",
        14 => "E",
        _ => "F",
    }
}

/// Append `v` as two hexadecimal digits.
fn push_hex2(s: &mut String, v: u8)
    ensures
        final(s)@ == old(s)@ + spec_hex2(v),
{
    proof {
        assert(v >> 4 < 16 && (v & 0x0F) < 16) by (bit_vector);
    }
    s.append(hex_nibble(v >> 4));
    s.append(hex_nibble(v & 0x0F));
    proof {
        assert(s@ =~= old(s)@ + spec_hex2(v));
    }
}

/// Append `v` as four hexadecimal digits.
fn push_hex4(s: &mut String, v: u16)
    ensures
        final(s)@ == old(s)@ + spec_hex4(v),
{
    push_hex2(s, (v >> 8) as u8);
    push_hex2(s, v as u8);
    proof {
        assert(s@ =~= old(s)@ + spec_hex4(v));
    }
}

/// A bus read that never disturbs device state; it presumes the debug-read
/// marker is set, and yields zero where the read is unimplemented.
fn debug_peek(bus: &mut Bus, addr: u16) -> (r: u8)
    requires
        old(bus)@.wf(),
        old(bus)@.ctx.debug_read(),
    ensures
        final(bus)@ == old(bus)@,
        r == (if old(bus)@.read_ok(addr) {
            old(bus)@.read_val(addr)
        } else {
            0
        }),
{
    match bus.cpu_read(addr) {
        Ok(v) => v,
        Err(_) => 0,
    }
}

impl Cpu {
    /// Build the one-line disassembly of the instruction at the program
    /// counter and append it to the debug context's log. All memory is read
    /// through the side-effect-free debug path, so neither the processor nor
    /// any device state changes; the log gains exactly one line, starting
    /// with the program counter's four hexadecimal digits, and the
    /// transient debug-read marker ends cleared.
    fn log_instr(&self, bus: &mut Bus, opcode: &Opcode)
        requires
            old(bus)@.wf(),
        ensures
            final(bus)@.wf(),
            final(bus)@.raw_mem == old(bus)@.raw_mem,
            old(bus)@.eq_mod_log(final(bus)@),
            final(bus)@.json() == old(bus)@.json(),
            !final(bus)@.ctx.debug_read(),
            final(bus)@.ctx.log().len() > 0,
            ({
                let log0 = old(bus)@.ctx.log();
                let log1 = final(bus)@.ctx.log();
                let entry = log1.last();
                &&& (log0.len() < crate::debug::LOG_CAPACITY ==> log1 == log0.push(entry))
                &&& (log0.len() >= crate::debug::LOG_CAPACITY ==> log1 == log0.push(
                    entry,
                ).subrange(500, crate::debug::LOG_CAPACITY + 1))
                &&& entry@.len() >= 4
                &&& entry@.subrange(0, 4) == spec_hex4(self.r_pc)
            }),
    {
        bus.set_cpu_debug_read(true);
        let mut line = String::new();
        push_hex4(&mut line, self.r_pc);
        let mut rest = String::new();
        rest.append("  ");
        let mut args0: u8 = 0;
        let mut args1: u8 = 0;
        let mut args2: u8 = 0;
        let nbytes: u16 = if opcode.bytes() > 3 {
            3
        } else {
            opcode.bytes()
        };
        let mut i: u16 = 0;
        while i < nbytes
            invariant
                bus@.wf(),
                bus@.ctx.debug_read(),
                nbytes <= 3,
                bus@.raw_mem == old(bus)@.raw_mem,
                old(bus)@.eq_mod_log(bus@),
                bus@.json() == old(bus)@.json(),
                bus@.ctx.log() == old(bus)@.ctx.log(),
            decreases nbytes - i,
        {
            let byte = debug_peek(bus, self.r_pc.wrapping_add(i));
            push_hex2(&mut rest, byte);
            rest.append(" ");
            if i == 0 {
                args0 = byte;
            } else if i == 1 {
                args1 = byte;
            } else {
                args2 = byte;
            }
            i = i + 1;
        }
        while i < 3
            invariant
                bus@.wf(),
            decreases 3 - i,
        {
            rest.append("   ");
            i = i + 1;
        }
        rest.append(" ");
        rest.append(opcode.name().as_str());
        rest.append(" ");
        match opcode.mode() {
            AddressingMode::Accumulator => {
                rest.append("A");
            },
            AddressingMode::Implicit => {},
            AddressingMode::Immediate => {
                rest.append("#$");
                push_hex2(&mut rest, args1);
            },
            AddressingMode::ZeroPage => {
                let value = debug_peek(bus, args1 as u16);
                rest.append("$");
                push_hex2(&mut rest, args1);
                rest.append(" = ");
                push_hex2(&mut rest, value);
            },
            AddressingMode::ZeroPageX => {
                let zp = args1.wrapping_add(self.r_x);
                let value = debug_peek(bus, zp as u16);
                rest.append("$");
                push_hex2(&mut rest, args1);
                rest.append(",X @ ");
                push_hex2(&mut rest, zp);
                rest.append(" = ");
                push_hex2(&mut rest, value);
            },
            AddressingMode::ZeroPageY => {
                let zp = args1.wrapping_add(self.r_y);
                let value = debug_peek(bus, zp as u16);
                rest.append("$");
                push_hex2(&mut rest, args1);
                rest.append(",Y @ ");
                push_hex2(&mut rest, zp);
                rest.append(" = ");
                push_hex2(&mut rest, value);
            },
            AddressingMode::Absolute => {
                let addr = ((args2 as u16) << 8) | (args1 as u16);
                rest.append("$");
                push_hex4(&mut rest, addr);
                match opcode.name() {
                    OpcodeName::Jmp => {},
                    OpcodeName::Jsr => {},
                    _ => {
                        let value = debug_peek(bus, addr);
                        rest.append(" = ");
                        push_hex2(&mut rest, value);
                    },
                }
            },
            AddressingMode::AbsoluteX => {
                let base = ((args2 as u16) << 8) | (args1 as u16);
                let addr = base.wrapping_add(self.r_x as u16);
                let value = debug_peek(bus, addr);
                rest.append("$");
                push_hex4(&mut rest, base);
                rest.append(",X @ ");
                push_hex4(&mut rest, addr);
                rest.append(" = ");
                push_hex2(&mut rest, value);
            },
            AddressingMode::AbsoluteY => {
                let base = ((args2 as u16) << 8) | (args1 as u16);
                let addr = base.wrapping_add(self.r_y as u16);
                let value = debug_peek(bus, addr);
                rest.append("$");
                push_hex4(&mut rest, base);
                rest.append(",Y @ ");
                push_hex4(&mut rest, addr);
                rest.append(" = ");
                push_hex2(&mut rest, value);
            },
            AddressingMode::Indirect => {
                let ptr_lo = ((args2 as u16) << 8) | (args1 as u16);
                let ptr_hi = ((args2 as u16) << 8) | (args1.wrapping_add(1) as u16);
                let lo = debug_peek(bus, ptr_lo);
                let hi = debug_peek(bus, ptr_hi);
                let target = ((hi as u16) << 8) | (lo as u16);
                rest.append("($");
                push_hex4(&mut rest, ptr_lo);
                rest.append(") = ");
                push_hex4(&mut rest, target);
            },
            AddressingMode::IndirectX => {
                let ptr = args1.wrapping_add(self.r_x);
                let lo = debug_peek(bus, ptr as u16);
                let hi = debug_peek(bus, ptr.wrapping_add(1) as u16);
                let addr = ((hi as u16) << 8) | (lo as u16);
                let value = debug_peek(bus, addr);
                rest.append("($");
                push_hex2(&mut rest, args1);
                rest.append(",X) @ ");
                push_hex2(&mut rest, ptr);
                rest.append(" = ");
                push_hex4(&mut rest, addr);
                rest.append(" = ");
                push_hex2(&mut rest, value);
            },
            AddressingMode::IndirectY => {
                let lo = debug_peek(bus, args1 as u16);
                let hi = debug_peek(bus, args1.wrapping_add(1) as u16);
                let base = ((hi as u16) << 8) | (lo as u16);
                let addr = base.wrapping_add(self.r_y as u16);
                let value = debug_peek(bus, addr);
                rest.append("($");
                push_hex2(&mut rest, args1);
                rest.append("),Y = ");
                push_hex4(&mut rest, base);
                rest.append(" @ ");
                push_hex4(&mut rest, addr);
                rest.append(" = ");
                push_hex2(&mut rest, value);
            },
            AddressingMode::Relative => {
                let disp_pc = self.r_pc.wrapping_add(1);
                let target = if args1 >= 0x80 {
                    disp_pc.wrapping_add(args1 as u16).wrapping_sub(0x100).wrapping_add(1)
                } else {
                    disp_pc.wrapping_add(args1 as u16).wrapping_add(1)
                };
                rest.append("$");
                push_hex4(&mut rest, target);
            },
        }
        bus.set_cpu_debug_read(false);
        line.append(rest.as_str());
        proof {
            assert(line@.len() >= 4);
            assert(line@.subrange(0, 4) =~= spec_hex4(self.r_pc));
        }
        let ghost pre_log = bus@.ctx.log();
        bus.log_instr(line);
        proof {
            if pre_log.len() >= crate::debug::LOG_CAPACITY {
                assert(bus@.ctx.log() == pre_log.push(line).subrange(
                    500,
                    crate::debug::LOG_CAPACITY + 1,
                ));
                assert(bus@.ctx.log().last() == pre_log.push(line)[crate::debug::LOG_CAPACITY
                    as int]);
            }
            assert(bus@.ctx.log().last() == line);
        }
    }

    /// Run one instruction: stop first if the program counter sits on the
    /// debugger's breakpoint; otherwise poll the interrupt latch, fetch,
    /// decode, optionally log, execute, and account the cycle cost. In
    /// the flat test-mode addressing the whole effect equals the spec-level
    /// interpreter's step.
    #[verifier::rlimit(100)]
    pub fn tick(&mut self, bus: &mut Bus) -> (r: Result<CpuStatus, Fault>)
        requires
            old(bus)@.wf(),
            old(self).cycles + 10 <= usize::MAX,
        ensures
            final(bus)@.wf(),
            r matches Ok(CpuStatus::Normal(n)) ==> 2 <= n <= 8 && final(self).cycles == old(
                self,
            ).cycles + n,
            r matches Ok(CpuStatus::BreakpointHit(bp)) ==> bp == BreakpointType::Pc(
                old(self).r_pc,
            ) && old(bus)@.ctx.spec_hit(bp) && *final(self) == *old(self)
                && final(bus)@ == old(bus)@,
            ({
                let hit = old(bus)@.ctx.spec_hit(BreakpointType::Pc(old(self).r_pc));
                &&& (hit ==> r == Ok::<CpuStatus, Fault>(
                    CpuStatus::BreakpointHit(BreakpointType::Pc(old(self).r_pc)),
                ) && *final(self) == *old(self) && final(bus)@ == old(bus)@)
                &&& (!hit && old(bus)@.json() ==> {
                    let c0 = spec_poll(*old(self));
                    let code = mem_r(old(bus)@.raw_mem, c0.r_pc);
                    &&& (spec_decode(code) is None ==> r == Err::<CpuStatus, Fault>(
                        Fault::UnknownOpcode { code, pc: c0.r_pc },
                    ) && *final(self) == (Cpu { page_crossed: false, ..c0 })
                        && final(bus)@.raw_mem == old(bus)@.raw_mem
                        && old(bus)@.eq_mod_log(final(bus)@))
                    &&& (spec_decode(code) is Some ==> {
                        let so = spec_step(*old(self), old(bus)@.raw_mem);
                        &&& r is Ok
                        &&& r->Ok_0 is Normal
                        &&& *final(self) == so.cpu
                        &&& final(bus)@.raw_mem == so.mem
                        &&& old(bus)@.eq_mod_log(final(bus)@)
                    })
                })
            }),
    {
        let pc = self.r_pc;
        if bus.debug_ctx().hit_breakpoint(BreakpointType::Pc(pc)) {
            return Ok(CpuStatus::BreakpointHit(BreakpointType::Pc(pc)));
        }
        let cycles_before = self.cycles;
        self.poll_irq();
        self.page_crossed = false;
        let code = match bus.cpu_read(self.r_pc) {
            Ok(v) => v,
            Err(e) => return Err(e),
        };
        let opcode = match Opcode::decode(code) {
            Some(op) => op,
            None => return Err(Fault::UnknownOpcode { code, pc: self.r_pc }),
        };
        if bus.debug_ctx().flag_enabled(&DebugFlag::Cpu) {
            self.log_instr(bus, &opcode);
        }
        self.r_pc = self.r_pc.wrapping_add(1);
        let step: Result<(), Fault> = self.exec_op(bus, opcode);
        match step {
            Ok(()) => {},
            Err(e) => return Err(e),
        }
        self.cycles = self.cycles + opcode.cycles();
        Ok(CpuStatus::Normal(self.cycles - cycles_before))
    }

    /// Dispatch one decoded instruction, with the program counter already
    /// past the opcode byte.
    fn exec_op(&mut self, bus: &mut Bus, opcode: Opcode) -> (r: Result<(), Fault>)
        requires
            old(bus)@.wf(),
            crate::opcode::op_mode_ok(opcode),
            !old(self).page_crossed,
            old(self).cycles < usize::MAX,
        ensures
            final(bus)@.wf(),
            old(self).cycles <= final(self).cycles <= old(self).cycles + 1,
            old(bus)@.json() ==> {
                let so = spec_exec(*old(self), old(bus)@.raw_mem, opcode);
                r is Ok && *final(self) == so.cpu && final(bus)@ == (BusView {
                    raw_mem: so.mem,
                    ..old(bus)@
                })
            },
    {
        match opcode.name() {
            OpcodeName::Lda | OpcodeName::Sta | OpcodeName::Ldx | OpcodeName::Stx
                | OpcodeName::Ldy | OpcodeName::Sty | OpcodeName::Tax | OpcodeName::Tay
                | OpcodeName::Txa | OpcodeName::Tya | OpcodeName::Adc | OpcodeName::Sbc
                | OpcodeName::Inc | OpcodeName::Dec | OpcodeName::Inx | OpcodeName::Dex
                | OpcodeName::Iny | OpcodeName::Dey | OpcodeName::Asl | OpcodeName::Lsr
                | OpcodeName::Rol | OpcodeName::Ror | OpcodeName::And | OpcodeName::Ora
                | OpcodeName::Eor | OpcodeName::Bit | OpcodeName::Cmp | OpcodeName::Cpx
                | OpcodeName::Cpy => self.exec_op_mem(bus, opcode),
            _ => self.exec_op_ctrl(bus, opcode),
        }
    }

    /// The memory-operand families: loads, stores, arithmetic, shifts,
    /// logic, the bit test and the comparisons.
    #[verifier::rlimit(100)]
    fn exec_op_mem(&mut self, bus: &mut Bus, opcode: Opcode) -> (r: Result<(), Fault>)
        requires
            old(bus)@.wf(),
            crate::opcode::op_mode_ok(opcode),
            !old(self).page_crossed,
            old(self).cycles < usize::MAX,
            mem_family(opcode.name),
        ensures
            final(bus)@.wf(),
            old(self).cycles <= final(self).cycles <= old(self).cycles + 1,
            old(bus)@.json() ==> {
                let so = spec_exec(*old(self), old(bus)@.raw_mem, opcode);
                r is Ok && *final(self) == so.cpu && final(bus)@ == (BusView {
                    raw_mem: so.mem,
                    ..old(bus)@
                })
            },
    {
        let step: Result<(), Fault> = match opcode.name() {
            OpcodeName::Lda => self.i_lda(bus, opcode.mode()),
            OpcodeName::Sta => self.store(bus, opcode.mode(), self.r_a),
            OpcodeName::Ldx => self.i_ldx(bus, opcode.mode()),
            OpcodeName::Stx => self.store(bus, opcode.mode(), self.r_x),
            OpcodeName::Ldy => self.i_ldy(bus, opcode.mode()),
            OpcodeName::Sty => self.store(bus, opcode.mode(), self.r_y),
            OpcodeName::Tax => {
                self.r_x = self.r_a;
                self.update_zn_flags(self.r_x);
                Ok(())
            },
            OpcodeName::Tay => {
                self.r_y = self.r_a;
                self.update_zn_flags(self.r_y);
                Ok(())
            },
            OpcodeName::Txa => {
                self.r_a = self.r_x;
                self.update_zn_flags(self.r_a);
                Ok(())
            },
            OpcodeName::Tya => {
                self.r_a = self.r_y;
                self.update_zn_flags(self.r_a);
                Ok(())
            },
            OpcodeName::Adc => self.adc_helper(bus, opcode.mode(), false),
            OpcodeName::Sbc => self.adc_helper(bus, opcode.mode(), true),
            OpcodeName::Inc => self.inc_dec(bus, opcode.mode(), false),
            OpcodeName::Dec => self.inc_dec(bus, opcode.mode(), true),
            OpcodeName::Inx => {
                self.r_x = self.r_x.wrapping_add(1);
                self.update_zn_flags(self.r_x);
                Ok(())
            },
            OpcodeName::Dex => {
                self.r_x = self.r_x.wrapping_sub(1);
                self.update_zn_flags(self.r_x);
                Ok(())
            },
            OpcodeName::Iny => {
                self.r_y = self.r_y.wrapping_add(1);
                self.update_zn_flags(self.r_y);
                Ok(())
            },
            OpcodeName::Dey => {
                self.r_y = self.r_y.wrapping_sub(1);
                self.update_zn_flags(self.r_y);
                Ok(())
            },
            OpcodeName::Asl => self.shift(bus, opcode.mode(), OpcodeName::Asl),
            OpcodeName::Lsr => self.shift(bus, opcode.mode(), OpcodeName::Lsr),
            OpcodeName::Rol => self.shift(bus, opcode.mode(), OpcodeName::Rol),
            OpcodeName::Ror => self.shift(bus, opcode.mode(), OpcodeName::Ror),
            OpcodeName::And => self.logic(bus, opcode.mode(), OpcodeName::And),
            OpcodeName::Ora => self.logic(bus, opcode.mode(), OpcodeName::Ora),
            OpcodeName::Eor => self.logic(bus, opcode.mode(), OpcodeName::Eor),
            OpcodeName::Bit => self.i_bit(bus, opcode.mode()),
            OpcodeName::Cmp => self.compare(bus, opcode.mode(), self.r_a),
            OpcodeName::Cpx => self.compare(bus, opcode.mode(), self.r_x),
            OpcodeName::Cpy => self.compare(bus, opcode.mode(), self.r_y),
            _ => {
                proof {
                    assert(false);
                }
                Ok(())
            },
        };
        step
    }

    /// The control families: transfers, register steps, branches, jumps,
    /// the stack, the interrupt pair and the flag instructions.
    #[verifier::rlimit(100)]
    fn exec_op_ctrl(&mut self, bus: &mut Bus, opcode: Opcode) -> (r: Result<(), Fault>)
        requires
            old(bus)@.wf(),
            crate::opcode::op_mode_ok(opcode),
            !old(self).page_crossed,
            old(self).cycles < usize::MAX,
            !mem_family(opcode.name),
        ensures
            final(bus)@.wf(),
            old(self).cycles <= final(self).cycles <= old(self).cycles + 1,
            old(bus)@.json() ==> {
                let so = spec_exec(*old(self), old(bus)@.raw_mem, opcode);
                r is Ok && *final(self) == so.cpu && final(bus)@ == (BusView {
                    raw_mem: so.mem,
                    ..old(bus)@
                })
            },
    {
        let step: Result<(), Fault> = match opcode.name() {
            OpcodeName::Bcc => self.branch(bus, OpcodeName::Bcc),
            OpcodeName::Bcs => self.branch(bus, OpcodeName::Bcs),
            OpcodeName::Beq => self.branch(bus, OpcodeName::Beq),
            OpcodeName::Bne => self.branch(bus, OpcodeName::Bne),
            OpcodeName::Bpl => self.branch(bus, OpcodeName::Bpl),
            OpcodeName::Bmi => self.branch(bus, OpcodeName::Bmi),
            OpcodeName::Bvc => self.branch(bus, OpcodeName::Bvc),
            OpcodeName::Bvs => self.branch(bus, OpcodeName::Bvs),
            OpcodeName::Jmp => {
                match self.get_address(bus, opcode.mode()) {
                    Ok(a) => {
                        self.r_pc = a;
                        Ok(())
                    },
                    Err(e) => Err(e),
                }
            },
            OpcodeName::Jsr => self.i_jsr(bus),
            OpcodeName::Rts => self.i_rts(bus),
            OpcodeName::Brk => self.i_brk(bus),
            OpcodeName::Rti => self.i_rti(bus),
            OpcodeName::Pha => self.push_stack(bus, self.r_a),
            OpcodeName::Pla => {
                match self.pop_stack(bus) {
                    Ok(v) => {
                        self.r_a = v;
                        self.update_zn_flags(v);
                        Ok(())
                    },
                    Err(e) => Err(e),
                }
            },
            OpcodeName::Php => {
                let p = self.get_p(true);
                self.push_stack(bus, p)
            },
            OpcodeName::Plp => {
                match self.pop_stack(bus) {
                    Ok(p) => {
                        self.set_p(p, false);
                        Ok(())
                    },
                    Err(e) => Err(e),
                }
            },
            OpcodeName::Txs => {
                self.r_sp = self.r_x;
                Ok(())
            },
            OpcodeName::Tsx => {
                self.r_x = self.r_sp;
                self.update_zn_flags(self.r_x);
                Ok(())
            },
            OpcodeName::Clc => {
                self.f_c = false;
                Ok(())
            },
            OpcodeName::Sec => {
                self.f_c = true;
                Ok(())
            },
            OpcodeName::Cli => {
                self.pending_iflag_value = false;
                self.pending_iflag_update = true;
                Ok(())
            },
            OpcodeName::Sei => {
                self.pending_iflag_value = true;
                self.pending_iflag_update = true;
                Ok(())
            },
            OpcodeName::Cld => {
                self.f_d = false;
                Ok(())
            },
            OpcodeName::Sed => {
                self.f_d = true;
                Ok(())
            },
            OpcodeName::Clv => {
                self.f_v = false;
                Ok(())
            },
            OpcodeName::Nop => Ok(()),
            _ => {
                proof {
                    assert(false);
                }
                Ok(())
            },
        };
        step
    }

    /// The reset sequence: interrupts disabled, the stack pointer at 0xFD,
    /// the program counter loaded from the vector at 0xFFFC, and a small
    /// startup cycle cost.
    pub fn reset(&mut self, bus: &mut Bus) -> (r: Result<(), Fault>)
        requires
            old(bus)@.wf(),
        ensures
            final(bus)@.wf(),
            old(bus)@.read_ok(0xFFFC) && old(bus)@.read_ok(0xFFFD) ==> {
                &&& r is Ok
                &&& final(bus)@ == old(bus)@
                &&& *final(self) == (Cpu {
                    r_pc: (((old(bus)@.read_val(0xFFFD) as u16) << 8) | (old(bus)@.read_val(
                        0xFFFC,
                    ) as u16)) as u16,
                    r_sp: 0xFD,
                    f_i: true,
                    cycles: 5,
                    ..*old(self)
                })
            },
            !(old(bus)@.read_ok(0xFFFC) && old(bus)@.read_ok(0xFFFD)) ==> r is Err,
    {
        self.r_pc = 0xFFFC;
        self.r_sp = 0xFD;
        self.f_i = true;
        let lo = match bus.cpu_read(0xFFFC) {
            Ok(v) => v,
            Err(e) => return Err(e),
        };
        let hi = match bus.cpu_read(0xFFFD) {
            Ok(v) => v,
            Err(e) => return Err(e),
        };
        self.r_pc = ((hi as u16) << 8) | (lo as u16);
        self.cycles = 5;
        Ok(())
    }
}

} // verus!
