//! Machine-checked statements of the interpreter's cross-cutting
//! guarantees: status-byte shape, arithmetic flag meaning, decode-table
//! bounds, branch timing, and the stack round trips.

use vstd::prelude::*;

verus! {

use crate::cpu::{
    mem_r, spec_branch_taken, spec_branch_target, spec_p, spec_poll, spec_pop, spec_push,
    spec_shift_byte, spec_step, spec_zn, Cpu,
};
use crate::opcode::{spec_decode, OpcodeName};

/// Stack discipline: a push stores the byte at the stack pointer's page-1
/// address and decrements the pointer with 8-bit wrap; the following pop
/// increments it back and exposes the very byte, touching nothing else.
pub proof fn lemma_stack_push_pop(c: Cpu, mem: Seq<u8>, value: u8)
    requires
        mem.len() == 0x10000,
    ensures
        ({
            let pushed = spec_push(c, mem, value);
            &&& pushed.cpu == (Cpu { r_sp: c.r_sp.wrapping_sub(1), ..c })
            &&& pushed.mem == mem.update((0x0100 + c.r_sp) as int, value)
            &&& ({
                let (popped, v) = spec_pop(pushed.cpu, pushed.mem);
                popped == (Cpu { r_sp: c.r_sp, ..c }) && v == value
            })
        }),
{
    let sp = c.r_sp;
    assert(sp.wrapping_sub(1).wrapping_add(1) == sp) by (bit_vector);
}

/// The zero flag is exactly "the result is zero" and the negative flag is
/// exactly the result's top bit, for every family that routes its result
/// through the shared flag update.
pub proof fn lemma_zn_flags(c: Cpu, value: u8)
    ensures
        spec_zn(c, value).f_z == (value == 0),
        spec_zn(c, value).f_n == (value & 0x80 > 0),
        spec_zn(c, value) == (Cpu {
            f_z: spec_zn(c, value).f_z,
            f_n: spec_zn(c, value).f_n,
            ..c
        }),
{
}

/// The status byte assembled for a push always has bit 5 set, and carries
/// the break bit exactly when pushed from the break path.
pub proof fn lemma_status_bit5(c: Cpu, f_b: bool)
    ensures
        spec_p(c, f_b) & 0x20 == 0x20,
        (spec_p(c, f_b) & 0x10 > 0) == f_b,
{
    let nn: u8 = if c.f_n {
        128
    } else {
        0
    };
    let vv: u8 = if c.f_v {
        64
    } else {
        0
    };
    let bb: u8 = if f_b {
        16
    } else {
        0
    };
    let dd: u8 = if c.f_d {
        8
    } else {
        0
    };
    let ii: u8 = if c.f_i {
        4
    } else {
        0
    };
    let zz: u8 = if c.f_z {
        2
    } else {
        0
    };
    let cc: u8 = if c.f_c {
        1
    } else {
        0
    };
    let p = spec_p(c, f_b);
    assert(p == nn + vv + 32 + bb + dd + ii + zz + cc);
    assert(p & 0x20 == 0x20 && (p & 0x10 > 0) == (bb == 16)) by (bit_vector)
        requires
            p == nn + vv + 32 + bb + dd + ii + zz + cc,
            nn == 0 || nn == 128,
            vv == 0 || vv == 64,
            bb == 0 || bb == 16,
            dd == 0 || dd == 8,
            ii == 0 || ii == 4,
            zz == 0 || zz == 2,
            cc == 0 || cc == 1,
    ;
}

/// Unpacking the status byte assembled from a CPU's flags gives those flags
/// back, bit by bit.
pub proof fn lemma_p_roundtrip(c: Cpu, f_b: bool)
    ensures
        (spec_p(c, f_b) & 0x01 > 0) == c.f_c,
        (spec_p(c, f_b) & 0x02 > 0) == c.f_z,
        (spec_p(c, f_b) & 0x04 > 0) == c.f_i,
        (spec_p(c, f_b) & 0x08 > 0) == c.f_d,
        (spec_p(c, f_b) & 0x40 > 0) == c.f_v,
        (spec_p(c, f_b) & 0x80 > 0) == c.f_n,
{
    let nn: u8 = if c.f_n {
        128
    } else {
        0
    };
    let vv: u8 = if c.f_v {
        64
    } else {
        0
    };
    let bb: u8 = if f_b {
        16
    } else {
        0
    };
    let dd: u8 = if c.f_d {
        8
    } else {
        0
    };
    let ii: u8 = if c.f_i {
        4
    } else {
        0
    };
    let zz: u8 = if c.f_z {
        2
    } else {
        0
    };
    let cc: u8 = if c.f_c {
        1
    } else {
        0
    };
    let p = spec_p(c, f_b);
    assert(p == nn + vv + 32 + bb + dd + ii + zz + cc);
    assert((p & 0x01 > 0) == (cc == 1) && (p & 0x02 > 0) == (zz == 2) && (p & 0x04 > 0) == (ii
        == 4) && (p & 0x08 > 0) == (dd == 8) && (p & 0x40 > 0) == (vv == 64) && (p & 0x80 > 0) == (
    nn == 128)) by (bit_vector)
        requires
            p == nn + vv + 32 + bb + dd + ii + zz + cc,
            nn == 0 || nn == 128,
            vv == 0 || vv == 64,
            bb == 0 || bb == 16,
            dd == 0 || dd == 8,
            ii == 0 || ii == 4,
            zz == 0 || zz == 2,
            cc == 0 || cc == 1,
    ;
}

/// For the add and subtract family: the carry flag is exactly the unsigned
/// carry out of the eight-bit sum, and the overflow flag is exactly the
/// signed-overflow predicate — both operands on one side of 0x80 and the
/// truncated sum on the other.
pub proof fn lemma_adc_flags(a: u8, m: u8, cin: bool)
    ensures
        ({
            let a16 = a as u16;
            let m16 = m as u16;
            let sum = (a16 + m16 + (if cin {
                1int
            } else {
                0int
            })) as u16;
            &&& ((sum > 0xFF) == (a + m + (if cin {
                1int
            } else {
                0int
            }) > 255))
            &&& ((((sum ^ a16) & (sum ^ m16) & 0x80) > 0) == ((a < 0x80 && m < 0x80 && (sum as u8)
                >= 0x80) || (a >= 0x80 && m >= 0x80 && (sum as u8) < 0x80)))
        }),
{
    let a16 = a as u16;
    let m16 = m as u16;
    let cbit: u16 = if cin {
        1
    } else {
        0
    };
    let sum = (a16 + m16 + cbit) as u16;
    assert((sum > 0xFF) == (a16 + m16 + cbit > 255) && (((sum ^ a16) & (sum ^ m16) & 0x80) > 0)
        == ((a16 < 0x80 && m16 < 0x80 && (sum as u8) >= 0x80) || (a16 >= 0x80 && m16 >= 0x80 && (
    sum as u8) < 0x80))) by (bit_vector)
        requires
            a16 < 0x100,
            m16 < 0x100,
            cbit <= 1,
            sum == (a16 + m16 + cbit) as u16,
    ;
}

/// Every entry of the decode table is between one and three bytes wide and
/// costs two to seven base cycles, and records its own opcode byte.
pub proof fn lemma_decode_table_bounds(code: u8)
    ensures
        spec_decode(code) matches Some(op) ==> op.code == code && 1 <= op.bytes <= 3 && 2
            <= op.cycles <= 7,
{
}

/// Branch timing and displacement: a not-taken branch advances the program
/// counter exactly past its two bytes for two cycles; a taken branch lands
/// at the counter plus two plus the signed displacement, for three cycles.
#[verifier::rlimit(100)]
pub proof fn lemma_branch_step(c: Cpu, mem: Seq<u8>)
    requires
        mem.len() == 0x10000,
        ({
            let code = mem_r(mem, c.r_pc);
            code == 0x90 || code == 0xB0 || code == 0xF0 || code == 0xD0 || code == 0x10 || code
                == 0x30 || code == 0x50 || code == 0x70
        }),
        c.cycles + 3 <= usize::MAX,
    ensures
        ({
            let so = spec_step(c, mem);
            let name = spec_decode(mem_r(mem, c.r_pc))->Some_0.name;
            let taken = spec_branch_taken(c, name);
            let disp = mem_r(mem, c.r_pc.wrapping_add(1));
            &&& (!taken ==> so.cpu.r_pc == c.r_pc.wrapping_add(2) && so.cpu.cycles == c.cycles
                + 2)
            &&& (taken ==> so.cpu.r_pc == spec_branch_target(c.r_pc.wrapping_add(1), disp)
                && so.cpu.cycles == c.cycles + 3)
        }),
{
    let c0 = spec_poll(c);
    assert(c0.r_pc == c.r_pc && c0.f_c == c.f_c && c0.f_z == c.f_z && c0.f_n == c.f_n && c0.f_v
        == c.f_v && c0.cycles == c.cycles);
    let pc = c.r_pc;
    assert(pc.wrapping_add(1).wrapping_add(1) == pc.wrapping_add(2)) by (bit_vector);
}

/// The jump-to-subroutine / return round trip: with a return instruction at
/// the jump's target, the counter comes back to the instruction after the
/// jump and the stack pointer is restored, with the registers untouched.
#[verifier::rlimit(100)]
pub proof fn lemma_jsr_rts(c: Cpu, mem: Seq<u8>)
    requires
        mem.len() == 0x10000,
        mem_r(mem, c.r_pc) == 0x20,
        ({
            let s1 = spec_step(c, mem);
            mem_r(s1.mem, s1.cpu.r_pc) == 0x60
        }),
        c.cycles + 20 <= usize::MAX,
    ensures
        ({
            let s1 = spec_step(c, mem);
            let s2 = spec_step(s1.cpu, s1.mem);
            &&& s2.cpu.r_pc == c.r_pc.wrapping_add(3)
            &&& s2.cpu.r_sp == c.r_sp
            &&& s2.cpu.r_a == c.r_a && s2.cpu.r_x == c.r_x && s2.cpu.r_y == c.r_y
        }),
{
    let pc = c.r_pc;
    let ret = pc.wrapping_add(1).wrapping_add(2).wrapping_sub(1);
    let sp = c.r_sp;
    assert((0x0100 + sp) as u16 != (0x0100 + sp.wrapping_sub(1)) as u16) by (bit_vector);
    assert((((ret >> 8) as u8 as u16) << 8) | (ret as u8 as u16) == ret) by (bit_vector)
        requires
            ret == pc.wrapping_add(1).wrapping_add(2).wrapping_sub(1),
    ;
    assert(ret.wrapping_add(1) == pc.wrapping_add(1).wrapping_add(2) && pc.wrapping_add(
        1,
    ).wrapping_add(2) == pc.wrapping_add(3)) by (bit_vector)
        requires
            ret == pc.wrapping_add(1).wrapping_add(2).wrapping_sub(1),
    ;
}

/// The break / return-from-interrupt round trip: the registers and the
/// flags come back, the stack pointer is restored, and the counter lands on
/// the byte after the break's padding byte.
#[verifier::rlimit(100)]
pub proof fn lemma_brk_rti(c: Cpu, mem: Seq<u8>)
    requires
        mem.len() == 0x10000,
        mem_r(mem, c.r_pc) == 0x00,
        ({
            let s1 = spec_step(c, mem);
            mem_r(s1.mem, s1.cpu.r_pc) == 0x40
        }),
        c.cycles + 20 <= usize::MAX,
    ensures
        ({
            let c0 = spec_poll(c);
            let s1 = spec_step(c, mem);
            let s2 = spec_step(s1.cpu, s1.mem);
            &&& s2.cpu.r_pc == c.r_pc.wrapping_add(2)
            &&& s2.cpu.r_sp == c.r_sp
            &&& s2.cpu.r_a == c.r_a && s2.cpu.r_x == c.r_x && s2.cpu.r_y == c.r_y
            &&& s2.cpu.f_c == c0.f_c && s2.cpu.f_z == c0.f_z && s2.cpu.f_d == c0.f_d
            &&& s2.cpu.f_v == c0.f_v && s2.cpu.f_n == c0.f_n && s2.cpu.f_i == c0.f_i
        }),
{
    let c0 = spec_poll(c);
    let c1 = Cpu { r_pc: c0.r_pc.wrapping_add(1), page_crossed: false, ..c0 };
    let pc = c.r_pc;
    let pushed = pc.wrapping_add(1).wrapping_add(1);
    let sp = c.r_sp;
    let a1 = (0x0100 + sp) as u16;
    let a2 = (0x0100 + sp.wrapping_sub(1)) as u16;
    let a3 = (0x0100 + sp.wrapping_sub(2)) as u16;
    assert(a1 == 0x0100 + sp && a2 == 0x0100 + sp.wrapping_sub(1) && a3 == 0x0100
        + sp.wrapping_sub(2));
    assert(a1 != a2 && a1 != a3 && a2 != a3 && a1 < 0x200 && a2 < 0x200 && a3 < 0x200)
        by (bit_vector)
        requires
            a1 == 0x0100 + sp && a2 == 0x0100 + sp.wrapping_sub(1) && a3 == 0x0100
                + sp.wrapping_sub(2),
    ;
    assert((((pushed >> 8) as u8 as u16) << 8) | (pushed as u8 as u16) == pushed) by (bit_vector);
    assert(pc.wrapping_add(1).wrapping_add(1) == pc.wrapping_add(2)) by (bit_vector);
    lemma_p_roundtrip(c1, true);
}

/// The push / pull round trip on the accumulator: the accumulator and the
/// stack pointer come back, and the zero and negative flags follow the
/// restored value.
#[verifier::rlimit(100)]
pub proof fn lemma_pha_pla(c: Cpu, mem: Seq<u8>)
    requires
        mem.len() == 0x10000,
        mem_r(mem, c.r_pc) == 0x48,
        ({
            let s1 = spec_step(c, mem);
            mem_r(s1.mem, s1.cpu.r_pc) == 0x68
        }),
        c.cycles + 20 <= usize::MAX,
    ensures
        ({
            let s1 = spec_step(c, mem);
            let s2 = spec_step(s1.cpu, s1.mem);
            &&& s2.cpu.r_a == c.r_a
            &&& s2.cpu.r_sp == c.r_sp
            &&& s2.cpu.f_z == (c.r_a == 0)
            &&& s2.cpu.f_n == (c.r_a & 0x80 > 0)
            &&& s2.cpu.r_pc == c.r_pc.wrapping_add(2)
        }),
{
    let sp = c.r_sp;
    let pc = c.r_pc;
    assert(sp.wrapping_sub(1).wrapping_add(1) == sp) by (bit_vector);
    assert(pc.wrapping_add(1).wrapping_add(1) == pc.wrapping_add(2)) by (bit_vector);
}

/// The status push / pull round trip: the carry, zero, decimal, overflow
/// and negative flags come back at once; the interrupt-disable flag is
/// untouched and the deferred latch carries its same value for the next
/// poll.
#[verifier::rlimit(100)]
pub proof fn lemma_php_plp(c: Cpu, mem: Seq<u8>)
    requires
        mem.len() == 0x10000,
        mem_r(mem, c.r_pc) == 0x08,
        ({
            let s1 = spec_step(c, mem);
            mem_r(s1.mem, s1.cpu.r_pc) == 0x28
        }),
        c.cycles + 20 <= usize::MAX,
    ensures
        ({
            let c0 = spec_poll(c);
            let s1 = spec_step(c, mem);
            let s2 = spec_step(s1.cpu, s1.mem);
            &&& s2.cpu.f_c == c0.f_c && s2.cpu.f_z == c0.f_z && s2.cpu.f_d == c0.f_d
            &&& s2.cpu.f_v == c0.f_v && s2.cpu.f_n == c0.f_n
            &&& s2.cpu.f_i == c0.f_i
            &&& s2.cpu.pending_iflag_update && s2.cpu.pending_iflag_value == c0.f_i
            &&& s2.cpu.r_sp == c.r_sp
            &&& s2.cpu.r_pc == c.r_pc.wrapping_add(2)
        }),
{
    let c0 = spec_poll(c);
    let c1 = Cpu { r_pc: c0.r_pc.wrapping_add(1), page_crossed: false, ..c0 };
    let sp = c.r_sp;
    let pc = c.r_pc;
    assert(sp.wrapping_sub(1).wrapping_add(1) == sp) by (bit_vector);
    assert(pc.wrapping_add(1).wrapping_add(1) == pc.wrapping_add(2)) by (bit_vector);
    lemma_p_roundtrip(c1, true);
}

/// Rotating left and then right with matching carries returns the original
/// byte and the original carry.
pub proof fn lemma_rol_ror(value: u8, carry: bool)
    ensures
        ({
            let (mid, mid_carry) = spec_shift_byte(OpcodeName::Rol, value, carry);
            spec_shift_byte(OpcodeName::Ror, mid, mid_carry) == (value, carry)
        }),
{
    let cbit: u8 = if carry {
        1
    } else {
        0
    };
    let mid = ((value as u16) << 1) as u8 | cbit;
    assert(((mid >> 1) | (if (value & 0x80) > 0 {
        0x80u8
    } else {
        0u8
    })) == value && ((mid & 1) > 0) == (cbit == 1)) by (bit_vector)
        requires
            mid == ((value as u16) << 1) as u8 | cbit,
            cbit <= 1,
    ;
}

} // verus!
