//! The top-level loop: one CPU instruction, then three picture-unit dots per
//! CPU cycle; at each frame boundary the nametable is rastered and the host
//! picks the finished frame up.

use vstd::prelude::*;

verus! {

use crate::bus::{Bus, BusView};
use crate::cartridge::Cartridge;
use crate::cpu::{BreakpointType, Cpu, CpuState, CpuStatus, CLOCK_SPEED};
use crate::debug::{DebugContext, DebugFlag, StepMode};
use crate::frame_buffer::FrameBuffer;
use crate::ppu::PpuView;
use crate::Fault;

/// CPU cycles per simulated frame, at sixty frames a second.
pub const MAX_CYCLES_PER_FRAME: usize = CLOCK_SPEED / 60;

/// The picture unit advanced by `n` dots.
pub open spec fn ppu_ticks(v: PpuView, n: nat) -> PpuView
    decreases n,
{
    if n == 0 {
        v
    } else {
        ppu_ticks(v.after_tick(), (n - 1) as nat)
    }
}

/// Whether the machine's frame buffer holds the raster of its own current
/// nametable: every screen pixel equals the color the tile formula gives it
/// from VRAM, the control register and the cartridge's character ROM.
pub open spec fn frame_rastered(e: Emulator) -> bool {
    e.bus@.cartridge matches Some(c) ==> forall|px: int, py: int|
        0 <= px < crate::NES_WIDTH && 0 <= py < crate::NES_HEIGHT ==> e.bus@.ppu.frame[
        crate::ppu::rm(256, px, py)] == #[trigger] crate::ppu::nametable_pixel(
            e.bus@.ppu,
            c.chr(),
            px,
            py,
        )
}

/// What one emulator tick produced: a breakpoint stop, and whether a frame
/// boundary was crossed so a finished frame is ready for display.
#[derive(Clone, Copy, Debug, PartialEq, Eq, Structural)]
pub struct TickOutcome {
    /// The stop event, if the debugger raised one.
    pub breakpoint: Option<BreakpointType>,
    /// Whether the frame buffer was just redrawn for a finished frame.
    pub frame_ready: bool,
}

/// Wires the CPU and the bus together and drives the frame loop.
pub struct Emulator {
    /// The processor.
    pub cpu: Cpu,
    /// The bus with every device on it.
    pub bus: Bus,
    /// Whether the run loop is active.
    pub running: bool,
    /// CPU cycles consumed since the last frame boundary.
    pub cycles_this_frame: usize,
}

impl Emulator {
    /// The devices are well formed and the frame counter sits inside one
    /// frame's budget.
    pub open spec fn wf(self) -> bool {
        &&& self.bus@.wf()
        &&& self.cycles_this_frame <= MAX_CYCLES_PER_FRAME
    }

    /// A machine in its power-on state: fresh CPU, cleared bus, no
    /// cartridge, not running.
    pub fn new() -> (r: Emulator)
        ensures
            r.wf(),
            r.cpu.r_pc == 0xFFFC && r.cpu.r_sp == 0xFD && r.cpu.f_i && r.cpu.cycles == 0,
            r.cpu.r_a == 0 && r.cpu.r_x == 0 && r.cpu.r_y == 0,
            !r.cpu.f_c && !r.cpu.f_z && !r.cpu.f_d && !r.cpu.f_v && !r.cpu.f_n,
            !r.cpu.pending_iflag_update,
            r.bus@.cartridge is None,
            r.bus@.ctx.flags() == Seq::<DebugFlag>::empty(),
            r.bus@.ctx.breakpoint() is None,
            !r.running,
            r.cycles_this_frame == 0,
    {
        let debug_ctx = DebugContext::new();
        let bus = Bus::new(debug_ctx);
        Emulator { cpu: Cpu::new(), bus, running: false, cycles_this_frame: 0 }
    }

    /// Shared access to the debug context.
    pub fn debug_ctx(&self) -> (r: &DebugContext)
        ensures
            *r == self.bus@.ctx,
    {
        self.bus.debug_ctx()
    }

    /// Enable a debug flag.
    pub fn set_debug_flag(&mut self, flag: DebugFlag)
        requires
            old(self).wf(),
        ensures
            final(self).wf(),
            final(self).bus@.ctx.flag_on(flag),
            final(self).cpu == old(self).cpu,
            final(self).running == old(self).running,
    {
        self.bus.set_debug_flag(flag);
    }

    /// Disable a debug flag.
    pub fn clear_debug_flag(&mut self, flag: &DebugFlag)
        requires
            old(self).wf(),
        ensures
            final(self).wf(),
            !final(self).bus@.ctx.flag_on(*flag),
            final(self).cpu == old(self).cpu,
            final(self).running == old(self).running,
    {
        self.bus.clear_debug_flag(flag);
    }

    /// Replace the whole debug flag set.
    pub fn set_debug_flags(&mut self, flags: Vec<DebugFlag>)
        requires
            old(self).wf(),
        ensures
            final(self).wf(),
            final(self).bus@.ctx.flags() == flags@,
            final(self).cpu == old(self).cpu,
            final(self).running == old(self).running,
    {
        self.bus.set_debug_flags(flags);
    }

    /// Set or clear the PC breakpoint.
    pub fn set_breakpoint(&mut self, breakpoint: Option<u16>)
        requires
            old(self).wf(),
        ensures
            final(self).wf(),
            final(self).bus@.ctx.breakpoint() == breakpoint,
            final(self).cpu == old(self).cpu,
    {
        self.bus.set_breakpoint(breakpoint);
    }

    /// Whether the run loop is active.
    pub fn running(&self) -> (r: bool)
        ensures
            r == self.running,
    {
        self.running
    }

    /// Activate the run loop.
    pub fn start(&mut self)
        ensures
            *final(self) == (Emulator { running: true, ..*old(self) }),
    {
        self.running = true;
    }

    /// Stop the run loop.
    pub fn stop(&mut self)
        ensures
            *final(self) == (Emulator { running: false, ..*old(self) }),
    {
        self.running = false;
    }

    /// Run the CPU's reset sequence.
    pub fn reset(&mut self) -> (r: Result<(), Fault>)
        requires
            old(self).wf(),
        ensures
            final(self).wf(),
            old(self).bus@.read_ok(0xFFFC) && old(self).bus@.read_ok(0xFFFD) ==> {
                &&& r is Ok
                &&& final(self).bus@ == old(self).bus@
                &&& final(self).cpu == (Cpu {
                    r_pc: (((old(self).bus@.read_val(0xFFFD) as u16) << 8) | (old(
                        self,
                    ).bus@.read_val(0xFFFC) as u16)) as u16,
                    r_sp: 0xFD,
                    f_i: true,
                    cycles: 5,
                    ..old(self).cpu
                })
            },
    {
        self.cpu.reset(&mut self.bus)
    }

    /// Insert a cartridge.
    pub fn load_cartridge(&mut self, cartridge: Cartridge)
        requires
            old(self).wf(),
            cartridge.wf(),
        ensures
            final(self).wf(),
            final(self).bus@ == (BusView { cartridge: Some(cartridge), ..old(self).bus@ }),
            final(self).cpu == old(self).cpu,
    {
        self.bus.load_cartridge(cartridge);
    }

    /// Advance the picture unit by `n` dots.
    fn tick_ppu_times(&mut self, n: usize)
        requires
            old(self).bus@.wf(),
        ensures
            final(self).bus@.wf(),
            final(self).bus@ == (BusView {
                ppu: ppu_ticks(old(self).bus@.ppu, n as nat),
                ..old(self).bus@
            }),
            final(self).cpu == old(self).cpu,
            final(self).running == old(self).running,
            final(self).cycles_this_frame == old(self).cycles_this_frame,
    {
        let mut i: usize = 0;
        while i < n
            invariant
                i <= n,
                self.bus@.wf(),
                self.bus@ == (BusView {
                    ppu: ppu_ticks(old(self).bus@.ppu, i as nat),
                    ..old(self).bus@
                }),
                self.cpu == old(self).cpu,
                self.running == old(self).running,
                self.cycles_this_frame == old(self).cycles_this_frame,
            decreases n - i,
        {
            proof {
                lemma_ppu_ticks_snoc(old(self).bus@.ppu, i as nat);
            }
            self.bus.tick_ppu();
            i = i + 1;
        }
    }

    /// Run one CPU instruction and the picture dots it pays for; at a frame
    /// boundary, reset the counter and raster the nametable. A breakpoint
    /// stop leaves the machine untouched.
    pub fn tick(&mut self) -> (r: Result<TickOutcome, Fault>)
        requires
            old(self).wf(),
            old(self).cpu.cycles + 10 <= usize::MAX,
        ensures
            final(self).wf(),
            final(self).running == old(self).running,
            r matches Ok(out) ==> {
                &&& (out.breakpoint is Some ==> final(self).cpu == old(self).cpu
                    && final(self).bus@ == old(self).bus@
                    && final(self).cycles_this_frame == old(self).cycles_this_frame)
                &&& (out.breakpoint is None ==> {
                    let n = final(self).cpu.cycles - old(self).cpu.cycles;
                    &&& 2 <= n <= 8
                    &&& (out.frame_ready <==> old(self).cycles_this_frame + n
                        >= MAX_CYCLES_PER_FRAME)
                    &&& (!out.frame_ready ==> final(self).cycles_this_frame == old(
                        self,
                    ).cycles_this_frame + n)
                    &&& (out.frame_ready ==> final(self).cycles_this_frame == 0
                        && final(self).bus@.cartridge is Some && frame_rastered(*final(self)))
                })
            },
            ({
                let hit = old(self).bus@.ctx.spec_hit(BreakpointType::Pc(old(self).cpu.r_pc));
                !hit && old(self).bus@.json() ==> {
                    let c0 = crate::cpu::spec_poll(old(self).cpu);
                    let code = crate::cpu::mem_r(old(self).bus@.raw_mem, c0.r_pc);
                    crate::opcode::spec_decode(code) is Some ==> {
                        let so = crate::cpu::spec_step(old(self).cpu, old(self).bus@.raw_mem);
                        &&& final(self).cpu == so.cpu
                        &&& final(self).bus@.raw_mem == so.mem
                        &&& (r matches Ok(out) && !out.frame_ready ==> final(self).bus@.ppu
                            == ppu_ticks(
                            old(self).bus@.ppu,
                            (3 * (so.cpu.cycles - old(self).cpu.cycles)) as nat,
                        ))
                    }
                }
            }),
    {
        let status = match self.cpu.tick(&mut self.bus) {
            Ok(s) => s,
            Err(e) => return Err(e),
        };
        let cycles = match status {
            CpuStatus::Normal(c) => c,
            CpuStatus::BreakpointHit(bp) => {
                return Ok(TickOutcome { breakpoint: Some(bp), frame_ready: false });
            },
        };
        self.cycles_this_frame = self.cycles_this_frame + cycles;
        self.tick_ppu_times(3 * cycles);
        if self.cycles_this_frame >= MAX_CYCLES_PER_FRAME {
            self.cycles_this_frame = 0;
            let ghost ghost_pre_draw = self.bus@;
            match self.bus.draw_nametable() {
                Ok(()) => {},
                Err(e) => return Err(e),
            }
            proof {
                if let Some(c) = ghost_pre_draw.cartridge {
                    assert forall|px: int, py: int|
                        0 <= px < crate::NES_WIDTH && 0 <= py < crate::NES_HEIGHT implies self.bus@.ppu.frame[
                        crate::ppu::rm(256, px, py)] == #[trigger] crate::ppu::nametable_pixel(
                        self.bus@.ppu,
                        c.chr(),
                        px,
                        py,
                    ) by {
                        assert(self.bus@.ppu.frame[crate::ppu::rm(256, px, py)]
                            == crate::ppu::nametable_pixel(ghost_pre_draw.ppu, c.chr(), px, py));
                    }
                }
            }
            Ok(TickOutcome { breakpoint: None, frame_ready: true })
        } else {
            Ok(TickOutcome { breakpoint: None, frame_ready: false })
        }
    }

    /// Run CPU instructions until the frame budget is spent, then raster the
    /// nametable; a breakpoint stops the loop early.
    pub fn step_frame(&mut self) -> (r: Result<Option<BreakpointType>, Fault>)
        requires
            old(self).wf(),
            old(self).cpu.cycles + 3 * MAX_CYCLES_PER_FRAME <= usize::MAX,
        ensures
            final(self).wf(),
            final(self).running == old(self).running,
            r matches Ok(out) ==> (out matches Some(bp) ==> bp is Pc),
            r matches Ok(out) ==> (out is None ==> {
                &&& final(self).cycles_this_frame == 0
                &&& final(self).cpu.cycles >= old(self).cpu.cycles + MAX_CYCLES_PER_FRAME - old(
                    self,
                ).cycles_this_frame
                &&& final(self).bus@.cartridge is Some
                &&& frame_rastered(*final(self))
            }),
    {
        while self.cycles_this_frame < MAX_CYCLES_PER_FRAME
            invariant
                self.bus@.wf(),
                self.cycles_this_frame <= MAX_CYCLES_PER_FRAME + 8,
                old(self).cycles_this_frame <= self.cycles_this_frame,
                self.cpu.cycles - old(self).cpu.cycles == self.cycles_this_frame - old(
                    self,
                ).cycles_this_frame,
                old(self).cpu.cycles + 3 * MAX_CYCLES_PER_FRAME <= usize::MAX,
                self.running == old(self).running,
            decreases MAX_CYCLES_PER_FRAME + 8 - self.cycles_this_frame,
        {
            let status = match self.cpu.tick(&mut self.bus) {
                Ok(s) => s,
                Err(e) => return Err(e),
            };
            let cycles = match status {
                CpuStatus::Normal(c) => c,
                CpuStatus::BreakpointHit(bp) => {
                    return Ok(Some(bp));
                },
            };
            self.cycles_this_frame = self.cycles_this_frame + cycles;
            let n = 3 * cycles;
            let ghost pre_cpu = self.cpu;
            let ghost pre_counter = self.cycles_this_frame;
            let ghost pre_running = self.running;
            let mut i: usize = 0;
            while i < n
                invariant
                    self.bus@.wf(),
                    self.cpu == pre_cpu,
                    self.cycles_this_frame == pre_counter,
                    self.running == pre_running,
                decreases n - i,
            {
                self.bus.tick_ppu();
                i = i + 1;
            }
        }
        self.cycles_this_frame = 0;
        let ghost ghost_pre_draw = self.bus@;
        match self.bus.draw_nametable() {
            Ok(()) => {},
            Err(e) => return Err(e),
        }
        proof {
            if let Some(c) = ghost_pre_draw.cartridge {
                assert forall|px: int, py: int|
                0 <= px < crate::NES_WIDTH && 0 <= py < crate::NES_HEIGHT implies self.bus@.ppu.frame[
                crate::ppu::rm(256, px, py)] == #[trigger] crate::ppu::nametable_pixel(
                self.bus@.ppu,
                c.chr(),
                px,
                py,
                ) by {
                assert(self.bus@.ppu.frame[crate::ppu::rm(256, px, py)]
                    == crate::ppu::nametable_pixel(ghost_pre_draw.ppu, c.chr(), px, py));
                }
            }
        }
        Ok(None)
    }

    /// The host's per-update entry: with the step-frame flag, one frame and
    /// stop; with the step-instruction flag, one instruction and stop;
    /// otherwise one whole frame. Does nothing unless running.
    pub fn run_in_loop(&mut self) -> (r: Result<Option<BreakpointType>, Fault>)
        requires
            old(self).wf(),
            old(self).cpu.cycles + 3 * MAX_CYCLES_PER_FRAME <= usize::MAX,
        ensures
            final(self).wf(),
            !old(self).running ==> *final(self) == *old(self) && r == Ok::<
                Option<BreakpointType>,
                Fault,
            >(None),
            old(self).running && old(self).bus@.ctx.flag_on(DebugFlag::Step(StepMode::Frame))
                ==> !final(self).running && (r matches Ok(o) ==> o is Some && (o == Some(
                BreakpointType::AfterFrame,
            ) ==> final(self).cycles_this_frame == 0 && frame_rastered(*final(self)))),
            old(self).running && !old(self).bus@.ctx.flag_on(DebugFlag::Step(StepMode::Frame))
                && old(self).bus@.ctx.flag_on(DebugFlag::Step(StepMode::Instruction))
                ==> !final(self).running && (r matches Ok(o) ==> o is Some),
            old(self).running && !old(self).bus@.ctx.flag_on(DebugFlag::Step(StepMode::Frame))
                && !old(self).bus@.ctx.flag_on(DebugFlag::Step(StepMode::Instruction)) ==> {
                &&& (r == Ok::<Option<BreakpointType>, Fault>(None)
                    ==> final(self).cycles_this_frame == 0 && frame_rastered(*final(self))
                    && final(self).running == old(self).running)
                &&& (r matches Ok(o) ==> (o is Some ==> !final(self).running))
            },
    {
        if !self.running {
            return Ok(None);
        }
        if self.bus.debug_ctx().flag_enabled(&DebugFlag::Step(StepMode::Frame)) {
            self.running = false;
            let out = match self.step_frame() {
                Ok(o) => o,
                Err(e) => return Err(e),
            };
            if let Some(bp) = out {
                return Ok(Some(bp));
            }
            return Ok(Some(BreakpointType::AfterFrame));
        }
        if self.bus.debug_ctx().flag_enabled(&DebugFlag::Step(StepMode::Instruction)) {
            self.running = false;
            let out = match self.tick() {
                Ok(o) => o,
                Err(e) => return Err(e),
            };
            if let Some(bp) = out.breakpoint {
                return Ok(Some(bp));
            }
            return Ok(Some(BreakpointType::AfterInstruction));
        }
        match self.step_frame() {
            Ok(None) => Ok(None),
            Ok(Some(bp)) => {
                self.running = false;
                Ok(Some(bp))
            },
            Err(e) => Err(e),
        }
    }

    /// The CPU's registers, flags and status byte.
    pub fn get_state(&self) -> (r: CpuState)
        ensures
            r.r_a == self.cpu.r_a && r.r_x == self.cpu.r_x && r.r_y == self.cpu.r_y,
            r.r_sp == self.cpu.r_sp && r.r_pc == self.cpu.r_pc,
            r.cycles == self.cpu.cycles,
            r.p == crate::cpu::spec_p(self.cpu, false),
    {
        self.cpu.get_state()
    }

    /// Load CPU registers and the status byte.
    pub fn load_state(&mut self, state: CpuState)
        ensures
            final(self).cpu == crate::cpu::spec_set_p(
                Cpu {
                    r_pc: state.r_pc,
                    r_sp: state.r_sp,
                    r_a: state.r_a,
                    r_x: state.r_x,
                    r_y: state.r_y,
                    ..old(self).cpu
                },
                state.p,
                true,
            ),
            final(self).bus == old(self).bus,
            final(self).running == old(self).running,
            final(self).cycles_this_frame == old(self).cycles_this_frame,
    {
        self.cpu.load_state(state);
    }

    /// Run exactly one CPU instruction, without picture ticks or frame
    /// accounting: the single-instruction test interface.
    pub fn tick_cpu(&mut self) -> (r: Result<CpuStatus, Fault>)
        requires
            old(self).wf(),
            old(self).cpu.cycles + 10 <= usize::MAX,
        ensures
            final(self).wf(),
            final(self).running == old(self).running,
            final(self).cycles_this_frame == old(self).cycles_this_frame,
            r matches Ok(CpuStatus::BreakpointHit(bp)) ==> old(self).bus@.ctx.spec_hit(bp)
                && final(self).cpu == old(self).cpu && final(self).bus@ == old(self).bus@,
            ({
                let hit = old(self).bus@.ctx.spec_hit(BreakpointType::Pc(old(self).cpu.r_pc));
                !hit && old(self).bus@.json() ==> {
                    let c0 = crate::cpu::spec_poll(old(self).cpu);
                    let code = crate::cpu::mem_r(old(self).bus@.raw_mem, c0.r_pc);
                    &&& (crate::opcode::spec_decode(code) is Some ==> {
                        let so = crate::cpu::spec_step(old(self).cpu, old(self).bus@.raw_mem);
                        &&& r == Ok::<CpuStatus, Fault>(
                            CpuStatus::Normal((so.cpu.cycles - old(self).cpu.cycles) as usize),
                        )
                        &&& final(self).cpu == so.cpu
                        &&& final(self).bus@.raw_mem == so.mem
                        &&& old(self).bus@.eq_mod_log(final(self).bus@)
                    })
                    &&& (crate::opcode::spec_decode(code) is None ==> r is Err
                        && final(self).cpu == (Cpu { page_crossed: false, ..c0 })
                        && final(self).bus@.raw_mem == old(self).bus@.raw_mem
                        && old(self).bus@.eq_mod_log(final(self).bus@))
                }
            }),
    {
        self.cpu.tick(&mut self.bus)
    }

    /// Write one byte through the bus.
    pub fn write(&mut self, addr: u16, value: u8) -> (r: Result<(), Fault>)
        requires
            old(self).wf(),
        ensures
            final(self).wf(),
            final(self).cpu == old(self).cpu,
            old(self).bus@.write_ok(addr) ==> r is Ok && final(self).bus@ == old(
                self,
            ).bus@.after_write(addr, value),
            !old(self).bus@.write_ok(addr) ==> r == Err::<(), Fault>(
                Fault::UnimplementedBusWrite(addr),
            ) && final(self).bus@ == old(self).bus@,
    {
        self.bus.write(addr, value)
    }

    /// Read one byte through the bus, with the device side effects a real
    /// read has.
    pub fn read(&mut self, addr: u16) -> (r: Result<u8, Fault>)
        requires
            old(self).wf(),
        ensures
            final(self).wf(),
            final(self).cpu == old(self).cpu,
            old(self).bus@.read_ok(addr) ==> r == Ok::<u8, Fault>(old(self).bus@.read_val(addr))
                && final(self).bus@ == old(self).bus@.after_read(addr),
            !old(self).bus@.read_ok(addr) ==> r is Err && final(self).bus@ == old(self).bus@,
    {
        self.bus.cpu_read(addr)
    }

    /// A reference to the screen frame buffer.
    pub fn get_frame(&self) -> (r: &FrameBuffer)
        ensures
            r@ == self.bus@.ppu.frame,
    {
        self.bus.get_frame()
    }

    /// The pattern-table debug view, or an empty buffer when disabled.
    pub fn get_pattern_table(&self) -> (r: FrameBuffer)
        requires
            self.wf(),
        ensures
            !(self.bus@.ctx.flag_on(DebugFlag::Ppu) && self.bus@.cartridge is Some) ==> r@.len()
                == 0,
            self.bus@.ctx.flag_on(DebugFlag::Ppu) ==> (self.bus@.cartridge matches Some(c) ==> {
                &&& r@.len() == crate::PATTERN_TABLE_WIDTH * crate::PATTERN_TABLE_HEIGHT
                &&& forall|px: int, py: int|
                    0 <= px < crate::PATTERN_TABLE_WIDTH && 0 <= py < crate::PATTERN_TABLE_HEIGHT
                        ==> r@[crate::ppu::rm(128, px, py)] == #[trigger] crate::ppu::pattern_table_pixel(
                        c.chr(),
                        px,
                        py,
                    )
            }),
    {
        self.bus.get_pattern_table()
    }

    /// The most recent disassembly log line, or the empty string.
    pub fn last_instruction(&self) -> (r: String)
        ensures
            self.bus@.ctx.log().len() == 0 ==> r@ == Seq::<char>::empty(),
            self.bus@.ctx.log().len() > 0 ==> r@ == self.bus@.ctx.log().last()@,
    {
        self.bus.debug_ctx().last_instruction()
    }
}

/// Ticking `n + 1` dots is ticking `n` dots and then one more.
proof fn lemma_ppu_ticks_snoc(v: PpuView, n: nat)
    ensures
        ppu_ticks(v, n + 1) == ppu_ticks(v, n).after_tick(),
    decreases n,
{
    assert(ppu_ticks(v, n + 1) == ppu_ticks(v.after_tick(), n));
    if n == 0 {
        assert(ppu_ticks(v.after_tick(), 0) == v.after_tick());
        assert(ppu_ticks(v, 0) == v);
    } else {
        lemma_ppu_ticks_snoc(v.after_tick(), (n - 1) as nat);
    }
}

} // verus!
