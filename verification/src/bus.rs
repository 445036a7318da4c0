//! The address-bus fabric: routes CPU-side reads and writes to work RAM, the
//! picture unit's registers, the audio/IO stub and cartridge program ROM,
//! with the mirroring each range prescribes; in test mode everything goes to
//! a flat 64 KiB array instead.

use vstd::prelude::*;

verus! {

use crate::apu::{Apu, APU_REG_COUNT};
use crate::cartridge::Cartridge;
use crate::debug::{DebugContext, DebugFlag};
use crate::frame_buffer::FrameBuffer;
use crate::ppu::{Ppu, PpuView};
use crate::Fault;

/// Size of the CPU-side work RAM.
pub const RAM_SIZE: usize = 0x800;

/// Size of the flat test-mode memory.
pub const RAW_MEM_SIZE: usize = 0x10000;

/// The register in 0x2000–0x2007 that a picture-unit address in
/// 0x2000–0x3FFF mirrors to: the low three bits select the register.
pub open spec fn mirror_reg(addr: u16) -> u16 {
    (0x2000 + (addr & 7)) as u16
}

/// The bus and every device on it, as plain mathematical values.
pub struct BusView {
    pub wram: Seq<u8>,
    pub ppu: PpuView,
    pub apu: Seq<u8>,
    pub cartridge: Option<Cartridge>,
    pub raw_mem: Seq<u8>,
    pub ctx: DebugContext,
}

impl BusView {
    /// Device sizes and invariants the bus maintains.
    pub open spec fn wf(self) -> bool {
        &&& self.wram.len() == RAM_SIZE
        &&& self.ppu.wf()
        &&& self.apu.len() == APU_REG_COUNT
        &&& self.raw_mem.len() == RAW_MEM_SIZE
        &&& (self.cartridge matches Some(c) ==> c.wf())
        &&& self.ctx.wf()
    }

    /// Whether the flat test-mode addressing is active.
    pub open spec fn json(self) -> bool {
        self.ctx.flag_on(DebugFlag::Json)
    }

    /// Whether a CPU read of `addr` succeeds: the cartridge-RAM window is
    /// unbacked, the write-only picture registers cannot be read, and
    /// program ROM needs a cartridge.
    pub open spec fn read_ok(self, addr: u16) -> bool {
        if self.json() {
            true
        } else if addr < 0x2000 {
            true
        } else if addr < 0x4000 {
            self.ppu.read_ok(mirror_reg(addr))
        } else if addr < 0x6000 {
            true
        } else if addr < 0x8000 {
            false
        } else {
            match self.cartridge {
                Some(c) => c.prg_index(addr) < c.prg().len(),
                None => false,
            }
        }
    }

    /// The fault a failing CPU read of `addr` raises.
    pub open spec fn read_fault(self, addr: u16) -> Fault {
        if 0x2000 <= addr < 0x4000 {
            Fault::PpuRegReadUnimplemented(mirror_reg(addr))
        } else if 0x6000 <= addr < 0x8000 {
            Fault::CartridgeRamUnimplemented(addr)
        } else if self.cartridge is Some {
            Fault::PrgRomOutOfRange(addr)
        } else {
            Fault::NoCartridge(addr)
        }
    }

    /// The byte a successful CPU read of `addr` returns.
    pub open spec fn read_val(self, addr: u16) -> u8 {
        if self.json() {
            self.raw_mem[addr as int]
        } else if addr < 0x2000 {
            self.wram[(addr & 0x7FF) as int]
        } else if addr < 0x4000 {
            self.ppu.read_val(mirror_reg(addr))
        } else if addr < 0x4018 {
            self.apu[addr - 0x4000]
        } else if addr < 0x8000 {
            0
        } else {
            match self.cartridge {
                Some(c) => if c.prg_index(addr) < c.prg().len() {
                    c.prg()[c.prg_index(addr)]
                } else {
                    0
                },
                None => 0,
            }
        }
    }

    /// The bus state after a CPU read of `addr`: only a non-debug read of
    /// the picture status register changes anything.
    pub open spec fn after_read(self, addr: u16) -> BusView {
        if !self.json() && 0x2000 <= addr < 0x4000 {
            BusView {
                ppu: self.ppu.after_read(mirror_reg(addr), self.ctx.debug_read()),
                ..self
            }
        } else {
            self
        }
    }

    /// Whether `other` agrees with this state on every device and debug
    /// setting except the flat test memory, the instruction log and the
    /// transient debug-read marker.
    pub open spec fn eq_mod_log(self, other: BusView) -> bool {
        &&& other.wram == self.wram
        &&& other.ppu == self.ppu
        &&& other.apu == self.apu
        &&& other.cartridge == self.cartridge
        &&& other.ctx.flags() == self.ctx.flags()
        &&& other.ctx.breakpoint() == self.ctx.breakpoint()
    }

    /// Whether a CPU write to `addr` succeeds: everything past the audio/IO
    /// registers is unclaimed.
    pub open spec fn write_ok(self, addr: u16) -> bool {
        self.json() || addr < 0x4018
    }

    /// The bus state after a CPU write of `value` to `addr`.
    pub open spec fn after_write(self, addr: u16, value: u8) -> BusView {
        if self.json() {
            BusView { raw_mem: self.raw_mem.update(addr as int, value), ..self }
        } else if addr < 0x2000 {
            BusView { wram: self.wram.update((addr & 0x7FF) as int, value), ..self }
        } else if addr < 0x4000 {
            BusView { ppu: self.ppu.after_write(mirror_reg(addr), value), ..self }
        } else if addr < 0x4018 {
            BusView { apu: self.apu.update(addr - 0x4000, value), ..self }
        } else {
            self
        }
    }
}

/// Ties the devices together and routes CPU accesses.
pub struct Bus {
    wram: Vec<u8>,
    ppu: Ppu,
    apu: Apu,
    cartridge: Option<Cartridge>,
    raw_mem: Vec<u8>,
    debug_ctx: DebugContext,
}

impl View for Bus {
    type V = BusView;

    closed spec fn view(&self) -> BusView {
        BusView {
            wram: self.wram@,
            ppu: self.ppu@,
            apu: self.apu.view(),
            cartridge: self.cartridge,
            raw_mem: self.raw_mem@,
            ctx: self.debug_ctx,
        }
    }
}

impl Bus {
    /// A bus with cleared memories, a fresh picture unit and audio stub, no
    /// cartridge, and the given debug context.
    pub fn new(debug_ctx: DebugContext) -> (r: Bus)
        requires
            debug_ctx.wf(),
        ensures
            r@.wf(),
            r@.ctx == debug_ctx,
            r@.cartridge is None,
            forall|i: int| 0 <= i < RAM_SIZE ==> r@.wram[i] == 0,
            forall|i: int| 0 <= i < RAW_MEM_SIZE ==> r@.raw_mem[i] == 0,
            r@.ppu.ppu_status == 0 && r@.ppu.ppu_ctrl == 0 && r@.ppu.r_v == 0 && r@.ppu.r_t == 0
                && r@.ppu.r_w == 0 && r@.ppu.scanline == 0 && r@.ppu.dot == 0,
    {
        Bus {
            wram: zero_bytes(RAM_SIZE),
            ppu: Ppu::new(),
            apu: Apu::new(),
            cartridge: None,
            raw_mem: zero_bytes(RAW_MEM_SIZE),
            debug_ctx,
        }
    }

    /// Insert `cartridge`; the picture unit reads character ROM through the
    /// bus's copy.
    pub fn load_cartridge(&mut self, cartridge: Cartridge)
        requires
            old(self)@.wf(),
            cartridge.wf(),
        ensures
            final(self)@.wf(),
            final(self)@ == (BusView { cartridge: Some(cartridge), ..old(self)@ }),
    {
        self.cartridge = Some(cartridge);
    }

    /// Shared access to the debug context.
    pub fn debug_ctx(&self) -> (r: &DebugContext)
        ensures
            *r == self@.ctx,
    {
        &self.debug_ctx
    }

    /// Enable `flag` in the debug context.
    pub fn set_debug_flag(&mut self, flag: DebugFlag)
        ensures
            final(self)@ == (BusView { ctx: final(self)@.ctx, ..old(self)@ }),
            final(self)@.ctx.flag_on(flag),
            forall|g: DebugFlag| #[trigger]
                final(self)@.ctx.flag_on(g) == (old(self)@.ctx.flag_on(g) || g == flag),
            final(self)@.ctx.log() == old(self)@.ctx.log(),
            final(self)@.ctx.breakpoint() == old(self)@.ctx.breakpoint(),
            final(self)@.ctx.debug_read() == old(self)@.ctx.debug_read(),
    {
        self.debug_ctx.set_debug_flag(flag);
    }

    /// Disable `flag` in the debug context.
    pub fn clear_debug_flag(&mut self, flag: &DebugFlag)
        ensures
            final(self)@ == (BusView { ctx: final(self)@.ctx, ..old(self)@ }),
            !final(self)@.ctx.flag_on(*flag),
            forall|g: DebugFlag| #[trigger]
                final(self)@.ctx.flag_on(g) == (old(self)@.ctx.flag_on(g) && g != *flag),
            final(self)@.ctx.log() == old(self)@.ctx.log(),
            final(self)@.ctx.breakpoint() == old(self)@.ctx.breakpoint(),
            final(self)@.ctx.debug_read() == old(self)@.ctx.debug_read(),
    {
        self.debug_ctx.clear_debug_flag(flag);
    }

    /// Replace the debug context's whole flag set.
    pub fn set_debug_flags(&mut self, flags: Vec<DebugFlag>)
        ensures
            final(self)@ == (BusView { ctx: final(self)@.ctx, ..old(self)@ }),
            final(self)@.ctx.flags() == flags@,
            final(self)@.ctx.log() == old(self)@.ctx.log(),
            final(self)@.ctx.breakpoint() == old(self)@.ctx.breakpoint(),
            final(self)@.ctx.debug_read() == old(self)@.ctx.debug_read(),
    {
        self.debug_ctx.set_debug_flags(flags);
    }

    /// Set or clear the debug context's PC breakpoint.
    pub fn set_breakpoint(&mut self, breakpoint: Option<u16>)
        ensures
            final(self)@ == (BusView { ctx: final(self)@.ctx, ..old(self)@ }),
            final(self)@.ctx.breakpoint() == breakpoint,
            final(self)@.ctx.flags() == old(self)@.ctx.flags(),
            final(self)@.ctx.log() == old(self)@.ctx.log(),
            final(self)@.ctx.debug_read() == old(self)@.ctx.debug_read(),
    {
        self.debug_ctx.set_breakpoint(breakpoint);
    }

    /// Append one line to the debug context's instruction log.
    pub fn log_instr(&mut self, line: String)
        requires
            old(self)@.ctx.wf(),
        ensures
            final(self)@ == (BusView { ctx: final(self)@.ctx, ..old(self)@ }),
            final(self)@.ctx.wf(),
            old(self)@.ctx.log().len() < crate::debug::LOG_CAPACITY ==> final(self)@.ctx.log()
                == old(self)@.ctx.log().push(line),
            old(self)@.ctx.log().len() == crate::debug::LOG_CAPACITY ==> final(self)@.ctx.log()
                == old(self)@.ctx.log().push(line).subrange(500, crate::debug::LOG_CAPACITY + 1),
            final(self)@.ctx.flags() == old(self)@.ctx.flags(),
            final(self)@.ctx.breakpoint() == old(self)@.ctx.breakpoint(),
            final(self)@.ctx.debug_read() == old(self)@.ctx.debug_read(),
    {
        self.debug_ctx.log_instr(line);
    }

    /// Switch the side-effect-free read mode on or off.
    pub fn set_cpu_debug_read(&mut self, value: bool)
        ensures
            final(self)@.ctx.debug_read() == value,
            final(self)@.ctx.flags() == old(self)@.ctx.flags(),
            final(self)@.ctx.log() == old(self)@.ctx.log(),
            final(self)@.ctx.breakpoint() == old(self)@.ctx.breakpoint(),
            final(self)@ == (BusView { ctx: final(self)@.ctx, ..old(self)@ }),
    {
        self.debug_ctx.set_cpu_debug_read(value);
    }

    /// Mapped memory read for the CPU.
    pub fn cpu_read(&mut self, addr: u16) -> (r: Result<u8, Fault>)
        requires
            old(self)@.wf(),
        ensures
            final(self)@.wf(),
            old(self)@.read_ok(addr) ==> r == Ok::<u8, Fault>(old(self)@.read_val(addr))
                && final(self)@ == old(self)@.after_read(addr),
            !old(self)@.read_ok(addr) ==> r == Err::<u8, Fault>(old(self)@.read_fault(addr))
                && final(self)@ == old(self)@,
    {
        if self.debug_ctx.flag_enabled(&DebugFlag::Json) {
            return Ok(self.raw_mem[addr as usize]);
        }
        // work RAM and its mirrors
        if addr < 0x2000 {
            let index = (addr & 0x7FF) as usize;
            proof {
                assert((addr & 0x7FF) < 0x800) by (bit_vector);
            }
            return Ok(self.wram[index]);
        }
        // picture-unit registers and their mirrors
        if addr < 0x4000 {
            proof {
                assert((addr & 7) < 8) by (bit_vector);
            }
            let reg = 0x2000 + (addr & 7);
            let debug_read = self.debug_ctx.cpu_debug_read();
            return self.ppu.read_reg(reg, debug_read);
        }
        // audio and input-output registers
        if addr < 0x4018 {
            return Ok(self.apu.read_reg(addr));
        }
        // disabled audio/IO range and the unimplemented expansion area
        if addr < 0x6000 {
            return Ok(0);
        }
        // cartridge work RAM, which no supported mapper backs
        if addr < 0x8000 {
            return Err(Fault::CartridgeRamUnimplemented(addr));
        }
        // cartridge program ROM
        match &self.cartridge {
            Some(cartridge) => cartridge.get_prg_rom(addr),
            None => Err(Fault::NoCartridge(addr)),
        }
    }

    /// Mapped memory write for the CPU.
    pub fn write(&mut self, addr: u16, value: u8) -> (r: Result<(), Fault>)
        requires
            old(self)@.wf(),
        ensures
            final(self)@.wf(),
            old(self)@.write_ok(addr) ==> r == Ok::<(), Fault>(())
                && final(self)@ == old(self)@.after_write(addr, value),
            !old(self)@.write_ok(addr) ==> r == Err::<(), Fault>(
                Fault::UnimplementedBusWrite(addr),
            ) && final(self)@ == old(self)@,
    {
        if self.debug_ctx.flag_enabled(&DebugFlag::Json) {
            self.raw_mem.set(addr as usize, value);
            return Ok(());
        }
        if addr < 0x2000 {
            let index = (addr & 0x7FF) as usize;
            proof {
                assert((addr & 0x7FF) < 0x800) by (bit_vector);
            }
            self.wram.set(index, value);
            return Ok(());
        }
        if addr < 0x4000 {
            proof {
                assert((addr & 7) < 8) by (bit_vector);
            }
            let reg = 0x2000 + (addr & 7);
            self.ppu.write_reg(reg, value);
            return Ok(());
        }
        if addr < 0x4018 {
            self.apu.write_reg(addr, value);
            return Ok(());
        }
        Err(Fault::UnimplementedBusWrite(addr))
    }

    /// Advance the picture unit by one dot.
    pub fn tick_ppu(&mut self)
        requires
            old(self)@.wf(),
        ensures
            final(self)@.wf(),
            final(self)@ == (BusView { ppu: old(self)@.ppu.after_tick(), ..old(self)@ }),
    {
        self.ppu.tick();
    }

    /// Raster the nametable into the frame buffer; fails when no cartridge
    /// provides character ROM.
    pub fn draw_nametable(&mut self) -> (r: Result<(), Fault>)
        requires
            old(self)@.wf(),
        ensures
            final(self)@.wf(),
            old(self)@.cartridge is None ==> r == Err::<(), Fault>(Fault::NoCartridge(0))
                && final(self)@ == old(self)@,
            old(self)@.cartridge matches Some(c) ==> {
                &&& r == Ok::<(), Fault>(())
                &&& final(self)@ == (BusView {
                    ppu: (PpuView { frame: final(self)@.ppu.frame, ..old(self)@.ppu }),
                    ..old(self)@
                })
                &&& forall|px: int, py: int|
                    0 <= px < crate::NES_WIDTH && 0 <= py < crate::NES_HEIGHT
                        ==> final(self)@.ppu.frame[crate::ppu::rm(256, px, py)]
                        == #[trigger] crate::ppu::nametable_pixel(
                        old(self)@.ppu,
                        c.chr(),
                        px,
                        py,
                    )
            },
    {
        match &self.cartridge {
            Some(cartridge) => {
                self.ppu.draw_nametable(cartridge);
                Ok(())
            },
            None => Err(Fault::NoCartridge(0)),
        }
    }

    /// A reference to the screen frame buffer.
    pub fn get_frame(&self) -> (r: &FrameBuffer)
        ensures
            r@ == self@.ppu.frame,
    {
        self.ppu.frame()
    }

    /// The pattern-table debug view, or an empty buffer when the flag is off
    /// or no cartridge is inserted.
    pub fn get_pattern_table(&self) -> (r: FrameBuffer)
        requires
            self@.wf(),
        ensures
            !(self@.ctx.flag_on(DebugFlag::Ppu) && self@.cartridge is Some) ==> r@.len() == 0,
            self@.ctx.flag_on(DebugFlag::Ppu) ==> (self@.cartridge matches Some(c) ==> {
                &&& r@.len() == crate::PATTERN_TABLE_WIDTH * crate::PATTERN_TABLE_HEIGHT
                &&& forall|px: int, py: int|
                    0 <= px < crate::PATTERN_TABLE_WIDTH && 0 <= py < crate::PATTERN_TABLE_HEIGHT
                        ==> r@[crate::ppu::rm(128, px, py)] == #[trigger] crate::ppu::pattern_table_pixel(
                        c.chr(),
                        px,
                        py,
                    )
            }),
    {
        let enabled = self.debug_ctx.flag_enabled(&DebugFlag::Ppu);
        match &self.cartridge {
            Some(cartridge) => self.ppu.pattern_table(cartridge, enabled),
            None => FrameBuffer::new(0, 0),
        }
    }
}

/// A vector of `len` zero bytes.
fn zero_bytes(len: usize) -> (r: Vec<u8>)
    ensures
        r@.len() == len,
        forall|i: int| 0 <= i < len ==> r@[i] == 0,
{
    let mut v: Vec<u8> = Vec::new();
    let mut i: usize = 0;
    while i < len
        invariant
            i <= len,
            v@.len() == i,
            forall|j: int| 0 <= j < i ==> v@[j] == 0,
        decreases len - i,
    {
        v.push(0);
        i = i + 1;
    }
    v
}

} // verus!
