//! The picture unit: eight memory-mapped registers, the internal 15-bit
//! address latches `v` and `t`, the write toggle `w`, 2 KiB of nametable
//! VRAM, the dot/scanline counters, and the nametable renderer.

use vstd::prelude::*;

verus! {

use crate::cartridge::Cartridge;
use crate::frame_buffer::FrameBuffer;
use crate::Fault;
use crate::{NES_HEIGHT, NES_WIDTH, PATTERN_TABLE_HEIGHT, PATTERN_TABLE_WIDTH};

/// Size of the picture unit's own nametable memory.
pub const VRAM_SIZE: usize = 0x800;

/// The eight bus-visible registers, plus the sprite DMA port.
#[derive(Clone, Copy, Debug, PartialEq, Eq, Structural)]
pub enum PpuRegs {
    PpuCtrl,
    PpuMask,
    PpuStatus,
    OamAddr,
    OamData,
    PpuScroll,
    PpuAddr,
    PpuData,
    OamDma,
}

impl PpuRegs {
    /// The bus address of the register.
    pub open spec fn spec_addr(self) -> u16 {
        match self {
            PpuRegs::PpuCtrl => 0x2000,
            PpuRegs::PpuMask => 0x2001,
            PpuRegs::PpuStatus => 0x2002,
            PpuRegs::OamAddr => 0x2003,
            PpuRegs::OamData => 0x2004,
            PpuRegs::PpuScroll => 0x2005,
            PpuRegs::PpuAddr => 0x2006,
            PpuRegs::PpuData => 0x2007,
            PpuRegs::OamDma => 0x4014,
        }
    }

    /// The bus address of the register.
    pub fn addr(&self) -> (r: u16)
        ensures
            r == self.spec_addr(),
    {
        match *self {
            PpuRegs::PpuCtrl => 0x2000,
            PpuRegs::PpuMask => 0x2001,
            PpuRegs::PpuStatus => 0x2002,
            PpuRegs::OamAddr => 0x2003,
            PpuRegs::OamData => 0x2004,
            PpuRegs::PpuScroll => 0x2005,
            PpuRegs::PpuAddr => 0x2006,
            PpuRegs::PpuData => 0x2007,
            PpuRegs::OamDma => 0x4014,
        }
    }
}

/// The picture unit's state as plain mathematical values.
pub struct PpuView {
    pub vram: Seq<u8>,
    pub ppu_ctrl: u8,
    pub ppu_mask: u8,
    pub ppu_status: u8,
    pub oam_addr: u8,
    pub oam_data: u8,
    pub ppu_data: u8,
    pub oam_dma: u8,
    pub r_v: u16,
    pub r_t: u16,
    pub r_x: u8,
    pub r_w: u8,
    pub scanline: usize,
    pub dot: usize,
    pub frame: Seq<u32>,
}

impl PpuView {
    /// Sizes and latch widths the unit maintains: 2 KiB of VRAM, 15-bit `v`
    /// and `t`, 3-bit fine-X, 1-bit toggle, counters within one frame, and a
    /// full-screen frame buffer.
    pub open spec fn wf(self) -> bool {
        &&& self.vram.len() == VRAM_SIZE
        &&& self.r_v < 0x8000
        &&& self.r_t < 0x8000
        &&& self.r_x < 8
        &&& self.r_w <= 1
        &&& self.scanline <= 261
        &&& self.dot <= 340
        &&& self.frame.len() == NES_WIDTH * NES_HEIGHT
    }

    /// Whether a read of the register at `addr` is implemented: the scroll
    /// and address registers are write-only.
    pub open spec fn read_ok(self, addr: u16) -> bool {
        addr != 0x2005 && addr != 0x2006
    }

    /// The byte a read of the register at `addr` returns. The status read
    /// returns the current status byte whether or not it clears it.
    pub open spec fn read_val(self, addr: u16) -> u8 {
        if addr == 0x2000 {
            self.ppu_ctrl
        } else if addr == 0x2001 {
            self.ppu_mask
        } else if addr == 0x2002 {
            self.ppu_status
        } else if addr == 0x2003 {
            self.oam_addr
        } else if addr == 0x2004 {
            self.oam_data
        } else if addr == 0x2007 {
            self.ppu_data
        } else {
            self.oam_dma
        }
    }

    /// The state after a read of the register at `addr`: a non-debug status
    /// read clears the vblank bit and the write toggle; every other read
    /// leaves the unit unchanged.
    pub open spec fn after_read(self, addr: u16, debug_read: bool) -> PpuView {
        if addr == 0x2002 && !debug_read {
            PpuView { ppu_status: (self.ppu_status & 0x7F) as u8, r_w: 0, ..self }
        } else {
            self
        }
    }

    /// The state after an internal write of `value` to picture address
    /// `addr`: nametable and palette addresses land in the 2 KiB VRAM,
    /// mirrored; pattern-table addresses fall in character ROM and are
    /// ignored.
    pub open spec fn internal_write(self, addr: u16, value: u8) -> PpuView {
        if addr < 0x2000 {
            self
        } else {
            PpuView { vram: self.vram.update(((addr - 0x2000) as u16 & 0x7FF) as int, value), ..self }
        }
    }

    /// The state after a write of `value` to the register at `addr`.
    pub open spec fn after_write(self, addr: u16, value: u8) -> PpuView {
        if addr == 0x2000 {
            PpuView { ppu_ctrl: value, ..self }
        } else if addr == 0x2001 {
            PpuView { ppu_mask: value, ..self }
        } else if addr == 0x2002 {
            PpuView { ppu_status: value, r_w: 0, ..self }
        } else if addr == 0x2003 {
            PpuView { oam_addr: value, ..self }
        } else if addr == 0x2004 {
            PpuView { oam_data: value, ..self }
        } else if addr == 0x2005 {
            if self.r_w == 0 {
                PpuView {
                    r_t: ((self.r_t & 0x7FE0) | (value >> 3) as u16) as u16,
                    r_x: (value & 7) as u8,
                    r_w: 1,
                    ..self
                }
            } else {
                PpuView {
                    r_t: ((self.r_t & 0x0C1F) | (((value >> 3) as u16) << 5) | (((value & 7) as u16)
                        << 12)) as u16,
                    r_w: 0,
                    ..self
                }
            }
        } else if addr == 0x2006 {
            if self.r_w == 0 {
                PpuView { r_t: (((value & 0x3F) as u16) << 8) as u16, r_w: 1, ..self }
            } else {
                let t = (self.r_t | value as u16) as u16;
                PpuView { r_t: t, r_v: t, r_w: 0, ..self }
            }
        } else if addr == 0x2007 {
            let step: u16 = if self.ppu_ctrl & 0b100 > 0 {
                32
            } else {
                1
            };
            let written = self.internal_write(self.r_v, value);
            PpuView {
                ppu_data: value,
                r_v: ((self.r_v + step) as u16 & 0x7FFF) as u16,
                ..written
            }
        } else {
            PpuView { oam_dma: value, ..self }
        }
    }

    /// The state one dot later: vblank is raised at dot 1 of scanline 241,
    /// and the dot and scanline counters advance, wrapping at 340 and 261.
    pub open spec fn after_tick(self) -> PpuView {
        let status = if self.dot == 1 && self.scanline == 241 {
            (self.ppu_status | 0x80) as u8
        } else {
            self.ppu_status
        };
        let dot = self.dot + 1;
        if dot > 340 {
            if self.scanline + 1 > 261 {
                PpuView { ppu_status: status, dot: 0, scanline: 0, ..self }
            } else {
                PpuView { ppu_status: status, dot: 0, scanline: (self.scanline + 1) as usize, ..self }
            }
        } else {
            PpuView { ppu_status: status, dot: dot as usize, ..self }
        }
    }
}

/// The fixed four-entry palette: black, red, green, blue.
pub open spec fn spec_color(index: u32) -> u32 {
    if index == 0 {
        0x000000
    } else if index == 1 {
        0xFF0000
    } else if index == 2 {
        0x00FF00
    } else {
        0x0000FF
    }
}

/// The color of pixel (`col`, `row`) of the tile whose pattern starts at
/// `base` in character ROM: two bit planes eight bytes apart give a 2-bit
/// palette index.
pub open spec fn tile_pixel(chr: Seq<u8>, base: int, row: int, col: int) -> u32 {
    let plane0 = chr[base + row] as u32;
    let plane1 = chr[base + row + 8] as u32;
    let bit0 = (plane0 >> (7 - col) as u32) & 1;
    let bit1 = (plane1 >> (7 - col) as u32) & 1;
    spec_color((bit1 << 1) | bit0)
}

/// The character-ROM start of the pattern for `tile_num`, with control-bit 4
/// selecting the background pattern-table half.
pub open spec fn tile_base(ctrl: u8, tile_num: u8) -> int {
    (((tile_num as u16) | (((ctrl & 0x10) as u16) << 4)) as int) * 16
}

/// The color the nametable renderer gives the screen pixel (`px`, `py`).
pub open spec fn nametable_pixel(v: PpuView, chr: Seq<u8>, px: int, py: int) -> u32 {
    let tile_num = v.vram[(py / 8) * 32 + px / 8];
    tile_pixel(chr, tile_base(v.ppu_ctrl, tile_num), py % 8, px % 8)
}

/// The color the pattern-table view gives its pixel (`px`, `py`): tile
/// `(py / 8) * 16 + px / 8` of character ROM, both halves stacked.
pub open spec fn pattern_table_pixel(chr: Seq<u8>, px: int, py: int) -> u32 {
    tile_pixel(chr, ((py / 8) * 16 + px / 8) * 16, py % 8, px % 8)
}

/// The picture unit.
pub struct Ppu {
    vram: Vec<u8>,
    ppu_ctrl: u8,
    ppu_mask: u8,
    ppu_status: u8,
    oam_addr: u8,
    oam_data: u8,
    ppu_data: u8,
    oam_dma: u8,
    r_v: u16,
    r_t: u16,
    r_x: u8,
    r_w: u8,
    scanline: usize,
    dot: usize,
    frame_buffer: FrameBuffer,
}

impl View for Ppu {
    type V = PpuView;

    closed spec fn view(&self) -> PpuView {
        PpuView {
            vram: self.vram@,
            ppu_ctrl: self.ppu_ctrl,
            ppu_mask: self.ppu_mask,
            ppu_status: self.ppu_status,
            oam_addr: self.oam_addr,
            oam_data: self.oam_data,
            ppu_data: self.ppu_data,
            oam_dma: self.oam_dma,
            r_v: self.r_v,
            r_t: self.r_t,
            r_x: self.r_x,
            r_w: self.r_w,
            scanline: self.scanline,
            dot: self.dot,
            frame: self.frame_buffer@,
        }
    }
}

impl Ppu {
    /// A unit with cleared VRAM, registers and latches, and a black frame.
    pub fn new() -> (r: Ppu)
        ensures
            r@.wf(),
            r@.ppu_ctrl == 0,
            r@.ppu_mask == 0,
            r@.ppu_status == 0,
            r@.oam_addr == 0,
            r@.oam_data == 0,
            r@.ppu_data == 0,
            r@.oam_dma == 0,
            r@.r_v == 0,
            r@.r_t == 0,
            r@.r_x == 0,
            r@.r_w == 0,
            r@.scanline == 0,
            r@.dot == 0,
            forall|i: int| 0 <= i < VRAM_SIZE ==> r@.vram[i] == 0,
    {
        let mut vram: Vec<u8> = Vec::new();
        let mut i: usize = 0;
        while i < VRAM_SIZE
            invariant
                i <= VRAM_SIZE,
                vram@.len() == i,
                forall|j: int| 0 <= j < i ==> vram@[j] == 0,
            decreases VRAM_SIZE - i,
        {
            vram.push(0);
            i = i + 1;
        }
        Ppu {
            vram,
            ppu_ctrl: 0,
            ppu_mask: 0,
            ppu_status: 0,
            oam_addr: 0,
            oam_data: 0,
            ppu_data: 0,
            oam_dma: 0,
            r_v: 0,
            r_t: 0,
            r_x: 0,
            r_w: 0,
            scanline: 0,
            dot: 0,
            frame_buffer: FrameBuffer::new(NES_WIDTH, NES_HEIGHT),
        }
    }

    /// Read the register at `addr`. A non-debug read of the status register
    /// clears the vblank bit and the write toggle; a debug read returns the
    /// same byte and changes nothing.
    pub fn read_reg(&mut self, addr: u16, debug_read: bool) -> (r: Result<u8, Fault>)
        requires
            old(self)@.wf(),
            (0x2000 <= addr <= 0x2007) || addr == 0x4014,
        ensures
            final(self)@.wf(),
            old(self)@.read_ok(addr) ==> r == Ok::<u8, Fault>(old(self)@.read_val(addr))
                && final(self)@ == old(self)@.after_read(addr, debug_read),
            !old(self)@.read_ok(addr) ==> r == Err::<u8, Fault>(
                Fault::PpuRegReadUnimplemented(addr),
            ) && final(self)@ == old(self)@,
    {
        match addr {
            0x2000 => Ok(self.ppu_ctrl),
            0x2001 => Ok(self.ppu_mask),
            0x2002 => {
                let value = self.ppu_status;
                if debug_read {
                    return Ok(value);
                }
                self.r_w = 0;
                self.ppu_status = self.ppu_status & 0x7F;
                Ok(value)
            },
            0x2003 => Ok(self.oam_addr),
            0x2004 => Ok(self.oam_data),
            0x2005 => Err(Fault::PpuRegReadUnimplemented(addr)),
            0x2006 => Err(Fault::PpuRegReadUnimplemented(addr)),
            0x2007 => Ok(self.ppu_data),
            _ => Ok(self.oam_dma),
        }
    }

    /// Write `value` to the register at `addr`, with the scroll and address
    /// registers driving the `t`/`v`/`x`/`w` latch protocol and the data
    /// register writing through `v`.
    pub fn write_reg(&mut self, addr: u16, value: u8)
        requires
            old(self)@.wf(),
            (0x2000 <= addr <= 0x2007) || addr == 0x4014,
        ensures
            final(self)@.wf(),
            final(self)@ == old(self)@.after_write(addr, value),
    {
        match addr {
            0x2000 => self.ppu_ctrl = value,
            0x2001 => self.ppu_mask = value,
            0x2002 => {
                self.ppu_status = value;
                self.r_w = 0;
            },
            0x2003 => self.oam_addr = value,
            0x2004 => self.oam_data = value,
            0x2005 => {
                // alternate between the low and high halves of t on each write
                let coarse = (value >> 3) as u16;
                if self.r_w == 0 {
                    self.r_t = (self.r_t & 0x7FE0) | coarse;
                    self.r_x = value & 7;
                } else {
                    self.r_t = (self.r_t & 0x0C1F) | (coarse << 5) | (((value & 7) as u16) << 12);
                }
                self.r_w = if self.r_w == 0 { 1 } else { 0 };
                proof {
                    let t = old(self)@.r_t;
                    if old(self)@.r_w == 0 {
                        assert(((t & 0x7FE0) | ((value >> 3) as u16)) < 0x8000 && (value & 7)
                            < 8) by (bit_vector)
                            requires
                                t < 0x8000,
                        ;
                    } else {
                        assert(((t & 0x0C1F) | (((value >> 3) as u16) << 5) | (((value & 7)
                            as u16) << 12)) < 0x8000) by (bit_vector);
                    }
                }
            },
            0x2006 => {
                if self.r_w == 0 {
                    self.r_t = ((value & 0x3F) as u16) << 8;
                    proof {
                        assert((((value & 0x3F) as u16) << 8) < 0x8000) by (bit_vector);
                    }
                } else {
                    self.r_t = self.r_t | (value as u16);
                    self.r_v = self.r_t;
                    proof {
                        let t = old(self)@.r_t;
                        assert((t | (value as u16)) < 0x8000) by (bit_vector)
                            requires
                                t < 0x8000,
                        ;
                    }
                }
                self.r_w = if self.r_w == 0 { 1 } else { 0 };
            },
            0x2007 => {
                self.ppu_data = value;
                let v_addr = self.r_v;
                self.internal_write(v_addr, value);
                let step: u16 = if self.ppu_ctrl & 0b100 > 0 {
                    32
                } else {
                    1
                };
                self.r_v = (self.r_v + step) & 0x7FFF;
                proof {
                    let vv = old(self)@.r_v;
                    let step2: u16 = if old(self)@.ppu_ctrl & 0b100 > 0 {
                        32u16
                    } else {
                        1u16
                    };
                    assert(((vv + step2) as u16 & 0x7FFF) < 0x8000) by (bit_vector);
                }
            },
            _ => self.oam_dma = value,
        }
    }

    /// Write `value` at internal picture address `addr`: nametable and
    /// palette space lands in the 2 KiB VRAM with mirroring; pattern-table
    /// space is character ROM and the write is dropped.
    fn internal_write(&mut self, addr: u16, value: u8)
        requires
            old(self)@.wf(),
        ensures
            final(self)@.wf(),
            final(self)@ == old(self)@.internal_write(addr, value),
    {
        if addr < 0x2000 {
            return;
        }
        let index = ((addr - 0x2000) & 0x7FF) as usize;
        proof {
            assert(((addr - 0x2000) as u16 & 0x7FF) < 0x800) by (bit_vector);
        }
        self.vram.set(index, value);
    }

    /// Read the byte at internal picture address `addr`: character ROM below
    /// 0x2000, nametable VRAM from 0x2000 to 0x2FFF.
    pub fn internal_read(&self, cart: &Cartridge, addr: u16) -> (r: u8)
        requires
            self@.wf(),
            cart.wf(),
            addr < 0x3000,
            (0x2000 <= addr ==> addr - 0x2000 < VRAM_SIZE),
        ensures
            addr < 0x2000 ==> r == cart.chr()[addr as int],
            0x2000 <= addr ==> r == self@.vram[addr - 0x2000],
    {
        if addr < 0x2000 {
            cart.get_chr_rom(addr)
        } else {
            self.vram[(addr - 0x2000) as usize]
        }
    }

    /// Advance the unit by one dot.
    pub fn tick(&mut self)
        requires
            old(self)@.wf(),
        ensures
            final(self)@.wf(),
            final(self)@ == old(self)@.after_tick(),
    {
        if self.dot == 1 && self.scanline == 241 {
            self.ppu_status = self.ppu_status | 0x80;
        }
        self.dot = self.dot + 1;
        if self.dot > 340 {
            self.scanline = self.scanline + 1;
            self.dot = 0;
        }
        if self.scanline > 261 {
            self.scanline = 0;
        }
    }

    /// A reference to the screen frame buffer.
    pub fn frame(&self) -> (r: &FrameBuffer)
        ensures
            r@ == self@.frame,
    {
        &self.frame_buffer
    }

    /// Draw the 8×8 tile with index `tile_num` at tile cell (`x`, `y`) of
    /// the screen frame buffer, control-bit 4 selecting the pattern-table
    /// half.
    fn draw_tile(&mut self, cart: &Cartridge, x: usize, y: usize, tile_num: u8)
        requires
            old(self)@.wf(),
            cart.wf(),
            x < 32,
            y < 30,
        ensures
            final(self)@ == (PpuView { frame: final(self)@.frame, ..old(self)@ }),
            final(self)@.frame.len() == old(self)@.frame.len(),
            forall|rr: int, cc: int|
                0 <= rr < 8 && 0 <= cc < 8 ==> final(self)@.frame[#[trigger] tile_index(
                    256,
                    x as int,
                    y as int,
                    rr,
                    cc,
                )] == tile_pixel(cart.chr(), tile_base(old(self)@.ppu_ctrl, tile_num), rr, cc),
            forall|px: int, py: int|
                0 <= px < 256 && 0 <= py && rm(256, px, py) < old(self)@.frame.len() && !(x * 8
                    <= px < x * 8 + 8 && y * 8 <= py < y * 8 + 8)
                    ==> #[trigger] final(self)@.frame[rm(256, px, py)] == old(self)@.frame[rm(
                    256,
                    px,
                    py,
                )],
    {
        let ctrl = self.ppu_ctrl;
        let half: u16 = ((ctrl & 0x10) as u16) << 4;
        let pattern: u16 = (tile_num as u16) | half;
        proof {
            assert((tile_num as u16) | (((ctrl & 0x10) as u16) << 4) < 0x200) by (bit_vector);
        }
        let base: usize = (pattern as usize) * 16;
        blit_tile(&mut self.frame_buffer, 256, x, y, cart, base);
    }

    /// Raster the whole nametable into the screen frame buffer: 30 rows of
    /// 32 tile cells, each taking its tile index from VRAM.
    pub fn draw_nametable(&mut self, cart: &Cartridge)
        requires
            old(self)@.wf(),
            cart.wf(),
        ensures
            final(self)@.wf(),
            final(self)@ == (PpuView { frame: final(self)@.frame, ..old(self)@ }),
            final(self)@.frame.len() == old(self)@.frame.len(),
            forall|px: int, py: int|
                0 <= px < NES_WIDTH && 0 <= py < NES_HEIGHT ==> final(self)@.frame[rm(256, px, py)]
                    == #[trigger] nametable_pixel(old(self)@, cart.chr(), px, py),
    {
        let mut x: usize = 0;
        let mut y: usize = 0;
        let mut addr: usize = 0;
        while addr < 0x3C0
            invariant
                old(self)@.wf(),
                cart.wf(),
                addr <= 0x3C0,
                addr < 0x3C0 ==> x == addr % 32 && y == addr / 32,
                self@ == (PpuView { frame: self@.frame, ..old(self)@ }),
                self@.frame.len() == old(self)@.frame.len(),
                forall|t: int, rr: int, cc: int|
                    0 <= t < addr && 0 <= rr < 8 && 0 <= cc < 8 ==> self@.frame[tile_index(
                        256,
                        t % 32,
                        t / 32,
                        rr,
                        cc,
                    )] == #[trigger] tile_pixel(
                        cart.chr(),
                        tile_base(old(self)@.ppu_ctrl, old(self)@.vram[t]),
                        rr,
                        cc,
                    ),
            decreases 0x3C0 - addr,
        {
            proof {
                assert(addr % 32 < 32 && addr / 32 < 30) by (nonlinear_arith)
                    requires
                        addr < 0x3C0,
                ;
            }
            let tile = self.vram[addr];
            let ghost pre = self@;
            self.draw_tile(cart, x, y, tile);
            proof {
                assert forall|t: int, rr: int, cc: int|
                    0 <= t < addr + 1 && 0 <= rr < 8 && 0 <= cc < 8 implies self@.frame[tile_index(
                    256,
                    t % 32,
                    t / 32,
                    rr,
                    cc,
                )] == #[trigger] tile_pixel(
                    cart.chr(),
                    tile_base(old(self)@.ppu_ctrl, old(self)@.vram[t]),
                    rr,
                    cc,
                ) by {
                    let px = (t % 32) * 8 + cc;
                    let py = (t / 32) * 8 + rr;
                    assert(0 <= t % 32 < 32 && 0 <= t / 32 < 30) by (nonlinear_arith)
                        requires
                            0 <= t < 0x3C0,
                    ;
                    assert(0 <= px < 256 && 0 <= py < 240);
                    assert(rm(256, px, py) < 256 * 240) by (nonlinear_arith)
                        requires
                            0 <= px < 256 && 0 <= py < 240,
                    ;
                    assert(tile_index(256, t % 32, t / 32, rr, cc) == rm(256, px, py));
                    if t < addr {
                        if !(x * 8 <= px < x * 8 + 8 && y * 8 <= py < y * 8 + 8) {
                            assert(self@.frame[rm(256, px, py)] == pre.frame[rm(256, px, py)]);
                        } else {
                            assert(t % 32 == x && t / 32 == y) by (nonlinear_arith)
                                requires
                                    px == (t % 32) * 8 + cc && py == (t / 32) * 8 + rr && 0 <= cc
                                        < 8 && 0 <= rr < 8 && x * 8 <= px < x * 8 + 8 && y * 8
                                        <= py < y * 8 + 8 && 0 <= t % 32 && 0 <= t / 32 && 0 <= x
                                        && 0 <= y,
                            ;
                            assert(t == (t / 32) * 32 + t % 32 && addr == (addr / 32) * 32 + addr
                                % 32) by (nonlinear_arith);
                            assert(false);
                        }
                    } else {
                        assert(self@.frame[tile_index(256, x as int, y as int, rr, cc)]
                            == tile_pixel(
                            cart.chr(),
                            tile_base(pre.ppu_ctrl, old(self)@.vram[t]),
                            rr,
                            cc,
                        ));
                    }
                }
            }
            addr = addr + 1;
            x = x + 1;
            if x >= 32 {
                x = 0;
                y = y + 1;
            }
            if y >= 30 {
                y = 0;
            }
            proof {
                let prev = addr - 1;
                assert(addr % 32 == if prev % 32 == 31 {
                    0int
                } else {
                    prev % 32 + 1
                } && addr / 32 == if prev % 32 == 31 {
                    prev / 32 + 1
                } else {
                    prev / 32
                }) by (nonlinear_arith)
                    requires
                        0 <= prev,
                        addr == prev + 1,
                ;
                if addr < 0x3C0 {
                    assert(addr / 32 < 30) by (nonlinear_arith)
                        requires
                            addr < 0x3C0,
                    ;
                }
            }
        }
        proof {
            assert forall|px: int, py: int| 0 <= px < NES_WIDTH && 0 <= py < NES_HEIGHT implies
                self@.frame[rm(256, px, py)] == #[trigger] nametable_pixel(
                old(self)@,
                cart.chr(),
                px,
                py,
            ) by {
                let t = (py / 8) * 32 + px / 8;
                assert(0 <= px / 8 < 32 && 0 <= py / 8 < 30 && px % 8 < 8 && py % 8 < 8 && px == (
                px / 8) * 8 + px % 8 && py == (py / 8) * 8 + py % 8) by (nonlinear_arith)
                    requires
                        0 <= px < 256 && 0 <= py < 240,
                ;
                assert(0 <= t < 0x3C0 && t / 32 == py / 8 && t % 32 == px / 8)
                    by (nonlinear_arith)
                    requires
                        0 <= px / 8 < 32 && 0 <= py / 8 < 30 && t == (py / 8) * 32 + px / 8,
                ;
                let rr = py % 8;
                let cc = px % 8;
                assert(self@.frame[tile_index(256, t % 32, t / 32, rr, cc)] == tile_pixel(
                    cart.chr(),
                    tile_base(old(self)@.ppu_ctrl, old(self)@.vram[t]),
                    rr,
                    cc,
                ));
                assert(tile_index(256, t % 32, t / 32, rr, cc) == rm(256, px, py));
            }
        }
    }

    /// Build the pattern-table debug view: both character-ROM halves drawn
    /// as 16×32 tiles into a 128×256 buffer. With the view disabled, an
    /// empty buffer is returned instead.
    pub fn pattern_table(&self, cart: &Cartridge, enabled: bool) -> (r: FrameBuffer)
        requires
            self@.wf(),
            cart.wf(),
        ensures
            !enabled ==> r@.len() == 0,
            enabled ==> r@.len() == PATTERN_TABLE_WIDTH * PATTERN_TABLE_HEIGHT,
            enabled ==> forall|px: int, py: int|
                0 <= px < PATTERN_TABLE_WIDTH && 0 <= py < PATTERN_TABLE_HEIGHT ==> r@[rm(
                    128,
                    px,
                    py,
                )] == #[trigger] pattern_table_pixel(cart.chr(), px, py),
    {
        if !enabled {
            return FrameBuffer::new(0, 0);
        }
        let mut buf = FrameBuffer::new(PATTERN_TABLE_WIDTH, PATTERN_TABLE_HEIGHT);
        let mut t: usize = 0;
        while t < 512
            invariant
                cart.wf(),
                t <= 512,
                buf@.len() == PATTERN_TABLE_WIDTH * PATTERN_TABLE_HEIGHT,
                forall|u: int, rr: int, cc: int|
                    0 <= u < t && 0 <= rr < 8 && 0 <= cc < 8 ==> buf@[tile_index(
                        128,
                        u % 16,
                        u / 16,
                        rr,
                        cc,
                    )] == #[trigger] tile_pixel(cart.chr(), pt_base(u), rr, cc),
            decreases 512 - t,
        {
            let x = t % 16;
            let y = t / 16;
            let ghost pre = buf@;
            proof {
                assert(t % 16 < 16 && t / 16 < 32 && (t % 16 + 1) * 8 <= 128 && (t / 16 + 1) * 8
                    * 128 <= 128 * 256 && t * 16 + 16 <= 0x2000) by (nonlinear_arith)
                    requires
                        t < 512,
                ;
            }
            blit_tile(&mut buf, 128, x, y, cart, t * 16);
            proof {
                assert forall|u: int, rr: int, cc: int|
                    0 <= u < t + 1 && 0 <= rr < 8 && 0 <= cc < 8 implies buf@[tile_index(
                    128,
                    u % 16,
                    u / 16,
                    rr,
                    cc,
                )] == #[trigger] tile_pixel(cart.chr(), pt_base(u), rr, cc) by {
                    let px = (u % 16) * 8 + cc;
                    let py = (u / 16) * 8 + rr;
                    assert(0 <= u % 16 < 16 && 0 <= u / 16 < 32) by (nonlinear_arith)
                        requires
                            0 <= u < 512,
                    ;
                    assert(0 <= px < 128 && 0 <= py < 256);
                    assert(rm(128, px, py) < 128 * 256) by (nonlinear_arith)
                        requires
                            0 <= px < 128 && 0 <= py < 256,
                    ;
                    assert(tile_index(128, u % 16, u / 16, rr, cc) == rm(128, px, py));
                    if u < t {
                        if !(x * 8 <= px < x * 8 + 8 && y * 8 <= py < y * 8 + 8) {
                            assert(buf@[rm(128, px, py)] == pre[rm(128, px, py)]);
                        } else {
                            assert(u % 16 == x && u / 16 == y) by (nonlinear_arith)
                                requires
                                    px == (u % 16) * 8 + cc && py == (u / 16) * 8 + rr && 0 <= cc
                                        < 8 && 0 <= rr < 8 && x * 8 <= px < x * 8 + 8 && y * 8
                                        <= py < y * 8 + 8 && 0 <= u % 16 && 0 <= u / 16 && 0 <= x
                                        && 0 <= y,
                            ;
                            assert(u == (u / 16) * 16 + u % 16 && t == (t / 16) * 16 + t % 16)
                                by (nonlinear_arith);
                            assert(false);
                        }
                    } else {
                        assert(buf@[tile_index(128, x as int, y as int, rr, cc)] == tile_pixel(
                            cart.chr(),
                            (t * 16) as int,
                            rr,
                            cc,
                        ));
                    }
                }
            }
            t = t + 1;
        }
        proof {
            assert forall|px: int, py: int|
                0 <= px < PATTERN_TABLE_WIDTH && 0 <= py < PATTERN_TABLE_HEIGHT implies buf@[rm(
                128,
                px,
                py,
            )] == #[trigger] pattern_table_pixel(cart.chr(), px, py) by {
                let u = (py / 8) * 16 + px / 8;
                assert(0 <= px / 8 < 16 && 0 <= py / 8 < 32 && px % 8 < 8 && py % 8 < 8 && px == (
                px / 8) * 8 + px % 8 && py == (py / 8) * 8 + py % 8) by (nonlinear_arith)
                    requires
                        0 <= px < 128 && 0 <= py < 256,
                ;
                assert(0 <= u < 512 && u / 16 == py / 8 && u % 16 == px / 8) by (nonlinear_arith)
                    requires
                        0 <= px / 8 < 16 && 0 <= py / 8 < 32 && u == (py / 8) * 16 + px / 8,
                ;
                assert(buf@[tile_index(128, u % 16, u / 16, py % 8, px % 8)] == tile_pixel(
                    cart.chr(),
                    pt_base(u),
                    py % 8,
                    px % 8,
                ));
                assert(tile_index(128, u % 16, u / 16, py % 8, px % 8) == rm(128, px, py));
            }
        }
        buf
    }
}

/// The row-major index of pixel (`px`, `py`) in a buffer `width` pixels to
/// the row.
pub open spec fn rm(width: int, px: int, py: int) -> int {
    py * width + px
}

/// The row-major index of pixel (`cc`, `rr`) of the tile cell (`x`, `y`) in
/// a buffer `width` pixels to the row.
pub open spec fn tile_index(width: int, x: int, y: int, rr: int, cc: int) -> int {
    (y * 8 + rr) * width + x * 8 + cc
}

/// The character-ROM start of the pattern for tile number `u` of the
/// pattern-table view.
pub open spec fn pt_base(u: int) -> int {
    u * 16
}

/// Row-major pixel indexing is injective: two coordinate pairs with the same
/// index agree.
proof fn lemma_row_major_injective(width: int, px1: int, py1: int, px2: int, py2: int)
    by (nonlinear_arith)
    requires
        0 <= px1 < width,
        0 <= px2 < width,
        0 <= py1,
        0 <= py2,
        py1 * width + px1 == py2 * width + px2,
    ensures
        px1 == px2,
        py1 == py2,
{
}

/// A tile pixel's row-major index stays inside a buffer that holds the
/// whole tile row band.
proof fn lemma_tile_index_bounds(width: int, x: int, y: int, rr: int, cc: int, len: int)
    by (nonlinear_arith)
    requires
        0 <= rr < 8,
        0 <= cc < 8,
        0 <= x,
        0 <= y,
        (x + 1) * 8 <= width,
        (y + 1) * 8 * width <= len,
    ensures
        0 <= tile_index(width, x, y, rr, cc) < len,
{
}

/// Draw the 8×8 tile whose pattern starts at `base` in character ROM into
/// `buf` at tile cell (`x`, `y`), with `buf` laid out `width` pixels to the
/// row.
fn blit_tile(buf: &mut FrameBuffer, width: usize, x: usize, y: usize, cart: &Cartridge, base: usize)
    requires
        cart.wf(),
        base + 16 <= 0x2000,
        y < 32,
        width <= 256,
        (x + 1) * 8 <= width,
        (y + 1) * 8 * width <= old(buf)@.len(),
    ensures
        final(buf)@.len() == old(buf)@.len(),
        forall|rr: int, cc: int|
            0 <= rr < 8 && 0 <= cc < 8 ==> final(buf)@[#[trigger] tile_index(
                width as int,
                x as int,
                y as int,
                rr,
                cc,
            )] == tile_pixel(cart.chr(), base as int, rr, cc),
        forall|px: int, py: int|
            0 <= px < width && 0 <= py && rm(width as int, px, py) < old(buf)@.len() && !(x * 8
                <= px < x * 8 + 8 && y * 8 <= py < y * 8 + 8) ==> #[trigger] final(buf)@[rm(
                width as int,
                px,
                py,
            )] == old(buf)@[rm(width as int, px, py)],
{
    let mut row: usize = 0;
    while row < 8
        invariant
            row <= 8,
            cart.wf(),
            base + 16 <= 0x2000,
            y < 32,
            width <= 256,
            (x + 1) * 8 <= width,
            (y + 1) * 8 * width <= old(buf)@.len(),
            buf@.len() == old(buf)@.len(),
            forall|rr: int, cc: int|
                0 <= rr < row && 0 <= cc < 8 ==> buf@[#[trigger] tile_index(
                    width as int,
                    x as int,
                    y as int,
                    rr,
                    cc,
                )] == tile_pixel(cart.chr(), base as int, rr, cc),
            forall|px: int, py: int|
                0 <= px < width && 0 <= py && rm(width as int, px, py) < old(buf)@.len() && !(x * 8
                    <= px < x * 8 + 8 && y * 8 <= py < y * 8 + 8) ==> #[trigger] buf@[rm(
                    width as int,
                    px,
                    py,
                )] == old(buf)@[rm(width as int, px, py)],
            forall|rr: int, cc: int|
                row <= rr < 8 && 0 <= cc < 8 ==> buf@[#[trigger] tile_index(
                    width as int,
                    x as int,
                    y as int,
                    rr,
                    cc,
                )] == old(buf)@[tile_index(width as int, x as int, y as int, rr, cc)],
        decreases 8 - row,
    {
        let plane0 = cart.get_chr_rom((base + row) as u16);
        let plane1 = cart.get_chr_rom((base + row + 8) as u16);
        let mut col: usize = 0;
        while col < 8
            invariant
                row < 8,
                col <= 8,
                cart.wf(),
                base + 16 <= 0x2000,
                y < 32,
                width <= 256,
                plane0 == cart.chr()[base + row],
                plane1 == cart.chr()[base + row + 8],
                (x + 1) * 8 <= width,
                (y + 1) * 8 * width <= old(buf)@.len(),
                buf@.len() == old(buf)@.len(),
                forall|rr: int, cc: int|
                    0 <= rr < row && 0 <= cc < 8 ==> buf@[#[trigger] tile_index(
                        width as int,
                        x as int,
                        y as int,
                        rr,
                        cc,
                    )] == tile_pixel(cart.chr(), base as int, rr, cc),
                forall|cc: int|
                    0 <= cc < col ==> buf@[#[trigger] tile_index(
                        width as int,
                        x as int,
                        y as int,
                        row as int,
                        cc,
                    )] == tile_pixel(cart.chr(), base as int, row as int, cc),
                forall|px: int, py: int|
                    0 <= px < width && 0 <= py && rm(width as int, px, py) < old(buf)@.len() && !(x
                        * 8 <= px < x * 8 + 8 && y * 8 <= py < y * 8 + 8) ==> #[trigger] buf@[rm(
                        width as int,
                        px,
                        py,
                    )] == old(buf)@[rm(width as int, px, py)],
                forall|rr: int, cc: int|
                    (row < rr < 8 || (rr == row && col <= cc < 8)) && 0 <= rr < 8 && 0 <= cc < 8
                        ==> buf@[#[trigger] tile_index(width as int, x as int, y as int, rr, cc)]
                        == old(buf)@[tile_index(width as int, x as int, y as int, rr, cc)],
            decreases 8 - col,
        {
            let bit0 = ((plane0 as u32) >> ((7 - col) as u32)) & 1;
            let bit1 = ((plane1 as u32) >> ((7 - col) as u32)) & 1;
            let color_index = (bit1 << 1u32) | bit0;
            proof {
                assert((bit1 << 1u32) < 4 && bit0 < 2 && ((bit1 << 1u32) | bit0) < 4)
                    by (bit_vector)
                    requires
                        bit0 == ((plane0 as u32) >> ((7 - col) as u32)) & 1 && bit1 == ((plane1
                            as u32) >> ((7 - col) as u32)) & 1 && col < 8,
                ;
                assert((y * 8 + row) * width + (x * 8 + col) < (y * 8 + row + 1) * width)
                    by (nonlinear_arith)
                    requires
                        x * 8 + col < width && 0 <= y * 8 + row,
                ;
                assert((y * 8 + row + 1) * width <= (y + 1) * 8 * width) by (nonlinear_arith)
                    requires
                        y * 8 + row + 1 <= (y + 1) * 8 && 0 <= width,
                ;
            }
            let color = get_color(color_index);
            let pixel_y = y * 8 + row;
            let pixel_x = x * 8 + col;
            proof {
                lemma_tile_index_bounds(
                    width as int,
                    x as int,
                    y as int,
                    row as int,
                    col as int,
                    old(buf)@.len() as int,
                );
                assert(pixel_y * width <= 255 * 256) by (nonlinear_arith)
                    requires
                        pixel_y <= 255 && width <= 256,
                ;
            }
            let pixel_addr = pixel_y * width + pixel_x;
            let ghost pre = buf@;
            buf.write(pixel_addr, color);
            proof {
                assert forall|px: int, py: int|
                    0 <= px < width && 0 <= py && rm(width as int, px, py) < old(buf)@.len() && !(x
                        * 8 <= px < x * 8 + 8 && y * 8 <= py < y * 8 + 8) implies #[trigger] buf@[
                    rm(width as int, px, py)] == old(buf)@[rm(width as int, px, py)] by {
                    if py * width + px == pixel_addr {
                        lemma_row_major_injective(
                            width as int,
                            px,
                            py,
                            pixel_x as int,
                            pixel_y as int,
                        );
                        assert(false);
                    }
                    assert(buf@[rm(width as int, px, py)] == pre[rm(width as int, px, py)]);
                }
                assert forall|rr: int, cc: int|
                    (row < rr < 8 || (rr == row && col + 1 <= cc < 8)) && 0 <= rr < 8 && 0 <= cc
                        < 8 implies buf@[#[trigger] tile_index(
                    width as int,
                    x as int,
                    y as int,
                    rr,
                    cc,
                )] == old(buf)@[tile_index(width as int, x as int, y as int, rr, cc)] by {
                    lemma_tile_index_bounds(
                        width as int,
                        x as int,
                        y as int,
                        rr,
                        cc,
                        old(buf)@.len() as int,
                    );
                    if (y * 8 + rr) * width + x * 8 + cc == pixel_addr {
                        lemma_row_major_injective(
                            width as int,
                            x * 8 + cc,
                            y * 8 + rr,
                            pixel_x as int,
                            pixel_y as int,
                        );
                        assert(false);
                    }
                    assert(buf@[tile_index(width as int, x as int, y as int, rr, cc)] == pre[
                        tile_index(width as int, x as int, y as int, rr, cc)]);
                }
                assert forall|rr: int, cc: int|
                    0 <= rr < row && 0 <= cc < 8 implies buf@[#[trigger] tile_index(
                    width as int,
                    x as int,
                    y as int,
                    rr,
                    cc,
                )] == tile_pixel(cart.chr(), base as int, rr, cc) by {
                    lemma_tile_index_bounds(
                        width as int,
                        x as int,
                        y as int,
                        rr,
                        cc,
                        old(buf)@.len() as int,
                    );
                    if (y * 8 + rr) * width + x * 8 + cc == pixel_addr {
                        lemma_row_major_injective(
                            width as int,
                            x * 8 + cc,
                            y * 8 + rr,
                            pixel_x as int,
                            pixel_y as int,
                        );
                        assert(false);
                    }
                    assert(buf@[tile_index(width as int, x as int, y as int, rr, cc)] == pre[
                        tile_index(width as int, x as int, y as int, rr, cc)]);
                }
                assert forall|cc: int|
                    0 <= cc < col + 1 implies buf@[#[trigger] tile_index(
                    width as int,
                    x as int,
                    y as int,
                    row as int,
                    cc,
                )] == tile_pixel(cart.chr(), base as int, row as int, cc) by {
                    lemma_tile_index_bounds(
                        width as int,
                        x as int,
                        y as int,
                        row as int,
                        cc,
                        old(buf)@.len() as int,
                    );
                    if cc < col {
                        if (y * 8 + row) * width + x * 8 + cc == pixel_addr {
                            lemma_row_major_injective(
                                width as int,
                                x * 8 + cc,
                                y * 8 + row,
                                pixel_x as int,
                                pixel_y as int,
                            );
                            assert(false);
                        }
                        assert(buf@[tile_index(width as int, x as int, y as int, row as int, cc)]
                            == pre[tile_index(width as int, x as int, y as int, row as int, cc)]);
                    } else {
                        assert(buf@[pixel_addr as int] == color);
                    }
                }
            }
            col = col + 1;
        }
        row = row + 1;
    }
}

/// The fixed four-entry palette: black, red, green, blue.
fn get_color(index: u32) -> (r: u32)
    requires
        index < 4,
    ensures
        r == spec_color(index),
{
    match index {
        0 => 0x000000,
        1 => 0xFF0000,
        2 => 0x00FF00,
        _ => 0x0000FF,
    }
}

} // verus!
