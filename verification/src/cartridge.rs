//! Cartridge images: parsing of the header-plus-body ROM format and
//! single-byte reads at bus-level addresses, translating for bank size.

use vstd::prelude::*;

verus! {

/// Offset of the program-ROM bank count in the header.
pub const PRG_ROM_SIZE_ADDR: usize = 4;

/// Offset of the character-ROM bank count in the header.
pub const CHR_ROM_SIZE_ADDR: usize = 5;

/// Size of one program-ROM bank.
pub const PRG_ROM_CHUNK_SIZE: usize = 0x4000;

/// Size of one character-ROM bank.
pub const CHR_ROM_CHUNK_SIZE: usize = 0x2000;

/// Why a cartridge image was rejected.
#[derive(Clone, Copy, Debug, PartialEq, Eq, Structural)]
pub enum CartridgeError {
    /// The image ends before the header, or before the ROM banks the header
    /// declares.
    TooShort,
    /// The four magic bytes at the start of the header are wrong.
    BadMagic,
    /// The header declares zero character-ROM banks, meaning the cartridge
    /// uses character RAM, which is not supported.
    ChrRamUnsupported,
}

/// Whether `rom` starts with the required magic bytes `"NES\x1A"`.
pub open spec fn magic_ok(rom: Seq<u8>) -> bool {
    rom.len() >= 16 && rom[0] == 0x4E && rom[1] == 0x45 && rom[2] == 0x53 && rom[3] == 0x1A
}

/// The program-ROM byte count the header of `rom` declares.
pub open spec fn header_prg_size(rom: Seq<u8>) -> int {
    rom[4] * 0x4000
}

/// The character-ROM byte count the header of `rom` declares.
pub open spec fn header_chr_size(rom: Seq<u8>) -> int {
    rom[5] * 0x2000
}

/// Immutable program and character ROM with bank translation.
pub struct Cartridge {
    prg_rom_size: usize,
    chr_rom_size: usize,
    prg_rom: Vec<u8>,
    chr_rom: Vec<u8>,
}

impl Cartridge {
    /// The program-ROM bytes.
    pub closed spec fn prg(self) -> Seq<u8> {
        self.prg_rom@
    }

    /// The character-ROM bytes.
    pub closed spec fn chr(self) -> Seq<u8> {
        self.chr_rom@
    }

    /// The recorded sizes match the stored ROMs.
    pub closed spec fn sizes_ok(self) -> bool {
        &&& self.prg_rom@.len() == self.prg_rom_size
        &&& self.chr_rom@.len() == self.chr_rom_size
    }

    /// The recorded sizes are honest and character ROM holds at least one
    /// whole bank.
    pub open spec fn wf(self) -> bool {
        &&& self.sizes_ok()
        &&& self.chr().len() >= 0x2000
    }

    /// The program-ROM offset that bus address `addr` translates to: a single
    /// 16 KiB bank is mirrored into both halves of the upper 32 KiB window.
    pub open spec fn prg_index(self, addr: u16) -> int {
        if self.prg().len() == 0x4000 {
            (addr - 0x8000) % 0x4000
        } else {
            addr - 0x8000
        }
    }

    /// Parse a cartridge image: 16-byte header, then `prg_banks * 16 KiB` of
    /// program ROM, then `chr_banks * 8 KiB` of character ROM.
    pub fn new(rom: Vec<u8>) -> (r: Result<Cartridge, CartridgeError>)
        ensures
            rom@.len() < 16 ==> r == Result::<Cartridge, CartridgeError>::Err(
                CartridgeError::TooShort,
            ),
            rom@.len() >= 16 && !magic_ok(rom@) ==> r == Result::<Cartridge, CartridgeError>::Err(
                CartridgeError::BadMagic,
            ),
            magic_ok(rom@) && rom@[5] == 0 ==> r == Result::<Cartridge, CartridgeError>::Err(
                CartridgeError::ChrRamUnsupported,
            ),
            magic_ok(rom@) && rom@[5] != 0 && rom@.len() < 16 + header_prg_size(rom@)
                + header_chr_size(rom@) ==> r == Result::<Cartridge, CartridgeError>::Err(
                CartridgeError::TooShort,
            ),
            magic_ok(rom@) && rom@[5] != 0 && rom@.len() >= 16 + header_prg_size(rom@)
                + header_chr_size(rom@) ==> {
                &&& r is Ok
                &&& r->Ok_0.prg() == rom@.subrange(16, 16 + header_prg_size(rom@))
                &&& r->Ok_0.chr() == rom@.subrange(
                    16 + header_prg_size(rom@),
                    16 + header_prg_size(rom@) + header_chr_size(rom@),
                )
            },
            r is Ok ==> r->Ok_0.wf(),
    {
        if rom.len() < 16 {
            return Err(CartridgeError::TooShort);
        }
        // make sure the image is actually a console ROM
        if !(rom[0] == 0x4E && rom[1] == 0x45 && rom[2] == 0x53 && rom[3] == 0x1A) {
            return Err(CartridgeError::BadMagic);
        }
        let prg_banks = rom[PRG_ROM_SIZE_ADDR];
        let chr_banks = rom[CHR_ROM_SIZE_ADDR];
        if chr_banks == 0 {
            return Err(CartridgeError::ChrRamUnsupported);
        }
        let prg_rom_size = (prg_banks as usize) * PRG_ROM_CHUNK_SIZE;
        let chr_rom_size = (chr_banks as usize) * CHR_ROM_CHUNK_SIZE;
        if rom.len() < 16 + prg_rom_size || rom.len() - 16 - prg_rom_size < chr_rom_size {
            return Err(CartridgeError::TooShort);
        }
        let prg_rom = copy_range(&rom, 16, 16 + prg_rom_size);
        let chr_rom = copy_range(&rom, 16 + prg_rom_size, 16 + prg_rom_size + chr_rom_size);
        let cartridge = Cartridge { prg_rom_size, chr_rom_size, prg_rom, chr_rom };
        Ok(cartridge)
    }

    /// Read a single byte from program ROM at bus address `addr` in the
    /// 0x8000–0xFFFF window; an address past the declared program-ROM size
    /// is an out-of-range fault, the sign of a mapper mismatch.
    pub fn get_prg_rom(&self, addr: u16) -> (r: Result<u8, crate::Fault>)
        requires
            self.wf(),
            0x8000 <= addr,
        ensures
            self.prg_index(addr) < self.prg().len() ==> r == Ok::<u8, crate::Fault>(
                self.prg()[self.prg_index(addr)],
            ),
            self.prg_index(addr) >= self.prg().len() ==> r == Err::<u8, crate::Fault>(
                crate::Fault::PrgRomOutOfRange(addr),
            ),
    {
        let mut index = (addr - 0x8000) as usize;
        if self.prg_rom_size == PRG_ROM_CHUNK_SIZE {
            index = index & 0x3FFF;
            proof {
                assert((addr - 0x8000) as usize & 0x3FFF == (addr - 0x8000) as usize % 0x4000)
                    by (bit_vector);
            }
        }
        if index >= self.prg_rom_size {
            return Err(crate::Fault::PrgRomOutOfRange(addr));
        }
        Ok(self.prg_rom[index])
    }

    /// Read a single byte from character ROM at picture-unit address `addr`
    /// in the 0x0000–0x1FFF range.
    pub fn get_chr_rom(&self, addr: u16) -> (r: u8)
        requires
            self.wf(),
            addr < 0x2000,
        ensures
            r == self.chr()[addr as int],
    {
        self.chr_rom[addr as usize]
    }
}

/// The bytes of `v` from `start` (inclusive) to `end` (exclusive), as a new
/// vector.
fn copy_range(v: &Vec<u8>, start: usize, end: usize) -> (r: Vec<u8>)
    requires
        start <= end <= v@.len(),
    ensures
        r@ == v@.subrange(start as int, end as int),
{
    let mut r: Vec<u8> = Vec::new();
    let mut i: usize = start;
    while i < end
        invariant
            start <= i <= end <= v@.len(),
            r@ =~= v@.subrange(start as int, i as int),
        decreases end - i,
    {
        r.push(v[i]);
        proof {
            assert(r@ =~= v@.subrange(start as int, (i + 1) as int));
        }
        i = i + 1;
    }
    r
}

} // verus!
