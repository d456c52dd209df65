//! The memory-mapped bus: decodes the 16-bit address space into RAM (2 KiB
//! mirrored four times), the graphics unit's mirrored register window, the
//! audio/controller register block, and cartridge space delegated to the
//! active mapper.

use vstd::prelude::*;

use crate::mapper::{
    byte_result_matches, cart_read, cart_wf, cart_write, Cartridge, CartridgeV, Mapper,
    Mapper0, MapperEmpty,
};

verus! {

/// Byte-addressable storage with a 16-bit address space. Reads leave the
/// state unchanged; both operations answer exactly as the specification
/// model says, including which addresses are faults.
pub trait Memory: View + Sized {
    spec fn wf(&self) -> bool;

    spec fn spec_read(&self, address: u16) -> Result<u8, Seq<char>>;

    spec fn spec_write(&self, address: u16, val: u8) -> (Self::V, Result<u8, Seq<char>>);

    fn read(&mut self, address: u16) -> (r: Result<u8, String>)
        requires
            old(self).wf(),
        ensures
            final(self).wf(),
            *final(self) == *old(self),
            byte_result_matches(r, old(self).spec_read(address)),
    ;

    fn write(&mut self, address: u16, val: u8) -> (r: Result<u8, String>)
        requires
            old(self).wf(),
        ensures
            final(self).wf(),
            final(self)@ == old(self).spec_write(address, val).0,
            byte_result_matches(r, old(self).spec_write(address, val).1),
    ;
}

/// The console's bus: 2 KiB of RAM, the graphics unit's eight registers
/// (the unit itself is outside this crate; the bus models its mirrored
/// register window as plain storage), and the cartridge slot.
///
/// A deliberate deviation from the full machine: the audio/controller
/// window 0x4000..0x4018 is modeled as read-zero/no-op here, as the bus it
/// reproduces left it. The audio unit implements its own register file as a
/// verified `Memory` (see the audio module), and the driver that owns both
/// delivers CPU accesses in that window to it directly. Folding the audio
/// unit into this bus model pushes the CPU-level proofs past the verifier's
/// resource bounds, so the composition stays with the driver.
pub struct NESMemory {
    pub ram: Vec<u8>,
    pub ppu_reg: Vec<u8>,
    pub mapper: Cartridge,
}

#[verifier::ext_equal]
pub struct MemV {
    pub ram: Seq<u8>,
    pub ppu_reg: Seq<u8>,
    pub mapper: CartridgeV,
}

impl View for NESMemory {
    type V = MemV;

    open spec fn view(&self) -> MemV {
        MemV { ram: self.ram@, ppu_reg: self.ppu_reg@, mapper: self.mapper@ }
    }
}

impl MemV {
    pub open spec fn wf(self) -> bool {
        &&& self.ram.len() == 0x800
        &&& self.ppu_reg.len() == 8
        &&& cart_wf(self.mapper)
    }
}

/// The bus read map. RAM backing is addressed modulo 0x800, so the four
/// 2 KiB windows below 0x2000 observe one storage; the graphics registers
/// repeat every eight bytes up to 0x4000; the audio and controller window
/// reads as zero (see the deviation note on the bus type); 0x4018..0x4020
/// is unmapped and a fatal fault; everything from 0x6000 up belongs to the
/// cartridge.
pub open spec fn mem_read(m: MemV, address: u16) -> Result<u8, Seq<char>> {
    if address < 0x2000 {
        Ok(m.ram[address as int % 0x800])
    } else if address < 0x4000 {
        Ok(m.ppu_reg[address as int % 8])
    } else if address <= 0x4017 {
        Ok(0)
    } else if address <= 0x401f {
        Err("read out of bounds"@)
    } else if address < 0x6000 {
        Ok(0)
    } else {
        cart_read(m.mapper, address)
    }
}

/// The bus write map: the same decode as reads, except that the sprite-DMA
/// trigger at 0x4014 must be intercepted above the bus and is a fatal misuse
/// here, and audio/controller register writes are contained no-ops.
pub open spec fn mem_write(m: MemV, address: u16, val: u8) -> (MemV, Result<u8, Seq<char>>) {
    if address < 0x2000 {
        (MemV { ram: m.ram.update(address as int % 0x800, val), ..m }, Ok(val))
    } else if address < 0x4000 {
        (MemV { ppu_reg: m.ppu_reg.update(address as int % 8, val), ..m }, Ok(val))
    } else if address == 0x4014 {
        (m, Err("sprite DMA write reached the bus"@))
    } else if address <= 0x4017 {
        (m, Ok(0))
    } else if address <= 0x401f {
        (m, Err("write out of bounds"@))
    } else if address < 0x6000 {
        (m, Ok(0))
    } else {
        let (c, r) = cart_write(m.mapper, address, val);
        (MemV { mapper: c, ..m }, r)
    }
}

impl Memory for NESMemory {
    open spec fn wf(&self) -> bool {
        self@.wf()
    }

    open spec fn spec_read(&self, address: u16) -> Result<u8, Seq<char>> {
        mem_read(self@, address)
    }

    open spec fn spec_write(&self, address: u16, val: u8) -> (MemV, Result<u8, Seq<char>>) {
        mem_write(self@, address, val)
    }

    fn read(&mut self, address: u16) -> (r: Result<u8, String>) {
        if address < 0x2000 {
            Ok(self.ram[(address as usize) % 0x800])
        } else if address < 0x4000 {
            Ok(self.ppu_reg[(address as usize) % 8])
        } else if address <= 0x4017 {
            Ok(0)
        } else if address <= 0x401f {
            Err(String::from_str("read out of bounds"))
        } else if address < 0x6000 {
            Ok(0)
        } else {
            self.mapper.read(address)
        }
    }

    fn write(&mut self, address: u16, val: u8) -> (r: Result<u8, String>) {
        if address < 0x2000 {
            self.ram[(address as usize) % 0x800] = val;
            Ok(val)
        } else if address < 0x4000 {
            self.ppu_reg[(address as usize) % 8] = val;
            Ok(val)
        } else if address == 0x4014 {
            Err(String::from_str("sprite DMA write reached the bus"))
        } else if address <= 0x4017 {
            Ok(0)
        } else if address <= 0x401f {
            Err(String::from_str("write out of bounds"))
        } else if address < 0x6000 {
            Ok(0)
        } else {
            self.mapper.write(address, val)
        }
    }
}

impl NESMemory {
    /// A bus with zeroed RAM and registers and an empty cartridge slot.
    pub fn new_nes_mem() -> (r: NESMemory)
        ensures
            r@.ram == Seq::<u8>::new(0x800, |i: int| 0u8),
            r@.ppu_reg == Seq::<u8>::new(8, |i: int| 0u8),
            r@.mapper == CartridgeV::Empty(crate::mapper::MapperEmptyV),
            r@.wf(),
    {
        let ram: Vec<u8> = vec![0u8; 0x800];
        let ppu_reg: Vec<u8> = vec![0u8; 8];
        proof {
            assert(ram@ =~= Seq::<u8>::new(0x800, |i: int| 0u8));
            assert(ppu_reg@ =~= Seq::<u8>::new(8, |i: int| 0u8));
        }
        NESMemory { ram, ppu_reg, mapper: Cartridge::Empty(MapperEmpty) }
    }

    /// Install a fixed-bank cartridge holding the given program ROM image,
    /// as the test harness does before execution starts.
    pub fn load_rom(&mut self, rom: &Vec<u8>)
        requires
            old(self).wf(),
        ensures
            final(self).wf(),
            final(self)@ == (MemV {
                mapper: CartridgeV::Nrom(
                    crate::mapper::Mapper0V {
                        chr_rom: Seq::<u8>::empty(),
                        prg_rom: rom@,
                        sram: Seq::<u8>::new(0x2000, |i: int| 0u8),
                        mirror_mode: crate::mapper::MirrorMode::Horizontal,
                    },
                ),
                ..old(self)@
            }),
    {
        let prg = rom.clone();
        let vrom: Vec<u8> = Vec::new();
        proof {
            assert(Seq::<u8>::empty() =~= vrom@);
        }
        self.mapper = Cartridge::Nrom(Mapper0::new_mapper(prg, vrom, 0));
    }
}

/// The bytes of a zero-terminated string in memory, read upward from the
/// given position: each byte before the terminator, in order. Running past
/// the top of the address space without a terminator is a fault, as is any
/// failing read on the way.
pub open spec fn spec_cstring(m: MemV, address: int) -> Result<Seq<u8>, Seq<char>>
    decreases 0x10000 - address,
{
    if address > 0xffff {
        Err("string runs past the end of memory"@)
    } else {
        match mem_read(m, address as u16) {
            Err(e) => Err(e),
            Ok(b) => {
                if b == 0 {
                    Ok(Seq::<u8>::empty())
                } else {
                    match spec_cstring(m, address + 1) {
                        Err(e) => Err(e),
                        Ok(rest) => Ok(seq![b] + rest),
                    }
                }
            },
        }
    }
}

impl NESMemory {
    /// Collect a zero-terminated string's bytes starting at `address`
    /// (the terminator excluded), exactly as `spec_cstring` lays out.
    pub fn read_string(&mut self, address: u16) -> (r: Result<Vec<u8>, String>)
        requires
            old(self).wf(),
        ensures
            final(self).wf(),
            *final(self) == *old(self),
            match spec_cstring(old(self)@, address as int) {
                Ok(s) => r matches Ok(v) && v@ == s,
                Err(e) => r matches Err(msg) && msg@ == e,
            },
    {
        let ghost m = self@;
        let mut out: Vec<u8> = Vec::new();
        let mut cur: u32 = address as u32;
        loop
            invariant
                self.wf(),
                *self == *old(self),
                self@ == m,
                address <= cur <= 0x10000,
                spec_cstring(m, address as int) == (match spec_cstring(m, cur as int) {
                    Err(e) => Err::<Seq<u8>, Seq<char>>(e),
                    Ok(rest) => Ok(out@ + rest),
                }),
            decreases 0x10000 - cur,
        {
            if cur > 0xffff {
                return Err(String::from_str("string runs past the end of memory"));
            }
            let b = match self.read(cur as u16) {
                Ok(b) => b,
                Err(e) => {
                    return Err(e);
                },
            };
            if b == 0 {
                proof {
                    assert(out@ + Seq::<u8>::empty() =~= out@);
                }
                return Ok(out);
            }
            let ghost prev = out@;
            out.push(b);
            cur = cur + 1;
            proof {
                let k = cur as int - 1;
                assert(mem_read(m, k as u16) == Ok::<u8, Seq<char>>(b));
                let tail = spec_cstring(m, cur as int);
                assert(spec_cstring(m, k) == (match tail {
                    Err(e) => Err::<Seq<u8>, Seq<char>>(e),
                    Ok(rest) => Ok(seq![b] + rest),
                }));
                if tail is Ok {
                    let rest = tail->Ok_0;
                    assert((prev + (seq![b] + rest)) =~= (out@ + rest));
                }
            }
        }
    }
}

/// The four RAM windows at 0x0000, 0x0800, 0x1000 and 0x1800 observe one
/// backing store: for any offset below 0x800, reading any window returns the
/// same byte, and a write through any window leaves the same state.
pub proof fn lemma_ram_mirrors(m: MemV, offset: u16, val: u8)
    requires
        offset < 0x800,
    ensures
        mem_read(m, offset) == mem_read(m, (offset + 0x800) as u16),
        mem_read(m, offset) == mem_read(m, (offset + 0x1000) as u16),
        mem_read(m, offset) == mem_read(m, (offset + 0x1800) as u16),
        mem_write(m, offset, val) == mem_write(m, (offset + 0x800) as u16, val),
        mem_write(m, offset, val) == mem_write(m, (offset + 0x1000) as u16, val),
        mem_write(m, offset, val) == mem_write(m, (offset + 0x1800) as u16, val),
{
    assert(offset as int % 0x800 == offset);
    assert((offset + 0x800) % 0x800 == offset);
    assert((offset + 0x1000) % 0x800 == offset);
    assert((offset + 0x1800) % 0x800 == offset);
}

} // verus!
