//! Cartridge mappers: bank translation between bus addresses and the raw
//! program/graphics ROM buffers, plus the serial shift-register protocol of
//! the switchable board.

use vstd::prelude::*;

verus! {

/// Relates an executable byte result to its specification-level model:
/// values agree on success and the message text agrees on failure.
pub open spec fn byte_result_matches(r: Result<u8, String>, m: Result<u8, Seq<char>>) -> bool {
    match m {
        Ok(v) => r matches Ok(w) && w == v,
        Err(s) => r matches Err(e) && e@ == s,
    }
}

/// Nametable mirroring arrangements of the cartridge board.
#[derive(Clone, Copy, Debug, PartialEq, Eq, Structural)]
pub enum MirrorMode {
    Horizontal,
    Vertical,
    Single0,
    Single1,
    Four,
}

/// The 4-entry nametable-index table of each mirroring mode.
pub open spec fn spec_mirror_lookup(m: MirrorMode) -> Seq<usize> {
    match m {
        MirrorMode::Horizontal => seq![0usize, 0, 1, 1],
        MirrorMode::Vertical => seq![0usize, 1, 0, 1],
        MirrorMode::Single0 => seq![0usize, 0, 0, 0],
        MirrorMode::Single1 => seq![1usize, 1, 1, 1],
        MirrorMode::Four => seq![0usize, 1, 2, 3],
    }
}

/// Mirroring mode selected by a cartridge header byte.
pub open spec fn spec_mirror_from(mode: u8) -> MirrorMode {
    if mode == 0 {
        MirrorMode::Horizontal
    } else if mode == 1 {
        MirrorMode::Vertical
    } else if mode == 2 {
        MirrorMode::Single0
    } else if mode == 3 {
        MirrorMode::Single1
    } else {
        MirrorMode::Four
    }
}

impl MirrorMode {
    pub fn lookup(&self) -> (r: Vec<usize>)
        ensures
            r@ == spec_mirror_lookup(*self),
    {
        let mut v: Vec<usize> = Vec::new();
        match *self {
            MirrorMode::Horizontal => {
                v.push(0);
                v.push(0);
                v.push(1);
                v.push(1);
            },
            MirrorMode::Vertical => {
                v.push(0);
                v.push(1);
                v.push(0);
                v.push(1);
            },
            MirrorMode::Single0 => {
                v.push(0);
                v.push(0);
                v.push(0);
                v.push(0);
            },
            MirrorMode::Single1 => {
                v.push(1);
                v.push(1);
                v.push(1);
                v.push(1);
            },
            MirrorMode::Four => {
                v.push(0);
                v.push(1);
                v.push(2);
                v.push(3);
            },
        }
        proof {
            assert(v@ =~= spec_mirror_lookup(*self));
        }
        v
    }

    /// Only header values 0 through 4 name a mirroring mode; anything else is
    /// a malformed cartridge, rejected before construction.
    pub fn from(mode: u8) -> (r: MirrorMode)
        requires
            mode <= 4,
        ensures
            r == spec_mirror_from(mode),
    {
        if mode == 0 {
            MirrorMode::Horizontal
        } else if mode == 1 {
            MirrorMode::Vertical
        } else if mode == 2 {
            MirrorMode::Single0
        } else if mode == 3 {
            MirrorMode::Single1
        } else {
            MirrorMode::Four
        }
    }
}

/// A cartridge board: translates cartridge-space bus accesses into its ROM
/// and RAM buffers, and reports the nametable arrangement.
pub trait Mapper: View + Sized {
    spec fn wf(&self) -> bool;

    spec fn spec_read(&self, address: u16) -> Result<u8, Seq<char>>;

    spec fn spec_write(&self, address: u16, val: u8) -> (Self::V, Result<u8, Seq<char>>);

    spec fn spec_nt(&self, table: int) -> usize;

    fn nametable_offset(&self, table: usize) -> (r: usize)
        requires
            self.wf(),
            table < 4,
        ensures
            r == self.spec_nt(table as int),
    ;

    fn read(&mut self, address: u16) -> (r: Result<u8, String>)
        requires
            old(self).wf(),
        ensures
            final(self).wf(),
            *final(self) == *old(self),
            byte_result_matches(r, old(self).spec_read(address)),
    ;

    fn write(&mut self, address: u16, val: u8) -> (r: Result<u8, String>)
        requires
            old(self).wf(),
        ensures
            final(self).wf(),
            final(self)@ == old(self).spec_write(address, val).0,
            byte_result_matches(r, old(self).spec_write(address, val).1),
    ;

    /// Per-scanline signal from the graphics unit; the boards here have no
    /// scanline counter and ignore it.
    fn step(&mut self)
        requires
            old(self).wf(),
        ensures
            final(self).wf(),
            *final(self) == *old(self),
    {
    }
}

/// Board with no cartridge inserted: every access is a harmless zero.
pub struct MapperEmpty;

pub struct MapperEmptyV;

impl View for MapperEmpty {
    type V = MapperEmptyV;

    open spec fn view(&self) -> MapperEmptyV {
        MapperEmptyV
    }
}

impl Mapper for MapperEmpty {
    open spec fn wf(&self) -> bool {
        true
    }

    open spec fn spec_read(&self, address: u16) -> Result<u8, Seq<char>> {
        Ok(0)
    }

    open spec fn spec_write(&self, address: u16, val: u8) -> (MapperEmptyV, Result<u8, Seq<char>>) {
        (MapperEmptyV, Ok(0))
    }

    open spec fn spec_nt(&self, table: int) -> usize {
        0
    }

    fn nametable_offset(&self, table: usize) -> (r: usize) {
        0
    }

    fn read(&mut self, address: u16) -> (r: Result<u8, String>) {
        Ok(0)
    }

    fn write(&mut self, address: u16, val: u8) -> (r: Result<u8, String>) {
        Ok(0)
    }
}

/// Fixed-bank board: program and graphics ROM are addressed modulo their
/// buffer length, with an 8 KiB battery RAM window and no reconfiguration.
pub struct Mapper0 {
    pub chr_rom: Vec<u8>,
    pub prg_rom: Vec<u8>,
    pub sram: Vec<u8>,
    pub mirror_mode: MirrorMode,
}

#[verifier::ext_equal]
pub struct Mapper0V {
    pub chr_rom: Seq<u8>,
    pub prg_rom: Seq<u8>,
    pub sram: Seq<u8>,
    pub mirror_mode: MirrorMode,
}

impl View for Mapper0 {
    type V = Mapper0V;

    open spec fn view(&self) -> Mapper0V {
        Mapper0V {
            chr_rom: self.chr_rom@,
            prg_rom: self.prg_rom@,
            sram: self.sram@,
            mirror_mode: self.mirror_mode,
        }
    }
}

impl Mapper0V {
    pub open spec fn wf(self) -> bool {
        self.sram.len() == 0x2000
    }
}

/// What a fixed-bank board returns for each cartridge-space read: graphics
/// ROM below 0x2000 (graphics-unit fetches), battery RAM at 0x6000..0x8000,
/// program ROM above, everything else a harmless zero. An empty ROM buffer is
/// a fatal error rather than a wrapped index.
pub open spec fn m0_read(m: Mapper0V, address: u16) -> Result<u8, Seq<char>> {
    if address < 0x2000 {
        if m.chr_rom.len() == 0 {
            Err("no graphics ROM data"@)
        } else {
            Ok(m.chr_rom[address as int % m.chr_rom.len() as int])
        }
    } else if 0x6000 <= address && address < 0x8000 {
        Ok(m.sram[address - 0x6000])
    } else if 0x8000 <= address {
        if m.prg_rom.len() == 0 {
            Err("no program ROM data"@)
        } else {
            Ok(m.prg_rom[address as int % m.prg_rom.len() as int])
        }
    } else {
        Ok(0)
    }
}

/// Writes mirror the read map, except that program ROM is read-only on this
/// board: such writes are rejected with an error and change nothing.
pub open spec fn m0_write(m: Mapper0V, address: u16, val: u8) -> (Mapper0V, Result<
    u8,
    Seq<char>,
>) {
    if address < 0x2000 {
        if m.chr_rom.len() == 0 {
            (m, Err("no graphics ROM data"@))
        } else {
            (
                Mapper0V {
                    chr_rom: m.chr_rom.update(address as int % m.chr_rom.len() as int, val),
                    ..m
                },
                Ok(val),
            )
        }
    } else if 0x6000 <= address && address < 0x8000 {
        (Mapper0V { sram: m.sram.update(address - 0x6000, val), ..m }, Ok(val))
    } else if 0x8000 <= address {
        (m, Err("cannot write to ROM"@))
    } else {
        (m, Ok(0))
    }
}

impl Mapper for Mapper0 {
    open spec fn wf(&self) -> bool {
        self@.wf()
    }

    open spec fn spec_read(&self, address: u16) -> Result<u8, Seq<char>> {
        m0_read(self@, address)
    }

    open spec fn spec_write(&self, address: u16, val: u8) -> (Mapper0V, Result<u8, Seq<char>>) {
        m0_write(self@, address, val)
    }

    open spec fn spec_nt(&self, table: int) -> usize {
        spec_mirror_lookup(self.mirror_mode)[table]
    }

    fn nametable_offset(&self, table: usize) -> (r: usize) {
        let l = self.mirror_mode.lookup();
        l[table]
    }

    fn read(&mut self, address: u16) -> (r: Result<u8, String>) {
        if address < 0x2000 {
            let len = self.chr_rom.len();
            if len == 0 {
                Err(String::from_str("no graphics ROM data"))
            } else {
                Ok(self.chr_rom[(address as usize) % len])
            }
        } else if 0x6000 <= address && address < 0x8000 {
            Ok(self.sram[(address - 0x6000) as usize])
        } else if 0x8000 <= address {
            let len = self.prg_rom.len();
            if len == 0 {
                Err(String::from_str("no program ROM data"))
            } else {
                Ok(self.prg_rom[(address as usize) % len])
            }
        } else {
            Ok(0)
        }
    }

    fn write(&mut self, address: u16, val: u8) -> (r: Result<u8, String>) {
        if address < 0x2000 {
            let len = self.chr_rom.len();
            if len == 0 {
                Err(String::from_str("no graphics ROM data"))
            } else {
                self.chr_rom[(address as usize) % len] = val;
                Ok(val)
            }
        } else if 0x6000 <= address && address < 0x8000 {
            self.sram[(address - 0x6000) as usize] = val;
            Ok(val)
        } else if 0x8000 <= address {
            Err(String::from_str("cannot write to ROM"))
        } else {
            Ok(0)
        }
    }
}

impl Mapper0 {
    /// A fixed-bank board over the given program and graphics ROM images.
    pub fn new_mapper(rom: Vec<u8>, vrom: Vec<u8>, mirror_mode: u8) -> (r: Mapper0)
        requires
            mirror_mode <= 4,
        ensures
            r@.chr_rom == vrom@,
            r@.prg_rom == rom@,
            r@.sram == Seq::<u8>::new(0x2000, |i: int| 0u8),
            r@.mirror_mode == spec_mirror_from(mirror_mode),
            r@.wf(),
    {
        let sram: Vec<u8> = vec![0u8; 0x2000];
        proof {
            assert(sram@ =~= Seq::<u8>::new(0x2000, |i: int| 0u8));
        }
        Mapper0 { chr_rom: vrom, prg_rom: rom, sram, mirror_mode: MirrorMode::from(mirror_mode) }
    }
}

/// Switchable board: cartridge-space writes feed a 5-bit serial shift
/// register; every fifth write commits the accumulated value into one of
/// four configuration registers selected by the address of that write.
pub struct Mapper1 {
    pub chr_rom: Vec<u8>,
    pub prg_rom: Vec<u8>,
    pub sram: Vec<u8>,
    pub control: u8,
    pub chr_bank0: u8,
    pub chr_bank1: u8,
    pub prg_bank: u8,
    pub shift_register: u8,
    pub write_count: u8,
    pub n_banks: usize,
    pub mirror_mode: MirrorMode,
}

#[verifier::ext_equal]
pub struct Mapper1V {
    pub chr_rom: Seq<u8>,
    pub prg_rom: Seq<u8>,
    pub sram: Seq<u8>,
    pub control: u8,
    pub chr_bank0: u8,
    pub chr_bank1: u8,
    pub prg_bank: u8,
    pub shift_register: u8,
    pub write_count: u8,
    pub n_banks: usize,
    pub mirror_mode: MirrorMode,
}

impl View for Mapper1 {
    type V = Mapper1V;

    open spec fn view(&self) -> Mapper1V {
        Mapper1V {
            chr_rom: self.chr_rom@,
            prg_rom: self.prg_rom@,
            sram: self.sram@,
            control: self.control,
            chr_bank0: self.chr_bank0,
            chr_bank1: self.chr_bank1,
            prg_bank: self.prg_bank,
            shift_register: self.shift_register,
            write_count: self.write_count,
            n_banks: self.n_banks,
            mirror_mode: self.mirror_mode,
        }
    }
}

/// Value of the bit that the n-th serial write contributes: the register
/// fills from its least-significant end.
pub open spec fn bit_weight(n: u8) -> u8 {
    if n == 0 {
        1
    } else if n == 1 {
        2
    } else if n == 2 {
        4
    } else if n == 3 {
        8
    } else {
        16
    }
}

impl Mapper1V {
    /// The shift register never holds more than the bits already written,
    /// so an in-progress value is always below the next bit's weight.
    pub open spec fn wf(self) -> bool {
        &&& self.sram.len() == 0x2000
        &&& self.write_count < 5
        &&& self.shift_register < bit_weight(self.write_count)
        &&& self.n_banks <= 256
    }

    /// Program-bank arrangement selected by the control register's mode
    /// bits: 0/1 switch a 32 KiB pair, 2 fixes the first bank low,
    /// 3 fixes the last bank high.
    pub open spec fn prg_mode(self) -> int {
        (self.control as int / 4) % 4
    }

    /// Graphics-bank arrangement: 0 switches an 8 KiB pair, 1 switches two
    /// independent 4 KiB banks.
    pub open spec fn chr_mode(self) -> int {
        (self.control as int / 16) % 2
    }
}

/// Bank translation of a read on the switchable board. A bank index that
/// runs past the end of the ROM image is a fatal error, never a wrap.
pub open spec fn m1_read(m: Mapper1V, address: u16) -> Result<u8, Seq<char>> {
    if address < 0x1000 {
        let bank = m.chr_bank0 as int;
        let index = 4096 * bank + address;
        if index < m.chr_rom.len() {
            Ok(m.chr_rom[index])
        } else {
            Err("bank index out of range"@)
        }
    } else if address < 0x2000 {
        let bank = if m.chr_mode() == 0 {
            m.chr_bank0 + 1
        } else {
            m.chr_bank1 as int
        };
        let index = 4096 * bank + (address - 0x1000);
        if index < m.chr_rom.len() {
            Ok(m.chr_rom[index])
        } else {
            Err("bank index out of range"@)
        }
    } else if 0x6000 <= address && address < 0x8000 {
        Ok(m.sram[address - 0x6000])
    } else if 0x8000 <= address && address < 0xc000 {
        let pm = m.prg_mode();
        let bank = if pm == 0 || pm == 1 {
            (m.prg_bank / 2) * 2
        } else if pm == 2 {
            0
        } else {
            m.prg_bank as int
        };
        let index = 16384 * bank + (address % 16384);
        if index < m.prg_rom.len() {
            Ok(m.prg_rom[index])
        } else {
            Err("bank index out of range"@)
        }
    } else if 0xc000 <= address {
        let pm = m.prg_mode();
        if pm == 3 && m.n_banks == 0 {
            Err("bank index out of range"@)
        } else {
            let bank = if pm == 0 || pm == 1 {
                (m.prg_bank / 2) * 2 + 1
            } else if pm == 2 {
                m.prg_bank as int
            } else {
                m.n_banks - 1
            };
            let index = 16384 * bank + (address % 16384);
            if index < m.prg_rom.len() {
                Ok(m.prg_rom[index])
            } else {
                Err("bank index out of range"@)
            }
        }
    } else {
        Ok(0)
    }
}

/// Commit of a full 5-bit value into the register selected by the address
/// range of the triggering write. Every target register is five bits wide,
/// the shift register's full width.
pub open spec fn m1_commit(m: Mapper1V, address: u16, v: u8) -> Mapper1V {
    if address < 0xa000 {
        Mapper1V { control: v, ..m }
    } else if address < 0xc000 {
        Mapper1V { chr_bank0: v % 32, ..m }
    } else if address < 0xe000 {
        Mapper1V { chr_bank1: v % 32, ..m }
    } else {
        Mapper1V { prg_bank: v % 32, ..m }
    }
}

/// One serial configuration write: a value with the top bit set resets the
/// shift register and forces the fixed-last-bank arrangement; otherwise the
/// value's low bit enters the register, and the fifth bit commits.
pub open spec fn m1_load_register(m: Mapper1V, address: u16, val: u8) -> Mapper1V {
    if val >= 0x80 {
        Mapper1V { shift_register: 0, control: 12, write_count: 0, ..m }
    } else {
        let sr = (m.shift_register + (val % 2) * bit_weight(m.write_count)) as u8;
        if m.write_count == 4 {
            Mapper1V { shift_register: 0, write_count: 0, ..m1_commit(m, address, sr) }
        } else {
            Mapper1V { shift_register: sr, write_count: (m.write_count + 1) as u8, ..m }
        }
    }
}

/// Bank translation of a write on the switchable board: graphics banks and
/// battery RAM accept data, while the program-ROM window feeds the serial
/// shift register instead of storing anything.
pub open spec fn m1_write(m: Mapper1V, address: u16, val: u8) -> (Mapper1V, Result<
    u8,
    Seq<char>,
>) {
    if address < 0x1000 {
        let bank = m.chr_bank0 as int;
        let index = 4096 * bank + address;
        if index < m.chr_rom.len() {
            (Mapper1V { chr_rom: m.chr_rom.update(index, val), ..m }, Ok(val))
        } else {
            (m, Err("bank index out of range"@))
        }
    } else if address < 0x2000 {
        let bank = if m.chr_mode() == 0 {
            m.chr_bank0 + 1
        } else {
            m.chr_bank1 as int
        };
        let index = 4096 * bank + (address - 0x1000);
        if index < m.chr_rom.len() {
            (Mapper1V { chr_rom: m.chr_rom.update(index, val), ..m }, Ok(val))
        } else {
            (m, Err("bank index out of range"@))
        }
    } else if 0x6000 <= address && address < 0x8000 {
        (Mapper1V { sram: m.sram.update(address - 0x6000, val), ..m }, Ok(val))
    } else if 0x8000 <= address {
        (m1_load_register(m, address, val), Ok(0))
    } else {
        (m, Ok(0))
    }
}

impl Mapper for Mapper1 {
    open spec fn wf(&self) -> bool {
        self@.wf()
    }

    open spec fn spec_read(&self, address: u16) -> Result<u8, Seq<char>> {
        m1_read(self@, address)
    }

    open spec fn spec_write(&self, address: u16, val: u8) -> (Mapper1V, Result<u8, Seq<char>>) {
        m1_write(self@, address, val)
    }

    open spec fn spec_nt(&self, table: int) -> usize {
        spec_mirror_lookup(self.mirror_mode)[table]
    }

    fn nametable_offset(&self, table: usize) -> (r: usize) {
        let l = self.mirror_mode.lookup();
        l[table]
    }

    fn read(&mut self, address: u16) -> (r: Result<u8, String>) {
        if address < 0x1000 {
            let bank = self.chr_bank0 as usize;
            let index = 4096 * bank + address as usize;
            if index < self.chr_rom.len() {
                Ok(self.chr_rom[index])
            } else {
                Err(String::from_str("bank index out of range"))
            }
        } else if address < 0x2000 {
            let bank = if self.chr_mode() == 0 {
                self.chr_bank0 as usize + 1
            } else {
                self.chr_bank1 as usize
            };
            let index = 4096 * bank + (address as usize - 0x1000);
            if index < self.chr_rom.len() {
                Ok(self.chr_rom[index])
            } else {
                Err(String::from_str("bank index out of range"))
            }
        } else if 0x6000 <= address && address < 0x8000 {
            Ok(self.sram[(address - 0x6000) as usize])
        } else if 0x8000 <= address && address < 0xc000 {
            let pm = self.prg_mode();
            let bank = if pm == 0 || pm == 1 {
                (self.prg_bank as usize / 2) * 2
            } else if pm == 2 {
                0
            } else {
                self.prg_bank as usize
            };
            let index = 16384 * bank + (address as usize % 16384);
            if index < self.prg_rom.len() {
                Ok(self.prg_rom[index])
            } else {
                Err(String::from_str("bank index out of range"))
            }
        } else if 0xc000 <= address {
            let pm = self.prg_mode();
            if pm == 3 && self.n_banks == 0 {
                Err(String::from_str("bank index out of range"))
            } else {
                let bank = if pm == 0 || pm == 1 {
                    (self.prg_bank as usize / 2) * 2 + 1
                } else if pm == 2 {
                    self.prg_bank as usize
                } else {
                    self.n_banks - 1
                };
                let index = 16384 * bank + (address as usize % 16384);
                if index < self.prg_rom.len() {
                    Ok(self.prg_rom[index])
                } else {
                    Err(String::from_str("bank index out of range"))
                }
            }
        } else {
            Ok(0)
        }
    }

    fn write(&mut self, address: u16, val: u8) -> (r: Result<u8, String>) {
        if address < 0x1000 {
            let bank = self.chr_bank0 as usize;
            let index = 4096 * bank + address as usize;
            if index < self.chr_rom.len() {
                self.chr_rom[index] = val;
                Ok(val)
            } else {
                Err(String::from_str("bank index out of range"))
            }
        } else if address < 0x2000 {
            let bank = if self.chr_mode() == 0 {
                self.chr_bank0 as usize + 1
            } else {
                self.chr_bank1 as usize
            };
            let index = 4096 * bank + (address as usize - 0x1000);
            if index < self.chr_rom.len() {
                self.chr_rom[index] = val;
                Ok(val)
            } else {
                Err(String::from_str("bank index out of range"))
            }
        } else if 0x6000 <= address && address < 0x8000 {
            self.sram[(address - 0x6000) as usize] = val;
            Ok(val)
        } else if 0x8000 <= address {
            self.load_register(address, val)
        } else {
            Ok(0)
        }
    }
}

impl Mapper1 {
    /// A switchable board over the given ROM images; powers up with the
    /// fixed-last-bank program arrangement selected.
    pub fn new_mapper(rom: Vec<u8>, vrom: Vec<u8>, mirror_mode: u8, n_prg_banks: usize) -> (r:
        Mapper1)
        requires
            mirror_mode <= 4,
            n_prg_banks <= 256,
        ensures
            r@.chr_rom == vrom@,
            r@.prg_rom == rom@,
            r@.sram == Seq::<u8>::new(0x2000, |i: int| 0u8),
            r@.control == 12,
            r@.chr_bank0 == 0,
            r@.chr_bank1 == 0,
            r@.prg_bank == 0,
            r@.shift_register == 0,
            r@.write_count == 0,
            r@.n_banks == n_prg_banks,
            r@.mirror_mode == spec_mirror_from(mirror_mode),
            r@.wf(),
    {
        let sram: Vec<u8> = vec![0u8; 0x2000];
        proof {
            assert(sram@ =~= Seq::<u8>::new(0x2000, |i: int| 0u8));
        }
        Mapper1 {
            chr_rom: vrom,
            prg_rom: rom,
            sram,
            control: 12,
            chr_bank0: 0,
            chr_bank1: 0,
            prg_bank: 0,
            shift_register: 0,
            write_count: 0,
            n_banks: n_prg_banks,
            mirror_mode: MirrorMode::from(mirror_mode),
        }
    }

    pub fn prg_mode(&self) -> (r: u8)
        ensures
            r == self@.prg_mode(),
    {
        (self.control / 4) % 4
    }

    pub fn chr_mode(&self) -> (r: u8)
        ensures
            r == self@.chr_mode(),
    {
        (self.control / 16) % 2
    }

    /// One serial write into the shift register, per `m1_load_register`.
    pub fn load_register(&mut self, address: u16, val: u8) -> (r: Result<u8, String>)
        requires
            old(self).wf(),
            address >= 0x8000,
        ensures
            final(self).wf(),
            final(self)@ == m1_load_register(old(self)@, address, val),
            r matches Ok(v) && v == 0u8,
    {
        if val >= 0x80 {
            self.shift_register = 0;
            self.control = 12;
            self.write_count = 0;
        } else {
            let weight: u8 = match self.write_count {
                0 => 1,
                1 => 2,
                2 => 4,
                3 => 8,
                _ => 16,
            };
            let sr = self.shift_register + (val % 2) * weight;
            if self.write_count == 4 {
                self.write_register(address, sr);
                self.write_count = 0;
                self.shift_register = 0;
            } else {
                self.shift_register = sr;
                self.write_count = self.write_count + 1;
            }
        }
        Ok(0)
    }

    /// Commit a full 5-bit value into the register the address selects.
    fn write_register(&mut self, address: u16, val: u8)
        requires
            address >= 0x8000,
        ensures
            final(self)@ == m1_commit(old(self)@, address, val),
    {
        if address < 0xa000 {
            self.control = val;
        } else if address < 0xc000 {
            self.chr_bank0 = val % 32;
        } else if address < 0xe000 {
            self.chr_bank1 = val % 32;
        } else {
            self.prg_bank = val % 32;
        }
    }
}

/// The cartridge slot: a closed set of supported boards, dispatched by tag.
pub enum Cartridge {
    Empty(MapperEmpty),
    Nrom(Mapper0),
    Mmc1(Mapper1),
}

pub enum CartridgeV {
    Empty(MapperEmptyV),
    Nrom(Mapper0V),
    Mmc1(Mapper1V),
}

impl View for Cartridge {
    type V = CartridgeV;

    open spec fn view(&self) -> CartridgeV {
        match self {
            Cartridge::Empty(m) => CartridgeV::Empty(m@),
            Cartridge::Nrom(m) => CartridgeV::Nrom(m@),
            Cartridge::Mmc1(m) => CartridgeV::Mmc1(m@),
        }
    }
}

/// Read model of whatever board is in the slot.
pub open spec fn cart_read(c: CartridgeV, address: u16) -> Result<u8, Seq<char>> {
    match c {
        CartridgeV::Empty(_) => Ok(0),
        CartridgeV::Nrom(m) => m0_read(m, address),
        CartridgeV::Mmc1(m) => m1_read(m, address),
    }
}

/// Write model of whatever board is in the slot.
pub open spec fn cart_write(c: CartridgeV, address: u16, val: u8) -> (CartridgeV, Result<
    u8,
    Seq<char>,
>) {
    match c {
        CartridgeV::Empty(_) => (c, Ok(0)),
        CartridgeV::Nrom(m) => {
            let (m2, r) = m0_write(m, address, val);
            (CartridgeV::Nrom(m2), r)
        },
        CartridgeV::Mmc1(m) => {
            let (m2, r) = m1_write(m, address, val);
            (CartridgeV::Mmc1(m2), r)
        },
    }
}

pub open spec fn cart_wf(c: CartridgeV) -> bool {
    match c {
        CartridgeV::Empty(_) => true,
        CartridgeV::Nrom(m) => m.wf(),
        CartridgeV::Mmc1(m) => m.wf(),
    }
}

pub open spec fn cart_nt(c: CartridgeV, table: int) -> usize {
    match c {
        CartridgeV::Empty(_) => 0,
        CartridgeV::Nrom(m) => spec_mirror_lookup(m.mirror_mode)[table],
        CartridgeV::Mmc1(m) => spec_mirror_lookup(m.mirror_mode)[table],
    }
}

impl Mapper for Cartridge {
    open spec fn wf(&self) -> bool {
        cart_wf(self@)
    }

    open spec fn spec_read(&self, address: u16) -> Result<u8, Seq<char>> {
        cart_read(self@, address)
    }

    open spec fn spec_write(&self, address: u16, val: u8) -> (CartridgeV, Result<u8, Seq<char>>) {
        cart_write(self@, address, val)
    }

    open spec fn spec_nt(&self, table: int) -> usize {
        cart_nt(self@, table)
    }

    fn nametable_offset(&self, table: usize) -> (r: usize) {
        match self {
            Cartridge::Empty(m) => m.nametable_offset(table),
            Cartridge::Nrom(m) => m.nametable_offset(table),
            Cartridge::Mmc1(m) => m.nametable_offset(table),
        }
    }

    fn read(&mut self, address: u16) -> (r: Result<u8, String>) {
        match self {
            Cartridge::Empty(m) => m.read(address),
            Cartridge::Nrom(m) => m.read(address),
            Cartridge::Mmc1(m) => m.read(address),
        }
    }

    fn write(&mut self, address: u16, val: u8) -> (r: Result<u8, String>) {
        match self {
            Cartridge::Empty(m) => m.write(address, val),
            Cartridge::Nrom(m) => m.write(address, val),
            Cartridge::Mmc1(m) => m.write(address, val),
        }
    }
}

/// Five serial writes into the program-bank range commit the accumulated
/// 5-bit value (least-significant bit first) to the program-bank register,
/// and the shift register and write counter are back at zero, ready for the
/// next sequence.
pub proof fn lemma_switchable_commit(
    m: Mapper1V,
    a1: u16,
    a2: u16,
    a3: u16,
    a4: u16,
    a5: u16,
    t1: u8,
    t2: u8,
    t3: u8,
    t4: u8,
    t5: u8,
)
    requires
        m.wf(),
        m.write_count == 0,
        0xe000 <= a1,
        0xe000 <= a2,
        0xe000 <= a3,
        0xe000 <= a4,
        0xe000 <= a5,
        t1 < 0x80,
        t2 < 0x80,
        t3 < 0x80,
        t4 < 0x80,
        t5 < 0x80,
    ensures
        ({
            let m5 = m1_load_register(
                m1_load_register(
                    m1_load_register(m1_load_register(m1_load_register(m, a1, t1), a2, t2), a3, t3),
                    a4,
                    t4,
                ),
                a5,
                t5,
            );
            &&& m5.prg_bank == (t1 % 2) + 2 * (t2 % 2) + 4 * (t3 % 2) + 8 * (t4 % 2) + 16 * (t5
                % 2)
            &&& m5.shift_register == 0
            &&& m5.write_count == 0
            &&& m5.wf()
        }),
{
    assert(bit_weight(0) == 1 && bit_weight(1) == 2 && bit_weight(2) == 4 && bit_weight(3) == 8
        && bit_weight(4) == 16);
    let m1 = m1_load_register(m, a1, t1);
    assert(m1.write_count == 1);
    assert(m1.shift_register == m.shift_register + (t1 % 2) * bit_weight(0));
    assert(m1.shift_register == t1 % 2) by (nonlinear_arith)
        requires
            m.shift_register == 0,
            m1.shift_register == m.shift_register + (t1 % 2) * bit_weight(0),
            bit_weight(0) == 1,
    ;
    let m2 = m1_load_register(m1, a2, t2);
    assert(m2.write_count == 2);
    assert(m2.shift_register == (t1 % 2) + 2 * (t2 % 2)) by (nonlinear_arith)
        requires
            m2.shift_register == (m1.shift_register + (t2 % 2) * bit_weight(1)) as u8,
            m1.shift_register == t1 % 2,
            bit_weight(1) == 2,
    ;
    let m3 = m1_load_register(m2, a3, t3);
    assert(m3.write_count == 3);
    assert(m3.shift_register == (t1 % 2) + 2 * (t2 % 2) + 4 * (t3 % 2)) by (nonlinear_arith)
        requires
            m3.shift_register == (m2.shift_register + (t3 % 2) * bit_weight(2)) as u8,
            m2.shift_register == (t1 % 2) + 2 * (t2 % 2),
            bit_weight(2) == 4,
    ;
    let m4 = m1_load_register(m3, a4, t4);
    assert(m4.write_count == 4);
    assert(m4.shift_register == (t1 % 2) + 2 * (t2 % 2) + 4 * (t3 % 2) + 8 * (t4 % 2))
        by (nonlinear_arith)
        requires
            m4.shift_register == (m3.shift_register + (t4 % 2) * bit_weight(3)) as u8,
            m3.shift_register == (t1 % 2) + 2 * (t2 % 2) + 4 * (t3 % 2),
            bit_weight(3) == 8,
    ;
    let m5 = m1_load_register(m4, a5, t5);
    assert(m5 == Mapper1V {
        shift_register: 0,
        write_count: 0,
        ..m1_commit(
            m4,
            a5,
            ((t1 % 2) + 2 * (t2 % 2) + 4 * (t3 % 2) + 8 * (t4 % 2) + 16 * (t5 % 2)) as u8,
        )
    });
}

} // verus!


