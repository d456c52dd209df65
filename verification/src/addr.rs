//! Addressing modes of the CPU and the shared effective-address resolver.

use vstd::prelude::*;

use crate::cpu::{CpuV, CPU};
use crate::mem::{mem_read, Memory, MemV};

verus! {

/// The thirteen addressing modes of the CPU, plus `Unsupported` for table
/// entries that do not decode to a supported instruction.
#[derive(Clone, Copy, Debug, PartialEq, Eq, Structural)]
pub enum AddressingMode {
    Unsupported,
    Immediate,
    Absolute,
    Implied,
    Accumulator,
    AbsoluteX,
    AbsoluteY,
    ZeroPageIndexed,
    ZeroPageX,
    ZeroPageY,
    Indirect,
    IndexedIndirect,
    IndirectIndexed,
    Relative,
}

/// Two addresses lie on different 256-byte pages.
pub open spec fn spec_pages_differ(addr_a: u16, addr_b: u16) -> bool {
    (addr_a & 0xff00) != (addr_b & 0xff00)
}

pub fn pages_differ(addr_a: u16, addr_b: u16) -> (r: bool)
    ensures
        r == spec_pages_differ(addr_a, addr_b),
{
    (addr_a & 0xff00) != (addr_b & 0xff00)
}

/// Encoded length of an instruction using the given mode, or `Err` for the
/// unsupported marker mode.
pub open spec fn spec_mode_len(mode: AddressingMode) -> Result<usize, ()> {
    match mode {
        AddressingMode::Implied => Ok(1),
        AddressingMode::Accumulator => Ok(1),
        AddressingMode::Immediate => Ok(2),
        AddressingMode::ZeroPageIndexed => Ok(2),
        AddressingMode::Relative => Ok(2),
        AddressingMode::ZeroPageX => Ok(2),
        AddressingMode::ZeroPageY => Ok(2),
        AddressingMode::IndexedIndirect => Ok(2),
        AddressingMode::IndirectIndexed => Ok(2),
        AddressingMode::Absolute => Ok(3),
        AddressingMode::AbsoluteX => Ok(3),
        AddressingMode::AbsoluteY => Ok(3),
        AddressingMode::Indirect => Ok(3),
        AddressingMode::Unsupported => Err(()),
    }
}

impl AddressingMode {
    pub fn n_bytes(&self) -> (r: Result<usize, ()>)
        ensures
            r == spec_mode_len(*self),
    {
        match *self {
            AddressingMode::Implied
            | AddressingMode::Accumulator => Ok(1),

            AddressingMode::Immediate
            | AddressingMode::ZeroPageIndexed
            | AddressingMode::Relative
            | AddressingMode::ZeroPageX
            | AddressingMode::ZeroPageY
            | AddressingMode::IndexedIndirect
            | AddressingMode::IndirectIndexed => Ok(2),

            AddressingMode::Absolute
            | AddressingMode::AbsoluteX
            | AddressingMode::AbsoluteY
            | AddressingMode::Indirect => Ok(3),

            AddressingMode::Unsupported => Err(()),
        }
    }
}

/// 16-bit addition with wraparound.
pub open spec fn spec_wadd16(x: u16, y: u16) -> u16 {
    if x + y > 0xffff {
        (x + y - 0x10000) as u16
    } else {
        (x + y) as u16
    }
}

/// 16-bit subtraction with wraparound.
pub open spec fn spec_wsub16(x: u16, y: u16) -> u16 {
    if x - y < 0 {
        (x - y + 0x10000) as u16
    } else {
        (x - y) as u16
    }
}

/// 8-bit addition with wraparound (zero-page indexing never leaves the page).
pub open spec fn spec_wadd8(x: u8, y: u8) -> u8 {
    if x + y > 0xff {
        (x + y - 0x100) as u8
    } else {
        (x + y) as u8
    }
}

/// A branch lands at the post-fetch program counter plus the signed 8-bit
/// offset, with 16-bit wraparound.
pub open spec fn spec_relative_target(pc: u16, offset: u8) -> u16 {
    if offset < 0x80 {
        spec_wadd16(pc, offset as u16)
    } else {
        spec_wsub16(spec_wadd16(pc, offset as u16), 0x100)
    }
}

/// A 16-bit pointer read from the zero page or from an absolute location,
/// reproducing the hardware quirk: when the pointer's low byte is 0xFF, its
/// high byte comes from offset 0x00 of the *same* page, not the next one.
pub open spec fn spec_read_ptr(m: MemV, ptr: u16) -> Result<u16, ()> {
    match mem_read(m, ptr) {
        Err(_) => Err(()),
        Ok(lo) => {
            let hi_addr = if ptr % 256 == 255 {
                (ptr - 255) as u16
            } else {
                (ptr + 1) as u16
            };
            match mem_read(m, hi_addr) {
                Err(_) => Err(()),
                Ok(hi) => Ok((hi * 256 + lo) as u16),
            }
        },
    }
}

/// Effective address and extra-cycle flag of each addressing mode, resolved
/// against a CPU whose program counter has already moved past the
/// instruction. Any failing memory access makes the resolution fail.
pub open spec fn spec_get_data(mode: AddressingMode, c: CpuV) -> Result<(u16, bool), ()> {
    match spec_mode_len(mode) {
        Err(_) => Err(()),
        Ok(n) => {
            let pc = spec_wsub16(c.pc, n as u16);
            match mode {
                AddressingMode::Immediate => Ok((spec_wadd16(pc, 1), false)),
                AddressingMode::Implied => Ok((0, false)),
                AddressingMode::Accumulator => Ok((0, false)),
                AddressingMode::ZeroPageIndexed => match mem_read(c.mem, spec_wadd16(pc, 1)) {
                    Err(_) => Err(()),
                    Ok(lo) => Ok((lo as u16, false)),
                },
                AddressingMode::ZeroPageX => match mem_read(c.mem, spec_wadd16(pc, 1)) {
                    Err(_) => Err(()),
                    Ok(lo) => Ok((spec_wadd8(lo, c.x) as u16, false)),
                },
                AddressingMode::ZeroPageY => match mem_read(c.mem, spec_wadd16(pc, 1)) {
                    Err(_) => Err(()),
                    Ok(lo) => Ok((spec_wadd8(lo, c.y) as u16, false)),
                },
                AddressingMode::Relative => match mem_read(c.mem, spec_wadd16(pc, 1)) {
                    Err(_) => Err(()),
                    Ok(offset) => Ok((spec_relative_target(c.pc, offset), false)),
                },
                AddressingMode::Absolute => match mem_read(c.mem, spec_wadd16(pc, 1)) {
                    Err(_) => Err(()),
                    Ok(lo) => match mem_read(c.mem, spec_wadd16(pc, 2)) {
                        Err(_) => Err(()),
                        Ok(hi) => Ok(((hi * 256 + lo) as u16, false)),
                    },
                },
                AddressingMode::AbsoluteX => match mem_read(c.mem, spec_wadd16(pc, 1)) {
                    Err(_) => Err(()),
                    Ok(lo) => match mem_read(c.mem, spec_wadd16(pc, 2)) {
                        Err(_) => Err(()),
                        Ok(hi) => {
                            let base = (hi * 256 + lo) as u16;
                            let eff = spec_wadd16(base, c.x as u16);
                            Ok((eff, spec_pages_differ(base, eff)))
                        },
                    },
                },
                AddressingMode::AbsoluteY => match mem_read(c.mem, spec_wadd16(pc, 1)) {
                    Err(_) => Err(()),
                    Ok(lo) => match mem_read(c.mem, spec_wadd16(pc, 2)) {
                        Err(_) => Err(()),
                        Ok(hi) => {
                            let base = (hi * 256 + lo) as u16;
                            let eff = spec_wadd16(base, c.y as u16);
                            Ok((eff, spec_pages_differ(base, eff)))
                        },
                    },
                },
                AddressingMode::Indirect => match mem_read(c.mem, spec_wadd16(pc, 1)) {
                    Err(_) => Err(()),
                    Ok(lo) => match mem_read(c.mem, spec_wadd16(pc, 2)) {
                        Err(_) => Err(()),
                        Ok(hi) => match spec_read_ptr(c.mem, (hi * 256 + lo) as u16) {
                            Err(_) => Err(()),
                            Ok(target) => Ok((target, false)),
                        },
                    },
                },
                AddressingMode::IndexedIndirect => match mem_read(c.mem, spec_wadd16(pc, 1)) {
                    Err(_) => Err(()),
                    Ok(lo) => match spec_read_ptr(c.mem, spec_wadd8(lo, c.x) as u16) {
                        Err(_) => Err(()),
                        Ok(target) => Ok((target, false)),
                    },
                },
                AddressingMode::IndirectIndexed => match mem_read(c.mem, spec_wadd16(pc, 1)) {
                    Err(_) => Err(()),
                    Ok(zp) => match spec_read_ptr(c.mem, zp as u16) {
                        Err(_) => Err(()),
                        Ok(base) => {
                            let eff = spec_wadd16(base, c.y as u16);
                            Ok((eff, spec_pages_differ(base, eff)))
                        },
                    },
                },
                AddressingMode::Unsupported => Err(()),
            }
        },
    }
}

fn wadd16(x: u16, y: u16) -> (r: u16)
    ensures
        r == spec_wadd16(x, y),
{
    x.wrapping_add(y)
}

fn wsub16(x: u16, y: u16) -> (r: u16)
    ensures
        r == spec_wsub16(x, y),
{
    x.wrapping_sub(y)
}

/// Pointer fetch with the page-wrap quirk, per `spec_read_ptr`.
fn read_ptr(cpu: &mut CPU, ptr: u16) -> (r: Result<u16, ()>)
    requires
        old(cpu)@.wf(),
    ensures
        final(cpu)@.wf(),
        *final(cpu) == *old(cpu),
        r == spec_read_ptr(old(cpu)@.mem, ptr),
{
    let lo = match cpu.mem.read(ptr) {
        Ok(v) => v,
        Err(_) => {
            return Err(());
        },
    };
    let hi_addr = if ptr % 256 == 255 {
        ptr - 255
    } else {
        ptr + 1
    };
    let hi = match cpu.mem.read(hi_addr) {
        Ok(v) => v,
        Err(_) => {
            return Err(());
        },
    };
    Ok((hi as u16) * 256 + (lo as u16))
}

impl AddressingMode {
    /// The raw bytes of the instruction at the program counter, for callers
    /// that render or log it; every byte must be readable.
    pub fn get_bytes(&self, cpu: &mut CPU) -> (r: Vec<u8>)
        requires
            old(cpu)@.wf(),
            spec_mode_len(*self) is Ok,
            forall|k: u16|
                k < spec_mode_len(*self)->Ok_0 ==> #[trigger] mem_read(
                    old(cpu)@.mem,
                    spec_wadd16(old(cpu)@.pc, k),
                ) is Ok,
        ensures
            final(cpu)@.wf(),
            *final(cpu) == *old(cpu),
            r@.len() == spec_mode_len(*self)->Ok_0,
            forall|k: u16|
                k < r@.len() ==> r@[k as int] == #[trigger] mem_read(
                    old(cpu)@.mem,
                    spec_wadd16(old(cpu)@.pc, k),
                )->Ok_0,
    {
        let n = match self.n_bytes() {
            Ok(n) => n,
            Err(_) => 0,
        };
        let mut out: Vec<u8> = Vec::new();
        let mut k: usize = 0;
        while k < n
            invariant
                old(cpu)@.wf(),
                *cpu == *old(cpu),
                spec_mode_len(*self) matches Ok(nn) && nn == n,
                n <= 3,
                k <= n,
                out@.len() == k,
                forall|j: u16|
                    j < n ==> #[trigger] mem_read(old(cpu)@.mem, spec_wadd16(old(cpu)@.pc, j))
                        is Ok,
                forall|j: u16|
                    j < k ==> out@[j as int] == #[trigger] mem_read(
                        old(cpu)@.mem,
                        spec_wadd16(old(cpu)@.pc, j),
                    )->Ok_0,
            decreases n - k,
        {
            let address = wadd16(cpu.pc, k as u16);
            let b = match cpu.mem.read(address) {
                Ok(v) => v,
                Err(_) => 0,
            };
            out.push(b);
            k = k + 1;
        }
        out
    }

    /// Resolve the effective address (and page-cross flag) of one
    /// instruction, with the program counter already past it, exactly as
    /// `spec_get_data` lays out per mode.
    pub fn get_data(&self, cpu: &mut CPU) -> (r: Result<(u16, bool), ()>)
        requires
            old(cpu)@.wf(),
        ensures
            final(cpu)@.wf(),
            *final(cpu) == *old(cpu),
            r == spec_get_data(*self, old(cpu)@),
    {
        let n = match self.n_bytes() {
            Ok(n) => n,
            Err(_) => {
                return Err(());
            },
        };
        let pc = wsub16(cpu.pc, n as u16);

        match *self {
            AddressingMode::Immediate => Ok((wadd16(pc, 1), false)),
            AddressingMode::Implied => Ok((0, false)),
            AddressingMode::Accumulator => Ok((0, false)),
            AddressingMode::ZeroPageIndexed => {
                match cpu.mem.read(wadd16(pc, 1)) {
                    Ok(lo) => Ok((lo as u16, false)),
                    Err(_) => Err(()),
                }
            },
            AddressingMode::ZeroPageX => {
                match cpu.mem.read(wadd16(pc, 1)) {
                    Ok(lo) => Ok((lo.wrapping_add(cpu.x) as u16, false)),
                    Err(_) => Err(()),
                }
            },
            AddressingMode::ZeroPageY => {
                match cpu.mem.read(wadd16(pc, 1)) {
                    Ok(lo) => Ok((lo.wrapping_add(cpu.y) as u16, false)),
                    Err(_) => Err(()),
                }
            },
            AddressingMode::Relative => {
                match cpu.mem.read(wadd16(pc, 1)) {
                    Ok(offset) => {
                        let target = if offset < 0x80 {
                            wadd16(cpu.pc, offset as u16)
                        } else {
                            wsub16(wadd16(cpu.pc, offset as u16), 0x100)
                        };
                        Ok((target, false))
                    },
                    Err(_) => Err(()),
                }
            },
            AddressingMode::Absolute => {
                let lo = match cpu.mem.read(wadd16(pc, 1)) {
                    Ok(v) => v,
                    Err(_) => {
                        return Err(());
                    },
                };
                let hi = match cpu.mem.read(wadd16(pc, 2)) {
                    Ok(v) => v,
                    Err(_) => {
                        return Err(());
                    },
                };
                Ok(((hi as u16) * 256 + (lo as u16), false))
            },
            AddressingMode::AbsoluteX => {
                let lo = match cpu.mem.read(wadd16(pc, 1)) {
                    Ok(v) => v,
                    Err(_) => {
                        return Err(());
                    },
                };
                let hi = match cpu.mem.read(wadd16(pc, 2)) {
                    Ok(v) => v,
                    Err(_) => {
                        return Err(());
                    },
                };
                let base = (hi as u16) * 256 + (lo as u16);
                let eff = wadd16(base, cpu.x as u16);
                Ok((eff, pages_differ(base, eff)))
            },
            AddressingMode::AbsoluteY => {
                let lo = match cpu.mem.read(wadd16(pc, 1)) {
                    Ok(v) => v,
                    Err(_) => {
                        return Err(());
                    },
                };
                let hi = match cpu.mem.read(wadd16(pc, 2)) {
                    Ok(v) => v,
                    Err(_) => {
                        return Err(());
                    },
                };
                let base = (hi as u16) * 256 + (lo as u16);
                let eff = wadd16(base, cpu.y as u16);
                Ok((eff, pages_differ(base, eff)))
            },
            AddressingMode::Indirect => {
                let lo = match cpu.mem.read(wadd16(pc, 1)) {
                    Ok(v) => v,
                    Err(_) => {
                        return Err(());
                    },
                };
                let hi = match cpu.mem.read(wadd16(pc, 2)) {
                    Ok(v) => v,
                    Err(_) => {
                        return Err(());
                    },
                };
                let ptr = (hi as u16) * 256 + (lo as u16);
                match read_ptr(cpu, ptr) {
                    Ok(target) => Ok((target, false)),
                    Err(_) => Err(()),
                }
            },
            AddressingMode::IndexedIndirect => {
                let lo = match cpu.mem.read(wadd16(pc, 1)) {
                    Ok(v) => v,
                    Err(_) => {
                        return Err(());
                    },
                };
                let zp = lo.wrapping_add(cpu.x) as u16;
                match read_ptr(cpu, zp) {
                    Ok(target) => Ok((target, false)),
                    Err(_) => Err(()),
                }
            },
            AddressingMode::IndirectIndexed => {
                let zp = match cpu.mem.read(wadd16(pc, 1)) {
                    Ok(v) => v,
                    Err(_) => {
                        return Err(());
                    },
                };
                match read_ptr(cpu, zp as u16) {
                    Ok(base) => {
                        let eff = wadd16(base, cpu.y as u16);
                        Ok((eff, pages_differ(base, eff)))
                    },
                    Err(_) => Err(()),
                }
            },
            AddressingMode::Unsupported => Err(()),
        }
    }
}

/// The page-wrap quirk, stated on its own: a pointer whose low byte is 0xFF
/// has its high byte read from offset zero of the same 256-byte page (the
/// address 255 below it), never from the next page.
pub proof fn lemma_pointer_page_wrap(m: MemV, ptr: u16)
    requires
        ptr % 256 == 255,
        mem_read(m, ptr) is Ok,
        mem_read(m, (ptr - 255) as u16) is Ok,
    ensures
        ({
            let lo = mem_read(m, ptr)->Ok_0;
            let hi = mem_read(m, (ptr - 255) as u16)->Ok_0;
            &&& spec_read_ptr(m, ptr) == Ok::<u16, ()>((hi * 256 + lo) as u16)
            &&& (ptr - 255) as u16 as int / 256 == ptr as int / 256
            &&& (ptr - 255) as u16 as int % 256 == 0
        }),
{
}

/// The relative-branch landing rule in plain arithmetic: the target equals
/// the post-fetch program counter plus the offset read as a signed byte,
/// reduced modulo the 16-bit space.
pub proof fn lemma_relative_branch(pc: u16, offset: u8)
    ensures
        spec_relative_target(pc, offset) as int == (pc + (if offset < 0x80 {
            offset as int
        } else {
            offset - 256
        }) + 0x10000) % 0x10000,
{
    let signed = if offset < 0x80 {
        offset as int
    } else {
        offset - 256
    };
    let total = pc + signed + 0x10000;
    assert(0xff80 <= total < 0x20080);
    if total < 0x10000 {
        assert(total % 0x10000 == total);
    } else if total < 0x20000 {
        assert(total % 0x10000 == total - 0x10000);
    } else {
        assert(total % 0x10000 == total - 0x20000);
    }
}

} // verus!
