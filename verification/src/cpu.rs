//! The CPU: register file, packed status byte, the fixed stack region,
//! interrupt entry, and the fetch-decode-execute step.

use vstd::prelude::*;

use crate::addr::{pages_differ, spec_get_data, spec_mode_len, spec_pages_differ, spec_wadd16};
use crate::inst::{spec_run, Instruction};
use crate::mem::{mem_read, mem_write, Memory, MemV, NESMemory};
use crate::opcode::{spec_base_cycles, spec_decode, Opcode};

verus! {

/// Power-up value of the stack pointer.
pub const STACK_INIT: u8 = 0xfd;

/// The CPU's architectural state: three 8-bit registers, seven independent
/// status flags, the program counter and the stack pointer, plus the bus it
/// owns while stepping.
pub struct CPU {
    pub mem: NESMemory,
    pub a: u8,
    pub x: u8,
    pub y: u8,
    pub c: bool,
    pub z: bool,
    pub i: bool,
    pub d: bool,
    pub b: bool,
    pub v: bool,
    pub s: bool,
    pub pc: u16,
    pub sp: u8,
}

#[verifier::ext_equal]
pub struct CpuV {
    pub mem: MemV,
    pub a: u8,
    pub x: u8,
    pub y: u8,
    pub c: bool,
    pub z: bool,
    pub i: bool,
    pub d: bool,
    pub b: bool,
    pub v: bool,
    pub s: bool,
    pub pc: u16,
    pub sp: u8,
}

impl View for CPU {
    type V = CpuV;

    open spec fn view(&self) -> CpuV {
        CpuV {
            mem: self.mem@,
            a: self.a,
            x: self.x,
            y: self.y,
            c: self.c,
            z: self.z,
            i: self.i,
            d: self.d,
            b: self.b,
            v: self.v,
            s: self.s,
            pc: self.pc,
            sp: self.sp,
        }
    }
}

impl CpuV {
    pub open spec fn wf(self) -> bool {
        self.mem.wf()
    }
}

/// The status byte: carry, zero, interrupt-disable, decimal, break in bits
/// 0..4, bit 5 always set, overflow in bit 6, sign in bit 7. Each flag
/// occupies its own distinct bit.
pub open spec fn spec_flags(c: CpuV) -> u8 {
    ((if c.c {
        1int
    } else {
        0int
    }) + (if c.z {
        2int
    } else {
        0int
    }) + (if c.i {
        4int
    } else {
        0int
    }) + (if c.d {
        8int
    } else {
        0int
    }) + (if c.b {
        16int
    } else {
        0int
    }) + 32 + (if c.v {
        64int
    } else {
        0int
    }) + (if c.s {
        128int
    } else {
        0int
    })) as u8
}

/// Unpacking a status byte reads one distinct bit per flag, mirroring the
/// packing above; bit 5 carries no flag and is ignored.
pub open spec fn spec_set_flags(c: CpuV, val: u8) -> CpuV {
    CpuV {
        c: val as int % 2 == 1,
        z: (val as int / 2) % 2 == 1,
        i: (val as int / 4) % 2 == 1,
        d: (val as int / 8) % 2 == 1,
        b: (val as int / 16) % 2 == 1,
        v: (val as int / 64) % 2 == 1,
        s: (val as int / 128) % 2 == 1,
        ..c
    }
}

/// One byte pushed: stored at the stack pointer's position in RAM, and the
/// pointer moves down. Defined for a non-exhausted stack.
pub open spec fn spec_push8(c: CpuV, val: u8) -> CpuV {
    CpuV { mem: mem_write(c.mem, c.sp as u16, val).0, sp: (c.sp - 1) as u8, ..c }
}

/// One byte popped: the pointer moves up and the byte at its new position
/// is returned. Defined for a non-empty stack.
pub open spec fn spec_pop8(c: CpuV) -> (CpuV, u8) {
    let sp2 = (c.sp + 1) as u8;
    (CpuV { sp: sp2, ..c }, c.mem.ram[sp2 as int % 0x800])
}

/// A 16-bit push stores the high byte first.
pub open spec fn spec_push16(c: CpuV, val: u16) -> CpuV {
    spec_push8(spec_push8(c, (val as int / 256) as u8), (val as int % 256) as u8)
}

/// A 16-bit pop returns low byte first, high byte second.
pub open spec fn spec_pop16(c: CpuV) -> (CpuV, u16) {
    let (c1, lo) = spec_pop8(c);
    let (c2, hi) = spec_pop8(c1);
    (c2, (hi * 256 + lo) as u16)
}

/// The little-endian 16-bit vector stored at the given address.
pub open spec fn spec_vec16(m: MemV, address: u16) -> Result<u16, Seq<char>> {
    match mem_read(m, address) {
        Err(e) => Err(e),
        Ok(lo) => match mem_read(m, (address + 1) as u16) {
            Err(e) => Err(e),
            Ok(hi) => Ok((hi * 256 + lo) as u16),
        },
    }
}

/// Interrupt entry: the program counter (high byte first) and the status
/// byte go onto the stack, interrupts are disabled, and execution continues
/// at the handler named by the vector. A stack without room for the three
/// bytes is exhausted, a fatal fault.
pub open spec fn spec_interrupt(c: CpuV, vector: u16) -> (CpuV, Result<(), Seq<char>>) {
    if c.sp < 3 {
        (c, Err("cannot push onto a full stack"@))
    } else {
        let c2 = spec_push8(spec_push16(c, c.pc), spec_flags(c));
        match spec_vec16(c2.mem, vector) {
            Err(e) => (c2, Err(e)),
            Ok(pc2) => (CpuV { pc: pc2, i: true, ..c2 }, Ok(())),
        }
    }
}

/// Packing the seven flags into a status byte and unpacking it restores
/// every flag: each one owns a distinct bit of the byte.
pub proof fn lemma_flags_roundtrip(c: CpuV)
    ensures
        spec_set_flags(c, spec_flags(c)) == c,
{
}

/// Relates an executable unit result to the model's: success agrees and the
/// message text agrees on failure.
pub open spec fn unit_result_matches(r: Result<(), String>, m: Result<(), Seq<char>>) -> bool {
    match m {
        Ok(_) => r is Ok,
        Err(s) => r matches Err(e) && e@ == s,
    }
}

impl CPU {
    /// Power-up state: cleared registers and flags, the stack pointer at its
    /// fixed initial value, and a bus with an empty cartridge slot.
    pub fn new_nes_cpu() -> (r: CPU)
        ensures
            r@.mem.ram == Seq::<u8>::new(0x800, |i: int| 0u8),
            r@.a == 0 && r@.x == 0 && r@.y == 0,
            !r@.c && !r@.z && !r@.i && !r@.d && !r@.b && !r@.v && !r@.s,
            r@.pc == 0,
            r@.sp == 0xfd,
            r@.wf(),
    {
        CPU {
            mem: NESMemory::new_nes_mem(),
            a: 0,
            x: 0,
            y: 0,
            c: false,
            z: false,
            i: false,
            d: false,
            b: false,
            v: false,
            s: false,
            pc: 0,
            sp: STACK_INIT,
        }
    }

    /// Reset entry: the program counter is loaded from the little-endian
    /// reset vector at 0xFFFC and the status byte takes its fixed power-on
    /// value. Fails only if the vector cannot be read.
    pub fn init(&mut self) -> (r: Result<(), String>)
        requires
            old(self)@.wf(),
        ensures
            final(self)@.wf(),
            match spec_vec16(old(self)@.mem, 0xFFFC) {
                Ok(pc2) => r is Ok && final(self)@ == spec_set_flags(
                    CpuV { pc: pc2, ..old(self)@ },
                    0x34,
                ),
                Err(s) => (r matches Err(e) && e@ == s) && final(self)@ == old(self)@,
            },
    {
        let lo = match self.mem.read(0xFFFC) {
            Ok(v) => v,
            Err(e) => {
                return Err(e);
            },
        };
        let hi = match self.mem.read(0xFFFD) {
            Ok(v) => v,
            Err(e) => {
                return Err(e);
            },
        };
        self.pc = (hi as u16) * 256 + (lo as u16);
        self.set_flags(0x34);
        Ok(())
    }

    /// Full reset: `init` plus the stack pointer back at its fixed value.
    pub fn reset(&mut self) -> (r: Result<(), String>)
        requires
            old(self)@.wf(),
        ensures
            final(self)@.wf(),
            match spec_vec16(old(self)@.mem, 0xFFFC) {
                Ok(pc2) => r is Ok && final(self)@ == CpuV {
                    sp: 0xfd,
                    ..spec_set_flags(CpuV { pc: pc2, ..old(self)@ }, 0x34)
                },
                Err(s) => (r matches Err(e) && e@ == s) && final(self)@ == old(self)@,
            },
    {
        let r = self.init();
        match r {
            Ok(_) => {
                self.sp = STACK_INIT;
                Ok(())
            },
            Err(e) => Err(e),
        }
    }

    /// The packed status byte.
    pub fn flags(&self) -> (r: u8)
        ensures
            r == spec_flags(self@),
    {
        (if self.c {
            1u8
        } else {
            0u8
        }) + (if self.z {
            2u8
        } else {
            0u8
        }) + (if self.i {
            4u8
        } else {
            0u8
        }) + (if self.d {
            8u8
        } else {
            0u8
        }) + (if self.b {
            16u8
        } else {
            0u8
        }) + 32 + (if self.v {
            64u8
        } else {
            0u8
        }) + (if self.s {
            128u8
        } else {
            0u8
        })
    }

    /// Restore the seven flags from a packed status byte.
    pub fn set_flags(&mut self, val: u8)
        ensures
            final(self)@ == spec_set_flags(old(self)@, val),
    {
        self.c = val % 2 == 1;
        self.z = (val / 2) % 2 == 1;
        self.i = (val / 4) % 2 == 1;
        self.d = (val / 8) % 2 == 1;
        self.b = (val / 16) % 2 == 1;
        self.v = (val / 64) % 2 == 1;
        self.s = (val / 128) % 2 == 1;
    }

    /// Push one byte. A full stack (pointer at zero) is a fatal fault, left
    /// to the caller as an error rather than a wrapped pointer.
    pub fn stack_push8(&mut self, val: u8) -> (r: Result<(), String>)
        requires
            old(self)@.wf(),
        ensures
            final(self)@.wf(),
            old(self)@.sp == 0 ==> (r matches Err(e) && e@ == "cannot push onto a full stack"@)
                && final(self)@ == old(self)@,
            old(self)@.sp != 0 ==> r is Ok && final(self)@ == spec_push8(old(self)@, val),
    {
        if self.sp == 0 {
            return Err(String::from_str("cannot push onto a full stack"));
        }
        let _ = self.mem.write(self.sp as u16, val);
        self.sp = self.sp - 1;
        Ok(())
    }

    /// Pop one byte. A pointer at or above its initial value means the
    /// stack is empty: a fatal fault, reported as an error. (Real hardware
    /// wraps the pointer; this engine deliberately treats wrap as a bug
    /// signal instead.)
    pub fn stack_pop8(&mut self) -> (r: Result<u8, String>)
        requires
            old(self)@.wf(),
        ensures
            final(self)@.wf(),
            old(self)@.sp >= 0xfd ==> (r matches Err(e) && e@ == "cannot pop from an empty stack"@)
                && final(self)@ == old(self)@,
            old(self)@.sp < 0xfd ==> (r matches Ok(v) && (final(self)@, v) == spec_pop8(old(self)@)),
    {
        if self.sp >= STACK_INIT {
            return Err(String::from_str("cannot pop from an empty stack"));
        }
        self.sp = self.sp + 1;
        match self.mem.read(self.sp as u16) {
            Ok(v) => Ok(v),
            Err(_) => Err(String::from_str("cannot pop from an empty stack")),
        }
    }

    /// Push a 16-bit value, high byte first.
    pub fn stack_push16(&mut self, val: u16) -> (r: Result<(), String>)
        requires
            old(self)@.wf(),
        ensures
            final(self)@.wf(),
            old(self)@.sp >= 2 ==> r is Ok && final(self)@ == spec_push16(old(self)@, val),
            old(self)@.sp == 1 ==> (r matches Err(e) && e@ == "cannot push onto a full stack"@)
                && final(self)@ == spec_push8(old(self)@, (val as int / 256) as u8),
            old(self)@.sp == 0 ==> (r matches Err(e) && e@ == "cannot push onto a full stack"@)
                && final(self)@ == old(self)@,
    {
        let hi = (val / 256) as u8;
        self.stack_push8(hi)?;
        let lo = (val % 256) as u8;
        self.stack_push8(lo)?;
        Ok(())
    }

    /// Pop a 16-bit value: low byte first, then high.
    pub fn stack_pop16(&mut self) -> (r: Result<u16, String>)
        requires
            old(self)@.wf(),
        ensures
            final(self)@.wf(),
            old(self)@.sp < 0xfc ==> (r matches Ok(v) && (final(self)@, v) == spec_pop16(old(self)@)),
            old(self)@.sp == 0xfc ==> (r matches Err(e) && e@ == "cannot pop from an empty stack"@)
                && final(self)@ == spec_pop8(old(self)@).0,
            old(self)@.sp > 0xfc ==> (r matches Err(e) && e@ == "cannot pop from an empty stack"@)
                && final(self)@ == old(self)@,
    {
        let lo = self.stack_pop8()?;
        let hi = self.stack_pop8()?;
        Ok((hi as u16) * 256 + (lo as u16))
    }

    /// Non-maskable interrupt entry through the vector at 0xFFFA.
    pub fn trigger_nmi(&mut self) -> (r: Result<(), String>)
        requires
            old(self)@.wf(),
        ensures
            final(self)@.wf(),
            final(self)@ == spec_interrupt(old(self)@, 0xFFFA).0,
            unit_result_matches(r, spec_interrupt(old(self)@, 0xFFFA).1),
    {
        self.interrupt(0xFFFA)
    }

    /// Maskable interrupt entry through the vector at 0xFFFE; suppressed
    /// (and a successful no-op) while the interrupt-disable flag is set.
    pub fn trigger_irq(&mut self) -> (r: Result<(), String>)
        requires
            old(self)@.wf(),
        ensures
            final(self)@.wf(),
            old(self)@.i ==> r is Ok && final(self)@ == old(self)@,
            !old(self)@.i ==> final(self)@ == spec_interrupt(old(self)@, 0xFFFE).0
                && unit_result_matches(r, spec_interrupt(old(self)@, 0xFFFE).1),
    {
        if self.i {
            return Ok(());
        }
        self.interrupt(0xFFFE)
    }

    /// Common interrupt entry sequence.
    pub(crate) fn interrupt(&mut self, vector: u16) -> (r: Result<(), String>)
        requires
            old(self)@.wf(),
            vector < 0xffff,
        ensures
            final(self)@.wf(),
            final(self)@ == spec_interrupt(old(self)@, vector).0,
            unit_result_matches(r, spec_interrupt(old(self)@, vector).1),
    {
        if self.sp < 3 {
            return Err(String::from_str("cannot push onto a full stack"));
        }
        let pc = self.pc;
        let flags = self.flags();
        let _ = self.stack_push16(pc);
        let _ = self.stack_push8(flags);
        let lo = match self.mem.read(vector) {
            Ok(v) => v,
            Err(e) => {
                return Err(e);
            },
        };
        let hi = match self.mem.read(vector + 1) {
            Ok(v) => v,
            Err(e) => {
                return Err(e);
            },
        };
        self.pc = (hi as u16) * 256 + (lo as u16);
        self.i = true;
        Ok(())
    }
}

/// The branch mnemonics, whose taken/page-cross penalties apply.
pub open spec fn spec_is_branch(inst: Instruction) -> bool {
    ||| inst is BCC
    ||| inst is BCS
    ||| inst is BEQ
    ||| inst is BNE
    ||| inst is BMI
    ||| inst is BPL
    ||| inst is BVC
    ||| inst is BVS
}

/// Elapsed cycles of one executed instruction: the opcode's base count,
/// plus one when indexed addressing crossed a page, plus one for a taken
/// branch and one more when the branch itself crossed a page.
pub open spec fn spec_cycles(
    op: u8,
    extra: bool,
    inst: Instruction,
    pc_post: u16,
    pc_new: u16,
) -> u64 {
    (spec_base_cycles(op) + (if extra {
        1int
    } else {
        0int
    }) + (if spec_is_branch(inst) && pc_new != pc_post {
        1int + (if spec_pages_differ(pc_post, pc_new) {
            1int
        } else {
            0int
        })
    } else {
        0int
    })) as u64
}

/// One fetch-decode-execute step: read the opcode at the program counter,
/// advance past the instruction, resolve its addressing mode, run the
/// handler, and count the elapsed cycles. Every failure is spelled out: an
/// unreadable opcode, a table slot with no supported mode, a failing
/// operand resolution, or the handler's own fault.
pub open spec fn spec_step(c: CpuV) -> (CpuV, Result<u64, Seq<char>>) {
    match mem_read(c.mem, c.pc) {
        Err(e) => (c, Err(e)),
        Ok(op) => {
            let inst = spec_decode(op).0;
            let mode = spec_decode(op).1;
            match spec_mode_len(mode) {
                Err(_) => (c, Err("unsupported addressing mode"@)),
                Ok(n) => {
                    let c1 = CpuV { pc: spec_wadd16(c.pc, n as u16), ..c };
                    match spec_get_data(mode, c1) {
                        Err(_) => (c1, Err("unable to get data"@)),
                        Ok(resolved) => {
                            let (c2, rr) = spec_run(inst, c1, resolved.0, mode);
                            match rr {
                                Err(e) => (c2, Err(e)),
                                Ok(_) => (
                                    c2,
                                    Ok(spec_cycles(op, resolved.1, inst, c1.pc, c2.pc)),
                                ),
                            }
                        },
                    }
                },
            }
        },
    }
}

impl CPU {
    /// Execute the instruction at the program counter and return its
    /// elapsed cycle count, exactly as `spec_step` lays out.
    #[verifier::rlimit(80)]
    pub fn step(&mut self) -> (r: Result<u64, String>)
        requires
            old(self)@.wf(),
        ensures
            final(self)@.wf(),
            final(self)@ == spec_step(old(self)@).0,
            match spec_step(old(self)@).1 {
                Ok(n) => r matches Ok(k) && k == n,
                Err(s) => r matches Err(e) && e@ == s,
            },
    {
        let op = match self.mem.read(self.pc) {
            Ok(v) => v,
            Err(e) => {
                return Err(e);
            },
        };
        let Opcode(inst, mode) = Opcode::lookup(op);
        let n = match mode.n_bytes() {
            Ok(n) => n,
            Err(_) => {
                return Err(String::from_str("unsupported addressing mode"));
            },
        };
        self.pc = self.pc.wrapping_add(n as u16);
        let pc_post = self.pc;
        let resolved = match mode.get_data(self) {
            Ok(t) => t,
            Err(_) => {
                return Err(String::from_str("unable to get data"));
            },
        };
        match inst.run(self, resolved.0, &mode) {
            Ok(_) => {},
            Err(e) => {
                return Err(e);
            },
        }
        let mut cycles: u64 = Opcode::base_cycles(op);
        if resolved.1 {
            cycles = cycles + 1;
        }
        let branch = matches!(
            inst,
            Instruction::BCC | Instruction::BCS | Instruction::BEQ | Instruction::BNE
                | Instruction::BMI | Instruction::BPL | Instruction::BVC | Instruction::BVS
        );
        if branch && self.pc != pc_post {
            cycles = cycles + 1;
            if pages_differ(pc_post, self.pc) {
                cycles = cycles + 1;
            }
        }
        Ok(cycles)
    }
}

/// Pushing a 16-bit value and popping it back returns exactly the value
/// pushed and restores the stack pointer to its pre-push position.
pub proof fn lemma_stack_roundtrip(c: CpuV, val: u16)
    requires
        c.wf(),
        2 <= c.sp < 0xff,
    ensures
        ({
            let c1 = spec_push16(c, val);
            let (c2, v) = spec_pop16(c1);
            &&& v == val
            &&& c2.sp == c.sp
            &&& c2.pc == c.pc
            &&& c2.a == c.a
        }),
{
    let hi = (val as int / 256) as u8;
    let lo = (val as int % 256) as u8;
    let ca = spec_push8(c, hi);
    assert(ca.mem.ram == c.mem.ram.update(c.sp as int, hi));
    let c1 = spec_push8(ca, lo);
    assert(c1.mem.ram == c.mem.ram.update(c.sp as int, hi).update(c.sp - 1, lo));
    assert(c1.sp == c.sp - 2);
    let (cb, lo2) = spec_pop8(c1);
    assert(lo2 == c1.mem.ram[c.sp - 1]);
    assert(lo2 == lo);
    let (c2, hi2) = spec_pop8(cb);
    assert(hi2 == c1.mem.ram[c.sp as int]);
    assert(hi2 == hi);
    assert(hi * 256 + lo == val);
}

} // verus!
