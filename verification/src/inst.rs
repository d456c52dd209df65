//! The instruction engine: one handler per mnemonic, each a function of the
//! CPU state and the resolved effective address, with its exact effect laid
//! out by a specification function.

use vstd::prelude::*;

use crate::addr::{spec_wadd16, spec_wsub16, AddressingMode};
use crate::cpu::{
    spec_flags, spec_interrupt, spec_pop16, spec_pop8, spec_push16, spec_push8, spec_set_flags,
    unit_result_matches, CpuV, CPU,
};
use crate::mem::{mem_read, mem_write, Memory};

verus! {

/// Every mnemonic the opcode table can name. `Unsupported` marks table slots
/// with no instruction; the combinational illegal opcodes are listed but not
/// implemented, and executing one is a fatal error rather than a silent no-op.
#[derive(Clone, Copy, Debug, PartialEq, Eq, Structural)]
pub enum Instruction {
    Unsupported,
    ADC,
    ANC,
    AND,
    ASL,
    BCC,
    BCS,
    BEQ,
    BIT,
    BMI,
    BNE,
    BPL,
    BRK,
    BVC,
    BVS,
    CLC,
    CLD,
    CLI,
    CLV,
    CMP,
    CPX,
    CPY,
    DCP,
    DEC,
    DEX,
    DEY,
    EOR,
    INC,
    INX,
    INY,
    ISB,
    JAM,
    JMP,
    JSR,
    LAX,
    LDA,
    LDX,
    LDY,
    LSR,
    NOP,
    ORA,
    PHA,
    PHP,
    PLA,
    PLP,
    RLA,
    ROL,
    ROR,
    RRA,
    RTI,
    RTS,
    SAX,
    SBC,
    SEC,
    SED,
    SEI,
    SLO,
    SRE,
    STA,
    STX,
    STY,
    TAX,
    TAY,
    TSX,
    TXA,
    TXS,
    TYA,
}

/// Zero and sign flags of a freshly produced value.
pub open spec fn spec_sz(c: CpuV, v: u8) -> CpuV {
    CpuV { z: v == 0, s: v >= 0x80, ..c }
}

/// Add with carry. The overflow flag is set exactly when both operands share
/// a sign and the 8-bit result's sign differs from theirs.
pub open spec fn spec_adc_val(c: CpuV, m: u8) -> CpuV {
    let cin: int = if c.c {
        1
    } else {
        0
    };
    let sum = c.a + m + cin;
    let result = (sum % 256) as u8;
    CpuV {
        a: result,
        c: sum > 255,
        v: ((c.a < 0x80) == (m < 0x80)) && ((c.a < 0x80) != (result < 0x80)),
        z: result == 0,
        s: result >= 0x80,
        ..c
    }
}

/// Subtract with borrow (borrow is the carry flag inverted). Carry is set
/// exactly when no borrow occurred; overflow when the operands' signs differ
/// and the result's sign differs from the accumulator's.
pub open spec fn spec_sbc_val(c: CpuV, m: u8) -> CpuV {
    let borrow: int = if c.c {
        0
    } else {
        1
    };
    let diff = c.a - m - borrow;
    let result = ((diff + 512) % 256) as u8;
    CpuV {
        a: result,
        c: diff >= 0,
        v: ((c.a < 0x80) != (m < 0x80)) && ((c.a < 0x80) != (result < 0x80)),
        z: result == 0,
        s: result >= 0x80,
        ..c
    }
}

/// Compare: flags of `reg - m`, with nothing stored.
pub open spec fn spec_cmp_val(c: CpuV, reg: u8, m: u8) -> CpuV {
    CpuV { c: reg >= m, z: reg == m, s: ((reg - m + 256) % 256) >= 0x80, ..c }
}

/// Bit test: zero from the masked accumulator, overflow and sign copied from
/// bits 6 and 7 of the operand.
pub open spec fn spec_bit_val(c: CpuV, m: u8) -> CpuV {
    CpuV { z: (c.a & m) == 0, v: (m as int / 64) % 2 == 1, s: m >= 0x80, ..c }
}

/// Arithmetic shift left of one byte: the old top bit becomes carry.
pub open spec fn spec_asl_byte(v: u8) -> (u8, bool) {
    (((v * 2) % 256) as u8, v >= 0x80)
}

/// Logical shift right: the old low bit becomes carry.
pub open spec fn spec_lsr_byte(v: u8) -> (u8, bool) {
    ((v as int / 2) as u8, v as int % 2 == 1)
}

/// Rotate left through carry: carry feeds bit 0.
pub open spec fn spec_rol_byte(v: u8, cin: bool) -> (u8, bool) {
    ((((v * 2) + (if cin {
        1int
    } else {
        0int
    })) % 256) as u8, v >= 0x80)
}

/// Rotate right through carry: carry feeds bit 7.
pub open spec fn spec_ror_byte(v: u8, cin: bool) -> (u8, bool) {
    (((v as int / 2) + (if cin {
        128int
    } else {
        0int
    })) as u8, v as int % 2 == 1)
}

/// A handler that only reads memory: the read's failure is the handler's.
pub open spec fn spec_read_step(c: CpuV, addr: u16) -> Result<u8, Seq<char>> {
    mem_read(c.mem, addr)
}

/// A handler's combined outcome: the state after it and its result.
pub open spec fn cpu_result_matches(
    fin: CpuV,
    r: Result<(), String>,
    m: (CpuV, Result<(), Seq<char>>),
) -> bool {
    fin == m.0 && unit_result_matches(r, m.1)
}

/// Effect of a pure register-to-register instruction, by mnemonic.
pub open spec fn spec_reg_op(inst: Instruction, c: CpuV) -> CpuV {
    match inst {
        Instruction::CLC => CpuV { c: false, ..c },
        Instruction::CLD => CpuV { d: false, ..c },
        Instruction::CLI => CpuV { i: false, ..c },
        Instruction::CLV => CpuV { v: false, ..c },
        Instruction::SEC => CpuV { c: true, ..c },
        Instruction::SED => CpuV { d: true, ..c },
        Instruction::SEI => CpuV { i: true, ..c },
        Instruction::DEX => spec_sz(CpuV { x: ((c.x + 255) % 256) as u8, ..c }, ((c.x + 255) % 256) as u8),
        Instruction::DEY => spec_sz(CpuV { y: ((c.y + 255) % 256) as u8, ..c }, ((c.y + 255) % 256) as u8),
        Instruction::INX => spec_sz(CpuV { x: ((c.x + 1) % 256) as u8, ..c }, ((c.x + 1) % 256) as u8),
        Instruction::INY => spec_sz(CpuV { y: ((c.y + 1) % 256) as u8, ..c }, ((c.y + 1) % 256) as u8),
        Instruction::TAX => spec_sz(CpuV { x: c.a, ..c }, c.a),
        Instruction::TAY => spec_sz(CpuV { y: c.a, ..c }, c.a),
        Instruction::TSX => spec_sz(CpuV { x: c.sp, ..c }, c.sp),
        Instruction::TXA => spec_sz(CpuV { a: c.x, ..c }, c.x),
        Instruction::TXS => CpuV { sp: c.x, ..c },
        Instruction::TYA => spec_sz(CpuV { a: c.y, ..c }, c.y),
        _ => c,
    }
}

impl CPU {
    /// Zero and sign from a result value.
    fn update_sz(&mut self, v: u8)
        ensures
            final(self)@ == spec_sz(old(self)@, v),
    {
        self.z = v == 0;
        self.s = v >= 0x80;
    }

    pub fn adc(&mut self, addr: u16) -> (r: Result<(), String>)
        requires
            old(self)@.wf(),
        ensures
            final(self)@.wf(),
            cpu_result_matches(
                final(self)@,
                r,
                match spec_read_step(old(self)@, addr) {
                    Err(e) => (old(self)@, Err(e)),
                    Ok(m) => (spec_adc_val(old(self)@, m), Ok(())),
                },
            ),
    {
        let m = match self.mem.read(addr) {
            Ok(v) => v,
            Err(e) => {
                return Err(e);
            },
        };
        let cin: u16 = if self.c {
            1
        } else {
            0
        };
        let sum: u16 = self.a as u16 + m as u16 + cin;
        let result: u8 = (sum % 256) as u8;
        self.c = sum > 255;
        self.v = ((self.a < 0x80) == (m < 0x80)) && ((self.a < 0x80) != (result < 0x80));
        self.a = result;
        self.update_sz(result);
        Ok(())
    }

    pub fn sbc(&mut self, addr: u16) -> (r: Result<(), String>)
        requires
            old(self)@.wf(),
        ensures
            final(self)@.wf(),
            cpu_result_matches(
                final(self)@,
                r,
                match spec_read_step(old(self)@, addr) {
                    Err(e) => (old(self)@, Err(e)),
                    Ok(m) => (spec_sbc_val(old(self)@, m), Ok(())),
                },
            ),
    {
        let m = match self.mem.read(addr) {
            Ok(v) => v,
            Err(e) => {
                return Err(e);
            },
        };
        let borrow: u16 = if self.c {
            0
        } else {
            1
        };
        let diff: u16 = 512 + self.a as u16 - m as u16 - borrow;
        let result: u8 = (diff % 256) as u8;
        self.c = diff >= 512;
        self.v = ((self.a < 0x80) != (m < 0x80)) && ((self.a < 0x80) != (result < 0x80));
        self.a = result;
        self.update_sz(result);
        Ok(())
    }

    pub fn and(&mut self, addr: u16) -> (r: Result<(), String>)
        requires
            old(self)@.wf(),
        ensures
            final(self)@.wf(),
            cpu_result_matches(
                final(self)@,
                r,
                match spec_read_step(old(self)@, addr) {
                    Err(e) => (old(self)@, Err(e)),
                    Ok(m) => (spec_sz(CpuV { a: (old(self)@.a & m) as u8, ..old(self)@ }, (old(
                        self,
                    )@.a & m) as u8), Ok(())),
                },
            ),
    {
        let m = match self.mem.read(addr) {
            Ok(v) => v,
            Err(e) => {
                return Err(e);
            },
        };
        let result = self.a & m;
        self.a = result;
        self.update_sz(result);
        Ok(())
    }

    pub fn ora(&mut self, addr: u16) -> (r: Result<(), String>)
        requires
            old(self)@.wf(),
        ensures
            final(self)@.wf(),
            cpu_result_matches(
                final(self)@,
                r,
                match spec_read_step(old(self)@, addr) {
                    Err(e) => (old(self)@, Err(e)),
                    Ok(m) => (spec_sz(CpuV { a: (old(self)@.a | m) as u8, ..old(self)@ }, (old(
                        self,
                    )@.a | m) as u8), Ok(())),
                },
            ),
    {
        let m = match self.mem.read(addr) {
            Ok(v) => v,
            Err(e) => {
                return Err(e);
            },
        };
        let result = self.a | m;
        self.a = result;
        self.update_sz(result);
        Ok(())
    }

    pub fn eor(&mut self, addr: u16) -> (r: Result<(), String>)
        requires
            old(self)@.wf(),
        ensures
            final(self)@.wf(),
            cpu_result_matches(
                final(self)@,
                r,
                match spec_read_step(old(self)@, addr) {
                    Err(e) => (old(self)@, Err(e)),
                    Ok(m) => (spec_sz(CpuV { a: (old(self)@.a ^ m) as u8, ..old(self)@ }, (old(
                        self,
                    )@.a ^ m) as u8), Ok(())),
                },
            ),
    {
        let m = match self.mem.read(addr) {
            Ok(v) => v,
            Err(e) => {
                return Err(e);
            },
        };
        let result = self.a ^ m;
        self.a = result;
        self.update_sz(result);
        Ok(())
    }

    pub fn bit(&mut self, addr: u16) -> (r: Result<(), String>)
        requires
            old(self)@.wf(),
        ensures
            final(self)@.wf(),
            cpu_result_matches(
                final(self)@,
                r,
                match spec_read_step(old(self)@, addr) {
                    Err(e) => (old(self)@, Err(e)),
                    Ok(m) => (spec_bit_val(old(self)@, m), Ok(())),
                },
            ),
    {
        let m = match self.mem.read(addr) {
            Ok(v) => v,
            Err(e) => {
                return Err(e);
            },
        };
        self.z = (self.a & m) == 0;
        self.v = (m / 64) % 2 == 1;
        self.s = m >= 0x80;
        Ok(())
    }

    pub fn cmp(&mut self, addr: u16) -> (r: Result<(), String>)
        requires
            old(self)@.wf(),
        ensures
            final(self)@.wf(),
            cpu_result_matches(
                final(self)@,
                r,
                match spec_read_step(old(self)@, addr) {
                    Err(e) => (old(self)@, Err(e)),
                    Ok(m) => (spec_cmp_val(old(self)@, old(self)@.a, m), Ok(())),
                },
            ),
    {
        let reg = self.a;
        self.compare(addr, reg)
    }

    pub fn cpx(&mut self, addr: u16) -> (r: Result<(), String>)
        requires
            old(self)@.wf(),
        ensures
            final(self)@.wf(),
            cpu_result_matches(
                final(self)@,
                r,
                match spec_read_step(old(self)@, addr) {
                    Err(e) => (old(self)@, Err(e)),
                    Ok(m) => (spec_cmp_val(old(self)@, old(self)@.x, m), Ok(())),
                },
            ),
    {
        let reg = self.x;
        self.compare(addr, reg)
    }

    pub fn cpy(&mut self, addr: u16) -> (r: Result<(), String>)
        requires
            old(self)@.wf(),
        ensures
            final(self)@.wf(),
            cpu_result_matches(
                final(self)@,
                r,
                match spec_read_step(old(self)@, addr) {
                    Err(e) => (old(self)@, Err(e)),
                    Ok(m) => (spec_cmp_val(old(self)@, old(self)@.y, m), Ok(())),
                },
            ),
    {
        let reg = self.y;
        self.compare(addr, reg)
    }

    /// Shared comparison: subtraction computed for flags only.
    fn compare(&mut self, addr: u16, reg: u8) -> (r: Result<(), String>)
        requires
            old(self)@.wf(),
        ensures
            final(self)@.wf(),
            cpu_result_matches(
                final(self)@,
                r,
                match spec_read_step(old(self)@, addr) {
                    Err(e) => (old(self)@, Err(e)),
                    Ok(m) => (spec_cmp_val(old(self)@, reg, m), Ok(())),
                },
            ),
    {
        let m = match self.mem.read(addr) {
            Ok(v) => v,
            Err(e) => {
                return Err(e);
            },
        };
        let diff: u16 = (256 + reg as u16 - m as u16) % 256;
        self.c = reg >= m;
        self.z = reg == m;
        self.s = diff >= 0x80;
        Ok(())
    }

    pub fn lda(&mut self, addr: u16) -> (r: Result<(), String>)
        requires
            old(self)@.wf(),
        ensures
            final(self)@.wf(),
            cpu_result_matches(
                final(self)@,
                r,
                match spec_read_step(old(self)@, addr) {
                    Err(e) => (old(self)@, Err(e)),
                    Ok(m) => (spec_sz(CpuV { a: m, ..old(self)@ }, m), Ok(())),
                },
            ),
    {
        let m = match self.mem.read(addr) {
            Ok(v) => v,
            Err(e) => {
                return Err(e);
            },
        };
        self.a = m;
        self.update_sz(m);
        Ok(())
    }

    pub fn ldx(&mut self, addr: u16) -> (r: Result<(), String>)
        requires
            old(self)@.wf(),
        ensures
            final(self)@.wf(),
            cpu_result_matches(
                final(self)@,
                r,
                match spec_read_step(old(self)@, addr) {
                    Err(e) => (old(self)@, Err(e)),
                    Ok(m) => (spec_sz(CpuV { x: m, ..old(self)@ }, m), Ok(())),
                },
            ),
    {
        let m = match self.mem.read(addr) {
            Ok(v) => v,
            Err(e) => {
                return Err(e);
            },
        };
        self.x = m;
        self.update_sz(m);
        Ok(())
    }

    pub fn ldy(&mut self, addr: u16) -> (r: Result<(), String>)
        requires
            old(self)@.wf(),
        ensures
            final(self)@.wf(),
            cpu_result_matches(
                final(self)@,
                r,
                match spec_read_step(old(self)@, addr) {
                    Err(e) => (old(self)@, Err(e)),
                    Ok(m) => (spec_sz(CpuV { y: m, ..old(self)@ }, m), Ok(())),
                },
            ),
    {
        let m = match self.mem.read(addr) {
            Ok(v) => v,
            Err(e) => {
                return Err(e);
            },
        };
        self.y = m;
        self.update_sz(m);
        Ok(())
    }
}

/// A store: one bus write of a register, flags untouched.
pub open spec fn spec_store(c: CpuV, addr: u16, v: u8) -> (CpuV, Result<(), Seq<char>>) {
    let (m2, wr) = mem_write(c.mem, addr, v);
    (CpuV { mem: m2, ..c }, match wr {
        Ok(_) => Ok(()),
        Err(e) => Err(e),
    })
}

/// A branch: the program counter moves to the resolved target exactly when
/// the condition holds.
pub open spec fn spec_branch(c: CpuV, addr: u16, taken: bool) -> CpuV {
    if taken {
        CpuV { pc: addr, ..c }
    } else {
        c
    }
}

/// Shift or rotate against memory: read, write the shifted byte back, then
/// set carry from the shifted-out bit and zero/sign from the new value.
pub open spec fn spec_rmw_shift(c: CpuV, addr: u16, nv: u8, carry: bool) -> (CpuV, Result<
    (),
    Seq<char>,
>) {
    let (m2, wr) = mem_write(c.mem, addr, nv);
    match wr {
        Err(e) => (CpuV { mem: m2, ..c }, Err(e)),
        Ok(_) => (spec_sz(CpuV { mem: m2, c: carry, ..c }, nv), Ok(())),
    }
}

pub open spec fn spec_asl(c: CpuV, addr: u16, mode: AddressingMode) -> (CpuV, Result<
    (),
    Seq<char>,
>) {
    if mode is Accumulator {
        let (nv, carry) = spec_asl_byte(c.a);
        (spec_sz(CpuV { a: nv, c: carry, ..c }, nv), Ok(()))
    } else {
        match mem_read(c.mem, addr) {
            Err(e) => (c, Err(e)),
            Ok(v) => {
                let (nv, carry) = spec_asl_byte(v);
                spec_rmw_shift(c, addr, nv, carry)
            },
        }
    }
}

pub open spec fn spec_lsr(c: CpuV, addr: u16, mode: AddressingMode) -> (CpuV, Result<
    (),
    Seq<char>,
>) {
    if mode is Accumulator {
        let (nv, carry) = spec_lsr_byte(c.a);
        (spec_sz(CpuV { a: nv, c: carry, ..c }, nv), Ok(()))
    } else {
        match mem_read(c.mem, addr) {
            Err(e) => (c, Err(e)),
            Ok(v) => {
                let (nv, carry) = spec_lsr_byte(v);
                spec_rmw_shift(c, addr, nv, carry)
            },
        }
    }
}

pub open spec fn spec_rol(c: CpuV, addr: u16, mode: AddressingMode) -> (CpuV, Result<
    (),
    Seq<char>,
>) {
    if mode is Accumulator {
        let (nv, carry) = spec_rol_byte(c.a, c.c);
        (spec_sz(CpuV { a: nv, c: carry, ..c }, nv), Ok(()))
    } else {
        match mem_read(c.mem, addr) {
            Err(e) => (c, Err(e)),
            Ok(v) => {
                let (nv, carry) = spec_rol_byte(v, c.c);
                spec_rmw_shift(c, addr, nv, carry)
            },
        }
    }
}

pub open spec fn spec_ror(c: CpuV, addr: u16, mode: AddressingMode) -> (CpuV, Result<
    (),
    Seq<char>,
>) {
    if mode is Accumulator {
        let (nv, carry) = spec_ror_byte(c.a, c.c);
        (spec_sz(CpuV { a: nv, c: carry, ..c }, nv), Ok(()))
    } else {
        match mem_read(c.mem, addr) {
            Err(e) => (c, Err(e)),
            Ok(v) => {
                let (nv, carry) = spec_ror_byte(v, c.c);
                spec_rmw_shift(c, addr, nv, carry)
            },
        }
    }
}

pub open spec fn spec_inc(c: CpuV, addr: u16) -> (CpuV, Result<(), Seq<char>>) {
    match mem_read(c.mem, addr) {
        Err(e) => (c, Err(e)),
        Ok(v) => {
            let nv = ((v + 1) % 256) as u8;
            let (m2, wr) = mem_write(c.mem, addr, nv);
            match wr {
                Err(e) => (CpuV { mem: m2, ..c }, Err(e)),
                Ok(_) => (spec_sz(CpuV { mem: m2, ..c }, nv), Ok(())),
            }
        },
    }
}

pub open spec fn spec_dec(c: CpuV, addr: u16) -> (CpuV, Result<(), Seq<char>>) {
    match mem_read(c.mem, addr) {
        Err(e) => (c, Err(e)),
        Ok(v) => {
            let nv = ((v + 255) % 256) as u8;
            let (m2, wr) = mem_write(c.mem, addr, nv);
            match wr {
                Err(e) => (CpuV { mem: m2, ..c }, Err(e)),
                Ok(_) => (spec_sz(CpuV { mem: m2, ..c }, nv), Ok(())),
            }
        },
    }
}

pub open spec fn spec_jsr(c: CpuV, addr: u16) -> (CpuV, Result<(), Seq<char>>) {
    if c.sp >= 2 {
        (CpuV { pc: addr, ..spec_push16(c, spec_wsub16(c.pc, 1)) }, Ok(()))
    } else if c.sp == 1 {
        (
            spec_push8(c, (spec_wsub16(c.pc, 1) as int / 256) as u8),
            Err("cannot push onto a full stack"@),
        )
    } else {
        (c, Err("cannot push onto a full stack"@))
    }
}

pub open spec fn spec_rts(c: CpuV) -> (CpuV, Result<(), Seq<char>>) {
    if c.sp > 0xfc {
        (c, Err("cannot pop from an empty stack"@))
    } else if c.sp == 0xfc {
        (spec_pop8(c).0, Err("cannot pop from an empty stack"@))
    } else {
        let (c2, v) = spec_pop16(c);
        (CpuV { pc: spec_wadd16(v, 1), ..c2 }, Ok(()))
    }
}

pub open spec fn spec_rti(c: CpuV) -> (CpuV, Result<(), Seq<char>>) {
    if c.sp >= 0xfd {
        (c, Err("cannot pop from an empty stack"@))
    } else {
        let (c1, f) = spec_pop8(c);
        let c2 = spec_set_flags(c1, f);
        if c2.sp > 0xfc {
            (c2, Err("cannot pop from an empty stack"@))
        } else if c2.sp == 0xfc {
            (spec_pop8(c2).0, Err("cannot pop from an empty stack"@))
        } else {
            let (c3, pc2) = spec_pop16(c2);
            (CpuV { pc: pc2, ..c3 }, Ok(()))
        }
    }
}

pub open spec fn spec_pha(c: CpuV) -> (CpuV, Result<(), Seq<char>>) {
    if c.sp == 0 {
        (c, Err("cannot push onto a full stack"@))
    } else {
        (spec_push8(c, c.a), Ok(()))
    }
}

pub open spec fn spec_php(c: CpuV) -> (CpuV, Result<(), Seq<char>>) {
    if c.sp == 0 {
        (c, Err("cannot push onto a full stack"@))
    } else {
        (spec_push8(c, spec_flags(c)), Ok(()))
    }
}

pub open spec fn spec_pla(c: CpuV) -> (CpuV, Result<(), Seq<char>>) {
    if c.sp >= 0xfd {
        (c, Err("cannot pop from an empty stack"@))
    } else {
        let (c1, v) = spec_pop8(c);
        (spec_sz(CpuV { a: v, ..c1 }, v), Ok(()))
    }
}

pub open spec fn spec_plp(c: CpuV) -> (CpuV, Result<(), Seq<char>>) {
    if c.sp >= 0xfd {
        (c, Err("cannot pop from an empty stack"@))
    } else {
        let (c1, v) = spec_pop8(c);
        (spec_set_flags(c1, v), Ok(()))
    }
}

/// Software interrupt: the break flag is raised and entry proceeds through
/// the maskable-interrupt vector.
pub open spec fn spec_brk(c: CpuV) -> (CpuV, Result<(), Seq<char>>) {
    spec_interrupt(CpuV { b: true, ..c }, 0xFFFE)
}

/// The exact effect of running one decoded instruction on the whole CPU
/// state, including which executions fail and with what fault.
pub open spec fn spec_run(inst: Instruction, c: CpuV, addr: u16, mode: AddressingMode) -> (
    CpuV,
    Result<(), Seq<char>>,
) {
    match inst {
        Instruction::ADC => match spec_read_step(c, addr) {
            Err(e) => (c, Err(e)),
            Ok(m) => (spec_adc_val(c, m), Ok(())),
        },
        Instruction::SBC => match spec_read_step(c, addr) {
            Err(e) => (c, Err(e)),
            Ok(m) => (spec_sbc_val(c, m), Ok(())),
        },
        Instruction::AND => match spec_read_step(c, addr) {
            Err(e) => (c, Err(e)),
            Ok(m) => (spec_sz(CpuV { a: (c.a & m) as u8, ..c }, (c.a & m) as u8), Ok(())),
        },
        Instruction::ORA => match spec_read_step(c, addr) {
            Err(e) => (c, Err(e)),
            Ok(m) => (spec_sz(CpuV { a: (c.a | m) as u8, ..c }, (c.a | m) as u8), Ok(())),
        },
        Instruction::EOR => match spec_read_step(c, addr) {
            Err(e) => (c, Err(e)),
            Ok(m) => (spec_sz(CpuV { a: (c.a ^ m) as u8, ..c }, (c.a ^ m) as u8), Ok(())),
        },
        Instruction::BIT => match spec_read_step(c, addr) {
            Err(e) => (c, Err(e)),
            Ok(m) => (spec_bit_val(c, m), Ok(())),
        },
        Instruction::CMP => match spec_read_step(c, addr) {
            Err(e) => (c, Err(e)),
            Ok(m) => (spec_cmp_val(c, c.a, m), Ok(())),
        },
        Instruction::CPX => match spec_read_step(c, addr) {
            Err(e) => (c, Err(e)),
            Ok(m) => (spec_cmp_val(c, c.x, m), Ok(())),
        },
        Instruction::CPY => match spec_read_step(c, addr) {
            Err(e) => (c, Err(e)),
            Ok(m) => (spec_cmp_val(c, c.y, m), Ok(())),
        },
        Instruction::LDA => match spec_read_step(c, addr) {
            Err(e) => (c, Err(e)),
            Ok(m) => (spec_sz(CpuV { a: m, ..c }, m), Ok(())),
        },
        Instruction::LDX => match spec_read_step(c, addr) {
            Err(e) => (c, Err(e)),
            Ok(m) => (spec_sz(CpuV { x: m, ..c }, m), Ok(())),
        },
        Instruction::LDY => match spec_read_step(c, addr) {
            Err(e) => (c, Err(e)),
            Ok(m) => (spec_sz(CpuV { y: m, ..c }, m), Ok(())),
        },
        Instruction::STA => spec_store(c, addr, c.a),
        Instruction::STX => spec_store(c, addr, c.x),
        Instruction::STY => spec_store(c, addr, c.y),
        Instruction::ASL => spec_asl(c, addr, mode),
        Instruction::LSR => spec_lsr(c, addr, mode),
        Instruction::ROL => spec_rol(c, addr, mode),
        Instruction::ROR => spec_ror(c, addr, mode),
        Instruction::INC => spec_inc(c, addr),
        Instruction::DEC => spec_dec(c, addr),
        Instruction::BCC => (spec_branch(c, addr, !c.c), Ok(())),
        Instruction::BCS => (spec_branch(c, addr, c.c), Ok(())),
        Instruction::BEQ => (spec_branch(c, addr, c.z), Ok(())),
        Instruction::BNE => (spec_branch(c, addr, !c.z), Ok(())),
        Instruction::BMI => (spec_branch(c, addr, c.s), Ok(())),
        Instruction::BPL => (spec_branch(c, addr, !c.s), Ok(())),
        Instruction::BVC => (spec_branch(c, addr, !c.v), Ok(())),
        Instruction::BVS => (spec_branch(c, addr, c.v), Ok(())),
        Instruction::JMP => (CpuV { pc: addr, ..c }, Ok(())),
        Instruction::JSR => spec_jsr(c, addr),
        Instruction::RTS => spec_rts(c),
        Instruction::RTI => spec_rti(c),
        Instruction::PHA => spec_pha(c),
        Instruction::PHP => spec_php(c),
        Instruction::PLA => spec_pla(c),
        Instruction::PLP => spec_plp(c),
        Instruction::BRK => spec_brk(c),
        Instruction::CLC => (spec_reg_op(inst, c), Ok(())),
        Instruction::CLD => (spec_reg_op(inst, c), Ok(())),
        Instruction::CLI => (spec_reg_op(inst, c), Ok(())),
        Instruction::CLV => (spec_reg_op(inst, c), Ok(())),
        Instruction::SEC => (spec_reg_op(inst, c), Ok(())),
        Instruction::SED => (spec_reg_op(inst, c), Ok(())),
        Instruction::SEI => (spec_reg_op(inst, c), Ok(())),
        Instruction::DEX => (spec_reg_op(inst, c), Ok(())),
        Instruction::DEY => (spec_reg_op(inst, c), Ok(())),
        Instruction::INX => (spec_reg_op(inst, c), Ok(())),
        Instruction::INY => (spec_reg_op(inst, c), Ok(())),
        Instruction::TAX => (spec_reg_op(inst, c), Ok(())),
        Instruction::TAY => (spec_reg_op(inst, c), Ok(())),
        Instruction::TSX => (spec_reg_op(inst, c), Ok(())),
        Instruction::TXA => (spec_reg_op(inst, c), Ok(())),
        Instruction::TXS => (spec_reg_op(inst, c), Ok(())),
        Instruction::TYA => (spec_reg_op(inst, c), Ok(())),
        Instruction::NOP => (c, Ok(())),
        _ => (c, Err("unsupported instruction"@)),
    }
}

impl CPU {
    pub fn sta(&mut self, addr: u16) -> (r: Result<(), String>)
        requires
            old(self)@.wf(),
        ensures
            final(self)@.wf(),
            cpu_result_matches(final(self)@, r, spec_store(old(self)@, addr, old(self)@.a)),
    {
        let v = self.a;
        self.store(addr, v)
    }

    pub fn stx(&mut self, addr: u16) -> (r: Result<(), String>)
        requires
            old(self)@.wf(),
        ensures
            final(self)@.wf(),
            cpu_result_matches(final(self)@, r, spec_store(old(self)@, addr, old(self)@.x)),
    {
        let v = self.x;
        self.store(addr, v)
    }

    pub fn sty(&mut self, addr: u16) -> (r: Result<(), String>)
        requires
            old(self)@.wf(),
        ensures
            final(self)@.wf(),
            cpu_result_matches(final(self)@, r, spec_store(old(self)@, addr, old(self)@.y)),
    {
        let v = self.y;
        self.store(addr, v)
    }

    fn store(&mut self, addr: u16, v: u8) -> (r: Result<(), String>)
        requires
            old(self)@.wf(),
        ensures
            final(self)@.wf(),
            cpu_result_matches(final(self)@, r, spec_store(old(self)@, addr, v)),
    {
        match self.mem.write(addr, v) {
            Ok(_) => Ok(()),
            Err(e) => Err(e),
        }
    }

    pub fn asl(&mut self, addr: u16, addr_mode: &AddressingMode) -> (r: Result<(), String>)
        requires
            old(self)@.wf(),
        ensures
            final(self)@.wf(),
            cpu_result_matches(final(self)@, r, spec_asl(old(self)@, addr, *addr_mode)),
    {
        if matches!(*addr_mode, AddressingMode::Accumulator) {
            let v = self.a;
            let nv = ((v as u16 * 2) % 256) as u8;
            self.c = v >= 0x80;
            self.a = nv;
            self.update_sz(nv);
            Ok(())
        } else {
            let v = match self.mem.read(addr) {
                Ok(v) => v,
                Err(e) => {
                    return Err(e);
                },
            };
            let nv = ((v as u16 * 2) % 256) as u8;
            match self.mem.write(addr, nv) {
                Ok(_) => {},
                Err(e) => {
                    return Err(e);
                },
            }
            self.c = v >= 0x80;
            self.update_sz(nv);
            Ok(())
        }
    }

    pub fn lsr(&mut self, addr: u16, addr_mode: &AddressingMode) -> (r: Result<(), String>)
        requires
            old(self)@.wf(),
        ensures
            final(self)@.wf(),
            cpu_result_matches(final(self)@, r, spec_lsr(old(self)@, addr, *addr_mode)),
    {
        if matches!(*addr_mode, AddressingMode::Accumulator) {
            let v = self.a;
            let nv = v / 2;
            self.c = v % 2 == 1;
            self.a = nv;
            self.update_sz(nv);
            Ok(())
        } else {
            let v = match self.mem.read(addr) {
                Ok(v) => v,
                Err(e) => {
                    return Err(e);
                },
            };
            let nv = v / 2;
            match self.mem.write(addr, nv) {
                Ok(_) => {},
                Err(e) => {
                    return Err(e);
                },
            }
            self.c = v % 2 == 1;
            self.update_sz(nv);
            Ok(())
        }
    }

    pub fn rol(&mut self, addr: u16, addr_mode: &AddressingMode) -> (r: Result<(), String>)
        requires
            old(self)@.wf(),
        ensures
            final(self)@.wf(),
            cpu_result_matches(final(self)@, r, spec_rol(old(self)@, addr, *addr_mode)),
    {
        let cin: u16 = if self.c {
            1
        } else {
            0
        };
        if matches!(*addr_mode, AddressingMode::Accumulator) {
            let v = self.a;
            let nv = ((v as u16 * 2 + cin) % 256) as u8;
            self.c = v >= 0x80;
            self.a = nv;
            self.update_sz(nv);
            Ok(())
        } else {
            let v = match self.mem.read(addr) {
                Ok(v) => v,
                Err(e) => {
                    return Err(e);
                },
            };
            let nv = ((v as u16 * 2 + cin) % 256) as u8;
            match self.mem.write(addr, nv) {
                Ok(_) => {},
                Err(e) => {
                    return Err(e);
                },
            }
            self.c = v >= 0x80;
            self.update_sz(nv);
            Ok(())
        }
    }

    pub fn ror(&mut self, addr: u16, addr_mode: &AddressingMode) -> (r: Result<(), String>)
        requires
            old(self)@.wf(),
        ensures
            final(self)@.wf(),
            cpu_result_matches(final(self)@, r, spec_ror(old(self)@, addr, *addr_mode)),
    {
        let cin: u8 = if self.c {
            128
        } else {
            0
        };
        if matches!(*addr_mode, AddressingMode::Accumulator) {
            let v = self.a;
            let nv = v / 2 + cin;
            self.c = v % 2 == 1;
            self.a = nv;
            self.update_sz(nv);
            Ok(())
        } else {
            let v = match self.mem.read(addr) {
                Ok(v) => v,
                Err(e) => {
                    return Err(e);
                },
            };
            let nv = v / 2 + cin;
            match self.mem.write(addr, nv) {
                Ok(_) => {},
                Err(e) => {
                    return Err(e);
                },
            }
            self.c = v % 2 == 1;
            self.update_sz(nv);
            Ok(())
        }
    }

    pub fn inc(&mut self, addr: u16) -> (r: Result<(), String>)
        requires
            old(self)@.wf(),
        ensures
            final(self)@.wf(),
            cpu_result_matches(final(self)@, r, spec_inc(old(self)@, addr)),
    {
        let v = match self.mem.read(addr) {
            Ok(v) => v,
            Err(e) => {
                return Err(e);
            },
        };
        let nv = ((v as u16 + 1) % 256) as u8;
        match self.mem.write(addr, nv) {
            Ok(_) => {},
            Err(e) => {
                return Err(e);
            },
        }
        self.update_sz(nv);
        Ok(())
    }

    pub fn dec(&mut self, addr: u16) -> (r: Result<(), String>)
        requires
            old(self)@.wf(),
        ensures
            final(self)@.wf(),
            cpu_result_matches(final(self)@, r, spec_dec(old(self)@, addr)),
    {
        let v = match self.mem.read(addr) {
            Ok(v) => v,
            Err(e) => {
                return Err(e);
            },
        };
        let nv = ((v as u16 + 255) % 256) as u8;
        match self.mem.write(addr, nv) {
            Ok(_) => {},
            Err(e) => {
                return Err(e);
            },
        }
        self.update_sz(nv);
        Ok(())
    }

    pub fn bcc(&mut self, addr: u16)
        ensures
            final(self)@ == spec_branch(old(self)@, addr, !old(self)@.c),
    {
        if !self.c {
            self.pc = addr;
        }
    }

    pub fn bcs(&mut self, addr: u16)
        ensures
            final(self)@ == spec_branch(old(self)@, addr, old(self)@.c),
    {
        if self.c {
            self.pc = addr;
        }
    }

    pub fn beq(&mut self, addr: u16)
        ensures
            final(self)@ == spec_branch(old(self)@, addr, old(self)@.z),
    {
        if self.z {
            self.pc = addr;
        }
    }

    pub fn bne(&mut self, addr: u16)
        ensures
            final(self)@ == spec_branch(old(self)@, addr, !old(self)@.z),
    {
        if !self.z {
            self.pc = addr;
        }
    }

    pub fn bmi(&mut self, addr: u16)
        ensures
            final(self)@ == spec_branch(old(self)@, addr, old(self)@.s),
    {
        if self.s {
            self.pc = addr;
        }
    }

    pub fn bpl(&mut self, addr: u16)
        ensures
            final(self)@ == spec_branch(old(self)@, addr, !old(self)@.s),
    {
        if !self.s {
            self.pc = addr;
        }
    }

    pub fn bvc(&mut self, addr: u16)
        ensures
            final(self)@ == spec_branch(old(self)@, addr, !old(self)@.v),
    {
        if !self.v {
            self.pc = addr;
        }
    }

    pub fn bvs(&mut self, addr: u16)
        ensures
            final(self)@ == spec_branch(old(self)@, addr, old(self)@.v),
    {
        if self.v {
            self.pc = addr;
        }
    }

    pub fn jmp(&mut self, addr: u16)
        ensures
            final(self)@ == (CpuV { pc: addr, ..old(self)@ }),
    {
        self.pc = addr;
    }

    pub fn jsr(&mut self, addr: u16) -> (r: Result<(), String>)
        requires
            old(self)@.wf(),
        ensures
            final(self)@.wf(),
            cpu_result_matches(final(self)@, r, spec_jsr(old(self)@, addr)),
    {
        let ret = self.pc.wrapping_sub(1);
        self.stack_push16(ret)?;
        self.pc = addr;
        Ok(())
    }

    pub fn rts(&mut self) -> (r: Result<(), String>)
        requires
            old(self)@.wf(),
        ensures
            final(self)@.wf(),
            cpu_result_matches(final(self)@, r, spec_rts(old(self)@)),
    {
        let v = self.stack_pop16()?;
        self.pc = v.wrapping_add(1);
        Ok(())
    }

    pub fn rti(&mut self) -> (r: Result<(), String>)
        requires
            old(self)@.wf(),
        ensures
            final(self)@.wf(),
            cpu_result_matches(final(self)@, r, spec_rti(old(self)@)),
    {
        let f = self.stack_pop8()?;
        self.set_flags(f);
        let pc2 = self.stack_pop16()?;
        self.pc = pc2;
        Ok(())
    }

    pub fn pha(&mut self) -> (r: Result<(), String>)
        requires
            old(self)@.wf(),
        ensures
            final(self)@.wf(),
            cpu_result_matches(final(self)@, r, spec_pha(old(self)@)),
    {
        let v = self.a;
        self.stack_push8(v)
    }

    pub fn php(&mut self) -> (r: Result<(), String>)
        requires
            old(self)@.wf(),
        ensures
            final(self)@.wf(),
            cpu_result_matches(final(self)@, r, spec_php(old(self)@)),
    {
        let v = self.flags();
        self.stack_push8(v)
    }

    pub fn pla(&mut self) -> (r: Result<(), String>)
        requires
            old(self)@.wf(),
        ensures
            final(self)@.wf(),
            cpu_result_matches(final(self)@, r, spec_pla(old(self)@)),
    {
        let v = self.stack_pop8()?;
        self.a = v;
        self.update_sz(v);
        Ok(())
    }

    pub fn plp(&mut self) -> (r: Result<(), String>)
        requires
            old(self)@.wf(),
        ensures
            final(self)@.wf(),
            cpu_result_matches(final(self)@, r, spec_plp(old(self)@)),
    {
        let v = self.stack_pop8()?;
        self.set_flags(v);
        Ok(())
    }

    pub fn brk(&mut self) -> (r: Result<(), String>)
        requires
            old(self)@.wf(),
        ensures
            final(self)@.wf(),
            cpu_result_matches(final(self)@, r, spec_brk(old(self)@)),
    {
        self.b = true;
        self.interrupt(0xFFFE)
    }

    pub fn clc(&mut self)
        ensures
            final(self)@ == spec_reg_op(Instruction::CLC, old(self)@),
    {
        self.c = false;
    }

    pub fn cld(&mut self)
        ensures
            final(self)@ == spec_reg_op(Instruction::CLD, old(self)@),
    {
        self.d = false;
    }

    pub fn cli(&mut self)
        ensures
            final(self)@ == spec_reg_op(Instruction::CLI, old(self)@),
    {
        self.i = false;
    }

    pub fn clv(&mut self)
        ensures
            final(self)@ == spec_reg_op(Instruction::CLV, old(self)@),
    {
        self.v = false;
    }

    pub fn sec(&mut self)
        ensures
            final(self)@ == spec_reg_op(Instruction::SEC, old(self)@),
    {
        self.c = true;
    }

    pub fn sed(&mut self)
        ensures
            final(self)@ == spec_reg_op(Instruction::SED, old(self)@),
    {
        self.d = true;
    }

    pub fn sei(&mut self)
        ensures
            final(self)@ == spec_reg_op(Instruction::SEI, old(self)@),
    {
        self.i = true;
    }

    pub fn dex(&mut self)
        ensures
            final(self)@ == spec_reg_op(Instruction::DEX, old(self)@),
    {
        let nv = ((self.x as u16 + 255) % 256) as u8;
        self.x = nv;
        self.update_sz(nv);
    }

    pub fn dey(&mut self)
        ensures
            final(self)@ == spec_reg_op(Instruction::DEY, old(self)@),
    {
        let nv = ((self.y as u16 + 255) % 256) as u8;
        self.y = nv;
        self.update_sz(nv);
    }

    pub fn inx(&mut self)
        ensures
            final(self)@ == spec_reg_op(Instruction::INX, old(self)@),
    {
        let nv = ((self.x as u16 + 1) % 256) as u8;
        self.x = nv;
        self.update_sz(nv);
    }

    pub fn iny(&mut self)
        ensures
            final(self)@ == spec_reg_op(Instruction::INY, old(self)@),
    {
        let nv = ((self.y as u16 + 1) % 256) as u8;
        self.y = nv;
        self.update_sz(nv);
    }

    pub fn tax(&mut self)
        ensures
            final(self)@ == spec_reg_op(Instruction::TAX, old(self)@),
    {
        let nv = self.a;
        self.x = nv;
        self.update_sz(nv);
    }

    pub fn tay(&mut self)
        ensures
            final(self)@ == spec_reg_op(Instruction::TAY, old(self)@),
    {
        let nv = self.a;
        self.y = nv;
        self.update_sz(nv);
    }

    pub fn tsx(&mut self)
        ensures
            final(self)@ == spec_reg_op(Instruction::TSX, old(self)@),
    {
        let nv = self.sp;
        self.x = nv;
        self.update_sz(nv);
    }

    pub fn txa(&mut self)
        ensures
            final(self)@ == spec_reg_op(Instruction::TXA, old(self)@),
    {
        let nv = self.x;
        self.a = nv;
        self.update_sz(nv);
    }

    pub fn txs(&mut self)
        ensures
            final(self)@ == spec_reg_op(Instruction::TXS, old(self)@),
    {
        self.sp = self.x;
    }

    pub fn tya(&mut self)
        ensures
            final(self)@ == spec_reg_op(Instruction::TYA, old(self)@),
    {
        let nv = self.y;
        self.a = nv;
        self.update_sz(nv);
    }

    pub fn nop(&mut self)
        ensures
            *final(self) == *old(self),
    {
    }
}

impl Instruction {
    /// Dispatch one decoded instruction to its handler. Running a table slot
    /// with no instruction, or an unimplemented illegal opcode, is a fatal
    /// error: silent continuation would desynchronize emulation.
    pub fn run(&self, cpu: &mut CPU, addr: u16, addr_mode: &AddressingMode) -> (r: Result<
        (),
        String,
    >)
        requires
            old(cpu)@.wf(),
        ensures
            final(cpu)@.wf(),
            cpu_result_matches(final(cpu)@, r, spec_run(*self, old(cpu)@, addr, *addr_mode)),
    {
        match *self {
            Instruction::ADC => cpu.adc(addr),
            Instruction::AND => cpu.and(addr),
            Instruction::ASL => cpu.asl(addr, addr_mode),
            Instruction::BCC => {
                cpu.bcc(addr);
                Ok(())
            },
            Instruction::BCS => {
                cpu.bcs(addr);
                Ok(())
            },
            Instruction::BEQ => {
                cpu.beq(addr);
                Ok(())
            },
            Instruction::BIT => cpu.bit(addr),
            Instruction::BMI => {
                cpu.bmi(addr);
                Ok(())
            },
            Instruction::BNE => {
                cpu.bne(addr);
                Ok(())
            },
            Instruction::BPL => {
                cpu.bpl(addr);
                Ok(())
            },
            Instruction::BRK => cpu.brk(),
            Instruction::BVC => {
                cpu.bvc(addr);
                Ok(())
            },
            Instruction::BVS => {
                cpu.bvs(addr);
                Ok(())
            },
            Instruction::CLC => {
                cpu.clc();
                Ok(())
            },
            Instruction::CLD => {
                cpu.cld();
                Ok(())
            },
            Instruction::CLI => {
                cpu.cli();
                Ok(())
            },
            Instruction::CLV => {
                cpu.clv();
                Ok(())
            },
            Instruction::CMP => cpu.cmp(addr),
            Instruction::CPX => cpu.cpx(addr),
            Instruction::CPY => cpu.cpy(addr),
            Instruction::DEC => cpu.dec(addr),
            Instruction::DEX => {
                cpu.dex();
                Ok(())
            },
            Instruction::DEY => {
                cpu.dey();
                Ok(())
            },
            Instruction::EOR => cpu.eor(addr),
            Instruction::INC => cpu.inc(addr),
            Instruction::INX => {
                cpu.inx();
                Ok(())
            },
            Instruction::INY => {
                cpu.iny();
                Ok(())
            },
            Instruction::JMP => {
                cpu.jmp(addr);
                Ok(())
            },
            Instruction::JSR => cpu.jsr(addr),
            Instruction::LDA => cpu.lda(addr),
            Instruction::LDX => cpu.ldx(addr),
            Instruction::LDY => cpu.ldy(addr),
            Instruction::LSR => cpu.lsr(addr, addr_mode),
            Instruction::NOP => {
                cpu.nop();
                Ok(())
            },
            Instruction::ORA => cpu.ora(addr),
            Instruction::PHA => cpu.pha(),
            Instruction::PHP => cpu.php(),
            Instruction::PLA => cpu.pla(),
            Instruction::PLP => cpu.plp(),
            Instruction::ROL => cpu.rol(addr, addr_mode),
            Instruction::ROR => cpu.ror(addr, addr_mode),
            Instruction::RTI => cpu.rti(),
            Instruction::RTS => cpu.rts(),
            Instruction::SBC => cpu.sbc(addr),
            Instruction::SEC => {
                cpu.sec();
                Ok(())
            },
            Instruction::SED => {
                cpu.sed();
                Ok(())
            },
            Instruction::SEI => {
                cpu.sei();
                Ok(())
            },
            Instruction::STA => cpu.sta(addr),
            Instruction::STX => cpu.stx(addr),
            Instruction::STY => cpu.sty(addr),
            Instruction::TAX => {
                cpu.tax();
                Ok(())
            },
            Instruction::TAY => {
                cpu.tay();
                Ok(())
            },
            Instruction::TSX => {
                cpu.tsx();
                Ok(())
            },
            Instruction::TXA => {
                cpu.txa();
                Ok(())
            },
            Instruction::TXS => {
                cpu.txs();
                Ok(())
            },
            Instruction::TYA => {
                cpu.tya();
                Ok(())
            },
            _ => Err(String::from_str("unsupported instruction")),
        }
    }
}

} // verus!
