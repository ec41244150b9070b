//! The LR35902 CPU interpreter: register file, flag semantics, the full
//! base and 0xCB-prefixed opcode sets, interrupt service and the HALT
//! state. `execute` runs one instruction and returns the machine cycles
//! it consumed, matching the instruction cycle table exactly.

use vstd::prelude::*;

use crate::EmuError;
use crate::mmu::Mmu;
use crate::mmu::MmuView;
use crate::mmu::next_addr;

verus! {

/// The four condition flags, held in the high nibble of F.
#[derive(Clone, Copy, Debug, PartialEq, Eq, Structural)]
pub enum Flags {
    Z,
    N,
    H,
    C,
}

impl Flags {
    /// The bit each flag occupies in F.
    pub open spec fn spec_bits(self) -> u8 {
        match self {
            Flags::Z => 0x80,
            Flags::N => 0x40,
            Flags::H => 0x20,
            Flags::C => 0x10,
        }
    }

    pub fn as_bits(&self) -> (r: u8)
        ensures
            r == self.spec_bits(),
    {
        match self {
            Flags::Z => 0x80,
            Flags::N => 0x40,
            Flags::H => 0x20,
            Flags::C => 0x10,
        }
    }
}

/// The F byte assembled from the four flags; its low nibble is zero.
pub open spec fn flags_byte(z: bool, n: bool, h: bool, c: bool) -> u8 {
    ((if z {
        0x80u8
    } else {
        0u8
    }) + (if n {
        0x40u8
    } else {
        0u8
    }) + (if h {
        0x20u8
    } else {
        0u8
    }) + (if c {
        0x10u8
    } else {
        0u8
    })) as u8
}

/// High and low byte of a 16-bit value.
pub open spec fn hi8(v: u16) -> u8 {
    (v >> 8) as u8
}

pub open spec fn lo8(v: u16) -> u8 {
    (v & 0xFF) as u8
}

pub struct CpuRegisters {
    pub a: u8,
    pub flags: u8,
    pub b: u8,
    pub c: u8,
    pub d: u8,
    pub e: u8,
    pub h: u8,
    pub l: u8,
}

impl CpuRegisters {
    /// F keeps a zero low nibble: only the four flag bits are writable.
    pub open spec fn wf(self) -> bool {
        self.flags % 16 == 0
    }

    pub open spec fn af_spec(self) -> u16 {
        (self.a * 256 + self.flags) as u16
    }

    pub open spec fn bc_spec(self) -> u16 {
        (self.b * 256 + self.c) as u16
    }

    pub open spec fn de_spec(self) -> u16 {
        (self.d * 256 + self.e) as u16
    }

    pub open spec fn hl_spec(self) -> u16 {
        (self.h * 256 + self.l) as u16
    }

    /// Whether a flag stands in F.
    pub open spec fn flag_spec(self, flag: Flags) -> bool {
        self.flags & flag.spec_bits() != 0
    }

    /// The register file with BC replaced.
    pub open spec fn with_bc(self, v: u16) -> CpuRegisters {
        CpuRegisters { b: hi8(v), c: lo8(v), ..self }
    }

    /// The register file with DE replaced.
    pub open spec fn with_de(self, v: u16) -> CpuRegisters {
        CpuRegisters { d: hi8(v), e: lo8(v), ..self }
    }

    /// The register file with HL replaced.
    pub open spec fn with_hl(self, v: u16) -> CpuRegisters {
        CpuRegisters { h: hi8(v), l: lo8(v), ..self }
    }

    /// The register file with AF replaced; F's low nibble reads zero.
    pub open spec fn with_af(self, v: u16) -> CpuRegisters {
        CpuRegisters { a: hi8(v), flags: lo8(v) & 0xF0, ..self }
    }

    pub fn new() -> (r: CpuRegisters)
        ensures
            r == (CpuRegisters {
                a: 0x01u8,
                flags: 0xB0u8,
                b: 0x00u8,
                c: 0x13u8,
                d: 0x00u8,
                e: 0xD8u8,
                h: 0x01u8,
                l: 0x4Du8,
            }),
            r.wf(),
    {
        CpuRegisters { a: 0x01, flags: 0xB0, b: 0x00, c: 0x13, d: 0x00, e: 0xD8, h: 0x01, l: 0x4D }
    }

    pub fn af(&self) -> (r: u16)
        ensures
            r == self.af_spec(),
    {
        self.a as u16 * 256 + self.flags as u16
    }

    pub fn bc(&self) -> (r: u16)
        ensures
            r == self.bc_spec(),
    {
        self.b as u16 * 256 + self.c as u16
    }

    pub fn de(&self) -> (r: u16)
        ensures
            r == self.de_spec(),
    {
        self.d as u16 * 256 + self.e as u16
    }

    pub fn hl(&self) -> (r: u16)
        ensures
            r == self.hl_spec(),
    {
        self.h as u16 * 256 + self.l as u16
    }

    /// Read HL, then increment it (wrapping).
    pub fn hli(&mut self) -> (r: u16)
        ensures
            r == old(self).hl_spec(),
            *final(self) == old(self).with_hl(((old(self).hl_spec() + 1) % 0x10000) as u16),
            final(self).hl_spec() == (old(self).hl_spec() + 1) % 0x10000,
    {
        let res = self.hl();
        let v = self.hl().wrapping_add(1);
        self.set_hl(v);
        res
    }

    /// Read HL, then decrement it (wrapping).
    pub fn hld(&mut self) -> (r: u16)
        ensures
            r == old(self).hl_spec(),
            *final(self) == old(self).with_hl(((old(self).hl_spec() - 1) % 0x10000) as u16),
            final(self).hl_spec() == (old(self).hl_spec() - 1) % 0x10000,
    {
        let res = self.hl();
        let v = self.hl().wrapping_sub(1);
        self.set_hl(v);
        res
    }

    pub fn set_bc(&mut self, value: u16)
        ensures
            *final(self) == old(self).with_bc(value),
            final(self).bc_spec() == value,
    {
        proof {
            crate::bitops::lemma_word_bytes(value);
        }
        self.b = (value >> 8) as u8;
        self.c = (value & 0xFF) as u8;
    }

    pub fn set_de(&mut self, value: u16)
        ensures
            *final(self) == old(self).with_de(value),
            final(self).de_spec() == value,
    {
        proof {
            crate::bitops::lemma_word_bytes(value);
        }
        self.d = (value >> 8) as u8;
        self.e = (value & 0xFF) as u8;
    }

    pub fn set_hl(&mut self, value: u16)
        ensures
            *final(self) == old(self).with_hl(value),
            final(self).hl_spec() == value,
    {
        proof {
            crate::bitops::lemma_word_bytes(value);
        }
        self.h = (value >> 8) as u8;
        self.l = (value & 0xFF) as u8;
    }

    /// Store AF; the low nibble of F reads back as zero.
    pub fn set_af(&mut self, value: u16)
        ensures
            *final(self) == old(self).with_af(value),
            final(self).wf(),
    {
        proof {
            crate::bitops::lemma_word_bytes(value);
            crate::bitops::lemma_high_nibble_mult16(((value & 0xFF) as u8));
        }
        self.a = (value >> 8) as u8;
        self.flags = ((value & 0xFF) as u8) & 0xF0;
    }

    pub fn get_flag(&self, flag: Flags) -> (r: bool)
        ensures
            r == self.flag_spec(flag),
    {
        (self.flags & flag.as_bits()) != 0
    }

    /// Set or clear one flag; the low nibble of F stays zero.
    pub fn set_flag(&mut self, flag: Flags, value: bool)
        ensures
            final(self).flags == (if value {
                (old(self).flags | flag.spec_bits()) & 0xF0
            } else {
                (old(self).flags & !flag.spec_bits()) & 0xF0
            }),
            *final(self) == (CpuRegisters { flags: final(self).flags, ..*old(self) }),
            final(self).wf(),
    {
        let m = flag.as_bits();
        if value {
            self.flags = self.flags | m;
        } else {
            self.flags = self.flags & !m;
        }
        self.flags = self.flags & 0xF0;
        proof {
            crate::bitops::lemma_high_nibble_mult16(
                if value {
                    old(self).flags | flag.spec_bits()
                } else {
                    old(self).flags & !flag.spec_bits()
                },
            );
        }
    }
}

/// A flag byte built from the four flag bits has a zero low nibble.
pub proof fn lemma_flags_byte_wf(z: bool, n: bool, h: bool, c: bool)
    ensures
        flags_byte(z, n, h, c) % 16 == 0,
{
}

pub struct Cpu {
    pub regs: CpuRegisters,
    pub sp: u16,
    pub pc: u16,
    /// Interrupt master enable.
    pub ime: bool,
    /// EI takes effect only after the following instruction completes.
    pub ei_pending: bool,
    /// HALT state: the CPU idles until an enabled interrupt is pending.
    pub halted: bool,
}

/// The CPU with only its flag byte replaced.
pub open spec fn with_flags(cpu: Cpu, f: u8) -> Cpu {
    Cpu { regs: CpuRegisters { flags: f, ..cpu.regs }, ..cpu }
}

/// Interrupts both enabled and requested, by the five interrupt lines.
pub open spec fn pending_ints(m: MmuView) -> u8 {
    m.read(0xFFFF) & m.read(0xFF0F) & 0x1F
}

/// Whether a conditional instruction's condition holds under flags `f`.
pub open spec fn cond_taken(op: u8, f: u8) -> bool {
    if op == 0x20 || op == 0xC0 || op == 0xC2 || op == 0xC4 {
        f & 0x80 == 0
    } else if op == 0x28 || op == 0xC8 || op == 0xCA || op == 0xCC {
        f & 0x80 != 0
    } else if op == 0x30 || op == 0xD0 || op == 0xD2 || op == 0xD4 {
        f & 0x10 == 0
    } else if op == 0x38 || op == 0xD8 || op == 0xDA || op == 0xDC {
        f & 0x10 != 0
    } else {
        true
    }
}

/// The machine-cycle table for the base opcode set; `t` is whether a
/// conditional instruction's condition held.
pub open spec fn base_cycles(op: u8, t: bool) -> u8 {
    if op < 0x40 {
        let lo = op % 16;
        if op == 0x08 {
            5
        } else if op == 0x18 {
            3
        } else if op == 0x20 || op == 0x28 || op == 0x30 || op == 0x38 {
            if t {
                3
            } else {
                2
            }
        } else if op == 0x34 || op == 0x35 || op == 0x36 {
            3
        } else if lo == 1 {
            3
        } else if lo == 2 || lo == 3 || lo == 6 || lo == 9 || lo == 10 || lo == 11 || lo == 14 {
            2
        } else {
            1
        }
    } else if op < 0x80 {
        if op == 0x76 {
            1
        } else {
            (1 + (if op % 8 == 6 {
                1int
            } else {
                0int
            }) + (if (op / 8) % 8 == 6 {
                1int
            } else {
                0int
            })) as u8
        }
    } else if op < 0xC0 {
        if op % 8 == 6 {
            2
        } else {
            1
        }
    } else {
        if op == 0xC3 {
            4
        } else if op == 0xC9 || op == 0xD9 {
            4
        } else if op == 0xCD {
            6
        } else if op == 0xC0 || op == 0xC8 || op == 0xD0 || op == 0xD8 {
            if t {
                5
            } else {
                2
            }
        } else if op == 0xC2 || op == 0xCA || op == 0xD2 || op == 0xDA {
            if t {
                4
            } else {
                3
            }
        } else if op == 0xC4 || op == 0xCC || op == 0xD4 || op == 0xDC {
            if t {
                6
            } else {
                3
            }
        } else if op == 0xC1 || op == 0xD1 || op == 0xE1 || op == 0xF1 {
            3
        } else if op == 0xC5 || op == 0xD5 || op == 0xE5 || op == 0xF5 {
            4
        } else if op % 8 == 7 {
            4  // the eight RST vectors
        } else if op % 8 == 6 {
            2  // immediate-operand ALU forms
        } else if op == 0xE0 || op == 0xF0 {
            3
        } else if op == 0xE2 || op == 0xF2 {
            2
        } else if op == 0xE8 {
            4
        } else if op == 0xE9 {
            1
        } else if op == 0xEA || op == 0xFA {
            4
        } else if op == 0xF3 || op == 0xFB {
            1
        } else if op == 0xF8 {
            3
        } else if op == 0xF9 {
            2
        } else {
            0
        }
    }
}

/// The machine-cycle table for the 0xCB-prefixed set, prefix included.
pub open spec fn cb_cycles(op2: u8) -> u8 {
    let mem = op2 % 8 == 6;
    if op2 < 0x40 {
        if mem {
            4
        } else {
            2
        }
    } else if op2 < 0x80 {
        if mem {
            3
        } else {
            2
        }
    } else {
        if mem {
            4
        } else {
            2
        }
    }
}

/// The eleven opcodes the instruction set leaves undefined.
pub open spec fn illegal_op(op: u8) -> bool {
    op == 0xD3 || op == 0xDB || op == 0xDD || op == 0xE3 || op == 0xE4 || op == 0xEB || op
        == 0xEC || op == 0xED || op == 0xF4 || op == 0xFC || op == 0xFD
}

/// The index of the highest-priority pending interrupt: the lowest set
/// bit of IE & IF, VBlank first.
pub open spec fn service_index(pend: u8) -> u8 {
    if pend & 0x01 != 0 {
        0
    } else if pend & 0x02 != 0 {
        1
    } else if pend & 0x04 != 0 {
        2
    } else if pend & 0x08 != 0 {
        3
    } else {
        4
    }
}

/// What one CPU step returns, decided by the pre-state alone: 5 cycles
/// for an interrupt service, 1 for an idle HALT cycle, the cycle table
/// entry for the fetched instruction, or the illegal-opcode error.
pub open spec fn spec_step_result(cpu: Cpu, m: MmuView) -> Result<u8, EmuError> {
    if cpu.ime && pending_ints(m) != 0 {
        Ok(5)
    } else if cpu.halted && pending_ints(m) == 0 {
        Ok(1)
    } else {
        let op = m.read(cpu.pc);
        if illegal_op(op) {
            Err(EmuError::UnsupportedOpcode(op))
        } else if op == 0xCB {
            Ok(cb_cycles(m.read(next_addr(cpu.pc))))
        } else {
            Ok(base_cycles(op, cond_taken(op, cpu.regs.flags)))
        }
    }
}

/// The full machine transition of one successful CPU step: interrupt
/// service, an idle HALT cycle, or one decoded instruction followed by
/// a pending EI taking effect.
pub open spec fn spec_step_state(cpu: Cpu, m: MmuView) -> (Cpu, MmuView) {
    if cpu.ime && pending_ints(m) != 0 {
        let idx = service_index(pending_ints(m));
        let m1 = m.write(0xFF0F, m.read(0xFF0F) & !(1u8 << idx));
        let sp1 = ((cpu.sp - 2) % 0x10000) as u16;
        (
            Cpu {
                ime: false,
                halted: false,
                pc: ((0x40 + 8 * idx) as u16),
                sp: sp1,
                ..cpu
            },
            m1.write_word(sp1, cpu.pc),
        )
    } else if cpu.halted && pending_ints(m) == 0 {
        (cpu, m)
    } else {
        let op = m.read(cpu.pc);
        if illegal_op(op) {
            (cpu, m)
        } else {
            let c0 = Cpu { halted: false, pc: (((cpu.pc + 1) % 0x10000) as u16), ..cpu };
            let sm = if op < 0x40 {
                step_row0(c0, m, op)
            } else if op < 0xC0 {
                step_ld_alu(c0, m, op)
            } else if op == 0xCB {
                step_cb(c0, m)
            } else if op < 0xD0 {
                step_ctrl_c(c0, m, op)
            } else if op < 0xE0 {
                step_ctrl_d(c0, m, op)
            } else if op < 0xF0 {
                step_ctrl_e(c0, m, op)
            } else {
                step_ctrl_f(c0, m, op)
            };
            let c1 = sm.0;
            (
                if c1.ei_pending && op != 0xFB {
                    Cpu { ime: true, ei_pending: false, ..c1 }
                } else {
                    c1
                },
                sm.1,
            )
        }
    }
}

/// Assemble the F byte from the four flags.
fn flags_to_byte(z: bool, n: bool, h: bool, c: bool) -> (r: u8)
    ensures
        r == flags_byte(z, n, h, c),
        r % 16 == 0,
{
    proof {
        lemma_flags_byte_wf(z, n, h, c);
    }
    (if z {
        0x80u8
    } else {
        0u8
    }) + (if n {
        0x40u8
    } else {
        0u8
    }) + (if h {
        0x20u8
    } else {
        0u8
    }) + (if c {
        0x10u8
    } else {
        0u8
    })
}

/// The PUSH-then-POP round trip: `s_push` is what PUSH rr (and CALL and
/// RST) does to the machine; popping afterwards reads the pushed word
/// back and returns SP to where it started. So `PUSH rr; POP rr` leaves
/// both rr and SP unchanged whenever the two stack bytes sit in
/// writable RAM.
pub proof fn lemma_push_pop_round_trip(cpu: Cpu, m: MmuView, v: u16)
    requires
        m.wf(),
        cpu.sp >= 2,
        crate::mmu::writable_ram((cpu.sp - 2) as u16),
        crate::mmu::writable_ram((cpu.sp - 1) as u16),
    ensures
        ({
            let pushed = s_push(cpu, m, v);
            // What POP rr then loads, and where its SP step lands.
            &&& pushed.1.read_word(pushed.0.sp) == v
            &&& (pushed.0.sp + 2) % 0x10000 == cpu.sp
        }),
{
    assert(next_addr((cpu.sp - 2) as u16) == (cpu.sp - 1) as u16);
    crate::mmu::lemma_word_round_trip(m, (cpu.sp - 2) as u16, v);
}

/// The prefixed instructions' cycle rule, stated plainly: two machine
/// cycles on a plain register target, four through (HL), except the
/// BIT tests through (HL), which take three.
pub proof fn lemma_cb_cycle_table(op2: u8)
    ensures
        op2 % 8 != 6 ==> cb_cycles(op2) == 2,
        op2 % 8 == 6 && 0x40 <= op2 < 0x80 ==> cb_cycles(op2) == 3,
        op2 % 8 == 6 && !(0x40 <= op2 < 0x80) ==> cb_cycles(op2) == 4,
{
}

/// F's zero low nibble, stated bitwise: this is the guest-visible form of
/// the register-file invariant. Every write to F re-establishes it, so a
/// read of F returns a byte whose low nibble is zero in every state.
pub proof fn lemma_flags_low_nibble_zero(regs: CpuRegisters)
    requires
        regs.wf(),
    ensures
        regs.flags & 0x0F == 0,
{
    let f = regs.flags;
    assert(f % 16 == 0 ==> f & 0x0F == 0) by (bit_vector);
}

/// The operand a three-bit register code names: B,C,D,E,H,L,(HL),A.
pub open spec fn spec_operand(cpu: Cpu, m: MmuView, code: u8) -> u8 {
    let c = code % 8;
    if c == 0 {
        cpu.regs.b
    } else if c == 1 {
        cpu.regs.c
    } else if c == 2 {
        cpu.regs.d
    } else if c == 3 {
        cpu.regs.e
    } else if c == 4 {
        cpu.regs.h
    } else if c == 5 {
        cpu.regs.l
    } else if c == 6 {
        m.read(cpu.regs.hl_spec())
    } else {
        cpu.regs.a
    }
}

/// The machine state after storing to the register a three-bit code
/// names; code 6 stores through HL.
pub open spec fn spec_store_reg(cpu: Cpu, m: MmuView, code: u8, v: u8) -> (Cpu, MmuView) {
    let c = code % 8;
    if c == 0 {
        (Cpu { regs: CpuRegisters { b: v, ..cpu.regs }, ..cpu }, m)
    } else if c == 1 {
        (Cpu { regs: CpuRegisters { c: v, ..cpu.regs }, ..cpu }, m)
    } else if c == 2 {
        (Cpu { regs: CpuRegisters { d: v, ..cpu.regs }, ..cpu }, m)
    } else if c == 3 {
        (Cpu { regs: CpuRegisters { e: v, ..cpu.regs }, ..cpu }, m)
    } else if c == 4 {
        (Cpu { regs: CpuRegisters { h: v, ..cpu.regs }, ..cpu }, m)
    } else if c == 5 {
        (Cpu { regs: CpuRegisters { l: v, ..cpu.regs }, ..cpu }, m)
    } else if c == 6 {
        (cpu, m.write(cpu.regs.hl_spec(), v))
    } else {
        (Cpu { regs: CpuRegisters { a: v, ..cpu.regs }, ..cpu }, m)
    }
}



/// The flag byte after an 8-bit increment of `a`; C is untouched.
pub open spec fn inc_flags(cpu: Cpu, a: u8) -> u8 {
    flags_byte((a + 1) % 256 == 0, false, a % 16 == 15, cpu.regs.flag_spec(Flags::C))
}

/// The flag byte after an 8-bit decrement of `a`; C is untouched.
pub open spec fn dec_flags(cpu: Cpu, a: u8) -> u8 {
    flags_byte((a - 1) % 256 == 0, true, a % 16 == 0, cpu.regs.flag_spec(Flags::C))
}

/// The CPU after ADD HL,rr: HL takes the wrapped sum, Z is untouched,
/// N cleared, H and C from bits 11 and 15.
pub open spec fn add_hl(cpu: Cpu, rhs: u16) -> Cpu {
    let hl = cpu.regs.hl_spec();
    Cpu {
        regs: CpuRegisters {
            flags: flags_byte(
                cpu.regs.flag_spec(Flags::Z),
                false,
                hl % 0x1000 + rhs % 0x1000 > 0x0FFF,
                hl + rhs > 0xFFFF,
            ),
            ..cpu.regs
        }.with_hl((((hl + rhs) % 0x10000) as u16)),
        ..cpu
    }
}

/// The CPU after a relative jump from the opcode's operand byte.
pub open spec fn jr(cpu: Cpu, m: MmuView) -> Cpu {
    let r8 = m.read(cpu.pc);
    let off: int = if r8 < 128 {
        r8 as int
    } else {
        r8 - 256
    };
    Cpu { pc: (((cpu.pc + 1 + off) % 0x10000) as u16), ..cpu }
}

/// The CPU one byte further on, its state otherwise unchanged.
pub open spec fn skip1(cpu: Cpu) -> Cpu {
    Cpu { pc: (((cpu.pc + 1) % 0x10000) as u16), ..cpu }
}

/// The CPU two bytes further on.
pub open spec fn skip2(cpu: Cpu) -> Cpu {
    Cpu { pc: (((cpu.pc + 2) % 0x10000) as u16), ..cpu }
}

/// The machine state after one opcode of the 0x00 row.
pub open spec fn step_row0_0(cpu: Cpu, m: MmuView, op: u8) -> (Cpu, MmuView) {
    let a = cpu.regs.a;
    let f = cpu.regs.flags;
    if op == 0x00 {
        (cpu, m)
    } else if op == 0x01 {
        (Cpu { regs: cpu.regs.with_bc(m.read_word(cpu.pc)), ..skip2(cpu) }, m)
    } else if op == 0x02 {
        (cpu, m.write(cpu.regs.bc_spec(), a))
    } else if op == 0x03 {
        (Cpu { regs: cpu.regs.with_bc((((cpu.regs.bc_spec() + 1) % 0x10000) as u16)), ..cpu }, m)
    } else if op == 0x04 {
        (Cpu { regs: CpuRegisters { b: (((cpu.regs.b + 1) % 256) as u8), flags: inc_flags(cpu, cpu.regs.b), ..cpu.regs }, ..cpu }, m)
    } else if op == 0x05 {
        (Cpu { regs: CpuRegisters { b: (((cpu.regs.b - 1) % 256) as u8), flags: dec_flags(cpu, cpu.regs.b), ..cpu.regs }, ..cpu }, m)
    } else if op == 0x06 {
        (Cpu { regs: CpuRegisters { b: m.read(cpu.pc), ..cpu.regs }, ..skip1(cpu) }, m)
    } else if op == 0x07 {
        let r = ((2 * a) % 256 + (if a >= 0x80 { 1int } else { 0int })) as u8;
        let f1 = flags_byte(a == 0, false, false, a >= 0x80);
        (Cpu { regs: CpuRegisters { a: r, flags: (f1 & !0x80) & 0xF0, ..cpu.regs }, ..cpu }, m)
    } else if op == 0x08 {
        (skip2(cpu), m.write_word(m.read_word(cpu.pc), cpu.sp))
    } else if op == 0x09 {
        (add_hl(cpu, cpu.regs.bc_spec()), m)
    } else if op == 0x0A {
        (Cpu { regs: CpuRegisters { a: m.read(cpu.regs.bc_spec()), ..cpu.regs }, ..cpu }, m)
    } else if op == 0x0B {
        (Cpu { regs: cpu.regs.with_bc((((cpu.regs.bc_spec() - 1) % 0x10000) as u16)), ..cpu }, m)
    } else if op == 0x0C {
        (Cpu { regs: CpuRegisters { c: (((cpu.regs.c + 1) % 256) as u8), flags: inc_flags(cpu, cpu.regs.c), ..cpu.regs }, ..cpu }, m)
    } else if op == 0x0D {
        (Cpu { regs: CpuRegisters { c: (((cpu.regs.c - 1) % 256) as u8), flags: dec_flags(cpu, cpu.regs.c), ..cpu.regs }, ..cpu }, m)
    } else if op == 0x0E {
        (Cpu { regs: CpuRegisters { c: m.read(cpu.pc), ..cpu.regs }, ..skip1(cpu) }, m)
    } else if op == 0x0F {
        let r = (a / 2 + (a % 2) * 128) as u8;
        let f1 = flags_byte(a == 0, false, false, a % 2 == 1);
        (Cpu { regs: CpuRegisters { a: r, flags: (f1 & !0x80) & 0xF0, ..cpu.regs }, ..cpu }, m)
    } else {
        (cpu, m)
    }
}

/// The machine state after one opcode of the 0x10 row.
pub open spec fn step_row0_1(cpu: Cpu, m: MmuView, op: u8) -> (Cpu, MmuView) {
    let a = cpu.regs.a;
    let f = cpu.regs.flags;
    if op == 0x10 {
        (Cpu { halted: true, ..cpu }, m)
    } else if op == 0x11 {
        (Cpu { regs: cpu.regs.with_de(m.read_word(cpu.pc)), ..skip2(cpu) }, m)
    } else if op == 0x12 {
        (cpu, m.write(cpu.regs.de_spec(), a))
    } else if op == 0x13 {
        (Cpu { regs: cpu.regs.with_de((((cpu.regs.de_spec() + 1) % 0x10000) as u16)), ..cpu }, m)
    } else if op == 0x14 {
        (Cpu { regs: CpuRegisters { d: (((cpu.regs.d + 1) % 256) as u8), flags: inc_flags(cpu, cpu.regs.d), ..cpu.regs }, ..cpu }, m)
    } else if op == 0x15 {
        (Cpu { regs: CpuRegisters { d: (((cpu.regs.d - 1) % 256) as u8), flags: dec_flags(cpu, cpu.regs.d), ..cpu.regs }, ..cpu }, m)
    } else if op == 0x16 {
        (Cpu { regs: CpuRegisters { d: m.read(cpu.pc), ..cpu.regs }, ..skip1(cpu) }, m)
    } else if op == 0x17 {
        let cin: int = if cpu.regs.flag_spec(Flags::C) { 1 } else { 0 };
        let r = ((2 * a + cin) % 256) as u8;
        let f1 = flags_byte((2 * a + cin) % 256 == 0, false, false, a >= 0x80);
        (Cpu { regs: CpuRegisters { a: r, flags: (f1 & !0x80) & 0xF0, ..cpu.regs }, ..cpu }, m)
    } else if op == 0x18 {
        (jr(cpu, m), m)
    } else if op == 0x19 {
        (add_hl(cpu, cpu.regs.de_spec()), m)
    } else if op == 0x1A {
        (Cpu { regs: CpuRegisters { a: m.read(cpu.regs.de_spec()), ..cpu.regs }, ..cpu }, m)
    } else if op == 0x1B {
        (Cpu { regs: cpu.regs.with_de((((cpu.regs.de_spec() - 1) % 0x10000) as u16)), ..cpu }, m)
    } else if op == 0x1C {
        (Cpu { regs: CpuRegisters { e: (((cpu.regs.e + 1) % 256) as u8), flags: inc_flags(cpu, cpu.regs.e), ..cpu.regs }, ..cpu }, m)
    } else if op == 0x1D {
        (Cpu { regs: CpuRegisters { e: (((cpu.regs.e - 1) % 256) as u8), flags: dec_flags(cpu, cpu.regs.e), ..cpu.regs }, ..cpu }, m)
    } else if op == 0x1E {
        (Cpu { regs: CpuRegisters { e: m.read(cpu.pc), ..cpu.regs }, ..skip1(cpu) }, m)
    } else if op == 0x1F {
        let cin: int = if cpu.regs.flag_spec(Flags::C) { 128 } else { 0 };
        let r = (a / 2 + cin) as u8;
        let f1 = flags_byte(a / 2 + cin == 0, false, false, a % 2 == 1);
        (Cpu { regs: CpuRegisters { a: r, flags: (f1 & !0x80) & 0xF0, ..cpu.regs }, ..cpu }, m)
    } else {
        (cpu, m)
    }
}

/// The machine state after one opcode of the 0x20 row.
pub open spec fn step_row0_2(cpu: Cpu, m: MmuView, op: u8) -> (Cpu, MmuView) {
    let a = cpu.regs.a;
    let f = cpu.regs.flags;
    if op == 0x20 {
        (if f & 0x80 == 0 { jr(cpu, m) } else { skip1(cpu) }, m)
    } else if op == 0x21 {
        (Cpu { regs: cpu.regs.with_hl(m.read_word(cpu.pc)), ..skip2(cpu) }, m)
    } else if op == 0x22 {
        let hl0 = cpu.regs.hl_spec();
        (Cpu { regs: cpu.regs.with_hl((((hl0 + 1) % 0x10000) as u16)), ..cpu }, m.write(hl0, a))
    } else if op == 0x23 {
        (Cpu { regs: cpu.regs.with_hl((((cpu.regs.hl_spec() + 1) % 0x10000) as u16)), ..cpu }, m)
    } else if op == 0x24 {
        (Cpu { regs: CpuRegisters { h: (((cpu.regs.h + 1) % 256) as u8), flags: inc_flags(cpu, cpu.regs.h), ..cpu.regs }, ..cpu }, m)
    } else if op == 0x25 {
        (Cpu { regs: CpuRegisters { h: (((cpu.regs.h - 1) % 256) as u8), flags: dec_flags(cpu, cpu.regs.h), ..cpu.regs }, ..cpu }, m)
    } else if op == 0x26 {
        (Cpu { regs: CpuRegisters { h: m.read(cpu.pc), ..cpu.regs }, ..skip1(cpu) }, m)
    } else if op == 0x27 {
        let nf = cpu.regs.flag_spec(Flags::N);
        let hf = cpu.regs.flag_spec(Flags::H);
        let cf = cpu.regs.flag_spec(Flags::C);
        let adj0: u8 = if cf { 0x60 } else { 0x00 };
        let adj1: u8 = if hf || (!nf && a % 16 > 0x09) { adj0 | 0x06 } else { adj0 };
        let adj2: u8 = if cf || (!nf && a > 0x99) { adj1 | 0x60 } else { adj1 };
        let a1: u8 = if nf {
            if a - adj2 < 0 { (a - adj2 + 256) as u8 } else { (a - adj2) as u8 }
        } else {
            if a + adj2 > 255 { (a + adj2 - 256) as u8 } else { (a + adj2) as u8 }
        };
        (Cpu { regs: CpuRegisters { a: a1, flags: flags_byte(a1 == 0, nf, false, adj2 >= 0x60), ..cpu.regs }, ..cpu }, m)
    } else if op == 0x28 {
        (if f & 0x80 != 0 { jr(cpu, m) } else { skip1(cpu) }, m)
    } else if op == 0x29 {
        (add_hl(cpu, cpu.regs.hl_spec()), m)
    } else if op == 0x2A {
        let hl0 = cpu.regs.hl_spec();
        (Cpu { regs: CpuRegisters { a: m.read(hl0), ..cpu.regs.with_hl((((hl0 + 1) % 0x10000) as u16)) }, ..cpu }, m)
    } else if op == 0x2B {
        (Cpu { regs: cpu.regs.with_hl((((cpu.regs.hl_spec() - 1) % 0x10000) as u16)), ..cpu }, m)
    } else if op == 0x2C {
        (Cpu { regs: CpuRegisters { l: (((cpu.regs.l + 1) % 256) as u8), flags: inc_flags(cpu, cpu.regs.l), ..cpu.regs }, ..cpu }, m)
    } else if op == 0x2D {
        (Cpu { regs: CpuRegisters { l: (((cpu.regs.l - 1) % 256) as u8), flags: dec_flags(cpu, cpu.regs.l), ..cpu.regs }, ..cpu }, m)
    } else if op == 0x2E {
        (Cpu { regs: CpuRegisters { l: m.read(cpu.pc), ..cpu.regs }, ..skip1(cpu) }, m)
    } else if op == 0x2F {
        let f1 = (f | 0x40) & 0xF0;
        (Cpu { regs: CpuRegisters { a: !a, flags: (f1 | 0x20) & 0xF0, ..cpu.regs }, ..cpu }, m)
    } else {
        (cpu, m)
    }
}

/// The machine state after one opcode of the 0x30 row.
pub open spec fn step_row0_3(cpu: Cpu, m: MmuView, op: u8) -> (Cpu, MmuView) {
    let a = cpu.regs.a;
    let f = cpu.regs.flags;
    if op == 0x30 {
        (if f & 0x10 == 0 { jr(cpu, m) } else { skip1(cpu) }, m)
    } else if op == 0x31 {
        (Cpu { sp: m.read_word(cpu.pc), ..skip2(cpu) }, m)
    } else if op == 0x32 {
        let hl0 = cpu.regs.hl_spec();
        (Cpu { regs: cpu.regs.with_hl((((hl0 - 1) % 0x10000) as u16)), ..cpu }, m.write(hl0, a))
    } else if op == 0x33 {
        (Cpu { sp: (((cpu.sp + 1) % 0x10000) as u16), ..cpu }, m)
    } else if op == 0x34 {
        let v0 = m.read(cpu.regs.hl_spec());
        (with_flags(cpu, inc_flags(cpu, v0)), m.write(cpu.regs.hl_spec(), (((v0 + 1) % 256) as u8)))
    } else if op == 0x35 {
        let v0 = m.read(cpu.regs.hl_spec());
        (with_flags(cpu, dec_flags(cpu, v0)), m.write(cpu.regs.hl_spec(), (((v0 - 1) % 256) as u8)))
    } else if op == 0x36 {
        (skip1(cpu), m.write(cpu.regs.hl_spec(), m.read(cpu.pc)))
    } else if op == 0x37 {
        let f1 = (f & !0x20) & 0xF0;
        let f2 = (f1 & !0x40) & 0xF0;
        (with_flags(cpu, (f2 | 0x10) & 0xF0), m)
    } else if op == 0x38 {
        (if f & 0x10 != 0 { jr(cpu, m) } else { skip1(cpu) }, m)
    } else if op == 0x39 {
        (add_hl(cpu, cpu.sp), m)
    } else if op == 0x3A {
        let hl0 = cpu.regs.hl_spec();
        (Cpu { regs: CpuRegisters { a: m.read(hl0), ..cpu.regs.with_hl((((hl0 - 1) % 0x10000) as u16)) }, ..cpu }, m)
    } else if op == 0x3B {
        (Cpu { sp: (((cpu.sp - 1) % 0x10000) as u16), ..cpu }, m)
    } else if op == 0x3C {
        (Cpu { regs: CpuRegisters { a: (((a + 1) % 256) as u8), flags: inc_flags(cpu, a), ..cpu.regs }, ..cpu }, m)
    } else if op == 0x3D {
        (Cpu { regs: CpuRegisters { a: (((a - 1) % 256) as u8), flags: dec_flags(cpu, a), ..cpu.regs }, ..cpu }, m)
    } else if op == 0x3E {
        (Cpu { regs: CpuRegisters { a: m.read(cpu.pc), ..cpu.regs }, ..skip1(cpu) }, m)
    } else {
        let c0 = cpu.regs.flag_spec(Flags::C);
        let f1 = (f & !0x20) & 0xF0;
        let f2 = (f1 & !0x40) & 0xF0;
        (with_flags(cpu, if !c0 { (f2 | 0x10) & 0xF0 } else { (f2 & !0x10) & 0xF0 }), m)
    }}

/// The machine state after one opcode of the 0x00-0x3F rows, from the
/// state just past the opcode byte.
pub open spec fn step_row0(cpu: Cpu, m: MmuView, op: u8) -> (Cpu, MmuView) {
    if op < 0x10 {
        step_row0_0(cpu, m, op)
    } else if op < 0x20 {
        step_row0_1(cpu, m, op)
    } else if op < 0x30 {
        step_row0_2(cpu, m, op)
    } else {
        step_row0_3(cpu, m, op)
    }
}

/// The machine state after one opcode of the regular 0x40-0xBF blocks:
/// LD r,r' (HALT in its hole) and the eight-way ALU block against A.
pub open spec fn step_ld_alu(cpu: Cpu, m: MmuView, op: u8) -> (Cpu, MmuView) {
    let a = cpu.regs.a;
    let v = spec_operand(cpu, m, op);
    if op == 0x76 {
        (Cpu { halted: true, ..cpu }, m)
    } else if op < 0x80 {
        spec_store_reg(cpu, m, (((op / 8) % 8) as u8), v)
    } else if op < 0x90 {
        let cin: int = if op % 16 >= 8 && cpu.regs.flag_spec(Flags::C) {
            1
        } else {
            0
        };
        (
            Cpu {
                regs: CpuRegisters {
                    a: (((a + v + cin) % 256) as u8),
                    flags: flags_byte(
                        (a + v + cin) % 256 == 0,
                        false,
                        a % 16 + v % 16 + cin > 15,
                        a + v + cin > 255,
                    ),
                    ..cpu.regs
                },
                ..cpu
            },
            m,
        )
    } else if op < 0xA0 {
        let cin: int = if op % 16 >= 8 && cpu.regs.flag_spec(Flags::C) {
            1
        } else {
            0
        };
        (
            Cpu {
                regs: CpuRegisters {
                    a: (((a - v - cin) % 256) as u8),
                    flags: flags_byte(
                        (a - v - cin) % 256 == 0,
                        true,
                        a % 16 < v % 16 + cin,
                        a < v + cin,
                    ),
                    ..cpu.regs
                },
                ..cpu
            },
            m,
        )
    } else if op < 0xA8 {
        (
            Cpu {
                regs: CpuRegisters {
                    a: a & v,
                    flags: flags_byte(a & v == 0, false, true, false),
                    ..cpu.regs
                },
                ..cpu
            },
            m,
        )
    } else if op < 0xB0 {
        (
            Cpu {
                regs: CpuRegisters {
                    a: a ^ v,
                    flags: flags_byte(a ^ v == 0, false, false, false),
                    ..cpu.regs
                },
                ..cpu
            },
            m,
        )
    } else if op < 0xB8 {
        (
            Cpu {
                regs: CpuRegisters {
                    a: a | v,
                    flags: flags_byte(a | v == 0, false, false, false),
                    ..cpu.regs
                },
                ..cpu
            },
            m,
        )
    } else {
        (
            with_flags(
                cpu,
                flags_byte((a - v) % 256 == 0, true, a % 16 < v % 16, a < v),
            ),
            m,
        )
    }
}

/// The CPU after RET: PC popped off the stack.
pub open spec fn s_ret(cpu: Cpu, m: MmuView) -> Cpu {
    Cpu {
        pc: m.read_word(cpu.sp),
        sp: (((cpu.sp + 2) % 0x10000) as u16),
        ..cpu
    }
}

/// The machine after CALL: the address past the operand word is pushed
/// and PC lands on the operand.
pub open spec fn s_call(cpu: Cpu, m: MmuView) -> (Cpu, MmuView) {
    let sp1 = ((cpu.sp - 2) % 0x10000) as u16;
    (
        Cpu { pc: m.read_word(cpu.pc), sp: sp1, ..cpu },
        m.write_word(sp1, (((cpu.pc + 2) % 0x10000) as u16)),
    )
}

/// The machine after PUSH of a word.
pub open spec fn s_push(cpu: Cpu, m: MmuView, v: u16) -> (Cpu, MmuView) {
    let sp1 = ((cpu.sp - 2) % 0x10000) as u16;
    (Cpu { sp: sp1, ..cpu }, m.write_word(sp1, v))
}

/// The machine after RST to a fixed vector.
pub open spec fn s_rst(cpu: Cpu, m: MmuView, vector: u16) -> (Cpu, MmuView) {
    let sp1 = ((cpu.sp - 2) % 0x10000) as u16;
    (Cpu { pc: vector, sp: sp1, ..cpu }, m.write_word(sp1, cpu.pc))
}

/// The machine state after one opcode of the 0xC0 row.
pub open spec fn step_ctrl_c(cpu: Cpu, m: MmuView, op: u8) -> (Cpu, MmuView) {
    let f = cpu.regs.flags;
    let a = cpu.regs.a;
    if op == 0xC0 {
        (if f & 0x80 == 0 { s_ret(cpu, m) } else { cpu }, m)
    } else if op == 0xC1 {
        (Cpu { regs: cpu.regs.with_bc(m.read_word(cpu.sp)), sp: (((cpu.sp + 2) % 0x10000) as u16), ..cpu }, m)
    } else if op == 0xC2 {
        (if f & 0x80 == 0 { Cpu { pc: m.read_word(cpu.pc), ..cpu } } else { skip2(cpu) }, m)
    } else if op == 0xC3 {
        (Cpu { pc: m.read_word(cpu.pc), ..cpu }, m)
    } else if op == 0xC4 {
        if f & 0x80 == 0 { s_call(cpu, m) } else { (skip2(cpu), m) }
    } else if op == 0xC5 {
        s_push(cpu, m, cpu.regs.bc_spec())
    } else if op == 0xC6 {
        let v = m.read(cpu.pc);
        (Cpu { regs: CpuRegisters { a: (((a + v) % 256) as u8), flags: flags_byte((a + v) % 256 == 0, false, a % 16 + v % 16 > 15, a + v > 255), ..cpu.regs }, ..skip1(cpu) }, m)
    } else if op == 0xC7 {
        s_rst(cpu, m, 0x00)
    } else if op == 0xC8 {
        (if f & 0x80 != 0 { s_ret(cpu, m) } else { cpu }, m)
    } else if op == 0xC9 {
        (s_ret(cpu, m), m)
    } else if op == 0xCA {
        (if f & 0x80 != 0 { Cpu { pc: m.read_word(cpu.pc), ..cpu } } else { skip2(cpu) }, m)
    } else if op == 0xCC {
        if f & 0x80 != 0 { s_call(cpu, m) } else { (skip2(cpu), m) }
    } else if op == 0xCD {
        s_call(cpu, m)
    } else if op == 0xCE {
        let v = m.read(cpu.pc);
        let cin: int = if cpu.regs.flag_spec(Flags::C) { 1 } else { 0 };
        (Cpu { regs: CpuRegisters { a: (((a + v + cin) % 256) as u8), flags: flags_byte((a + v + cin) % 256 == 0, false, a % 16 + v % 16 + cin > 15, a + v + cin > 255), ..cpu.regs }, ..skip1(cpu) }, m)
    } else if op == 0xCF {
        s_rst(cpu, m, 0x08)
    } else {
        (cpu, m)
    }
}

/// The machine state after one opcode of the 0xD0 row.
pub open spec fn step_ctrl_d(cpu: Cpu, m: MmuView, op: u8) -> (Cpu, MmuView) {
    let f = cpu.regs.flags;
    let a = cpu.regs.a;
    if op == 0xD0 {
        (if f & 0x10 == 0 { s_ret(cpu, m) } else { cpu }, m)
    } else if op == 0xD1 {
        (Cpu { regs: cpu.regs.with_de(m.read_word(cpu.sp)), sp: (((cpu.sp + 2) % 0x10000) as u16), ..cpu }, m)
    } else if op == 0xD2 {
        (if f & 0x10 == 0 { Cpu { pc: m.read_word(cpu.pc), ..cpu } } else { skip2(cpu) }, m)
    } else if op == 0xD4 {
        if f & 0x10 == 0 { s_call(cpu, m) } else { (skip2(cpu), m) }
    } else if op == 0xD5 {
        s_push(cpu, m, cpu.regs.de_spec())
    } else if op == 0xD6 {
        let v = m.read(cpu.pc);
        (Cpu { regs: CpuRegisters { a: (((a - v) % 256) as u8), flags: flags_byte((a - v) % 256 == 0, true, a % 16 < v % 16, a < v), ..cpu.regs }, ..skip1(cpu) }, m)
    } else if op == 0xD7 {
        s_rst(cpu, m, 0x10)
    } else if op == 0xD8 {
        (if f & 0x10 != 0 { s_ret(cpu, m) } else { cpu }, m)
    } else if op == 0xD9 {
        (Cpu { ime: true, ..s_ret(cpu, m) }, m)
    } else if op == 0xDA {
        (if f & 0x10 != 0 { Cpu { pc: m.read_word(cpu.pc), ..cpu } } else { skip2(cpu) }, m)
    } else if op == 0xDC {
        if f & 0x10 != 0 { s_call(cpu, m) } else { (skip2(cpu), m) }
    } else if op == 0xDE {
        let v = m.read(cpu.pc);
        let cin: int = if cpu.regs.flag_spec(Flags::C) { 1 } else { 0 };
        (Cpu { regs: CpuRegisters { a: (((a - v - cin) % 256) as u8), flags: flags_byte((a - v - cin) % 256 == 0, true, a % 16 < v % 16 + cin, a < v + cin), ..cpu.regs }, ..skip1(cpu) }, m)
    } else if op == 0xDF {
        s_rst(cpu, m, 0x18)
    } else {
        (cpu, m)
    }
}

/// The machine state after one opcode of the 0xE0 row.
pub open spec fn step_ctrl_e(cpu: Cpu, m: MmuView, op: u8) -> (Cpu, MmuView) {
    let a = cpu.regs.a;
    if op == 0xE0 {
        (skip1(cpu), m.write(((0xFF00 + m.read(cpu.pc)) as u16), a))
    } else if op == 0xE1 {
        (Cpu { regs: cpu.regs.with_hl(m.read_word(cpu.sp)), sp: (((cpu.sp + 2) % 0x10000) as u16), ..cpu }, m)
    } else if op == 0xE2 {
        (cpu, m.write(((0xFF00 + cpu.regs.c) as u16), a))
    } else if op == 0xE5 {
        s_push(cpu, m, cpu.regs.hl_spec())
    } else if op == 0xE6 {
        let v = m.read(cpu.pc);
        (Cpu { regs: CpuRegisters { a: a & v, flags: flags_byte(a & v == 0, false, true, false), ..cpu.regs }, ..skip1(cpu) }, m)
    } else if op == 0xE7 {
        s_rst(cpu, m, 0x20)
    } else if op == 0xE8 {
        let r8 = m.read(cpu.pc);
        let rhs: int = if r8 < 128 { r8 as int } else { r8 - 256 };
        (Cpu {
            sp: (((cpu.sp + rhs) % 0x10000) as u16),
            regs: CpuRegisters {
                flags: flags_byte(false, false, cpu.sp % 16 + r8 % 16 > 15, cpu.sp % 256 + r8 > 255),
                ..cpu.regs
            },
            ..skip1(cpu)
        }, m)
    } else if op == 0xE9 {
        (Cpu { pc: cpu.regs.hl_spec(), ..cpu }, m)
    } else if op == 0xEA {
        (skip2(cpu), m.write(m.read_word(cpu.pc), a))
    } else if op == 0xEE {
        let v = m.read(cpu.pc);
        (Cpu { regs: CpuRegisters { a: a ^ v, flags: flags_byte(a ^ v == 0, false, false, false), ..cpu.regs }, ..skip1(cpu) }, m)
    } else if op == 0xEF {
        s_rst(cpu, m, 0x28)
    } else {
        (cpu, m)
    }
}

/// The machine state after one opcode of the 0xF0 row.
pub open spec fn step_ctrl_f(cpu: Cpu, m: MmuView, op: u8) -> (Cpu, MmuView) {
    let a = cpu.regs.a;
    if op == 0xF0 {
        (Cpu { regs: CpuRegisters { a: m.read(((0xFF00 + m.read(cpu.pc)) as u16)), ..cpu.regs }, ..skip1(cpu) }, m)
    } else if op == 0xF1 {
        (Cpu { regs: cpu.regs.with_af(m.read_word(cpu.sp)), sp: (((cpu.sp + 2) % 0x10000) as u16), ..cpu }, m)
    } else if op == 0xF2 {
        (Cpu { regs: CpuRegisters { a: m.read(((0xFF00 + cpu.regs.c) as u16)), ..cpu.regs }, ..cpu }, m)
    } else if op == 0xF3 {
        (Cpu { ime: false, ei_pending: false, ..cpu }, m)
    } else if op == 0xF5 {
        s_push(cpu, m, cpu.regs.af_spec())
    } else if op == 0xF6 {
        let v = m.read(cpu.pc);
        (Cpu { regs: CpuRegisters { a: a | v, flags: flags_byte(a | v == 0, false, false, false), ..cpu.regs }, ..skip1(cpu) }, m)
    } else if op == 0xF7 {
        s_rst(cpu, m, 0x30)
    } else if op == 0xF8 {
        let r8 = m.read(cpu.pc);
        let rhs: int = if r8 < 128 { r8 as int } else { r8 - 256 };
        (Cpu {
            regs: CpuRegisters {
                flags: flags_byte(false, false, cpu.sp % 16 + r8 % 16 > 15, cpu.sp % 256 + r8 > 255),
                ..cpu.regs
            }.with_hl((((cpu.sp + rhs) % 0x10000) as u16)),
            ..skip1(cpu)
        }, m)
    } else if op == 0xF9 {
        (Cpu { sp: cpu.regs.hl_spec(), ..cpu }, m)
    } else if op == 0xFA {
        (Cpu { regs: CpuRegisters { a: m.read(m.read_word(cpu.pc)), ..cpu.regs }, ..skip2(cpu) }, m)
    } else if op == 0xFB {
        (Cpu { ei_pending: true, ..cpu }, m)
    } else if op == 0xFE {
        let v = m.read(cpu.pc);
        (Cpu { regs: CpuRegisters { flags: flags_byte((a - v) % 256 == 0, true, a % 16 < v % 16, a < v), ..cpu.regs }, ..skip1(cpu) }, m)
    } else {
        s_rst(cpu, m, 0x38)
    }
}

/// The machine state after one 0xCB-prefixed instruction, taken from
/// the state in which PC still points at the prefixed opcode byte.
pub open spec fn step_cb(cpu: Cpu, m: MmuView) -> (Cpu, MmuView) {
    let op = m.read(cpu.pc);
    let c0 = Cpu { pc: (((cpu.pc + 1) % 0x10000) as u16), ..cpu };
    let v = spec_operand(c0, m, op);
    if op < 0x08 {
        let r = ((2 * v) % 256 + (if v >= 0x80 {
            1int
        } else {
            0int
        })) as u8;
        spec_store_reg(with_flags(c0, flags_byte(v == 0, false, false, v >= 0x80)), m, op, r)
    } else if op < 0x10 {
        let r = (v / 2 + (v % 2) * 128) as u8;
        spec_store_reg(with_flags(c0, flags_byte(v == 0, false, false, v % 2 == 1)), m, op, r)
    } else if op < 0x18 {
        let cin: int = if c0.regs.flag_spec(Flags::C) {
            1
        } else {
            0
        };
        let r = ((2 * v + cin) % 256) as u8;
        spec_store_reg(
            with_flags(c0, flags_byte((2 * v + cin) % 256 == 0, false, false, v >= 0x80)),
            m,
            op,
            r,
        )
    } else if op < 0x20 {
        let cin: int = if c0.regs.flag_spec(Flags::C) {
            128
        } else {
            0
        };
        let r = (v / 2 + cin) as u8;
        spec_store_reg(
            with_flags(c0, flags_byte(v / 2 + cin == 0, false, false, v % 2 == 1)),
            m,
            op,
            r,
        )
    } else if op < 0x28 {
        let r = ((2 * v) % 256) as u8;
        spec_store_reg(
            with_flags(c0, flags_byte((2 * v) % 256 == 0, false, false, v >= 0x80)),
            m,
            op,
            r,
        )
    } else if op < 0x30 {
        let keep: int = if v >= 0x80 {
            128
        } else {
            0
        };
        let r = (v / 2 + keep) as u8;
        spec_store_reg(
            with_flags(c0, flags_byte(v / 2 + keep == 0, false, false, v % 2 == 1)),
            m,
            op,
            r,
        )
    } else if op < 0x38 {
        let r = ((v % 16) * 16 + v / 16) as u8;
        spec_store_reg(with_flags(c0, flags_byte(v == 0, false, false, false)), m, op, r)
    } else if op < 0x40 {
        spec_store_reg(
            with_flags(c0, flags_byte(v / 2 == 0, false, false, v % 2 == 1)),
            m,
            op,
            v / 2,
        )
    } else if op < 0x80 {
        let b = ((op / 8) % 8) as u8;
        (
            with_flags(
                c0,
                flags_byte(v & (1u8 << b) == 0, false, true, c0.regs.flag_spec(Flags::C)),
            ),
            m,
        )
    } else if op < 0xC0 {
        let b = ((op / 8) % 8) as u8;
        spec_store_reg(c0, m, op, v & !(1u8 << b))
    } else {
        let b = ((op / 8) % 8) as u8;
        spec_store_reg(c0, m, op, v | (1u8 << b))
    }
}

impl Cpu {
    pub open spec fn wf(self) -> bool {
        self.regs.wf()
    }

    pub fn new() -> (r: Cpu)
        ensures
            r.regs == (CpuRegisters {
                a: 0x01u8,
                flags: 0xB0u8,
                b: 0x00u8,
                c: 0x13u8,
                d: 0x00u8,
                e: 0xD8u8,
                h: 0x01u8,
                l: 0x4Du8,
            }),
            r.sp == 0xFFFE,
            r.pc == 0x0100,
            r.ime == false,
            r.ei_pending == false,
            r.halted == false,
            r.wf(),
    {
        Cpu {
            regs: CpuRegisters::new(),
            sp: 0xFFFE,
            pc: 0x0100,
            ime: false,
            ei_pending: false,
            halted: false,
        }
    }

    fn code_to_reg(&self, mmu: &Mmu, opcode: u8) -> (r: u8)
        requires
            mmu@.wf(),
        ensures
            r == spec_operand(*self, mmu@, opcode),
    {
        match opcode % 8 {
            0 => self.regs.b,
            1 => self.regs.c,
            2 => self.regs.d,
            3 => self.regs.e,
            4 => self.regs.h,
            5 => self.regs.l,
            6 => mmu.read(self.regs.hl()),
            _ => self.regs.a,
        }
    }

    fn set_reg_from_code(&mut self, mmu: &mut Mmu, opcode: u8, v: u8)
        requires
            old(mmu)@.wf(),
        ensures
            (*final(self), final(mmu)@) == spec_store_reg(*old(self), old(mmu)@, opcode, v),
            final(mmu)@.wf(),
            final(self).regs.flags == old(self).regs.flags,
    {
        match opcode % 8 {
            0 => self.regs.b = v,
            1 => self.regs.c = v,
            2 => self.regs.d = v,
            3 => self.regs.e = v,
            4 => self.regs.h = v,
            5 => self.regs.l = v,
            6 => mmu.write(self.regs.hl(), v),
            _ => self.regs.a = v,
        }
    }

    /// Fetch one immediate byte and step PC past it.
    fn read_u8(&mut self, mmu: &Mmu) -> (r: u8)
        requires
            mmu@.wf(),
        ensures
            r == mmu@.read(old(self).pc),
            *final(self) == (Cpu { pc: final(self).pc, ..*old(self) }),
            final(self).pc == (old(self).pc + 1) % 0x10000,
    {
        let v = mmu.read(self.pc);
        self.pc = self.pc.wrapping_add(1);
        v
    }

    /// Fetch one immediate word and step PC past it.
    fn read_u16(&mut self, mmu: &Mmu) -> (r: u16)
        requires
            mmu@.wf(),
        ensures
            r == mmu@.read_word(old(self).pc),
            *final(self) == (Cpu { pc: final(self).pc, ..*old(self) }),
            final(self).pc == (old(self).pc + 2) % 0x10000,
    {
        let v = mmu.read_word(self.pc);
        self.pc = self.pc.wrapping_add(2);
        v
    }

    /// Step a byte by one: Z and H set as the addition asks, N cleared,
    /// C untouched.
    fn increment(&mut self, a: u8) -> (r: u8)
        ensures
            r as int == (a + 1) % 256,
            *final(self) == with_flags(
                *old(self),
                flags_byte(
                    (a + 1) % 256 == 0,
                    false,
                    a % 16 == 15,
                    old(self).regs.flag_spec(Flags::C),
                ),
            ),
            final(self).wf(),
    {
        let res: u8 = if a == 0xFF {
            0
        } else {
            a + 1
        };
        let c = self.regs.get_flag(Flags::C);
        self.regs.flags = flags_to_byte(res == 0, false, a % 16 == 15, c);
        res
    }

    /// Step a byte down by one: Z and H (borrow out of the low nibble)
    /// set as the subtraction asks, N set, C untouched.
    fn decrement(&mut self, a: u8) -> (r: u8)
        ensures
            r as int == (a - 1) % 256,
            *final(self) == with_flags(
                *old(self),
                flags_byte(
                    (a - 1) % 256 == 0,
                    true,
                    a % 16 == 0,
                    old(self).regs.flag_spec(Flags::C),
                ),
            ),
            final(self).wf(),
    {
        let res: u8 = if a == 0 {
            0xFF
        } else {
            a - 1
        };
        let c = self.regs.get_flag(Flags::C);
        self.regs.flags = flags_to_byte(res == 0, true, a % 16 == 0, c);
        res
    }

    /// A plus a value (plus the carry flag if asked): Z from the result,
    /// N cleared, H from the low-nibble carry, C from the byte carry.
    fn add(&mut self, rhs: u8, with_carry: bool) -> (r: u8)
        ensures
            ({
                let a = old(self).regs.a;
                let cin: int = if with_carry && old(self).regs.flag_spec(Flags::C) {
                    1
                } else {
                    0
                };
                &&& r as int == (a + rhs + cin) % 256
                &&& *final(self) == with_flags(
                    *old(self),
                    flags_byte(
                        (a + rhs + cin) % 256 == 0,
                        false,
                        a % 16 + rhs % 16 + cin > 15,
                        a + rhs + cin > 255,
                    ),
                )
            }),
            final(self).wf(),
    {
        let lhs = self.regs.a;
        let cin: u8 = if with_carry && self.regs.get_flag(Flags::C) {
            1
        } else {
            0
        };
        let sum: u16 = lhs as u16 + rhs as u16 + cin as u16;
        let res: u8 = (sum % 256) as u8;
        let h: bool = (lhs % 16) + (rhs % 16) + cin > 15;
        self.regs.flags = flags_to_byte(res == 0, false, h, sum > 255);
        res
    }

    /// A minus a value (minus the carry flag if asked): Z from the
    /// result, N set, H from the low-nibble borrow, C from the borrow.
    fn sub(&mut self, rhs: u8, with_carry: bool) -> (r: u8)
        ensures
            ({
                let a = old(self).regs.a;
                let cin: int = if with_carry && old(self).regs.flag_spec(Flags::C) {
                    1
                } else {
                    0
                };
                &&& r as int == (a - rhs - cin) % 256
                &&& *final(self) == with_flags(
                    *old(self),
                    flags_byte(
                        (a - rhs - cin) % 256 == 0,
                        true,
                        a % 16 < rhs % 16 + cin,
                        a < rhs + cin,
                    ),
                )
            }),
            final(self).wf(),
    {
        let lhs = self.regs.a;
        let cin: u8 = if with_carry && self.regs.get_flag(Flags::C) {
            1
        } else {
            0
        };
        let sum: u16 = lhs as u16 + 256 - rhs as u16 - cin as u16;
        let res: u8 = (sum % 256) as u8;
        let h: bool = lhs % 16 < rhs % 16 + cin;
        let c: bool = (lhs as u16) < rhs as u16 + cin as u16;
        self.regs.flags = flags_to_byte(res == 0, true, h, c);
        res
    }

    /// A AND a value: Z from the result, H set, N and C cleared.
    fn and(&mut self, rhs: u8) -> (r: u8)
        ensures
            r == old(self).regs.a & rhs,
            *final(self) == with_flags(
                *old(self),
                flags_byte(old(self).regs.a & rhs == 0, false, true, false),
            ),
            final(self).wf(),
    {
        let res = self.regs.a & rhs;
        self.regs.flags = flags_to_byte(res == 0, false, true, false);
        res
    }

    /// A XOR a value: Z from the result, N, H and C cleared.
    fn xor(&mut self, rhs: u8) -> (r: u8)
        ensures
            r == old(self).regs.a ^ rhs,
            *final(self) == with_flags(
                *old(self),
                flags_byte(old(self).regs.a ^ rhs == 0, false, false, false),
            ),
            final(self).wf(),
    {
        let res = self.regs.a ^ rhs;
        self.regs.flags = flags_to_byte(res == 0, false, false, false);
        res
    }

    /// A OR a value: Z from the result, N, H and C cleared.
    fn or(&mut self, rhs: u8) -> (r: u8)
        ensures
            r == old(self).regs.a | rhs,
            *final(self) == with_flags(
                *old(self),
                flags_byte(old(self).regs.a | rhs == 0, false, false, false),
            ),
            final(self).wf(),
    {
        let res = self.regs.a | rhs;
        self.regs.flags = flags_to_byte(res == 0, false, false, false);
        res
    }

    /// Compare A with a value: the flags of the subtraction, result
    /// discarded.
    fn cp(&mut self, rhs: u8)
        ensures
            *final(self) == with_flags(
                *old(self),
                flags_byte(
                    (old(self).regs.a - rhs) % 256 == 0,
                    true,
                    old(self).regs.a % 16 < rhs % 16,
                    old(self).regs.a < rhs,
                ),
            ),
            final(self).wf(),
    {
        self.sub(rhs, false);
    }

    /// Rotate left through carry (9-bit rotate).
    fn rl(&mut self, v: u8) -> (r: u8)
        ensures
            ({
                let cin: int = if old(self).regs.flag_spec(Flags::C) {
                    1
                } else {
                    0
                };
                &&& r as int == (2 * v + cin) % 256
                &&& *final(self) == with_flags(
                    *old(self),
                    flags_byte((2 * v + cin) % 256 == 0, false, false, v >= 0x80),
                )
            }),
            final(self).wf(),
    {
        let cin: u16 = if self.regs.get_flag(Flags::C) {
            1
        } else {
            0
        };
        let res: u8 = ((v as u16 * 2 + cin) % 256) as u8;
        self.regs.flags = flags_to_byte(res == 0, false, false, v >= 0x80);
        res
    }

    /// Rotate left, old bit 7 into both carry and bit 0.
    fn rlc(&mut self, v: u8) -> (r: u8)
        ensures
            r as int == (2 * v) % 256 + (if v >= 0x80 {
                1int
            } else {
                0int
            }),
            *final(self) == with_flags(*old(self), flags_byte(v == 0, false, false, v >= 0x80)),
            final(self).wf(),
    {
        let hi: u16 = if v >= 0x80 {
            1
        } else {
            0
        };
        let res: u8 = ((v as u16 * 2) % 256 + hi) as u8;
        proof {
            assert(res == 0 <==> v == 0);
        }
        self.regs.flags = flags_to_byte(v == 0, false, false, v >= 0x80);
        res
    }

    /// Rotate right through carry (9-bit rotate).
    fn rr(&mut self, v: u8) -> (r: u8)
        ensures
            ({
                let cin: int = if old(self).regs.flag_spec(Flags::C) {
                    128
                } else {
                    0
                };
                &&& r as int == v / 2 + cin
                &&& *final(self) == with_flags(
                    *old(self),
                    flags_byte(v / 2 + cin == 0, false, false, v % 2 == 1),
                )
            }),
            final(self).wf(),
    {
        let cin: u8 = if self.regs.get_flag(Flags::C) {
            128
        } else {
            0
        };
        let res: u8 = v / 2 + cin;
        self.regs.flags = flags_to_byte(res == 0, false, false, v % 2 == 1);
        res
    }

    /// Rotate right, old bit 0 into both carry and bit 7.
    fn rrc(&mut self, v: u8) -> (r: u8)
        ensures
            r as int == v / 2 + (v % 2) * 128,
            *final(self) == with_flags(*old(self), flags_byte(v == 0, false, false, v % 2 == 1)),
            final(self).wf(),
    {
        let res: u8 = v / 2 + (v % 2) * 128;
        proof {
            assert(res == 0 <==> v == 0);
        }
        self.regs.flags = flags_to_byte(v == 0, false, false, v % 2 == 1);
        res
    }

    /// Shift left into carry; bit 0 cleared.
    fn sla(&mut self, v: u8) -> (r: u8)
        ensures
            r as int == (2 * v) % 256,
            *final(self) == with_flags(
                *old(self),
                flags_byte((2 * v) % 256 == 0, false, false, v >= 0x80),
            ),
            final(self).wf(),
    {
        let res: u8 = ((v as u16 * 2) % 256) as u8;
        self.regs.flags = flags_to_byte(res == 0, false, false, v >= 0x80);
        res
    }

    /// Shift right into carry; bit 7 keeps its value.
    fn sra(&mut self, v: u8) -> (r: u8)
        ensures
            r as int == v / 2 + (if v >= 0x80 {
                128int
            } else {
                0int
            }),
            *final(self) == with_flags(
                *old(self),
                flags_byte(
                    v / 2 + (if v >= 0x80 {
                        128int
                    } else {
                        0int
                    }) == 0,
                    false,
                    false,
                    v % 2 == 1,
                ),
            ),
            final(self).wf(),
    {
        let hi: u8 = if v >= 0x80 {
            128
        } else {
            0
        };
        let res: u8 = v / 2 + hi;
        self.regs.flags = flags_to_byte(res == 0, false, false, v % 2 == 1);
        res
    }

    /// Swap the nibbles of a byte; only Z can be set.
    fn swap(&mut self, v: u8) -> (r: u8)
        ensures
            r as int == (v % 16) * 16 + v / 16,
            *final(self) == with_flags(*old(self), flags_byte(v == 0, false, false, false)),
            final(self).wf(),
    {
        let res: u8 = (v % 16) * 16 + v / 16;
        proof {
            assert(res == 0 <==> v == 0);
        }
        self.regs.flags = flags_to_byte(v == 0, false, false, false);
        res
    }

    /// Shift right into carry; bit 7 cleared.
    fn srl(&mut self, v: u8) -> (r: u8)
        ensures
            r == v / 2,
            *final(self) == with_flags(
                *old(self),
                flags_byte(v / 2 == 0, false, false, v % 2 == 1),
            ),
            final(self).wf(),
    {
        let res: u8 = v / 2;
        self.regs.flags = flags_to_byte(res == 0, false, false, v % 2 == 1);
        res
    }

    /// Test bit `b` of a byte: Z is set exactly when the bit is zero;
    /// N cleared, H set, C untouched.
    fn bit(&mut self, v: u8, b: u8)
        requires
            b < 8,
        ensures
            *final(self) == with_flags(
                *old(self),
                flags_byte(
                    v & (1u8 << b) == 0,
                    false,
                    true,
                    old(self).regs.flag_spec(Flags::C),
                ),
            ),
            final(self).wf(),
    {
        let c = self.regs.get_flag(Flags::C);
        self.regs.flags = flags_to_byte(v & (1u8 << b) == 0, false, true, c);
    }

    /// Clear bit `b` of a byte; flags untouched.
    fn res(&self, v: u8, b: u8) -> (r: u8)
        requires
            b < 8,
        ensures
            r == v & !(1u8 << b),
    {
        v & !(1u8 << b)
    }

    /// Set bit `b` of a byte; flags untouched.
    fn set(&self, v: u8, b: u8) -> (r: u8)
        requires
            b < 8,
        ensures
            r == v | (1u8 << b),
    {
        v | (1u8 << b)
    }

    /// 16-bit addition for ADD HL: Z untouched, N cleared, H from bit 11,
    /// C from bit 15.
    fn add_regs(&mut self, lhs: u16, rhs: u16) -> (r: u16)
        ensures
            r as int == (lhs + rhs) % 0x10000,
            *final(self) == with_flags(
                *old(self),
                flags_byte(
                    old(self).regs.flag_spec(Flags::Z),
                    false,
                    lhs % 0x1000 + rhs % 0x1000 > 0x0FFF,
                    lhs + rhs > 0xFFFF,
                ),
            ),
            final(self).wf(),
    {
        let sum: u32 = lhs as u32 + rhs as u32;
        let res: u16 = (sum % 0x10000) as u16;
        let z = self.regs.get_flag(Flags::Z);
        let h: bool = lhs % 0x1000 + rhs % 0x1000 > 0x0FFF;
        self.regs.flags = flags_to_byte(z, false, h, sum > 0xFFFF);
        res
    }

    /// Add a signed immediate byte to a 16-bit value (ADD SP,e8 and
    /// LD HL,SP+e8): Z and N cleared, H and C from the unsigned bytewise
    /// sum.
    fn add_imm(&mut self, mmu: &Mmu, lhs: u16) -> (r: u16)
        requires
            mmu@.wf(),
        ensures
            ({
                let r8 = mmu@.read(old(self).pc);
                let rhs: int = if r8 < 128 {
                    r8 as int
                } else {
                    r8 - 256
                };
                &&& r as int == (lhs + rhs) % 0x10000
                &&& *final(self) == (Cpu {
                    pc: ((old(self).pc + 1) % 0x10000) as u16,
                    ..with_flags(
                        *old(self),
                        flags_byte(
                            false,
                            false,
                            lhs % 16 + r8 % 16 > 15,
                            lhs % 256 + r8 > 255,
                        ),
                    )
                })
            }),
            final(self).wf(),
    {
        let r8: u8 = self.read_u8(mmu);
        let rhs: u16 = if r8 < 128 {
            r8 as u16
        } else {
            r8 as u16 + 0xFF00
        };
        let sum: u32 = lhs as u32 + rhs as u32;
        let res: u16 = (sum % 0x10000) as u16;
        let h: bool = lhs % 16 + (r8 % 16) as u16 > 15;
        let c: bool = lhs % 256 + r8 as u16 > 255;
        self.regs.flags = flags_to_byte(false, false, h, c);
        res
    }

    /// Jump to an immediate address when the condition holds.
    fn jump_imm(&mut self, mmu: &Mmu, condition: bool) -> (r: u8)
        requires
            mmu@.wf(),
        ensures
            *final(self) == (Cpu {
                pc: if condition {
                    mmu@.read_word(old(self).pc)
                } else {
                    (((old(self).pc + 2) % 0x10000) as u16)
                },
                ..*old(self)
            }),
            r == (if condition {
                4u8
            } else {
                3u8
            }),
    {
        let addr = self.read_u16(mmu);
        if condition {
            self.pc = addr;
            4
        } else {
            3
        }
    }

    /// Jump by a signed immediate offset, relative to the next
    /// instruction.
    fn jump_rel(&mut self, mmu: &Mmu)
        requires
            mmu@.wf(),
        ensures
            ({
                let r8 = mmu@.read(old(self).pc);
                let off: int = if r8 < 128 {
                    r8 as int
                } else {
                    r8 - 256
                };
                *final(self) == (Cpu {
                    pc: (((old(self).pc + 1 + off) % 0x10000) as u16),
                    ..*old(self)
                })
            }),
    {
        let r8: u8 = self.read_u8(mmu);
        let off: u16 = if r8 < 128 {
            r8 as u16
        } else {
            r8 as u16 + 0xFF00
        };
        self.pc = self.pc.wrapping_add(off);
    }

    /// Push a word: SP steps down by two, the word lands at the new SP.
    fn push_stack(&mut self, mmu: &mut Mmu, value: u16)
        requires
            old(mmu)@.wf(),
        ensures
            final(self).sp == (old(self).sp - 2) % 0x10000,
            *final(self) == (Cpu { sp: final(self).sp, ..*old(self) }),
            final(mmu)@ == old(mmu)@.write_word(final(self).sp, value),
            final(mmu)@.wf(),
    {
        self.sp = self.sp.wrapping_sub(2);
        mmu.write_word(self.sp, value);
    }

    /// Pop a word from SP; SP steps up by two.
    fn pop_stack(&mut self, mmu: &Mmu) -> (r: u16)
        requires
            mmu@.wf(),
        ensures
            r == mmu@.read_word(old(self).sp),
            final(self).sp == (old(self).sp + 2) % 0x10000,
            *final(self) == (Cpu { sp: final(self).sp, ..*old(self) }),
    {
        let v = mmu.read_word(self.sp);
        self.sp = self.sp.wrapping_add(2);
        v
    }

    /// Call an immediate address when the condition holds: the return
    /// address goes to the stack first.
    fn call(&mut self, mmu: &mut Mmu, condition: bool) -> (r: u8)
        requires
            old(mmu)@.wf(),
        ensures
            ({
                let ret_pc = ((old(self).pc + 2) % 0x10000) as u16;
                let target = old(mmu)@.read_word(old(self).pc);
                if condition {
                    &&& *final(self) == (Cpu {
                        pc: target,
                        sp: (((old(self).sp - 2) % 0x10000) as u16),
                        ..*old(self)
                    })
                    &&& final(mmu)@ == old(mmu)@.write_word(final(self).sp, ret_pc)
                    &&& r == 6
                } else {
                    &&& *final(self) == (Cpu { pc: ret_pc, ..*old(self) })
                    &&& final(mmu)@ == old(mmu)@
                    &&& r == 3
                }
            }),
            final(mmu)@.wf(),
    {
        let addr = self.read_u16(mmu);
        if condition {
            let pc = self.pc;
            self.push_stack(mmu, pc);
            self.pc = addr;
            6
        } else {
            3
        }
    }

    /// Return: pop the program counter off the stack.
    fn ret(&mut self, mmu: &Mmu)
        requires
            mmu@.wf(),
        ensures
            *final(self) == (Cpu {
                pc: mmu@.read_word(old(self).sp),
                sp: (((old(self).sp + 2) % 0x10000) as u16),
                ..*old(self)
            }),
    {
        self.pc = self.pop_stack(mmu);
    }

    /// Restart: push the program counter and jump to a fixed vector.
    fn rst(&mut self, mmu: &mut Mmu, addr: u16)
        requires
            old(mmu)@.wf(),
        ensures
            *final(self) == (Cpu {
                pc: addr,
                sp: (((old(self).sp - 2) % 0x10000) as u16),
                ..*old(self)
            }),
            final(mmu)@ == old(mmu)@.write_word(final(self).sp, old(self).pc),
            final(mmu)@.wf(),
    {
        let pc = self.pc;
        self.push_stack(mmu, pc);
        self.pc = addr;
    }

    /// The 0x00 row: BC loads and steps, rotates of A, LD (a16),SP.
    #[verifier::rlimit(100)]
    fn exec_row_0(&mut self, mmu: &mut Mmu, opcode: u8) -> (r: u8)
        requires
            old(self).wf(),
            old(mmu)@.wf(),
            opcode < 0x10,
        ensures
            r == base_cycles(opcode, cond_taken(opcode, old(self).regs.flags)),
            1 <= r <= 6,
            (*final(self), final(mmu)@) == step_row0_0(*old(self), old(mmu)@, opcode),
            final(self).wf(),
            final(mmu)@.wf(),
    {
        match opcode {
            0x00 => { 1 },
            0x01 => { let v = self.read_u16(mmu); self.regs.set_bc(v); 3 },
            0x02 => { mmu.write(self.regs.bc(), self.regs.a); 2 },
            0x03 => { let v = self.regs.bc().wrapping_add(1); self.regs.set_bc(v); 2 },
            0x04 => { let v = self.regs.b; self.regs.b = self.increment(v); 1 },
            0x05 => { let v = self.regs.b; self.regs.b = self.decrement(v); 1 },
            0x06 => { self.regs.b = self.read_u8(mmu); 2 },
            0x07 => { let v = self.regs.a; self.regs.a = self.rlc(v); self.regs.set_flag(Flags::Z, false); 1 },
            0x08 => { let a = self.read_u16(mmu); let sp = self.sp; mmu.write_word(a, sp); 5 },
            0x09 => { let hl = self.regs.hl(); let bc = self.regs.bc(); let v = self.add_regs(hl, bc); self.regs.set_hl(v); 2 },
            0x0A => { self.regs.a = mmu.read(self.regs.bc()); 2 },
            0x0B => { let v = self.regs.bc().wrapping_sub(1); self.regs.set_bc(v); 2 },
            0x0C => { let v = self.regs.c; self.regs.c = self.increment(v); 1 },
            0x0D => { let v = self.regs.c; self.regs.c = self.decrement(v); 1 },
            0x0E => { self.regs.c = self.read_u8(mmu); 2 },
            0x0F => { let v = self.regs.a; self.regs.a = self.rrc(v); self.regs.set_flag(Flags::Z, false); 1 },

            // STOP is handled as halt-until-input for this core.
            _ => {
                proof {
                    assert(false);
                }
                0
            },
        }
    }

    /// The 0x10 row: DE loads and steps, RLA/RRA, JR, STOP as halt.
    #[verifier::rlimit(100)]
    fn exec_row_1(&mut self, mmu: &mut Mmu, opcode: u8) -> (r: u8)
        requires
            old(self).wf(),
            old(mmu)@.wf(),
            0x10 <= opcode < 0x20,
        ensures
            r == base_cycles(opcode, cond_taken(opcode, old(self).regs.flags)),
            1 <= r <= 6,
            (*final(self), final(mmu)@) == step_row0_1(*old(self), old(mmu)@, opcode),
            final(self).wf(),
            final(mmu)@.wf(),
    {
        match opcode {
            0x10 => { self.halted = true; 1 },
            0x11 => { let v = self.read_u16(mmu); self.regs.set_de(v); 3 },
            0x12 => { mmu.write(self.regs.de(), self.regs.a); 2 },
            0x13 => { let v = self.regs.de().wrapping_add(1); self.regs.set_de(v); 2 },
            0x14 => { let v = self.regs.d; self.regs.d = self.increment(v); 1 },
            0x15 => { let v = self.regs.d; self.regs.d = self.decrement(v); 1 },
            0x16 => { self.regs.d = self.read_u8(mmu); 2 },
            0x17 => { let v = self.regs.a; self.regs.a = self.rl(v); self.regs.set_flag(Flags::Z, false); 1 },
            0x18 => { self.jump_rel(mmu); 3 },
            0x19 => { let hl = self.regs.hl(); let de = self.regs.de(); let v = self.add_regs(hl, de); self.regs.set_hl(v); 2 },
            0x1A => { self.regs.a = mmu.read(self.regs.de()); 2 },
            0x1B => { let v = self.regs.de().wrapping_sub(1); self.regs.set_de(v); 2 },
            0x1C => { let v = self.regs.e; self.regs.e = self.increment(v); 1 },
            0x1D => { let v = self.regs.e; self.regs.e = self.decrement(v); 1 },
            0x1E => { self.regs.e = self.read_u8(mmu); 2 },
            0x1F => { let v = self.regs.a; self.regs.a = self.rr(v); self.regs.set_flag(Flags::Z, false); 1 },

            _ => {
                proof {
                    assert(false);
                }
                0
            },
        }
    }

    /// The 0x20 row: conditional JR, HL loads with post-step, DAA, CPL.
    #[verifier::rlimit(100)]
    fn exec_row_2(&mut self, mmu: &mut Mmu, opcode: u8) -> (r: u8)
        requires
            old(self).wf(),
            old(mmu)@.wf(),
            0x20 <= opcode < 0x30,
        ensures
            r == base_cycles(opcode, cond_taken(opcode, old(self).regs.flags)),
            1 <= r <= 6,
            (*final(self), final(mmu)@) == step_row0_2(*old(self), old(mmu)@, opcode),
            final(self).wf(),
            final(mmu)@.wf(),
    {
        match opcode {
            0x20 => {
                if !self.regs.get_flag(Flags::Z) { self.jump_rel(mmu); 3 } else { self.pc = self.pc.wrapping_add(1); 2 }
            },
            0x21 => { let v = self.read_u16(mmu); self.regs.set_hl(v); 3 },
            0x22 => { let a = self.regs.hli(); mmu.write(a, self.regs.a); 2 },
            0x23 => { let v = self.regs.hl().wrapping_add(1); self.regs.set_hl(v); 2 },
            0x24 => { let v = self.regs.h; self.regs.h = self.increment(v); 1 },
            0x25 => { let v = self.regs.h; self.regs.h = self.decrement(v); 1 },
            0x26 => { self.regs.h = self.read_u8(mmu); 2 },
            0x27 => {
                // DAA: decimal-adjust A after a BCD addition or
                // subtraction, consulting N, H and C.
                let a0 = self.regs.a;
                let n = self.regs.get_flag(Flags::N);
                let hf = self.regs.get_flag(Flags::H);
                let cf = self.regs.get_flag(Flags::C);
                let mut adjust: u8 = if cf { 0x60 } else { 0x00 };
                if hf || (!n && a0 % 16 > 0x09) {
                    adjust = adjust | 0x06;
                }
                if cf || (!n && a0 > 0x99) {
                    adjust = adjust | 0x60;
                }
                let a1: u8 = if n { a0.wrapping_sub(adjust) } else { a0.wrapping_add(adjust) };
                self.regs.a = a1;
                proof {
                    crate::bitops::lemma_and_bound_u8(adjust, 0x66);
                }
                let carry: bool = adjust >= 0x60;
                self.regs.flags = flags_to_byte(a1 == 0, n, false, carry);
                1
            },
            0x28 => {
                if self.regs.get_flag(Flags::Z) { self.jump_rel(mmu); 3 } else { self.pc = self.pc.wrapping_add(1); 2 }
            },
            0x29 => { let hl = self.regs.hl(); let v = self.add_regs(hl, hl); self.regs.set_hl(v); 2 },
            0x2A => { let a = self.regs.hli(); self.regs.a = mmu.read(a); 2 },
            0x2B => { let v = self.regs.hl().wrapping_sub(1); self.regs.set_hl(v); 2 },
            0x2C => { let v = self.regs.l; self.regs.l = self.increment(v); 1 },
            0x2D => { let v = self.regs.l; self.regs.l = self.decrement(v); 1 },
            0x2E => { self.regs.l = self.read_u8(mmu); 2 },
            0x2F => {
                self.regs.a = !self.regs.a;
                self.regs.set_flag(Flags::N, true);
                self.regs.set_flag(Flags::H, true);
                1
            },

            _ => {
                proof {
                    assert(false);
                }
                0
            },
        }
    }

    /// The 0x30 row: conditional JR, SP steps, (HL) cells, SCF, CCF.
    #[verifier::rlimit(100)]
    fn exec_row_3(&mut self, mmu: &mut Mmu, opcode: u8) -> (r: u8)
        requires
            old(self).wf(),
            old(mmu)@.wf(),
            0x30 <= opcode < 0x40,
        ensures
            r == base_cycles(opcode, cond_taken(opcode, old(self).regs.flags)),
            1 <= r <= 6,
            (*final(self), final(mmu)@) == step_row0_3(*old(self), old(mmu)@, opcode),
            final(self).wf(),
            final(mmu)@.wf(),
    {
        match opcode {
            0x30 => {
                if !self.regs.get_flag(Flags::C) { self.jump_rel(mmu); 3 } else { self.pc = self.pc.wrapping_add(1); 2 }
            },
            0x31 => { let v = self.read_u16(mmu); self.sp = v; 3 },
            0x32 => { let a = self.regs.hld(); mmu.write(a, self.regs.a); 2 },
            0x33 => { self.sp = self.sp.wrapping_add(1); 2 },
            0x34 => { let v0 = mmu.read(self.regs.hl()); let v = self.increment(v0); mmu.write(self.regs.hl(), v); 3 },
            0x35 => { let v0 = mmu.read(self.regs.hl()); let v = self.decrement(v0); mmu.write(self.regs.hl(), v); 3 },
            0x36 => { let v = self.read_u8(mmu); mmu.write(self.regs.hl(), v); 3 },
            0x37 => {
                self.regs.set_flag(Flags::H, false);
                self.regs.set_flag(Flags::N, false);
                self.regs.set_flag(Flags::C, true);
                1
            },
            0x38 => {
                if self.regs.get_flag(Flags::C) { self.jump_rel(mmu); 3 } else { self.pc = self.pc.wrapping_add(1); 2 }
            },
            0x39 => { let hl = self.regs.hl(); let sp = self.sp; let v = self.add_regs(hl, sp); self.regs.set_hl(v); 2 },
            0x3A => { let a = self.regs.hld(); self.regs.a = mmu.read(a); 2 },
            0x3B => { self.sp = self.sp.wrapping_sub(1); 2 },
            0x3C => { let v = self.regs.a; self.regs.a = self.increment(v); 1 },
            0x3D => { let v = self.regs.a; self.regs.a = self.decrement(v); 1 },
            0x3E => { self.regs.a = self.read_u8(mmu); 2 },
            0x3F => {
                let c = self.regs.get_flag(Flags::C);
                self.regs.set_flag(Flags::H, false);
                self.regs.set_flag(Flags::N, false);
                self.regs.set_flag(Flags::C, !c);
                1
            },

            _ => {
                proof {
                    assert(false);
                }
                0
            },
        }
    }

    /// The regular blocks: LD r,r' (with HALT in its hole) and the
    /// eight-way ALU block against A.
    #[verifier::rlimit(100)]
    fn exec_ld_alu(&mut self, mmu: &mut Mmu, opcode: u8) -> (r: u8)
        requires
            old(self).wf(),
            old(mmu)@.wf(),
            0x40 <= opcode < 0xC0,
        ensures
            r == base_cycles(opcode, cond_taken(opcode, old(self).regs.flags)),
            1 <= r <= 6,
            (*final(self), final(mmu)@) == step_ld_alu(*old(self), old(mmu)@, opcode),
            final(self).wf(),
            final(mmu)@.wf(),
    {
        match opcode {
            // HALT
            0x76 => { self.halted = true; 1 },

            // LD r, r'
            0x40..=0x7F => {
                let source_code: u8 = opcode % 8;
                let dest_code: u8 = (opcode / 8) % 8;
                let mut cycles: u8 = 1;
                if source_code == 6 {
                    cycles += 1;
                }
                if dest_code == 6 {
                    cycles += 1;
                }
                let v = self.code_to_reg(mmu, source_code);
                self.set_reg_from_code(mmu, dest_code, v);
                cycles
            },

            // ADD / ADC A, r
            0x80..=0x8F => {
                let carry: bool = opcode % 16 >= 8;
                let v = self.code_to_reg(mmu, opcode);
                self.regs.a = self.add(v, carry);
                if opcode % 8 == 6 { 2 } else { 1 }
            },
            // SUB / SBC A, r
            0x90..=0x9F => {
                let carry: bool = opcode % 16 >= 8;
                let v = self.code_to_reg(mmu, opcode);
                self.regs.a = self.sub(v, carry);
                if opcode % 8 == 6 { 2 } else { 1 }
            },
            // AND A, r
            0xA0..=0xA7 => {
                let v = self.code_to_reg(mmu, opcode);
                self.regs.a = self.and(v);
                if opcode % 8 == 6 { 2 } else { 1 }
            },
            // XOR A, r
            0xA8..=0xAF => {
                let v = self.code_to_reg(mmu, opcode);
                self.regs.a = self.xor(v);
                if opcode % 8 == 6 { 2 } else { 1 }
            },
            // OR A, r
            0xB0..=0xB7 => {
                let v = self.code_to_reg(mmu, opcode);
                self.regs.a = self.or(v);
                if opcode % 8 == 6 { 2 } else { 1 }
            },
            // CP r
            0xB8..=0xBF => {
                let v = self.code_to_reg(mmu, opcode);
                self.cp(v);
                if opcode % 8 == 6 { 2 } else { 1 }
            },

            _ => {
                proof {
                    assert(false);
                }
                0
            },
        }
    }

    /// The 0xC0 row: conditional returns, jumps and calls on Z, the BC
    /// stack ops, ADD/ADC with an immediate, the first RST vectors.
    #[verifier::rlimit(100)]
    fn exec_ctrl_c(&mut self, mmu: &mut Mmu, opcode: u8) -> (r: u8)
        requires
            old(self).wf(),
            old(mmu)@.wf(),
            0xC0 <= opcode < 0xD0,
            opcode != 0xCB,
            !illegal_op(opcode),
        ensures
            r == base_cycles(opcode, cond_taken(opcode, old(self).regs.flags)),
            1 <= r <= 6,
            (*final(self), final(mmu)@) == step_ctrl_c(*old(self), old(mmu)@, opcode),
            final(self).wf(),
            final(mmu)@.wf(),
    {
        match opcode {
            0xC0 => { if !self.regs.get_flag(Flags::Z) { self.ret(mmu); 5 } else { 2 } },
            0xC1 => { let v = self.pop_stack(mmu); self.regs.set_bc(v); 3 },
            0xC2 => { let c = !self.regs.get_flag(Flags::Z); self.jump_imm(mmu, c) },
            0xC3 => { self.jump_imm(mmu, true) },
            0xC4 => { let c = !self.regs.get_flag(Flags::Z); self.call(mmu, c) },
            0xC5 => { let v = self.regs.bc(); self.push_stack(mmu, v); 4 },
            0xC6 => { let v = self.read_u8(mmu); self.regs.a = self.add(v, false); 2 },
            0xC7 => { self.rst(mmu, 0x00); 4 },
            0xC8 => { if self.regs.get_flag(Flags::Z) { self.ret(mmu); 5 } else { 2 } },
            0xC9 => { self.ret(mmu); 4 },
            0xCA => { let c = self.regs.get_flag(Flags::Z); self.jump_imm(mmu, c) },
            0xCC => { let c = self.regs.get_flag(Flags::Z); self.call(mmu, c) },
            0xCD => { self.call(mmu, true) },
            0xCE => { let v = self.read_u8(mmu); self.regs.a = self.add(v, true); 2 },
            0xCF => { self.rst(mmu, 0x08); 4 },

            _ => {
                proof {
                    assert(false);
                }
                0
            },
        }
    }

    /// The 0xD0 row: the C-flag conditionals, the DE stack ops, SUB/SBC
    /// with an immediate, RETI, two RST vectors.
    #[verifier::rlimit(100)]
    fn exec_ctrl_d(&mut self, mmu: &mut Mmu, opcode: u8) -> (r: u8)
        requires
            old(self).wf(),
            old(mmu)@.wf(),
            0xD0 <= opcode < 0xE0,
            opcode != 0xCB,
            !illegal_op(opcode),
        ensures
            r == base_cycles(opcode, cond_taken(opcode, old(self).regs.flags)),
            1 <= r <= 6,
            (*final(self), final(mmu)@) == step_ctrl_d(*old(self), old(mmu)@, opcode),
            final(self).wf(),
            final(mmu)@.wf(),
    {
        match opcode {
            0xD0 => { if !self.regs.get_flag(Flags::C) { self.ret(mmu); 5 } else { 2 } },
            0xD1 => { let v = self.pop_stack(mmu); self.regs.set_de(v); 3 },
            0xD2 => { let c = !self.regs.get_flag(Flags::C); self.jump_imm(mmu, c) },
            0xD4 => { let c = !self.regs.get_flag(Flags::C); self.call(mmu, c) },
            0xD5 => { let v = self.regs.de(); self.push_stack(mmu, v); 4 },
            0xD6 => { let v = self.read_u8(mmu); self.regs.a = self.sub(v, false); 2 },
            0xD7 => { self.rst(mmu, 0x10); 4 },
            0xD8 => { if self.regs.get_flag(Flags::C) { self.ret(mmu); 5 } else { 2 } },
            // RETI: return and enable interrupts at once.
            0xD9 => { self.ret(mmu); self.ime = true; 4 },
            0xDA => { let c = self.regs.get_flag(Flags::C); self.jump_imm(mmu, c) },
            0xDC => { let c = self.regs.get_flag(Flags::C); self.call(mmu, c) },
            0xDE => { let v = self.read_u8(mmu); self.regs.a = self.sub(v, true); 2 },
            0xDF => { self.rst(mmu, 0x18); 4 },

            _ => {
                proof {
                    assert(false);
                }
                0
            },
        }
    }

    /// The 0xE0 row: the high-RAM store shorthands, the HL stack ops,
    /// AND/XOR with an immediate, ADD SP, JP HL, LD (a16),A.
    #[verifier::rlimit(100)]
    fn exec_ctrl_e(&mut self, mmu: &mut Mmu, opcode: u8) -> (r: u8)
        requires
            old(self).wf(),
            old(mmu)@.wf(),
            0xE0 <= opcode < 0xF0,
            opcode != 0xCB,
            !illegal_op(opcode),
        ensures
            r == base_cycles(opcode, cond_taken(opcode, old(self).regs.flags)),
            1 <= r <= 6,
            (*final(self), final(mmu)@) == step_ctrl_e(*old(self), old(mmu)@, opcode),
            final(self).wf(),
            final(mmu)@.wf(),
    {
        match opcode {
            0xE0 => { let off = self.read_u8(mmu); mmu.write(0xFF00 + off as u16, self.regs.a); 3 },
            0xE1 => { let v = self.pop_stack(mmu); self.regs.set_hl(v); 3 },
            0xE2 => { mmu.write(0xFF00 + self.regs.c as u16, self.regs.a); 2 },
            0xE5 => { let v = self.regs.hl(); self.push_stack(mmu, v); 4 },
            0xE6 => { let v = self.read_u8(mmu); self.regs.a = self.and(v); 2 },
            0xE7 => { self.rst(mmu, 0x20); 4 },
            0xE8 => { let sp = self.sp; self.sp = self.add_imm(mmu, sp); 4 },
            0xE9 => { self.pc = self.regs.hl(); 1 },
            0xEA => { let a = self.read_u16(mmu); mmu.write(a, self.regs.a); 4 },
            0xEE => { let v = self.read_u8(mmu); self.regs.a = self.xor(v); 2 },
            0xEF => { self.rst(mmu, 0x28); 4 },

            _ => {
                proof {
                    assert(false);
                }
                0
            },
        }
    }

    /// The 0xF0 row: the high-RAM load shorthands, the AF stack ops,
    /// OR/CP with an immediate, interrupt control, LD HL,SP+e8.
    #[verifier::rlimit(100)]
    fn exec_ctrl_f(&mut self, mmu: &mut Mmu, opcode: u8) -> (r: u8)
        requires
            old(self).wf(),
            old(mmu)@.wf(),
            0xF0 <= opcode,
            opcode != 0xCB,
            !illegal_op(opcode),
        ensures
            r == base_cycles(opcode, cond_taken(opcode, old(self).regs.flags)),
            1 <= r <= 6,
            (*final(self), final(mmu)@) == step_ctrl_f(*old(self), old(mmu)@, opcode),
            final(self).wf(),
            final(mmu)@.wf(),
    {
        match opcode {
            0xF0 => { let off = self.read_u8(mmu); self.regs.a = mmu.read(0xFF00 + off as u16); 3 },
            0xF1 => { let v = self.pop_stack(mmu); self.regs.set_af(v); 3 },
            0xF2 => { self.regs.a = mmu.read(0xFF00 + self.regs.c as u16); 2 },
            0xF3 => { self.disable_interrupts(); 1 },
            0xF5 => { let v = self.regs.af(); self.push_stack(mmu, v); 4 },
            0xF6 => { let v = self.read_u8(mmu); self.regs.a = self.or(v); 2 },
            0xF7 => { self.rst(mmu, 0x30); 4 },
            0xF8 => { let sp = self.sp; let v = self.add_imm(mmu, sp); self.regs.set_hl(v); 3 },
            0xF9 => { self.sp = self.regs.hl(); 2 },
            0xFA => { let a = self.read_u16(mmu); self.regs.a = mmu.read(a); 4 },
            0xFB => { self.enable_interrupts(); 1 },
            0xFE => { let v = self.read_u8(mmu); self.cp(v); 2 },
            0xFF => { self.rst(mmu, 0x38); 4 },

            _ => {
                proof {
                    assert(false);
                }
                0
            },
        }
    }

    /// Run one CPU step: service the highest-priority enabled pending
    /// interrupt if the master enable is on (5 cycles), idle in the HALT
    /// state (1 cycle), or fetch, decode and execute one instruction at
    /// PC. Returns the machine cycles consumed, exactly as the cycle
    /// table gives them, or the illegal-opcode error with the machine
    /// untouched.
    #[verifier::rlimit(100)]
    pub fn execute(&mut self, mmu: &mut Mmu) -> (r: Result<u8, EmuError>)
        requires
            old(self).wf(),
            old(mmu)@.wf(),
        ensures
            r == spec_step_result(*old(self), old(mmu)@),
            r matches Ok(n) ==> 1 <= n <= 6,
            final(self).wf(),
            final(mmu)@.wf(),
            r.is_err() ==> *final(self) == *old(self) && final(mmu)@ == old(mmu)@,
            r.is_ok() ==> (*final(self), final(mmu)@) == spec_step_state(*old(self), old(mmu)@),
    {
        // Interrupt service: the lowest set bit of IE & IF wins.
        let ie: u8 = mmu.read(0xFFFF);
        let iflag: u8 = mmu.read(0xFF0F);
        let pend: u8 = ie & iflag & 0x1F;
        if self.ime && pend != 0 {
            let idx: u8 = if pend & 0x01 != 0 {
                0
            } else if pend & 0x02 != 0 {
                1
            } else if pend & 0x04 != 0 {
                2
            } else if pend & 0x08 != 0 {
                3
            } else {
                4
            };
            self.ime = false;
            self.halted = false;
            mmu.write(0xFF0F, iflag & !(1u8 << idx));
            let pc = self.pc;
            self.push_stack(mmu, pc);
            self.pc = 0x40 + 8 * idx as u16;
            return Ok(5);
        }
        // HALT: idle until an enabled interrupt is pending; if the master
        // enable is off, fall through and resume execution.
        if self.halted {
            if pend == 0 {
                return Ok(1);
            }
        }
        let opcode: u8 = mmu.read(self.pc);
        if self.is_illegal(opcode) {
            return Err(EmuError::UnsupportedOpcode(opcode));
        }
        self.halted = false;
        self.pc = self.pc.wrapping_add(1);

        let cycles: u8 = if opcode < 0x10 {
            self.exec_row_0(mmu, opcode)
        } else if opcode < 0x20 {
            self.exec_row_1(mmu, opcode)
        } else if opcode < 0x30 {
            self.exec_row_2(mmu, opcode)
        } else if opcode < 0x40 {
            self.exec_row_3(mmu, opcode)
        } else if opcode < 0xC0 {
            self.exec_ld_alu(mmu, opcode)
        } else if opcode == 0xCB {
            self.execute_cb(mmu)
        } else if opcode < 0xD0 {
            self.exec_ctrl_c(mmu, opcode)
        } else if opcode < 0xE0 {
            self.exec_ctrl_d(mmu, opcode)
        } else if opcode < 0xF0 {
            self.exec_ctrl_e(mmu, opcode)
        } else {
            self.exec_ctrl_f(mmu, opcode)
        };

        // A pending EI takes effect once the instruction after it is done.
        if self.ei_pending && opcode != 0xFB {
            self.ime = true;
            self.ei_pending = false;
        }
        Ok(cycles)
    }

    /// Whether an opcode is one of the eleven undefined ones.
    fn is_illegal(&self, op: u8) -> (r: bool)
        ensures
            r == illegal_op(op),
    {
        op == 0xD3 || op == 0xDB || op == 0xDD || op == 0xE3 || op == 0xE4 || op == 0xEB || op
            == 0xEC || op == 0xED || op == 0xF4 || op == 0xFC || op == 0xFD
    }

    /// Decode and run one 0xCB-prefixed instruction: the rotate/shift
    /// groups, SWAP, BIT, RES and SET, on a register or through (HL).
    /// Returns the cycles of the whole prefixed instruction.
    fn execute_cb(&mut self, mmu: &mut Mmu) -> (r: u8)
        requires
            old(self).wf(),
            old(mmu)@.wf(),
        ensures
            r == cb_cycles(old(mmu)@.read(old(self).pc)),
            2 <= r <= 4,
            (*final(self), final(mmu)@) == step_cb(*old(self), old(mmu)@),
            final(self).wf(),
            final(mmu)@.wf(),
    {
        let opcode: u8 = self.read_u8(mmu);
        let mem_access: bool = opcode % 8 == 6;

        if opcode < 0x08 {
            let v0 = self.code_to_reg(mmu, opcode);
            let v = self.rlc(v0);
            self.set_reg_from_code(mmu, opcode, v);
            if mem_access {
                4
            } else {
                2
            }
        } else if opcode < 0x10 {
            let v0 = self.code_to_reg(mmu, opcode);
            let v = self.rrc(v0);
            self.set_reg_from_code(mmu, opcode, v);
            if mem_access {
                4
            } else {
                2
            }
        } else if opcode < 0x18 {
            let v0 = self.code_to_reg(mmu, opcode);
            let v = self.rl(v0);
            self.set_reg_from_code(mmu, opcode, v);
            if mem_access {
                4
            } else {
                2
            }
        } else if opcode < 0x20 {
            let v0 = self.code_to_reg(mmu, opcode);
            let v = self.rr(v0);
            self.set_reg_from_code(mmu, opcode, v);
            if mem_access {
                4
            } else {
                2
            }
        } else if opcode < 0x28 {
            let v0 = self.code_to_reg(mmu, opcode);
            let v = self.sla(v0);
            self.set_reg_from_code(mmu, opcode, v);
            if mem_access {
                4
            } else {
                2
            }
        } else if opcode < 0x30 {
            let v0 = self.code_to_reg(mmu, opcode);
            let v = self.sra(v0);
            self.set_reg_from_code(mmu, opcode, v);
            if mem_access {
                4
            } else {
                2
            }
        } else if opcode < 0x38 {
            let v0 = self.code_to_reg(mmu, opcode);
            let v = self.swap(v0);
            self.set_reg_from_code(mmu, opcode, v);
            if mem_access {
                4
            } else {
                2
            }
        } else if opcode < 0x40 {
            let v0 = self.code_to_reg(mmu, opcode);
            let v = self.srl(v0);
            self.set_reg_from_code(mmu, opcode, v);
            if mem_access {
                4
            } else {
                2
            }
        } else if opcode < 0x80 {
            let b: u8 = (opcode / 8) % 8;
            let v0 = self.code_to_reg(mmu, opcode);
            self.bit(v0, b);
            if mem_access {
                3
            } else {
                2
            }
        } else if opcode < 0xC0 {
            let b: u8 = (opcode / 8) % 8;
            let v0 = self.code_to_reg(mmu, opcode);
            let v = self.res(v0, b);
            self.set_reg_from_code(mmu, opcode, v);
            if mem_access {
                4
            } else {
                2
            }
        } else {
            let b: u8 = (opcode / 8) % 8;
            let v0 = self.code_to_reg(mmu, opcode);
            let v = self.set(v0, b);
            self.set_reg_from_code(mmu, opcode, v);
            if mem_access {
                4
            } else {
                2
            }
        }
    }

    /// EI: interrupts come on only after the next instruction completes.
    fn enable_interrupts(&mut self)
        ensures
            *final(self) == (Cpu { ei_pending: true, ..*old(self) }),
    {
        self.ei_pending = true;
    }

    /// DI: interrupts off at once; a pending EI is dropped.
    fn disable_interrupts(&mut self)
        ensures
            *final(self) == (Cpu { ime: false, ei_pending: false, ..*old(self) }),
    {
        self.ime = false;
        self.ei_pending = false;
    }
}

} // verus!
