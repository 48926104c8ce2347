//! The 6502 interpreter: registers, flags, stack, addressing modes, and one
//! instruction per step, stated against a model of each instruction.
use vstd::prelude::*;

use crate::bits::{has, lemma_join_bytes, lemma_with_bits, with_bits, word};
use crate::bus::{lemma_ram_access, Bus, Fault};
use crate::mem::{next_addr, Mem};
use crate::opcode::{decode, opcode_table, AddressingMode, Mnemonic, OpCode};
use crate::ppu::PPU;

verus! {

pub const CARRY: u8 = 0b0000_0001;
pub const ZERO: u8 = 0b0000_0010;
pub const INTERRUPT_DISABLE: u8 = 0b0000_0100;
pub const DECIMAL: u8 = 0b0000_1000;
/// Bit 4 is no flag: it tells, in a pushed status, software from hardware.
pub const BREAK: u8 = 0b0001_0000;
/// Bit 5 is unused and always pushed as 1.
pub const BREAK2: u8 = 0b0010_0000;
pub const OVERFLOW: u8 = 0b0100_0000;
pub const NEGATIVE: u8 = 0b1000_0000;

/// The stack lives in page 1.
pub const STACK: u16 = 0x0100;
pub const STACK_RESET: u8 = 0xfd;
/// The status at power-on and reset: interrupts disabled, bit 5 set.
pub const STATUS_RESET: u8 = 0b0010_0100;

pub const NMI_VECTOR: u16 = 0xfffa;
pub const RESET_VECTOR: u16 = 0xfffc;
pub const BRK_VECTOR: u16 = 0xfffe;

/// Where programs loaded into RAM start.
pub const CODE_START_ADDR: u16 = 0x0600;

/// The cycles that taking an NMI costs.
pub const NMI_CYCLES: u16 = 7;

pub struct CPU {
    pub register_a: u8,
    pub register_x: u8,
    pub register_y: u8,
    pub pc: u16,
    pub sp: u8,
    /// The processor status `N V _ B D I Z C`, bit 7 to bit 0.
    pub status: u8,
    pub bus: Bus,
}

/// What one step did.
#[derive(Clone, Copy, Debug, PartialEq, Eq, Structural)]
pub struct Executed {
    /// The opcode executed, or `None` when the step took an NMI.
    pub opcode: Option<u8>,
    /// The CPU cycles it took.
    pub cycles: u16,
}

pub open spec fn wrap8(v: int) -> u8 {
    (v % 256) as u8
}

pub open spec fn wrap16(v: int) -> u16 {
    (v % 0x1_0000) as u16
}

/// A byte as a two's-complement number.
pub open spec fn signed(b: u8) -> int {
    if b >= 128 {
        b - 256
    } else {
        b as int
    }
}

/// The status with Z and N set from `v`.
pub open spec fn nz(p: u8, v: u8) -> u8 {
    with_bits(with_bits(p, ZERO, v == 0), NEGATIVE, v >= 128)
}

/// The status as pushed: B set by software (`PHP`, `BRK`), clear by
/// hardware (NMI); bit 5 always set.
pub open spec fn pushed_status(p: u8, software: bool) -> u8 {
    with_bits(with_bits(p, BREAK, software), BREAK2, true)
}

/// A status pulled from the stack: B cleared, bit 5 set.
pub open spec fn pulled_status(p: u8) -> u8 {
    with_bits(with_bits(p, BREAK, false), BREAK2, true)
}

/// `A + M + C`.
pub open spec fn adc_sum(a: u8, m: u8, carry: bool) -> int {
    a + m + if carry {
        1int
    } else {
        0int
    }
}

/// Signed overflow of an addition: both operands have one sign and the
/// result has the other.
pub open spec fn adc_overflow(a: u8, m: u8, r: u8) -> bool {
    (a >= 128) == (m >= 128) && (r >= 128) != (a >= 128)
}

/// Result and new carry of a shift or rotate of `m`, with the old carry `c`.
pub open spec fn shift_result(mnemonic: Mnemonic, m: u8, c: bool) -> (u8, bool) {
    let cin: int = if c {
        1
    } else {
        0
    };
    match mnemonic {
        Mnemonic::ASL => (wrap8(m * 2), m >= 128),
        Mnemonic::ROL => (wrap8(m * 2 + cin), m >= 128),
        Mnemonic::LSR => ((m / 2) as u8, m % 2 == 1),
        _ => ((m / 2 + 128 * cin) as u8, m % 2 == 1),
    }
}

/// Where a taken branch goes: the offset counts from the byte after it.
pub open spec fn branch_target(pc: u16, offset: u8) -> u16 {
    wrap16(pc + 1 + signed(offset))
}

impl CPU {
    pub open spec fn wf(&self) -> bool {
        self.bus.wf()
    }

    pub open spec fn flag(&self, mask: u8) -> bool {
        has(self.status, mask)
    }

    /// A read of `addr`: the byte, and the CPU after it.
    pub open spec fn read(self, addr: u16) -> (u8, CPU) {
        (self.bus.byte_read(addr), CPU { bus: self.bus.after_reading(addr), ..self })
    }

    /// A read of the little-endian word at `addr`, low byte first.
    pub open spec fn read_word(self, addr: u16) -> (u16, CPU) {
        let (lo, c) = self.read(addr);
        let (hi, d) = c.read(next_addr(addr));
        (word(hi, lo) as u16, d)
    }

    /// The effective address of `mode`, with `pc` at the operand bytes. Modes
    /// with no address in memory give `pc` and read nothing.
    pub open spec fn operand_address(self, mode: AddressingMode) -> (u16, CPU) {
        match mode {
            AddressingMode::ZeroPage => {
                let (b, c) = self.read(self.pc);
                (b as u16, c)
            },
            AddressingMode::ZeroPage_X => {
                let (b, c) = self.read(self.pc);
                (wrap8(b + self.register_x) as u16, c)
            },
            AddressingMode::ZeroPage_Y => {
                let (b, c) = self.read(self.pc);
                (wrap8(b + self.register_y) as u16, c)
            },
            AddressingMode::Absolute => self.read_word(self.pc),
            AddressingMode::Absolute_X => {
                let (w, c) = self.read_word(self.pc);
                (wrap16(w + self.register_x), c)
            },
            AddressingMode::Absolute_Y => {
                let (w, c) = self.read_word(self.pc);
                (wrap16(w + self.register_y), c)
            },
            AddressingMode::Indirect_X => {
                let (b, c) = self.read(self.pc);
                let ptr = wrap8(b + self.register_x);
                let (lo, d) = c.read(ptr as u16);
                let (hi, e) = d.read(wrap8(ptr + 1) as u16);
                (word(hi, lo) as u16, e)
            },
            AddressingMode::Indirect_Y => {
                let (b, c) = self.read(self.pc);
                let (lo, d) = c.read(b as u16);
                let (hi, e) = d.read(wrap8(b + 1) as u16);
                (wrap16(word(hi, lo) + self.register_y), e)
            },
            _ => (self.pc, self),
        }
    }

    /// The operand of `mode`: A itself for the accumulator, else the byte at
    /// the effective address.
    pub open spec fn operand(self, mode: AddressingMode) -> (u8, CPU) {
        match mode {
            AddressingMode::Accumulator => (self.register_a, self),
            _ => {
                let (addr, c) = self.operand_address(mode);
                c.read(addr)
            },
        }
    }

    pub open spec fn with_status(self, p: u8) -> CPU {
        CPU { status: p, ..self }
    }

    pub open spec fn loaded_a(self, v: u8) -> CPU {
        CPU { register_a: v, status: nz(self.status, v), ..self }
    }

    pub open spec fn loaded_x(self, v: u8) -> CPU {
        CPU { register_x: v, status: nz(self.status, v), ..self }
    }

    pub open spec fn loaded_y(self, v: u8) -> CPU {
        CPU { register_y: v, status: nz(self.status, v), ..self }
    }

    /// `ADC` of `m`: A, C, V, Z and N from `A + M + C`.
    pub open spec fn added(self, m: u8) -> CPU {
        let sum = adc_sum(self.register_a, m, self.flag(CARRY));
        let r = wrap8(sum);
        CPU {
            register_a: r,
            status: nz(
                with_bits(
                    with_bits(self.status, CARRY, sum > 255),
                    OVERFLOW,
                    adc_overflow(self.register_a, m, r),
                ),
                r,
            ),
            ..self
        }
    }

    /// A compare of `reg` with `m`: C when `reg >= m`, Z and N from the
    /// difference.
    pub open spec fn compared(self, reg: u8, m: u8) -> CPU {
        self.with_status(nz(with_bits(self.status, CARRY, reg >= m), wrap8(reg - m)))
    }

    /// `BIT`: Z from `A & M`, N and V copied from bits 7 and 6 of M.
    pub open spec fn bit_tested(self, m: u8) -> CPU {
        self.with_status(
            with_bits(
                with_bits(with_bits(self.status, ZERO, self.register_a & m == 0), NEGATIVE, has(m, 0x80)),
                OVERFLOW,
                has(m, 0x40),
            ),
        )
    }

    /// A shift or rotate of A or of the byte at the effective address of
    /// `mode`, with C from the bit shifted out and Z, N from the result.
    pub open spec fn shifted(self, mnemonic: Mnemonic, mode: AddressingMode) -> CPU {
        match mode {
            AddressingMode::Accumulator => {
                let (r, c) = shift_result(mnemonic, self.register_a, self.flag(CARRY));
                CPU { register_a: r, status: nz(with_bits(self.status, CARRY, c), r), ..self }
            },
            _ => {
                let (addr, c) = self.operand_address(mode);
                let (m, d) = c.read(addr);
                let (r, carry) = shift_result(mnemonic, m, self.flag(CARRY));
                d.write(addr, r).with_status(nz(with_bits(self.status, CARRY, carry), r))
            },
        }
    }

    /// `INC` or `DEC` of the byte at the effective address of `mode`.
    pub open spec fn stepped_memory(self, mode: AddressingMode, up: bool) -> CPU {
        let (addr, c) = self.operand_address(mode);
        let (m, d) = c.read(addr);
        let r = if up {
            wrap8(m + 1)
        } else {
            wrap8(m - 1)
        };
        d.write(addr, r).with_status(nz(self.status, r))
    }

    /// The CPU after a write of `v` to `addr`.
    pub open spec fn write(self, addr: u16, v: u8) -> CPU {
        CPU { bus: self.bus.after_writing(addr, v), ..self }
    }

    /// A push: write at `$0100 | SP`, then SP down by one.
    pub open spec fn pushed(self, v: u8) -> CPU {
        CPU { sp: wrap8(self.sp - 1), ..self.write((STACK + self.sp) as u16, v) }
    }

    /// A pull: SP up by one, then read at `$0100 | SP`.
    pub open spec fn popped(self) -> (u8, CPU) {
        let sp = wrap8(self.sp + 1);
        CPU { sp, ..self }.read((STACK + sp) as u16)
    }

    /// A word pushed high byte first, so that it pulls low byte first.
    pub open spec fn pushed_word(self, w: u16) -> CPU {
        self.pushed((w / 256) as u8).pushed((w % 256) as u8)
    }

    pub open spec fn popped_word(self) -> (u16, CPU) {
        let (lo, c) = self.popped();
        let (hi, d) = c.popped();
        (word(hi, lo) as u16, d)
    }

    /// `pc` moved past the operand bytes of an instruction of `bytes` bytes.
    pub open spec fn advanced(self, bytes: u8) -> CPU {
        CPU { pc: wrap16(self.pc + bytes - 1), ..self }
    }

    /// A branch on `condition`: the cycles over the base cost are one when
    /// taken and one more when the target is on another page.
    pub open spec fn branched(self, condition: bool) -> (CPU, u16) {
        let (offset, c) = self.read(self.pc);
        let next = wrap16(self.pc + 1);
        let target = branch_target(self.pc, offset);
        if condition {
            (CPU { pc: target, ..c }, if next / 256 != target / 256 {
                2u16
            } else {
                1u16
            })
        } else {
            (CPU { pc: next, ..c }, 0u16)
        }
    }

    /// `JMP ($nnnn)`, with the 6502's page bug: a pointer at `$xxFF` takes
    /// its high byte from `$xx00`.
    pub open spec fn jumped_indirect(self) -> CPU {
        let (ptr, c) = self.read_word(self.pc);
        if ptr % 256 == 255 {
            let (lo, d) = c.read(ptr);
            let (hi, e) = d.read((ptr - 255) as u16);
            CPU { pc: word(hi, lo) as u16, ..e }
        } else {
            let (t, d) = c.read_word(ptr);
            CPU { pc: t, ..d }
        }
    }

    /// An interrupt: the return address and the status are pushed, I is
    /// set, and `pc` comes from `vector`.
    pub open spec fn interrupted(self, vector: u16, return_addr: u16, software: bool) -> CPU {
        let c = self.pushed_word(return_addr).pushed(pushed_status(self.status, software));
        let d = c.with_status(with_bits(c.status, INTERRUPT_DISABLE, true));
        let (t, e) = d.read_word(vector);
        CPU { pc: t, ..e }
    }

    /// The effect of an instruction that does not set `pc` itself.
    #[verifier::opaque]
    pub open spec fn operated(self, e: OpCode) -> CPU {
        let mode = e.mode;
        match e.mnemonic {
            Mnemonic::LDA => {
                let (m, c) = self.operand(mode);
                c.loaded_a(m)
            },
            Mnemonic::LDX => {
                let (m, c) = self.operand(mode);
                c.loaded_x(m)
            },
            Mnemonic::LDY => {
                let (m, c) = self.operand(mode);
                c.loaded_y(m)
            },
            Mnemonic::STA => {
                let (addr, c) = self.operand_address(mode);
                c.write(addr, self.register_a)
            },
            Mnemonic::STX => {
                let (addr, c) = self.operand_address(mode);
                c.write(addr, self.register_x)
            },
            Mnemonic::STY => {
                let (addr, c) = self.operand_address(mode);
                c.write(addr, self.register_y)
            },
            Mnemonic::ADC => {
                let (m, c) = self.operand(mode);
                c.added(m)
            },
            Mnemonic::SBC => {
                let (m, c) = self.operand(mode);
                c.added((255 - m) as u8)
            },
            Mnemonic::AND => {
                let (m, c) = self.operand(mode);
                c.loaded_a(self.register_a & m)
            },
            Mnemonic::EOR => {
                let (m, c) = self.operand(mode);
                c.loaded_a(self.register_a ^ m)
            },
            Mnemonic::ORA => {
                let (m, c) = self.operand(mode);
                c.loaded_a(self.register_a | m)
            },
            Mnemonic::CMP => {
                let (m, c) = self.operand(mode);
                c.compared(self.register_a, m)
            },
            Mnemonic::CPX => {
                let (m, c) = self.operand(mode);
                c.compared(self.register_x, m)
            },
            Mnemonic::CPY => {
                let (m, c) = self.operand(mode);
                c.compared(self.register_y, m)
            },
            Mnemonic::BIT => {
                let (m, c) = self.operand(mode);
                c.bit_tested(m)
            },
            Mnemonic::ASL | Mnemonic::LSR | Mnemonic::ROL | Mnemonic::ROR => self.shifted(
                e.mnemonic,
                mode,
            ),
            Mnemonic::INC => self.stepped_memory(mode, true),
            Mnemonic::DEC => self.stepped_memory(mode, false),
            Mnemonic::INX => self.loaded_x(wrap8(self.register_x + 1)),
            Mnemonic::INY => self.loaded_y(wrap8(self.register_y + 1)),
            Mnemonic::DEX => self.loaded_x(wrap8(self.register_x - 1)),
            Mnemonic::DEY => self.loaded_y(wrap8(self.register_y - 1)),
            Mnemonic::TAX => self.loaded_x(self.register_a),
            Mnemonic::TAY => self.loaded_y(self.register_a),
            Mnemonic::TXA => self.loaded_a(self.register_x),
            Mnemonic::TYA => self.loaded_a(self.register_y),
            Mnemonic::TSX => self.loaded_x(self.sp),
            Mnemonic::TXS => CPU { sp: self.register_x, ..self },
            Mnemonic::PHA => self.pushed(self.register_a),
            Mnemonic::PHP => self.pushed(pushed_status(self.status, true)),
            Mnemonic::PLA => {
                let (v, c) = self.popped();
                c.loaded_a(v)
            },
            Mnemonic::PLP => {
                let (v, c) = self.popped();
                c.with_status(pulled_status(v))
            },
            Mnemonic::CLC => self.with_status(with_bits(self.status, CARRY, false)),
            Mnemonic::SEC => self.with_status(with_bits(self.status, CARRY, true)),
            Mnemonic::CLD => self.with_status(with_bits(self.status, DECIMAL, false)),
            Mnemonic::SED => self.with_status(with_bits(self.status, DECIMAL, true)),
            Mnemonic::CLI => self.with_status(with_bits(self.status, INTERRUPT_DISABLE, false)),
            Mnemonic::SEI => self.with_status(with_bits(self.status, INTERRUPT_DISABLE, true)),
            Mnemonic::CLV => self.with_status(with_bits(self.status, OVERFLOW, false)),
            _ => self,
        }
    }

    /// One instruction, with `pc` just past its opcode byte: the CPU after
    /// it and the cycles it took.
    #[verifier::opaque]
    pub open spec fn executed(self, e: OpCode) -> (CPU, u16) {
        let base = e.cycles as u16;
        match e.mnemonic {
            Mnemonic::BCC => {
                let (c, extra) = self.branched(!self.flag(CARRY));
                (c, (base + extra) as u16)
            },
            Mnemonic::BCS => {
                let (c, extra) = self.branched(self.flag(CARRY));
                (c, (base + extra) as u16)
            },
            Mnemonic::BNE => {
                let (c, extra) = self.branched(!self.flag(ZERO));
                (c, (base + extra) as u16)
            },
            Mnemonic::BEQ => {
                let (c, extra) = self.branched(self.flag(ZERO));
                (c, (base + extra) as u16)
            },
            Mnemonic::BPL => {
                let (c, extra) = self.branched(!self.flag(NEGATIVE));
                (c, (base + extra) as u16)
            },
            Mnemonic::BMI => {
                let (c, extra) = self.branched(self.flag(NEGATIVE));
                (c, (base + extra) as u16)
            },
            Mnemonic::BVC => {
                let (c, extra) = self.branched(!self.flag(OVERFLOW));
                (c, (base + extra) as u16)
            },
            Mnemonic::BVS => {
                let (c, extra) = self.branched(self.flag(OVERFLOW));
                (c, (base + extra) as u16)
            },
            Mnemonic::JMP => {
                if e.mode == AddressingMode::Absolute {
                    let (t, c) = self.read_word(self.pc);
                    (CPU { pc: t, ..c }, base)
                } else {
                    (self.jumped_indirect(), base)
                }
            },
            Mnemonic::JSR => {
                let (t, c) = self.read_word(self.pc);
                (CPU { pc: t, ..c.pushed_word(wrap16(self.pc + 1)) }, base)
            },
            Mnemonic::RTS => {
                let (w, c) = self.popped_word();
                (CPU { pc: wrap16(w + 1), ..c }, base)
            },
            Mnemonic::RTI => {
                let (p, c) = self.popped();
                let (w, d) = c.with_status(pulled_status(p)).popped_word();
                (CPU { pc: w, ..d }, base)
            },
            Mnemonic::BRK => (self.interrupted(BRK_VECTOR, wrap16(self.pc + 1), true), base),
            _ => (self.operated(e).advanced(e.bytes), base),
        }
    }

    /// The state that reset gives: registers cleared, SP at `$FD`, status
    /// `0b0010_0100`, and `pc` from the reset vector.
    pub open spec fn after_reset(self) -> CPU {
        let (v, c) = self.read_word(RESET_VECTOR);
        CPU {
            register_a: 0,
            register_x: 0,
            register_y: 0,
            status: STATUS_RESET,
            sp: STACK_RESET,
            pc: v,
            ..c
        }
    }

    /// The CPU after the first `n` bytes of `program` were written from
    /// `$0600` on.
    pub open spec fn loaded_prefix(self, program: Seq<u8>, n: nat) -> CPU
        decreases n,
    {
        if n == 0 {
            self
        } else {
            self.loaded_prefix(program, (n - 1) as nat).write(
                (CODE_START_ADDR + n - 1) as u16,
                program[n - 1],
            )
        }
    }

    /// A step ends in the fault the bus recorded, if it recorded one.
    pub open spec fn finished(self, done: Executed) -> (Result<Executed, Fault>, CPU) {
        match self.bus.fault {
            Some(f) => (Err(f), self),
            None => (Ok(done), self),
        }
    }

    /// The CPU after `cycles` cycles of the clock.
    pub open spec fn ticked(self, cycles: u16) -> CPU {
        CPU { bus: self.bus.after_tick(cycles), ..self }
    }

    /// One step: a recorded fault stops everything; a pending NMI is taken;
    /// otherwise one instruction is fetched, decoded and executed, and the
    /// clock runs for its cycles.
    #[verifier::opaque]
    pub open spec fn stepped(self) -> (Result<Executed, Fault>, CPU) {
        if let Some(f) = self.bus.fault {
            (Err(f), self)
        } else if self.bus.ppu.nmi_irq is Some {
            let cleared = CPU { bus: Bus { ppu: PPU { nmi_irq: None, ..self.bus.ppu }, ..self.bus }, ..self };
            cleared.interrupted(NMI_VECTOR, self.pc, false).ticked(NMI_CYCLES).finished(
                Executed { opcode: None, cycles: NMI_CYCLES },
            )
        } else {
            let (code, c) = self.read(self.pc);
            let fetched = CPU { pc: wrap16(self.pc + 1), ..c };
            match opcode_table(code) {
                None => (Err(Fault::UnknownOpcode { pc: self.pc, opcode: code }), fetched),
                Some(e) => {
                    let (d, cycles) = fetched.executed(e);
                    d.ticked(cycles).finished(Executed { opcode: Some(code), cycles })
                },
            }
        }
    }

    /// Steps until a `BRK` has executed or a step fails, for at most `fuel`
    /// steps.
    pub open spec fn ran(self, fuel: nat) -> (Result<(), Fault>, CPU)
        decreases fuel,
    {
        if fuel == 0 {
            (Ok(()), self)
        } else {
            let (r, c) = self.stepped();
            match r {
                Err(f) => (Err(f), c),
                Ok(done) => if done.opcode == Some(0u8) {
                    (Ok(()), c)
                } else {
                    c.ran((fuel - 1) as nat)
                },
            }
        }
    }
}

impl CPU {
    fn read_byte(&mut self, addr: u16) -> (r: u8)
        requires
            old(self).wf(),
        ensures
            (r, *final(self)) == old(self).read(addr),
            final(self).wf(),
    {
        self.bus.mem_read(addr)
    }

    fn write_byte(&mut self, addr: u16, data: u8)
        requires
            old(self).wf(),
        ensures
            *final(self) == old(self).write(addr, data),
            final(self).wf(),
    {
        self.bus.mem_write(addr, data);
    }

    /// Reads the little-endian word at `addr`.
    fn read_u16(&mut self, addr: u16) -> (r: u16)
        requires
            old(self).wf(),
        ensures
            (r, *final(self)) == old(self).read_word(addr),
            final(self).wf(),
    {
        let lo = self.read_byte(addr);
        let hi = self.read_byte(addr.wrapping_add(1));
        proof {
            lemma_join_bytes(hi, lo);
        }
        (hi as u16) << 8 | (lo as u16)
    }

    /// Sets or clears the status bits of `mask`.
    fn set_state(&mut self, mask: u8, state: bool)
        ensures
            *final(self) == old(self).with_status(with_bits(old(self).status, mask, state)),
    {
        if state {
            self.status = self.status | mask;
        } else {
            self.status = self.status & !mask;
        }
    }

    /// Sets Z and N from `v`.
    fn set_zero_negative(&mut self, v: u8)
        ensures
            *final(self) == old(self).with_status(nz(old(self).status, v)),
    {
        self.set_state(ZERO, v == 0);
        self.set_state(NEGATIVE, v & NEGATIVE != 0);
        proof {
            crate::bits::lemma_top_bit(v);
        }
    }

    fn fetch_carry_bit(&self) -> (r: u8)
        ensures
            r == if self.flag(CARRY) {
                1u8
            } else {
                0u8
            },
    {
        if self.status & CARRY != 0 {
            1
        } else {
            0
        }
    }

    fn set_reg_a(&mut self, data: u8)
        ensures
            *final(self) == old(self).loaded_a(data),
    {
        self.register_a = data;
        self.set_zero_negative(data);
    }

    fn set_reg_x(&mut self, data: u8)
        ensures
            *final(self) == old(self).loaded_x(data),
    {
        self.register_x = data;
        self.set_zero_negative(data);
    }

    fn set_reg_y(&mut self, data: u8)
        ensures
            *final(self) == old(self).loaded_y(data),
    {
        self.register_y = data;
        self.set_zero_negative(data);
    }

    fn get_operand_address(&mut self, mode: AddressingMode) -> (r: u16)
        requires
            old(self).wf(),
        ensures
            (r, *final(self)) == old(self).operand_address(mode),
            final(self).wf(),
    {
        match mode {
            AddressingMode::ZeroPage => self.read_byte(self.pc) as u16,
            AddressingMode::ZeroPage_X => ((self.read_byte(self.pc) as u16 + self.register_x as u16) % 256) as u16,
            AddressingMode::ZeroPage_Y => ((self.read_byte(self.pc) as u16 + self.register_y as u16) % 256) as u16,
            AddressingMode::Absolute => self.read_u16(self.pc),
            AddressingMode::Absolute_X => ((self.read_u16(self.pc) as u32 + self.register_x as u32) % 0x1_0000) as u16,
            AddressingMode::Absolute_Y => ((self.read_u16(self.pc) as u32 + self.register_y as u32) % 0x1_0000) as u16,
            AddressingMode::Indirect_X => self.indirect_x_address(),
            AddressingMode::Indirect_Y => self.indirect_y_address(),
            _ => self.pc,
        }
    }





    /// `(zp,X)`: the pointer at `(operand + X) & 0xFF`, in page zero.
    fn indirect_x_address(&mut self) -> (r: u16)
        requires
            old(self).wf(),
        ensures
            (r, *final(self)) == old(self).operand_address(AddressingMode::Indirect_X),
            final(self).wf(),
    {
        let base = self.read_byte(self.pc);
        let ptr: u8 = ((base as u16 + self.register_x as u16) % 256) as u8;
        let lo = self.read_byte(ptr as u16);
        let hi = self.read_byte(((ptr as u16 + 1) % 256) as u16);
        proof {
            lemma_join_bytes(hi, lo);
        }
        (hi as u16) << 8 | (lo as u16)
    }

    /// `(zp),Y`: the pointer at the operand, in page zero, plus Y.
    fn indirect_y_address(&mut self) -> (r: u16)
        requires
            old(self).wf(),
        ensures
            (r, *final(self)) == old(self).operand_address(AddressingMode::Indirect_Y),
            final(self).wf(),
    {
        let base = self.read_byte(self.pc);
        let lo = self.read_byte(base as u16);
        let hi = self.read_byte(((base as u16 + 1) % 256) as u16);
        proof {
            lemma_join_bytes(hi, lo);
        }
        let deref_base = (hi as u16) << 8 | (lo as u16);
        ((deref_base as u32 + self.register_y as u32) % 0x1_0000) as u16
    }

    fn fetch_operand(&mut self, mode: AddressingMode) -> (r: u8)
        requires
            old(self).wf(),
        ensures
            (r, *final(self)) == old(self).operand(mode),
            final(self).wf(),
    {
        match mode {
            AddressingMode::Accumulator => self.register_a,
            _ => {
                let addr = self.get_operand_address(mode);
                self.read_byte(addr)
            },
        }
    }

    fn lda(&mut self, mode: AddressingMode)
        requires
            old(self).wf(),
        ensures
            ({
                let (m, c) = old(self).operand(mode);
                *final(self) == c.loaded_a(m)
            }),
            final(self).wf(),
    {
        let operand = self.fetch_operand(mode);
        self.set_reg_a(operand);
    }

    fn ldx(&mut self, mode: AddressingMode)
        requires
            old(self).wf(),
        ensures
            ({
                let (m, c) = old(self).operand(mode);
                *final(self) == c.loaded_x(m)
            }),
            final(self).wf(),
    {
        let operand = self.fetch_operand(mode);
        self.set_reg_x(operand);
    }

    fn ldy(&mut self, mode: AddressingMode)
        requires
            old(self).wf(),
        ensures
            ({
                let (m, c) = old(self).operand(mode);
                *final(self) == c.loaded_y(m)
            }),
            final(self).wf(),
    {
        let operand = self.fetch_operand(mode);
        self.set_reg_y(operand);
    }

    /// Stores `value` at the effective address of `mode`.
    fn store(&mut self, mode: AddressingMode, value: u8)
        requires
            old(self).wf(),
        ensures
            ({
                let (addr, c) = old(self).operand_address(mode);
                *final(self) == c.write(addr, value)
            }),
            final(self).wf(),
    {
        let addr = self.get_operand_address(mode);
        self.write_byte(addr, value);
    }

    fn sta(&mut self, mode: AddressingMode)
        requires
            old(self).wf(),
        ensures
            ({
                let (addr, c) = old(self).operand_address(mode);
                *final(self) == c.write(addr, old(self).register_a)
            }),
            final(self).wf(),
    {
        self.store(mode, self.register_a);
    }

    fn stx(&mut self, mode: AddressingMode)
        requires
            old(self).wf(),
        ensures
            ({
                let (addr, c) = old(self).operand_address(mode);
                *final(self) == c.write(addr, old(self).register_x)
            }),
            final(self).wf(),
    {
        self.store(mode, self.register_x);
    }

    fn sty(&mut self, mode: AddressingMode)
        requires
            old(self).wf(),
        ensures
            ({
                let (addr, c) = old(self).operand_address(mode);
                *final(self) == c.write(addr, old(self).register_y)
            }),
            final(self).wf(),
    {
        self.store(mode, self.register_y);
    }

    /// `A + data + C` into A, with C, V, Z and N.
    fn add_to_register_a(&mut self, data: u8)
        ensures
            *final(self) == old(self).added(data),
    {
        let sum: u16 = self.register_a as u16 + data as u16 + self.fetch_carry_bit() as u16;
        self.set_state(CARRY, sum > 0xff);
        let result = (sum % 256) as u8;
        let a = self.register_a;
        proof {
            lemma_adc_overflow_bits(a, data, result);
        }
        self.set_state(OVERFLOW, (data ^ result) & (result ^ a) & 0x80 != 0);
        self.set_reg_a(result);
    }

    fn adc(&mut self, mode: AddressingMode)
        requires
            old(self).wf(),
        ensures
            ({
                let (m, c) = old(self).operand(mode);
                *final(self) == c.added(m)
            }),
            final(self).wf(),
    {
        let operand = self.fetch_operand(mode);
        self.add_to_register_a(operand);
    }

    /// `SBC` is `ADC` of the operand's complement.
    fn sbc(&mut self, mode: AddressingMode)
        requires
            old(self).wf(),
        ensures
            ({
                let (m, c) = old(self).operand(mode);
                *final(self) == c.added((255 - m) as u8)
            }),
            final(self).wf(),
    {
        let operand = self.fetch_operand(mode);
        self.add_to_register_a(255 - operand);
    }

    fn and(&mut self, mode: AddressingMode)
        requires
            old(self).wf(),
        ensures
            ({
                let (m, c) = old(self).operand(mode);
                *final(self) == c.loaded_a(old(self).register_a & m)
            }),
            final(self).wf(),
    {
        let a = self.register_a;
        let operand = self.fetch_operand(mode);
        self.set_reg_a(a & operand);
    }

    fn xor(&mut self, mode: AddressingMode)
        requires
            old(self).wf(),
        ensures
            ({
                let (m, c) = old(self).operand(mode);
                *final(self) == c.loaded_a(old(self).register_a ^ m)
            }),
            final(self).wf(),
    {
        let a = self.register_a;
        let operand = self.fetch_operand(mode);
        self.set_reg_a(a ^ operand);
    }

    fn ior(&mut self, mode: AddressingMode)
        requires
            old(self).wf(),
        ensures
            ({
                let (m, c) = old(self).operand(mode);
                *final(self) == c.loaded_a(old(self).register_a | m)
            }),
            final(self).wf(),
    {
        let a = self.register_a;
        let operand = self.fetch_operand(mode);
        self.set_reg_a(a | operand);
    }

    fn compare(&mut self, mode: AddressingMode, compare_with: u8)
        requires
            old(self).wf(),
        ensures
            ({
                let (m, c) = old(self).operand(mode);
                *final(self) == c.compared(compare_with, m)
            }),
            final(self).wf(),
    {
        let data = self.fetch_operand(mode);
        self.set_state(CARRY, data <= compare_with);
        self.set_zero_negative(compare_with.wrapping_sub(data));
    }

    fn bit(&mut self, mode: AddressingMode)
        requires
            old(self).wf(),
        ensures
            ({
                let (m, c) = old(self).operand(mode);
                *final(self) == c.bit_tested(m)
            }),
            final(self).wf(),
    {
        let data = self.fetch_operand(mode);
        self.set_state(ZERO, self.register_a & data == 0);
        self.set_state(NEGATIVE, data & 0x80 != 0);
        self.set_state(OVERFLOW, data & 0x40 != 0);
    }
}

impl CPU {
    /// A shift or rotate of `m` with the old carry `c`: the result and the
    /// new carry.
    fn shift_value(mnemonic: Mnemonic, m: u8, c: bool) -> (r: (u8, bool))
        ensures
            r == shift_result(mnemonic, m, c),
    {
        let cin: u16 = if c {
            1
        } else {
            0
        };
        match mnemonic {
            Mnemonic::ASL => (((m as u16 * 2) % 256) as u8, m >= 128),
            Mnemonic::ROL => (((m as u16 * 2 + cin) % 256) as u8, m >= 128),
            Mnemonic::LSR => (m / 2, m % 2 == 1),
            _ => ((m as u16 / 2 + 128 * cin) as u8, m % 2 == 1),
        }
    }

    /// `ASL`, `LSR`, `ROL` or `ROR`, on A or on memory.
    fn shift(&mut self, mnemonic: Mnemonic, mode: AddressingMode)
        requires
            old(self).wf(),
        ensures
            *final(self) == old(self).shifted(mnemonic, mode),
            final(self).wf(),
    {
        let carry = self.status & CARRY != 0;
        match mode {
            AddressingMode::Accumulator => {
                let (r, c) = CPU::shift_value(mnemonic, self.register_a, carry);
                self.register_a = r;
                self.set_state(CARRY, c);
                self.set_zero_negative(r);
            },
            _ => {
                let addr = self.get_operand_address(mode);
                let m = self.read_byte(addr);
                let (r, c) = CPU::shift_value(mnemonic, m, carry);
                self.write_byte(addr, r);
                self.set_state(CARRY, c);
                self.set_zero_negative(r);
            },
        }
    }

    /// `INC` (`up`) or `DEC` of a byte in memory.
    #[verifier::rlimit(100)]
    fn step_memory(&mut self, mode: AddressingMode, up: bool)
        requires
            old(self).wf(),
        ensures
            *final(self) == old(self).stepped_memory(mode, up),
            final(self).wf(),
    {
        let addr = self.get_operand_address(mode);
        let m = self.read_byte(addr);
        let r: u8 = if up {
            inc_byte(m)
        } else {
            dec_byte(m)
        };
        self.write_byte(addr, r);
        self.set_zero_negative(r);
    }

    fn stack_push(&mut self, data: u8)
        requires
            old(self).wf(),
        ensures
            *final(self) == old(self).pushed(data),
            final(self).wf(),
    {
        self.write_byte(STACK + self.sp as u16, data);
        self.sp = ((self.sp as u16 + 255) % 256) as u8;
    }

    fn stack_pop(&mut self) -> (r: u8)
        requires
            old(self).wf(),
        ensures
            (r, *final(self)) == old(self).popped(),
            final(self).wf(),
    {
        self.sp = ((self.sp as u16 + 1) % 256) as u8;
        self.read_byte(STACK + self.sp as u16)
    }

    fn stack_push_u16(&mut self, data: u16)
        requires
            old(self).wf(),
        ensures
            *final(self) == old(self).pushed_word(data),
            final(self).wf(),
    {
        self.stack_push((data / 256) as u8);
        self.stack_push((data % 256) as u8);
    }

    fn stack_pop_u16(&mut self) -> (r: u16)
        requires
            old(self).wf(),
        ensures
            (r, *final(self)) == old(self).popped_word(),
            final(self).wf(),
    {
        let lo = self.stack_pop();
        let hi = self.stack_pop();
        proof {
            lemma_join_bytes(hi, lo);
        }
        (hi as u16) << 8 | (lo as u16)
    }

    /// A branch on `condition`; returns the cycles over the base cost.
    fn branch(&mut self, condition: bool) -> (extra: u16)
        requires
            old(self).wf(),
        ensures
            (*final(self), extra) == old(self).branched(condition),
            final(self).wf(),
    {
        let pc = self.pc;
        let offset = self.read_byte(pc);
        let next: u16 = ((pc as u32 + 1) % 0x1_0000) as u16;
        if condition {
            let target: u16 = if offset < 128 {
                ((next as u32 + offset as u32) % 0x1_0000) as u16
            } else {
                ((next as u32 + offset as u32 + 0xff00) % 0x1_0000) as u16
            };
            self.pc = target;
            if next / 256 != target / 256 {
                2
            } else {
                1
            }
        } else {
            self.pc = next;
            0
        }
    }

    /// `JMP ($nnnn)`, page bug included.
    fn jump_indirect(&mut self)
        requires
            old(self).wf(),
        ensures
            *final(self) == old(self).jumped_indirect(),
            final(self).wf(),
    {
        let ptr = self.read_u16(self.pc);
        if ptr % 256 == 255 {
            let lo = self.read_byte(ptr);
            let hi = self.read_byte(ptr - 255);
            proof {
                lemma_join_bytes(hi, lo);
            }
            self.pc = (hi as u16) << 8 | (lo as u16);
        } else {
            self.pc = self.read_u16(ptr);
        }
    }

    /// Pushes the return address and the status, sets I, and jumps through
    /// `vector`.
    fn interrupt(&mut self, vector: u16, return_addr: u16, software: bool)
        requires
            old(self).wf(),
        ensures
            *final(self) == old(self).interrupted(vector, return_addr, software),
            final(self).wf(),
    {
        self.stack_push_u16(return_addr);
        let flags = if software {
            self.status | BREAK
        } else {
            self.status & !BREAK
        };
        self.stack_push(flags | BREAK2);
        self.set_state(INTERRUPT_DISABLE, true);
        self.pc = self.read_u16(vector);
    }

    /// Moves `pc` past the operand bytes.
    fn advance(&mut self, bytes: u8)
        ensures
            *final(self) == old(self).advanced(bytes),
    {
        self.pc = ((self.pc as u32 + bytes as u32 + 0xffff) % 0x1_0000) as u16;
    }
}

impl CPU {
    /// An instruction that does not set `pc` itself.
    fn operate(&mut self, e: OpCode)
        requires
            old(self).wf(),
        ensures
            *final(self) == old(self).operated(e),
            final(self).wf(),
    {
        if is_data_op_exec(e.mnemonic) {
            self.operate_data(e);
        } else if is_shift_op_exec(e.mnemonic) {
            self.operate_shift(e);
        } else {
            self.operate_register(e);
        }
    }

    /// A load, store, arithmetic, logic or compare instruction.
    #[verifier::rlimit(100)]
    fn operate_data(&mut self, e: OpCode)
        requires
            old(self).wf(),
            is_data_op(e.mnemonic),
        ensures
            *final(self) == old(self).operated(e),
            final(self).wf(),
    {
        reveal(CPU::operated);
        let mode = e.mode;
        match e.mnemonic {
            Mnemonic::LDA => self.lda(mode),
            Mnemonic::LDX => self.ldx(mode),
            Mnemonic::LDY => self.ldy(mode),
            Mnemonic::STA => self.sta(mode),
            Mnemonic::STX => self.stx(mode),
            Mnemonic::STY => self.sty(mode),
            Mnemonic::ADC => self.adc(mode),
            Mnemonic::SBC => self.sbc(mode),
            Mnemonic::AND => self.and(mode),
            Mnemonic::EOR => self.xor(mode),
            Mnemonic::ORA => self.ior(mode),
            Mnemonic::CMP => {
                let a = self.register_a;
                self.compare(mode, a)
            },
            Mnemonic::CPX => {
                let x = self.register_x;
                self.compare(mode, x)
            },
            Mnemonic::CPY => {
                let y = self.register_y;
                self.compare(mode, y)
            },
            Mnemonic::BIT => self.bit(mode),
            _ => {},
        }
    }

    /// A shift or rotate, or a step of a byte in memory.
    #[verifier::rlimit(100)]
    fn operate_shift(&mut self, e: OpCode)
        requires
            old(self).wf(),
            is_shift_op(e.mnemonic),
        ensures
            *final(self) == old(self).operated(e),
            final(self).wf(),
    {
        reveal(CPU::operated);
        let mode = e.mode;
        match e.mnemonic {
            Mnemonic::ASL | Mnemonic::LSR | Mnemonic::ROL | Mnemonic::ROR => self.shift(e.mnemonic, mode),
            Mnemonic::INC => self.step_memory(mode, true),
            Mnemonic::DEC => self.step_memory(mode, false),
            _ => {},
        }
    }

    /// A register step, transfer, stack or flag instruction.
    #[verifier::rlimit(100)]
    fn operate_register(&mut self, e: OpCode)
        requires
            old(self).wf(),
            !is_data_op(e.mnemonic),
            !is_shift_op(e.mnemonic),
        ensures
            *final(self) == old(self).operated(e),
            final(self).wf(),
    {
        reveal(CPU::operated);
        let mode = e.mode;
        match e.mnemonic {
            Mnemonic::INX => self.set_reg_x(inc_byte(self.register_x)),
            Mnemonic::INY => self.set_reg_y(inc_byte(self.register_y)),
            Mnemonic::DEX => self.set_reg_x(dec_byte(self.register_x)),
            Mnemonic::DEY => self.set_reg_y(dec_byte(self.register_y)),
            Mnemonic::TAX => self.set_reg_x(self.register_a),
            Mnemonic::TAY => self.set_reg_y(self.register_a),
            Mnemonic::TXA => self.set_reg_a(self.register_x),
            Mnemonic::TYA => self.set_reg_a(self.register_y),
            Mnemonic::TSX => self.set_reg_x(self.sp),
            Mnemonic::TXS => self.sp = self.register_x,
            Mnemonic::PHA => self.stack_push(self.register_a),
            Mnemonic::PHP => {
                let flags = (self.status | BREAK) | BREAK2;
                self.stack_push(flags);
            },
            Mnemonic::PLA => {
                let v = self.stack_pop();
                self.set_reg_a(v);
            },
            Mnemonic::PLP => {
                let v = self.stack_pop();
                self.status = (v & !BREAK) | BREAK2;
            },
            Mnemonic::CLC => self.set_state(CARRY, false),
            Mnemonic::SEC => self.set_state(CARRY, true),
            Mnemonic::CLD => self.set_state(DECIMAL, false),
            Mnemonic::SED => self.set_state(DECIMAL, true),
            Mnemonic::CLI => self.set_state(INTERRUPT_DISABLE, false),
            Mnemonic::SEI => self.set_state(INTERRUPT_DISABLE, true),
            Mnemonic::CLV => self.set_state(OVERFLOW, false),
            _ => {},
        }
    }

    /// Executes one decoded instruction, `pc` just past its opcode byte;
    /// returns the cycles it took.
    fn execute(&mut self, e: OpCode) -> (cycles: u16)
        requires
            old(self).wf(),
        ensures
            (*final(self), cycles) == old(self).executed(e),
            final(self).wf(),
    {
        reveal(CPU::executed);
        let base = e.cycles as u16;
        match e.mnemonic {
            Mnemonic::BCC => {
                let c = self.status & CARRY == 0;
                base + self.branch(c)
            },
            Mnemonic::BCS => {
                let c = self.status & CARRY != 0;
                base + self.branch(c)
            },
            Mnemonic::BNE => {
                let c = self.status & ZERO == 0;
                base + self.branch(c)
            },
            Mnemonic::BEQ => {
                let c = self.status & ZERO != 0;
                base + self.branch(c)
            },
            Mnemonic::BPL => {
                let c = self.status & NEGATIVE == 0;
                base + self.branch(c)
            },
            Mnemonic::BMI => {
                let c = self.status & NEGATIVE != 0;
                base + self.branch(c)
            },
            Mnemonic::BVC => {
                let c = self.status & OVERFLOW == 0;
                base + self.branch(c)
            },
            Mnemonic::BVS => {
                let c = self.status & OVERFLOW != 0;
                base + self.branch(c)
            },
            Mnemonic::JMP => {
                if e.mode == AddressingMode::Absolute {
                    self.pc = self.read_u16(self.pc);
                } else {
                    self.jump_indirect();
                }
                base
            },
            Mnemonic::JSR => {
                let pc = self.pc;
                let target = self.read_u16(pc);
                self.stack_push_u16(((pc as u32 + 1) % 0x1_0000) as u16);
                self.pc = target;
                base
            },
            Mnemonic::RTS => {
                let w = self.stack_pop_u16();
                self.pc = ((w as u32 + 1) % 0x1_0000) as u16;
                base
            },
            Mnemonic::RTI => {
                let p = self.stack_pop();
                self.status = (p & !BREAK) | BREAK2;
                self.pc = self.stack_pop_u16();
                base
            },
            Mnemonic::BRK => {
                let ret = ((self.pc as u32 + 1) % 0x1_0000) as u16;
                self.interrupt(BRK_VECTOR, ret, true);
                base
            },
            _ => {
                self.operate(e);
                self.advance(e.bytes);
                base
            },
        }
    }

    fn finish(&self, done: Executed) -> (r: Result<Executed, Fault>)
        ensures
            (r, *self) == self.finished(done),
    {
        match self.bus.fault {
            Some(f) => Err(f),
            None => Ok(done),
        }
    }

    /// Runs one step: takes a pending NMI, or fetches, decodes and executes
    /// one instruction; then the clock runs for the cycles it took. A fault
    /// recorded by the bus, now or earlier, and an undocumented opcode end
    /// the step in an error.
    pub fn step(&mut self) -> (r: Result<Executed, Fault>)
        requires
            old(self).wf(),
        ensures
            (r, *final(self)) == old(self).stepped(),
            final(self).wf(),
    {
        reveal(CPU::stepped);
        if let Some(f) = self.bus.fault {
            return Err(f);
        }
        if self.bus.ppu.nmi_irq.is_some() {
            self.bus.poll_nmi_status();
            let pc = self.pc;
            self.interrupt(NMI_VECTOR, pc, false);
            self.bus.tick(NMI_CYCLES);
            return self.finish(Executed { opcode: None, cycles: NMI_CYCLES });
        }
        let pc = self.pc;
        let code = self.read_byte(pc);
        self.pc = ((pc as u32 + 1) % 0x1_0000) as u16;
        match decode(code) {
            None => Err(Fault::UnknownOpcode { pc, opcode: code }),
            Some(e) => {
                let cycles = self.execute(e);
                self.bus.tick(cycles);
                self.finish(Executed { opcode: Some(code), cycles })
            },
        }
    }

    /// Runs from `$0600` until a `BRK` has executed or a step fails (for at
    /// most `u64::MAX` steps).
    pub fn run(&mut self) -> (r: Result<(), Fault>)
        requires
            old(self).wf(),
        ensures
            (r, *final(self)) == (CPU { pc: CODE_START_ADDR, ..*old(self) }).ran(u64::MAX as nat),
            final(self).wf(),
    {
        self.pc = CODE_START_ADDR;
        let ghost start = *self;
        let mut fuel: u64 = u64::MAX;
        while fuel > 0
            invariant
                self.wf(),
                start == (CPU { pc: CODE_START_ADDR, ..*old(self) }),
                start.ran(u64::MAX as nat) == self.ran(fuel as nat),
            decreases fuel,
        {
            let ghost before = *self;
            let res = self.step();
            assert(before.ran(fuel as nat) == match res {
                Err(f) => (Err(f), *self),
                Ok(done) => if done.opcode == Some(0u8) {
                    (Ok(()), *self)
                } else {
                    self.ran((fuel - 1) as nat)
                },
            });
            match res {
                Err(f) => {
                    return Err(f);
                },
                Ok(done) => {
                    let was_brk = match done.opcode {
                        Some(op) => op == 0,
                        None => false,
                    };
                    if was_brk {
                        return Ok(());
                    }
                },
            }
            fuel = fuel - 1;
        }
        Ok(())
    }

    /// A CPU at power-on over a bus with no cartridge, `pc` at `$0600`.
    pub fn new() -> (r: Self)
        ensures
            r.wf(),
            r.register_a == 0 && r.register_x == 0 && r.register_y == 0,
            r.pc == CODE_START_ADDR,
            r.sp == STACK_RESET,
            r.status == STATUS_RESET,
            r.bus.cpu_vram@ == Seq::new(2048, |_i| 0u8),
            r.bus.prg_rom@.len() == 0,
            r.bus.fault is None,
            r.bus.ppu.nmi_irq is None,
    {
        CPU {
            register_a: 0,
            register_x: 0,
            register_y: 0,
            pc: CODE_START_ADDR,
            sp: STACK_RESET,
            status: STATUS_RESET,
            bus: Bus::new_empty(),
        }
    }

    /// A CPU at power-on over `bus`: reset, so `pc` comes from the reset
    /// vector.
    pub fn with_bus(bus: Bus) -> (r: Self)
        requires
            bus.wf(),
        ensures
            r == (CPU {
                register_a: 0,
                register_x: 0,
                register_y: 0,
                pc: 0,
                sp: STACK_RESET,
                status: STATUS_RESET,
                bus,
            }).after_reset(),
            r.wf(),
    {
        let mut cpu = CPU {
            register_a: 0,
            register_x: 0,
            register_y: 0,
            pc: 0,
            sp: STACK_RESET,
            status: STATUS_RESET,
            bus,
        };
        cpu.reset();
        cpu
    }

    /// Reset: registers cleared, SP at `$FD`, status `0b0010_0100`, `pc`
    /// from the reset vector at `$FFFC`.
    pub fn reset(&mut self)
        requires
            old(self).wf(),
        ensures
            *final(self) == old(self).after_reset(),
            final(self).wf(),
    {
        self.register_a = 0;
        self.register_x = 0;
        self.register_y = 0;
        self.status = STATUS_RESET;
        self.sp = STACK_RESET;
        self.pc = self.read_u16(RESET_VECTOR);
    }

    /// Copies `program` into RAM from `$0600` on; it must fit below `$0800`.
    pub fn load_program(&mut self, program: &Vec<u8>)
        requires
            old(self).wf(),
            program.len() <= 0x200,
        ensures
            *final(self) == old(self).loaded_prefix(program@, program.len() as nat),
            final(self).bus.cpu_vram@ == old(self).bus.cpu_vram@.subrange(0, 0x600) + program@
                + old(self).bus.cpu_vram@.subrange(0x600 + program.len(), 0x800),
            *final(self) == (CPU { bus: Bus { cpu_vram: final(self).bus.cpu_vram, ..old(self).bus }, ..*old(self) }),
            final(self).wf(),
    {
        let mut i: usize = 0;
        while i < program.len()
            invariant
                self.wf(),
                program.len() <= 0x200,
                0 <= i <= program.len(),
                *self == old(self).loaded_prefix(program@, i as nat),
                self.bus.cpu_vram@ == old(self).bus.cpu_vram@.subrange(0, 0x600) + program@.subrange(0, i as int)
                    + old(self).bus.cpu_vram@.subrange(0x600 + i, 0x800),
                *self == (CPU { bus: Bus { cpu_vram: self.bus.cpu_vram, ..old(self).bus }, ..*old(self) }),
            decreases program.len() - i,
        {
            let addr: u16 = CODE_START_ADDR + i as u16;
            let ghost before = *self;
            proof {
                lemma_ram_access(self.bus, addr, program@[i as int]);
            }
            self.write_byte(addr, program[i]);
            assert(self.bus.cpu_vram@ =~= old(self).bus.cpu_vram@.subrange(0, 0x600) + program@.subrange(0, i + 1)
                + old(self).bus.cpu_vram@.subrange(0x600 + i + 1, 0x800));
            i = i + 1;
        }
        assert(program@.subrange(0, program.len() as int) =~= program@);
    }

    /// Loads `program` at `$0600` and runs it.
    pub fn load_and_run(&mut self, program: Vec<u8>) -> (r: Result<(), Fault>)
        requires
            old(self).wf(),
            program.len() <= 0x200,
        ensures
            (r, *final(self)) == (CPU {
                pc: CODE_START_ADDR,
                ..old(self).loaded_prefix(program@, program.len() as nat)
            }).ran(u64::MAX as nat),
            final(self).wf(),
    {
        self.load_program(&program);
        self.run()
    }

    /// Loads `program` at `$0600`, resets, and runs it.
    pub fn load_run_reset(&mut self, program: Vec<u8>) -> (r: Result<(), Fault>)
        requires
            old(self).wf(),
            program.len() <= 0x200,
        ensures
            (r, *final(self)) == (CPU {
                pc: CODE_START_ADDR,
                ..old(self).loaded_prefix(program@, program.len() as nat).after_reset()
            }).ran(u64::MAX as nat),
            final(self).wf(),
    {
        self.load_program(&program);
        self.reset();
        self.run()
    }
}


/// The instructions that read or write an operand through an addressing
/// mode and touch no more than A, X, Y and the flags.
pub open spec fn is_data_op(m: Mnemonic) -> bool {
    match m {
        Mnemonic::LDA | Mnemonic::LDX | Mnemonic::LDY | Mnemonic::STA | Mnemonic::STX
        | Mnemonic::STY | Mnemonic::ADC | Mnemonic::SBC | Mnemonic::AND | Mnemonic::EOR
        | Mnemonic::ORA | Mnemonic::CMP | Mnemonic::CPX | Mnemonic::CPY | Mnemonic::BIT => true,
        _ => false,
    }
}

fn is_data_op_exec(m: Mnemonic) -> (r: bool)
    ensures
        r == is_data_op(m),
{
    match m {
        Mnemonic::LDA | Mnemonic::LDX | Mnemonic::LDY | Mnemonic::STA | Mnemonic::STX
        | Mnemonic::STY | Mnemonic::ADC | Mnemonic::SBC | Mnemonic::AND | Mnemonic::EOR
        | Mnemonic::ORA | Mnemonic::CMP | Mnemonic::CPX | Mnemonic::CPY | Mnemonic::BIT => true,
        _ => false,
    }
}

/// The read-modify-write instructions: shifts, rotates, `INC`, `DEC`.
pub open spec fn is_shift_op(m: Mnemonic) -> bool {
    match m {
        Mnemonic::ASL | Mnemonic::LSR | Mnemonic::ROL | Mnemonic::ROR | Mnemonic::INC
        | Mnemonic::DEC => true,
        _ => false,
    }
}

fn is_shift_op_exec(m: Mnemonic) -> (r: bool)
    ensures
        r == is_shift_op(m),
{
    match m {
        Mnemonic::ASL | Mnemonic::LSR | Mnemonic::ROL | Mnemonic::ROR | Mnemonic::INC
        | Mnemonic::DEC => true,
        _ => false,
    }
}

/// `b + 1`, wrapping.
fn inc_byte(b: u8) -> (r: u8)
    ensures
        r == wrap8(b + 1),
{
    if b == 255 {
        0
    } else {
        b + 1
    }
}

/// `b - 1`, wrapping.
fn dec_byte(b: u8) -> (r: u8)
    ensures
        r == wrap8(b - 1),
{
    if b == 0 {
        255
    } else {
        b - 1
    }
}

/// The overflow test on bits is the test on signs.
proof fn lemma_adc_overflow_bits(a: u8, m: u8, r: u8)
    ensures
        ((m ^ r) & (r ^ a) & 0x80 != 0) == adc_overflow(a, m, r),
{
    assert(((m ^ r) & (r ^ a) & 0x80 != 0) == ((a >= 128) == (m >= 128) && (r >= 128) != (a >= 128)))
        by (bit_vector);
}

impl Mem for CPU {
    open spec fn ready(&self) -> bool {
        self.wf()
    }

    open spec fn read_value(&self, addr: u16) -> u8 {
        self.read(addr).0
    }

    open spec fn after_read(&self, addr: u16) -> CPU {
        self.read(addr).1
    }

    open spec fn after_write(&self, addr: u16, data: u8) -> CPU {
        self.write(addr, data)
    }

    fn mem_read(&mut self, addr: u16) -> (r: u8) {
        self.bus.mem_read(addr)
    }

    fn mem_write(&mut self, addr: u16, data: u8) {
        self.bus.mem_write(addr, data);
    }
}

/// `0` or `1` for a flag.
pub open spec fn bit_value(b: bool) -> int {
    if b {
        1
    } else {
        0
    }
}

/// `ADC` adds exactly: the new A plus 256 times the new carry is the old A
/// plus the operand plus the old carry.
pub proof fn lemma_adc_adds(cpu: CPU, m: u8)
    ensures
        cpu.added(m).register_a + 256 * bit_value(cpu.added(m).flag(CARRY)) == cpu.register_a + m
            + bit_value(cpu.flag(CARRY)),
{
    let sum = adc_sum(cpu.register_a, m, cpu.flag(CARRY));
    let r = wrap8(sum);
    let s1 = with_bits(cpu.status, CARRY, sum > 255);
    let s2 = with_bits(s1, OVERFLOW, adc_overflow(cpu.register_a, m, r));
    let s3 = with_bits(s2, ZERO, r == 0);
    lemma_with_bits(cpu.status, CARRY, sum > 255, CARRY);
    lemma_with_bits(s1, OVERFLOW, adc_overflow(cpu.register_a, m, r), CARRY);
    lemma_with_bits(s2, ZERO, r == 0, CARRY);
    lemma_with_bits(s3, NEGATIVE, r >= 128, CARRY);
}

/// A push followed by a pull gives back the byte pushed and leaves SP where
/// it was.
pub proof fn lemma_push_pop(cpu: CPU, v: u8)
    ensures
        cpu.pushed(v).popped().0 == v,
        cpu.pushed(v).popped().1.sp == cpu.sp,
{
    let addr = (STACK + cpu.sp) as u16;
    lemma_ram_access(cpu.bus, addr, v);
    let pushed = cpu.pushed(v);
    assert(wrap8(pushed.sp + 1) == cpu.sp);
    lemma_ram_access(pushed.bus, addr, v);
}

} // verus!
