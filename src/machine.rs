use vstd::prelude::*;

use crate::memory::{le_word, loaded_image, next_addr, MEMORY_SIZE, PROGRAM_BASE, RESET_VECTOR};
use crate::opcodes::{opcode_table, AddressingMode, Instruction, Opcode};

verus! {

/// Carry flag mask of the status byte.
pub const FLAG_C: u8 = 0b0000_0001;

/// Zero flag mask of the status byte.
pub const FLAG_Z: u8 = 0b0000_0010;

/// Interrupt-disable flag mask of the status byte.
pub const FLAG_I: u8 = 0b0000_0100;

/// Decimal-mode flag mask of the status byte.
pub const FLAG_D: u8 = 0b0000_1000;

/// Break flag mask of the status byte.
pub const FLAG_B: u8 = 0b0001_0000;

/// Overflow flag mask of the status byte.
pub const FLAG_V: u8 = 0b0100_0000;

/// Negative flag mask of the status byte.
pub const FLAG_N: u8 = 0b1000_0000;

/// First address of the stack page.
pub const STACK_BASE: u16 = 0x0100;

/// Stack pointer after a reset.
pub const SP_INITIAL: u8 = 0xFD;

/// Most instructions `run` executes before it gives up on reaching a halt.
pub const RUN_LIMIT: u64 = 0xFFFF_FFFF_FFFF_FFFF;

/// What a single instruction left the processor doing.
#[derive(Clone, Copy, Debug, PartialEq, Eq, Structural)]
pub enum StepOutcome {
    /// The next instruction can be fetched.
    Running,
    /// A BRK was executed.
    Halted,
}

/// A fault that stops execution.
#[derive(Clone, Copy, Debug, PartialEq, Eq, Structural)]
pub enum CpuError {
    /// The byte at `pc` is not an opcode of the table.
    UnsupportedOpcode { opcode: u8, pc: u16 },
    /// The descriptor pairs its operation with an addressing mode (or a
    /// length) that the operation cannot be carried out with.
    InvalidAddressingMode { operation: Opcode, mode: AddressingMode },
}

/// `i` reduced to 8 bits.
pub open spec fn wrap8(i: int) -> u8 {
    (i % 256) as u8
}

/// `i` reduced to 16 bits.
pub open spec fn wrap16(i: int) -> u16 {
    (i % 0x10000) as u16
}

/// Bit 7 of `v`.
pub open spec fn is_negative(v: u8) -> bool {
    v >= 0x80
}

/// `v` read as a two's-complement signed byte.
pub open spec fn signed(v: u8) -> int {
    if v >= 0x80 {
        v - 256
    } else {
        v as int
    }
}

/// The flag selected by `mask` is set in `status`.
pub open spec fn flag(status: u8, mask: u8) -> bool {
    status & mask != 0
}

/// `status` with the flag selected by `mask` set when `on`, cleared otherwise.
pub open spec fn with_flag(status: u8, mask: u8, on: bool) -> u8 {
    if on {
        status | mask
    } else {
        status & !mask
    }
}

/// `status` with Z and N describing `v`.
pub open spec fn with_zn(status: u8, v: u8) -> u8 {
    with_flag(with_flag(status, FLAG_Z, v == 0), FLAG_N, is_negative(v))
}

/// `status` after comparing `register` with `value`.
pub open spec fn compared(status: u8, register: u8, value: u8) -> u8 {
    with_flag(
        with_flag(with_flag(status, FLAG_C, register >= value), FLAG_Z, register == value),
        FLAG_N,
        is_negative(wrap8(register - value)),
    )
}

/// The carry flag (bit 0 of the status byte) as a number.
pub open spec fn carry_bit(status: u8) -> u8 {
    status % 2
}

/// Result and carry out of ASL.
pub open spec fn shift_left(v: u8) -> (u8, bool) {
    (wrap8(v * 2), is_negative(v))
}

/// Result and carry out of LSR.
pub open spec fn shift_right(v: u8) -> (u8, bool) {
    ((v / 2) as u8, v % 2 == 1)
}

/// Result and carry out of ROL with carry in `c`.
pub open spec fn rotate_left(v: u8, c: u8) -> (u8, bool) {
    (wrap8(v * 2 + c), is_negative(v))
}

/// Result and carry out of ROR with carry in `c`.
pub open spec fn rotate_right(v: u8, c: u8) -> (u8, bool) {
    ((v / 2 + 128 * c) as u8, v % 2 == 1)
}

/// Result and carry out of the shift or rotate `op` on `v`, with carry in `c`.
pub open spec fn shift_result(op: Opcode, v: u8, c: u8) -> (u8, bool) {
    match op {
        Opcode::ASL => shift_left(v),
        Opcode::LSR => shift_right(v),
        Opcode::ROL => rotate_left(v, c),
        _ => rotate_right(v, c),
    }
}

/// `new` has Z set exactly when `v` is zero and N set exactly when bit 7 of
/// `v` is set, and its other six bits are those of `old`.
pub open spec fn zn_reflects(new: u8, old: u8, v: u8) -> bool {
    &&& flag(new, FLAG_Z) == (v == 0)
    &&& flag(new, FLAG_N) == (v & 0x80 != 0)
    &&& flag(new, FLAG_N) == (v >= 0x80)
    &&& new & 0b0111_1101 == old & 0b0111_1101
}

/// `new` holds the flags of comparing `r` with `v`: C exactly when `r >= v`,
/// Z exactly when `r == v` (so never Z without C), N from bit 7 of `r - v`;
/// its other five bits are those of `old`.
pub open spec fn compare_reflects(new: u8, old: u8, r: u8, v: u8) -> bool {
    &&& flag(new, FLAG_C) == (r >= v)
    &&& flag(new, FLAG_Z) == (r == v)
    &&& (flag(new, FLAG_Z) ==> flag(new, FLAG_C))
    &&& flag(new, FLAG_N) == (wrap8(r - v) & 0x80 != 0)
    &&& flag(new, FLAG_N) == (wrap8(r - v) >= 0x80)
    &&& new & 0b0111_1100 == old & 0b0111_1100
}

/// `new` holds the flags of a shift or rotate with result `r` and carry out
/// `c`; its other five bits are those of `old`.
pub open spec fn shift_reflects(new: u8, old: u8, r: u8, c: bool) -> bool {
    &&& flag(new, FLAG_C) == c
    &&& flag(new, FLAG_Z) == (r == 0)
    &&& flag(new, FLAG_N) == (r & 0x80 != 0)
    &&& flag(new, FLAG_N) == (r >= 0x80)
    &&& new & 0b0111_1100 == old & 0b0111_1100
}

/// `new` has the flag of `mask` set exactly when `on`; its other bits are
/// those of `old`.
pub open spec fn flag_reflects(new: u8, old: u8, mask: u8, on: bool) -> bool {
    &&& flag(new, mask) == on
    &&& new & !mask == old & !mask
}

/// One of the seven flag masks of the status byte.
pub open spec fn is_flag_mask(mask: u8) -> bool {
    mask == FLAG_C || mask == FLAG_Z || mask == FLAG_I || mask == FLAG_D || mask == FLAG_B
        || mask == FLAG_V || mask == FLAG_N
}

/// Setting Z and N from `v` describes `v` and keeps the other flags.
pub proof fn lemma_zn_reflects(status: u8, v: u8)
    ensures
        zn_reflects(with_zn(status, v), status, v),
{
    assert(zn_reflects(with_zn(status, v), status, v)) by (bit_vector);
}

/// Comparing a register value `r` with an operand `v` sets C exactly when
/// `r >= v` and Z exactly when `r == v`, so Z never comes without C.
pub proof fn lemma_compare_reflects(status: u8, r: u8, v: u8)
    ensures
        compare_reflects(compared(status, r, v), status, r, v),
{
    let d = wrap8(r - v);
    let s = compared(status, r, v);
    assert(flag(s, FLAG_C) == (r >= v) && flag(s, FLAG_Z) == (r == v)
        && s & 0b0111_1100 == status & 0b0111_1100) by (bit_vector)
        requires
            s == compared(status, r, v),
    ;
    assert(flag(s, FLAG_N) == (d & 0x80 != 0) && flag(s, FLAG_N) == (d >= 0x80)) by (bit_vector)
        requires
            d == wrap8(r - v),
            s == compared(status, r, v),
    ;
}

/// A shift or rotate leaves its carry out in C, sets Z and N from its
/// result, and keeps the other flags.
pub proof fn lemma_shift_reflects(status: u8, r: u8, c: bool)
    ensures
        shift_reflects(with_zn(with_flag(status, FLAG_C, c), r), status, r, c),
{
    assert(shift_reflects(with_zn(with_flag(status, FLAG_C, c), r), status, r, c)) by (bit_vector);
}

/// Setting or clearing one flag changes no other bit.
pub proof fn lemma_flag_reflects(status: u8, mask: u8, on: bool)
    requires
        is_flag_mask(mask),
    ensures
        flag_reflects(with_flag(status, mask, on), status, mask, on),
{
    assert(flag_reflects(with_flag(status, mask, on), status, mask, on)) by (bit_vector)
        requires
            is_flag_mask(mask),
    ;
}

/// The registers, status byte and memory of the processor.
pub ghost struct Machine {
    pub a: u8,
    pub x: u8,
    pub y: u8,
    pub sp: u8,
    pub pc: u16,
    pub status: u8,
    pub mem: Seq<u8>,
}

impl Machine {
    /// The memory spans the whole address space.
    pub open spec fn wf(self) -> bool {
        self.mem.len() == MEMORY_SIZE
    }

    pub open spec fn read(self, addr: u16) -> u8 {
        self.mem[addr as int]
    }

    pub open spec fn word(self, addr: u16) -> u16 {
        le_word(self.read(addr), self.read(next_addr(addr)))
    }

    /// The word stored in page zero at `ptr` and `ptr + 1`, the second
    /// address wrapping inside the page.
    pub open spec fn zero_page_word(self, ptr: u8) -> u16 {
        le_word(self.read(ptr as u16), self.read(wrap8(ptr + 1) as u16))
    }

    /// The effective address that `mode` computes from the operand bytes at
    /// `pc`; only meaningful for the modes that compute one.
    pub open spec fn operand_address(self, mode: AddressingMode) -> u16 {
        match mode {
            AddressingMode::Immediate => self.pc,
            AddressingMode::ZeroPage => self.read(self.pc) as u16,
            AddressingMode::ZeroPage_X => wrap8(self.read(self.pc) + self.x) as u16,
            AddressingMode::ZeroPage_Y => wrap8(self.read(self.pc) + self.y) as u16,
            AddressingMode::Absolute => self.word(self.pc),
            AddressingMode::Absolute_X => wrap16(self.word(self.pc) + self.x),
            AddressingMode::Absolute_Y => wrap16(self.word(self.pc) + self.y),
            AddressingMode::Indirect_X => self.zero_page_word(wrap8(self.read(self.pc) + self.x)),
            AddressingMode::Indirect_Y => wrap16(self.zero_page_word(self.read(self.pc)) + self.y),
            _ => 0,
        }
    }

    pub open spec fn operand(self, mode: AddressingMode) -> u8 {
        self.read(self.operand_address(mode))
    }

    pub open spec fn write(self, addr: u16, v: u8) -> Machine {
        Machine { mem: self.mem.update(addr as int, v), ..self }
    }

    pub open spec fn push(self, v: u8) -> Machine {
        Machine {
            mem: self.mem.update(STACK_BASE + self.sp, v),
            sp: wrap8(self.sp - 1),
            ..self
        }
    }

    /// The machine after a pull, and the byte pulled.
    pub open spec fn pop(self) -> (Machine, u8) {
        let sp = wrap8(self.sp + 1);
        (Machine { sp, ..self }, self.mem[STACK_BASE + sp])
    }

    /// Pushes the high byte, then the low byte.
    pub open spec fn push_word(self, w: u16) -> Machine {
        self.push((w / 256) as u8).push((w % 256) as u8)
    }

    /// Pulls the low byte, then the high byte.
    pub open spec fn pop_word(self) -> (Machine, u16) {
        let (m1, lo) = self.pop();
        let (m2, hi) = m1.pop();
        (m2, le_word(lo, hi))
    }

    pub open spec fn set_a_zn(self, v: u8) -> Machine {
        Machine { a: v, status: with_zn(self.status, v), ..self }
    }

    pub open spec fn set_x_zn(self, v: u8) -> Machine {
        Machine { x: v, status: with_zn(self.status, v), ..self }
    }

    pub open spec fn set_y_zn(self, v: u8) -> Machine {
        Machine { y: v, status: with_zn(self.status, v), ..self }
    }

    pub open spec fn set_flag(self, mask: u8, on: bool) -> Machine {
        Machine { status: with_flag(self.status, mask, on), ..self }
    }

    /// ADC with operand `v` (SBC passes the complement of its operand).
    pub open spec fn add_with_carry(self, v: u8) -> Machine {
        let sum = self.a + v + carry_bit(self.status);
        let r = wrap8(sum);
        let overflow = is_negative(self.a) == is_negative(v) && is_negative(r) != is_negative(self.a);
        Machine {
            a: r,
            status: with_zn(with_flag(with_flag(self.status, FLAG_C, sum > 255), FLAG_V, overflow), r),
            ..self
        }
    }

    pub open spec fn bit_test(self, v: u8) -> Machine {
        Machine {
            status: with_flag(
                with_flag(with_flag(self.status, FLAG_Z, self.a & v == 0), FLAG_N, is_negative(v)),
                FLAG_V,
                (v / 64) % 2 == 1,
            ),
            ..self
        }
    }

    /// The byte a shift or rotate in `mode` works on.
    pub open spec fn shift_operand(self, mode: AddressingMode) -> u8 {
        if mode is Accumulator {
            self.a
        } else {
            self.read(self.operand_address(mode))
        }
    }

    /// Applies the shift or rotate `op` to the accumulator or to the byte at
    /// the effective address.
    pub open spec fn shifted(self, op: Opcode, mode: AddressingMode) -> Machine {
        if mode is Accumulator {
            let (r, c) = shift_result(op, self.a, carry_bit(self.status));
            Machine { a: r, status: with_zn(with_flag(self.status, FLAG_C, c), r), ..self }
        } else {
            let addr = self.operand_address(mode);
            let (r, c) = shift_result(op, self.read(addr), carry_bit(self.status));
            Machine {
                mem: self.mem.update(addr as int, r),
                status: with_zn(with_flag(self.status, FLAG_C, c), r),
                ..self
            }
        }
    }

    /// Increments (`delta == 1`) or decrements (`delta == -1`) the byte at the
    /// effective address.
    pub open spec fn step_memory(self, mode: AddressingMode, delta: int) -> Machine {
        let addr = self.operand_address(mode);
        let r = wrap8(self.read(addr) + delta);
        Machine { mem: self.mem.update(addr as int, r), status: with_zn(self.status, r), ..self }
    }

    pub open spec fn jump(self, mode: AddressingMode) -> Machine {
        if mode is NoneAddressing {
            Machine { pc: self.word(self.word(self.pc)), ..self }
        } else {
            Machine { pc: self.operand_address(mode), ..self }
        }
    }

    /// JSR: pushes the address two past `pc`, then jumps.
    pub open spec fn jump_to_subroutine(self, mode: AddressingMode) -> Machine {
        let target = self.operand_address(mode);
        Machine { pc: target, ..self.push_word(wrap16(self.pc + 2)) }
    }

    /// RTS: pulls a word and sets `pc` one below it.
    pub open spec fn return_from_subroutine(self) -> Machine {
        let (m, w) = self.pop_word();
        Machine { pc: wrap16(w - 1), ..m }
    }

    /// RTI: pulls the status byte, then `pc`.
    pub open spec fn return_from_interrupt(self) -> Machine {
        let (m1, s) = self.pop();
        let (m2, w) = Machine { status: s, ..m1 }.pop_word();
        Machine { pc: w, ..m2 }
    }

    /// The condition a branch operation tests; false for the others.
    pub open spec fn branch_taken(self, op: Opcode) -> bool {
        match op {
            Opcode::BCC => !flag(self.status, FLAG_C),
            Opcode::BCS => flag(self.status, FLAG_C),
            Opcode::BNE => !flag(self.status, FLAG_Z),
            Opcode::BEQ => flag(self.status, FLAG_Z),
            Opcode::BPL => !flag(self.status, FLAG_N),
            Opcode::BMI => flag(self.status, FLAG_N),
            Opcode::BVC => !flag(self.status, FLAG_V),
            Opcode::BVS => flag(self.status, FLAG_V),
            _ => false,
        }
    }

    /// What an instruction does to the machine, `pc` pointing just past its
    /// opcode byte, before `pc` moves past its operand bytes.
    pub open spec fn effect(self, ins: Instruction) -> Machine {
        let mode = ins.addressing_mode;
        match ins.opcode {
            Opcode::ADC => self.add_with_carry(self.operand(mode)),
            Opcode::SBC => self.add_with_carry((255 - self.operand(mode)) as u8),
            Opcode::AND => self.set_a_zn(self.a & self.operand(mode)),
            Opcode::ORA => self.set_a_zn(self.a | self.operand(mode)),
            Opcode::EOR => self.set_a_zn(self.a ^ self.operand(mode)),
            Opcode::BIT => self.bit_test(self.operand(mode)),
            Opcode::ASL => self.shifted(Opcode::ASL, mode),
            Opcode::LSR => self.shifted(Opcode::LSR, mode),
            Opcode::ROL => self.shifted(Opcode::ROL, mode),
            Opcode::ROR => self.shifted(Opcode::ROR, mode),
            Opcode::CMP => Machine { status: compared(self.status, self.a, self.operand(mode)), ..self },
            Opcode::CPX => Machine { status: compared(self.status, self.x, self.operand(mode)), ..self },
            Opcode::CPY => Machine { status: compared(self.status, self.y, self.operand(mode)), ..self },
            Opcode::INC => self.step_memory(mode, 1),
            Opcode::DEC => self.step_memory(mode, -1),
            Opcode::INX => self.set_x_zn(wrap8(self.x + 1)),
            Opcode::INY => self.set_y_zn(wrap8(self.y + 1)),
            Opcode::DEX => self.set_x_zn(wrap8(self.x - 1)),
            Opcode::DEY => self.set_y_zn(wrap8(self.y - 1)),
            Opcode::LDA => self.set_a_zn(self.operand(mode)),
            Opcode::LDX => self.set_x_zn(self.operand(mode)),
            Opcode::LDY => self.set_y_zn(self.operand(mode)),
            Opcode::STA => self.write(self.operand_address(mode), self.a),
            Opcode::STX => self.write(self.operand_address(mode), self.x),
            Opcode::STY => self.write(self.operand_address(mode), self.y),
            Opcode::PHA => self.push(self.a),
            Opcode::PHP => self.push(self.status),
            Opcode::PLA => {
                let (m, v) = self.pop();
                m.set_a_zn(v)
            },
            Opcode::PLP => {
                let (m, v) = self.pop();
                Machine { status: v, ..m }
            },
            Opcode::TAX => self.set_x_zn(self.a),
            Opcode::TAY => self.set_y_zn(self.a),
            Opcode::TSX => self.set_x_zn(self.sp),
            Opcode::TXA => self.set_a_zn(self.x),
            Opcode::TYA => self.set_a_zn(self.y),
            Opcode::TXS => Machine { sp: self.x, ..self },
            Opcode::SEC => self.set_flag(FLAG_C, true),
            Opcode::CLC => self.set_flag(FLAG_C, false),
            Opcode::SED => self.set_flag(FLAG_D, true),
            Opcode::CLD => self.set_flag(FLAG_D, false),
            Opcode::SEI => self.set_flag(FLAG_I, true),
            Opcode::CLI => self.set_flag(FLAG_I, false),
            Opcode::CLV => self.set_flag(FLAG_V, false),
            Opcode::JMP => self.jump(mode),
            Opcode::JSR => self.jump_to_subroutine(mode),
            Opcode::RTS => self.return_from_subroutine(),
            Opcode::RTI => self.return_from_interrupt(),
            _ => self,
        }
    }

    /// `pc` moved past the operand bytes of `ins`.
    pub open spec fn advance(self, ins: Instruction) -> Machine {
        Machine { pc: wrap16(self.pc + ins.bytes - 1), ..self }
    }

    /// The machine after `ins` ran, `pc` pointing just past its opcode byte.
    /// Jumps set `pc` themselves; a taken branch adds its signed operand to
    /// the address past the instruction; every other instruction ends with
    /// `pc` past its operand bytes.
    #[verifier::opaque]
    pub open spec fn next_state(self, ins: Instruction) -> Machine {
        match ins.opcode {
            Opcode::JMP | Opcode::JSR => self.effect(ins),
            Opcode::BCC | Opcode::BCS | Opcode::BEQ | Opcode::BNE | Opcode::BPL | Opcode::BMI
            | Opcode::BVC | Opcode::BVS => {
                let m = self.advance(ins);
                if self.branch_taken(ins.opcode) {
                    Machine { pc: wrap16(m.pc + signed(self.read(self.pc))), ..m }
                } else {
                    m
                }
            },
            _ => self.effect(ins).advance(ins),
        }
    }

    /// The machine after a reset: A, X, Y and the status byte zeroed, the
    /// stack pointer at its initial value, `pc` read from the reset vector.
    pub open spec fn reset(self) -> Machine {
        Machine { a: 0, x: 0, y: 0, status: 0, sp: SP_INITIAL, pc: self.word(RESET_VECTOR), ..self }
    }

    /// The machine with `program` loaded at the program base.
    pub open spec fn with_program(self, program: Seq<u8>) -> Machine {
        Machine { mem: loaded_image(self.mem, program, PROGRAM_BASE), ..self }
    }

    /// Fetch, decode and execute of one instruction.
    pub open spec fn step_spec(self) -> (Machine, Result<StepOutcome, CpuError>) {
        let code = self.read(self.pc);
        match opcode_table(code) {
            None => (self, Err(CpuError::UnsupportedOpcode { opcode: code, pc: self.pc })),
            Some(ins) => {
                let m = Machine { pc: wrap16(self.pc + 1), ..self };
                if ins.opcode is BRK {
                    (m, Ok(StepOutcome::Halted))
                } else {
                    (m.next_state(ins), Ok(StepOutcome::Running))
                }
            },
        }
    }

    /// Steps until a halt or a fault, or until `fuel` instructions have run;
    /// `Ok(Running)` when the fuel ran out first.
    pub open spec fn run_spec(self, fuel: nat) -> (Machine, Result<StepOutcome, CpuError>)
        decreases fuel,
    {
        if fuel == 0 {
            (self, Ok(StepOutcome::Running))
        } else {
            let (m, r) = self.step_spec();
            if r == Ok::<StepOutcome, CpuError>(StepOutcome::Running) {
                m.run_spec((fuel - 1) as nat)
            } else {
                (m, r)
            }
        }
    }

    /// Runs until a halt or a fault (or `RUN_LIMIT` instructions); the
    /// fault, if any, is the error.
    pub open spec fn run_to_halt(self) -> (Machine, Result<(), CpuError>) {
        let (m, r) = self.run_spec(RUN_LIMIT as nat);
        match r {
            Err(e) => (m, Err(e)),
            Ok(_) => (m, Ok(())),
        }
    }
}

} // verus!
