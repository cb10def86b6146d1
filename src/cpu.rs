use vstd::prelude::*;

use crate::machine::{
    flag_reflects, lemma_flag_reflects, lemma_zn_reflects, signed, wrap16, zn_reflects, RUN_LIMIT, with_zn, CpuError, Machine, StepOutcome, FLAG_B, FLAG_C, FLAG_D, FLAG_I, FLAG_N,
    FLAG_V, FLAG_Z, SP_INITIAL, STACK_BASE,
};
use crate::memory::{Memory, MEMORY_SIZE, PROGRAM_BASE, RESET_VECTOR};
use crate::opcodes::{lookup, AddressingMode, Instruction, Opcode};

pub mod instructions;

verus! {

/// A flag of the status byte.
#[derive(Clone, Copy, Debug, PartialEq, Eq, Structural)]
pub enum StatusFlag {
    C,
    Z,
    I,
    D,
    B,
    V,
    N,
}

impl StatusFlag {
    pub open spec fn spec_mask(&self) -> u8 {
        match self {
            StatusFlag::C => FLAG_C,
            StatusFlag::Z => FLAG_Z,
            StatusFlag::I => FLAG_I,
            StatusFlag::D => FLAG_D,
            StatusFlag::B => FLAG_B,
            StatusFlag::V => FLAG_V,
            StatusFlag::N => FLAG_N,
        }
    }

    /// The bit of the status byte that holds this flag.
    #[verifier::when_used_as_spec(spec_mask)]
    pub fn mask(&self) -> (r: u8)
        ensures
            r == self.spec_mask(),
    {
        match self {
            StatusFlag::C => FLAG_C,
            StatusFlag::Z => FLAG_Z,
            StatusFlag::I => FLAG_I,
            StatusFlag::D => FLAG_D,
            StatusFlag::B => FLAG_B,
            StatusFlag::V => FLAG_V,
            StatusFlag::N => FLAG_N,
        }
    }
}

/// The processor: registers, status byte and the memory it runs against.
pub struct CPU {
    pub register_a: u8,
    pub register_x: u8,
    pub register_y: u8,
    pub stack_pointer: u8,
    pub program_counter: u16,
    pub status: u8,
    pub memory: Memory,
}

impl View for CPU {
    type V = Machine;

    open spec fn view(&self) -> Machine {
        Machine {
            a: self.register_a,
            x: self.register_x,
            y: self.register_y,
            sp: self.stack_pointer,
            pc: self.program_counter,
            status: self.status,
            mem: self.memory@,
        }
    }
}

impl CPU {
    /// The memory spans the whole address space.
    pub open spec fn wf(&self) -> bool {
        self.memory.wf()
    }

    /// All registers zero, memory zeroed.
    pub fn new() -> (cpu: CPU)
        ensures
            cpu.wf(),
            cpu@.a == 0 && cpu@.x == 0 && cpu@.y == 0,
            cpu@.sp == 0 && cpu@.pc == 0 && cpu@.status == 0,
            cpu@.mem.len() == MEMORY_SIZE,
            forall|i: int| 0 <= i < MEMORY_SIZE ==> #[trigger] cpu@.mem[i] == 0,
    {
        CPU {
            register_a: 0,
            register_x: 0,
            register_y: 0,
            stack_pointer: 0,
            status: 0,
            program_counter: 0,
            memory: Memory::new(),
        }
    }

    /// A well-formed processor's model has a full memory image.
    pub proof fn lemma_view_wf(&self)
        requires
            self.wf(),
        ensures
            self@.wf(),
    {
    }

    /// Zeroes A, X, Y and the status byte, sets the stack pointer to its initial
    /// value and loads `pc` from the reset vector.
    pub fn reset(&mut self)
        requires
            old(self).wf(),
        ensures
            final(self).wf(),
            final(self)@ == old(self)@.reset(),
    {
        self.register_a = 0;
        self.register_x = 0;
        self.register_y = 0;
        self.status = 0;
        self.stack_pointer = SP_INITIAL;
        self.program_counter = self.memory.read_u16(RESET_VECTOR);
    }

    /// The memory the processor runs against.
    pub fn memory(&self) -> (r: &Memory)
        ensures
            r@ == self@.mem,
            r.wf() == self.wf(),
    {
        &self.memory
    }

    /// Copies `program` into memory at the program base and points the reset
    /// vector there.
    pub fn load(&mut self, program: Vec<u8>)
        requires
            old(self).wf(),
            program@.len() <= MEMORY_SIZE - PROGRAM_BASE,
        ensures
            final(self).wf(),
            final(self)@ == old(self)@.with_program(program@),
    {
        self.memory.load(program);
    }

    /// Loads `program`, resets, and runs until a halt or a fault.
    pub fn load_and_run(&mut self, program: Vec<u8>) -> (r: Result<(), CpuError>)
        requires
            old(self).wf(),
            program@.len() <= MEMORY_SIZE - PROGRAM_BASE,
        ensures
            final(self).wf(),
            (final(self)@, r) == old(self)@.with_program(program@).reset().run_to_halt(),
    {
        self.load(program);
        self.reset();
        self.run()
    }

    #[verifier::rlimit(30)]
    /// The effective address of the operand of an instruction in `mode`,
    /// `pc` pointing at its first operand byte.
    pub fn get_operand_address(&self, mode: &AddressingMode) -> (r: u16)
        requires
            self.wf(),
            mode.is_addressed(),
        ensures
            r == self@.operand_address(*mode),
    {
        let pc = self.program_counter;
        match mode {
            AddressingMode::Immediate => pc,
            AddressingMode::ZeroPage => self.memory.read(pc) as u16,
            AddressingMode::Absolute => self.memory.read_u16(pc),
            AddressingMode::ZeroPage_X => {
                let pos = self.memory.read(pc);
                pos.wrapping_add(self.register_x) as u16
            },
            AddressingMode::ZeroPage_Y => {
                let pos = self.memory.read(pc);
                pos.wrapping_add(self.register_y) as u16
            },
            AddressingMode::Absolute_X => {
                let base = self.memory.read_u16(pc);
                base.wrapping_add(self.register_x as u16)
            },
            AddressingMode::Absolute_Y => {
                let base = self.memory.read_u16(pc);
                base.wrapping_add(self.register_y as u16)
            },
            AddressingMode::Indirect_X => {
                let base = self.memory.read(pc);
                let ptr: u8 = base.wrapping_add(self.register_x);
                let lo = self.memory.read(ptr as u16);
                let hi = self.memory.read(ptr.wrapping_add(1) as u16);
                hi as u16 * 256 + lo as u16
            },
            AddressingMode::Indirect_Y => {
                let base = self.memory.read(pc);
                let lo = self.memory.read(base as u16);
                let hi = self.memory.read(base.wrapping_add(1) as u16);
                let deref_base = hi as u16 * 256 + lo as u16;
                deref_base.wrapping_add(self.register_y as u16)
            },
            _ => 0,
        }
    }

    /// The operand byte of an instruction in `mode`.
    fn get_operand(&self, mode: &AddressingMode) -> (r: u8)
        requires
            self.wf(),
            mode.is_addressed(),
        ensures
            r == self@.operand(*mode),
    {
        let addr = self.get_operand_address(mode);
        self.memory.read(addr)
    }

    /// Sets the flag selected by `mask` when `on`, clears it otherwise.
    fn assign_flag(&mut self, mask: u8, on: bool)
        ensures
            final(self).wf() == old(self).wf(),
            final(self)@ == old(self)@.set_flag(mask, on),
    {
        if on {
            self.status = self.status | mask;
        } else {
            self.status = self.status & !mask;
        }
    }

    fn update_zero_and_negative_flags(&mut self, result: u8)
        ensures
            final(self).wf() == old(self).wf(),
            final(self)@ == (Machine { status: with_zn(old(self)@.status, result), ..old(self)@ }),
            zn_reflects(final(self).status, old(self).status, result),
    {
        proof {
            lemma_zn_reflects(old(self).status, result);
        }
        self.assign_flag(FLAG_Z, result == 0);
        self.assign_flag(FLAG_N, result >= 0x80);
    }

    /// Writes `value` at the top of the stack and moves the stack pointer
    /// down, wrapping inside the stack page.
    pub fn push_stack(&mut self, value: u8)
        requires
            old(self).wf(),
        ensures
            final(self).wf(),
            final(self)@ == old(self)@.push(value),
    {
        let addr: u16 = STACK_BASE + self.stack_pointer as u16;
        self.memory.write(addr, value);
        self.stack_pointer = self.stack_pointer.wrapping_sub(1);
    }

    /// Moves the stack pointer up, wrapping inside the stack page, and reads
    /// the byte it then points at.
    pub fn pop_stack(&mut self) -> (r: u8)
        requires
            old(self).wf(),
        ensures
            final(self).wf(),
            (final(self)@, r) == old(self)@.pop(),
    {
        self.stack_pointer = self.stack_pointer.wrapping_add(1);
        let addr: u16 = STACK_BASE + self.stack_pointer as u16;
        self.memory.read(addr)
    }

    /// Pushes the high byte of `value`, then its low byte.
    pub fn push_stack_u16(&mut self, value: u16)
        requires
            old(self).wf(),
        ensures
            final(self).wf(),
            final(self)@ == old(self)@.push_word(value),
    {
        self.push_stack((value / 256) as u8);
        self.push_stack((value % 256) as u8);
    }

    /// Pulls a low byte, then a high byte.
    pub fn pop_stack_u16(&mut self) -> (r: u16)
        requires
            old(self).wf(),
        ensures
            final(self).wf(),
            (final(self)@, r) == old(self)@.pop_word(),
    {
        let lo = self.pop_stack() as u16;
        let hi = self.pop_stack() as u16;
        hi * 256 + lo
    }

    /// 1 when `flag` is set, 0 otherwise.
    pub fn get_status_flag(&self, flag: StatusFlag) -> (r: u8)
        ensures
            r == (if crate::machine::flag(self@.status, flag.mask()) { 1u8 } else { 0u8 }),
    {
        if self.status & flag.mask() != 0 {
            1
        } else {
            0
        }
    }

    pub fn set_status_flag(&mut self, flag: StatusFlag)
        ensures
            final(self).wf() == old(self).wf(),
            final(self)@ == old(self)@.set_flag(flag.mask(), true),
            flag_reflects(final(self).status, old(self).status, flag.mask(), true),
    {
        proof {
            lemma_flag_reflects(old(self).status, flag.mask(), true);
        }
        self.assign_flag(flag.mask(), true);
    }

    pub fn clear_status_flag(&mut self, flag: StatusFlag)
        ensures
            final(self).wf() == old(self).wf(),
            final(self)@ == old(self)@.set_flag(flag.mask(), false),
            flag_reflects(final(self).status, old(self).status, flag.mask(), false),
    {
        proof {
            lemma_flag_reflects(old(self).status, flag.mask(), false);
        }
        self.assign_flag(flag.mask(), false);
    }

    /// Moves `pc` past the operand bytes of an instruction `bytes` long.
    fn advance(&mut self, bytes: u8)
        requires
            bytes >= 1,
        ensures
            final(self).wf() == old(self).wf(),
            final(self)@ == (Machine { pc: wrap16(old(self)@.pc + bytes - 1), ..old(self)@ }),
    {
        self.program_counter = self.program_counter.wrapping_add(bytes as u16 - 1);
    }

    /// Whether the branch operation `op` is taken.
    fn branch_condition(&self, op: Opcode) -> (r: bool)
        ensures
            r == self@.branch_taken(op),
    {
        match op {
            Opcode::BCC => self.status & FLAG_C == 0,
            Opcode::BCS => self.status & FLAG_C != 0,
            Opcode::BNE => self.status & FLAG_Z == 0,
            Opcode::BEQ => self.status & FLAG_Z != 0,
            Opcode::BPL => self.status & FLAG_N == 0,
            Opcode::BMI => self.status & FLAG_N != 0,
            Opcode::BVC => self.status & FLAG_V == 0,
            Opcode::BVS => self.status & FLAG_V != 0,
            _ => false,
        }
    }

    /// Moves `pc` past the branch, then, when the branch is taken, adds its
    /// signed operand to `pc`.
    fn branch(&mut self, instruction: &Instruction)
        requires
            old(self).wf(),
            instruction.bytes >= 1,
        ensures
            final(self).wf(),
            ({
                let m = old(self)@.advance(*instruction);
                final(self)@ == if old(self)@.branch_taken(instruction.opcode) {
                    Machine { pc: wrap16(m.pc + signed(old(self)@.read(old(self)@.pc))), ..m }
                } else {
                    m
                }
            }),
    {
        let offset = self.memory.read(self.program_counter);
        let taken = self.branch_condition(instruction.opcode);
        self.advance(instruction.bytes);
        if taken {
            if offset < 0x80 {
                self.program_counter = self.program_counter.wrapping_add(offset as u16);
            } else {
                self.program_counter = self.program_counter.wrapping_sub(256 - offset as u16);
            }
        }
    }

    /// Executes `instruction`, whose opcode byte `pc` has just moved past.
    /// A descriptor whose mode does not suit its operation, or whose length
    /// is zero, is refused with nothing changed; BRK halts with nothing
    /// changed.
    #[verifier::rlimit(50)]
    pub fn execute(&mut self, instruction: &Instruction) -> (r: Result<StepOutcome, CpuError>)
        requires
            old(self).wf(),
        ensures
            final(self).wf(),
            !instruction.is_well_formed() ==> {
                &&& r == Err::<StepOutcome, CpuError>(
                    CpuError::InvalidAddressingMode {
                        operation: instruction.opcode,
                        mode: instruction.addressing_mode,
                    },
                )
                &&& final(self)@ == old(self)@
            },
            instruction.is_well_formed() && instruction.opcode is BRK ==> {
                &&& r == Ok::<StepOutcome, CpuError>(StepOutcome::Halted)
                &&& final(self)@ == old(self)@
            },
            instruction.is_well_formed() && !(instruction.opcode is BRK) ==> {
                &&& r == Ok::<StepOutcome, CpuError>(StepOutcome::Running)
                &&& final(self)@ == old(self)@.next_state(*instruction)
            },
    {
        reveal(Machine::next_state);
        if !instruction.is_well_formed() {
            return Err(
                CpuError::InvalidAddressingMode {
                    operation: instruction.opcode,
                    mode: instruction.addressing_mode,
                },
            );
        }
        match instruction.opcode {
            Opcode::BRK => {
                return Ok(StepOutcome::Halted);
            },
            Opcode::JMP => {
                self.jmp(instruction);
                return Ok(StepOutcome::Running);
            },
            Opcode::JSR => {
                self.jsr(instruction);
                return Ok(StepOutcome::Running);
            },
            Opcode::BCC | Opcode::BCS | Opcode::BEQ | Opcode::BNE | Opcode::BPL | Opcode::BMI
            | Opcode::BVC | Opcode::BVS => {
                self.branch(instruction);
                return Ok(StepOutcome::Running);
            },
            Opcode::ADC => self.adc(instruction),
            Opcode::AND => self.and(instruction),
            Opcode::ASL => self.asl(instruction),
            Opcode::BIT => self.bit(instruction),
            Opcode::CLC => self.clc(),
            Opcode::CLD => self.cld(),
            Opcode::CLI => self.cli(),
            Opcode::CLV => self.clv(),
            Opcode::CMP => self.cmp(instruction),
            Opcode::CPX => self.cpx(instruction),
            Opcode::CPY => self.cpy(instruction),
            Opcode::DEC => self.dec(instruction),
            Opcode::DEX => self.dex(),
            Opcode::DEY => self.dey(),
            Opcode::EOR => self.eor(instruction),
            Opcode::INC => self.inc(instruction),
            Opcode::INX => self.inx(),
            Opcode::INY => self.iny(),
            Opcode::LDA => self.lda(instruction),
            Opcode::LDX => self.ldx(instruction),
            Opcode::LDY => self.ldy(instruction),
            Opcode::LSR => self.lsr(instruction),
            Opcode::NOP => {},
            Opcode::ORA => self.ora(instruction),
            Opcode::PHA => self.pha(),
            Opcode::PHP => self.php(),
            Opcode::PLA => self.pla(),
            Opcode::PLP => self.plp(),
            Opcode::ROL => self.rol(instruction),
            Opcode::ROR => self.ror(instruction),
            Opcode::RTI => self.rti(),
            Opcode::RTS => self.rts(),
            Opcode::SBC => self.sbc(instruction),
            Opcode::SEC => self.sec(),
            Opcode::SED => self.sed(),
            Opcode::SEI => self.sei(),
            Opcode::STA => self.sta(instruction),
            Opcode::STX => self.stx(instruction),
            Opcode::STY => self.sty(instruction),
            Opcode::TAX => self.tax(),
            Opcode::TAY => self.tay(),
            Opcode::TSX => self.tsx(),
            Opcode::TXA => self.txa(),
            Opcode::TXS => self.txs(),
            Opcode::TYA => self.tya(),
        }
        self.advance(instruction.bytes);
        Ok(StepOutcome::Running)
    }

    /// Fetches the opcode byte at `pc`, looks it up, moves `pc` past it and
    /// executes the instruction. A byte with no descriptor is reported with
    /// its address, nothing changed.
    pub fn step(&mut self) -> (r: Result<StepOutcome, CpuError>)
        requires
            old(self).wf(),
        ensures
            final(self).wf(),
            (final(self)@, r) == old(self)@.step_spec(),
    {
        let pc = self.program_counter;
        let code = self.memory.read(pc);
        match lookup(code) {
            None => Err(CpuError::UnsupportedOpcode { opcode: code, pc }),
            Some(instruction) => {
                self.program_counter = pc.wrapping_add(1);
                self.execute(&instruction)
            },
        }
    }

    /// Steps until a halt or a fault, at most `max_steps` times; `Ok(Running)`
    /// when the budget ran out first.
    pub fn run_for(&mut self, max_steps: u64) -> (r: Result<StepOutcome, CpuError>)
        requires
            old(self).wf(),
        ensures
            final(self).wf(),
            (final(self)@, r) == old(self)@.run_spec(max_steps as nat),
    {
        let mut remaining: u64 = max_steps;
        while remaining > 0
            invariant
                self.wf(),
                old(self)@.run_spec(max_steps as nat) == self@.run_spec(remaining as nat),
            decreases remaining,
        {
            let r = self.step();
            match r {
                Ok(StepOutcome::Running) => {},
                _ => {
                    return r;
                },
            }
            remaining = remaining - 1;
        }
        Ok(StepOutcome::Running)
    }

    /// Runs until BRK or a fault (giving up after `RUN_LIMIT` instructions).
    pub fn run(&mut self) -> (r: Result<(), CpuError>)
        requires
            old(self).wf(),
        ensures
            final(self).wf(),
            (final(self)@, r) == old(self)@.run_to_halt(),
    {
        match self.run_for(RUN_LIMIT) {
            Err(e) => Err(e),
            Ok(_) => Ok(()),
        }
    }
}

impl Default for CPU {
    fn default() -> (cpu: CPU)
        ensures
            cpu.wf(),
            cpu@.a == 0 && cpu@.x == 0 && cpu@.y == 0,
            cpu@.sp == 0 && cpu@.pc == 0 && cpu@.status == 0,
            cpu@.mem.len() == MEMORY_SIZE,
            forall|i: int| 0 <= i < MEMORY_SIZE ==> #[trigger] cpu@.mem[i] == 0,
    {
        CPU::new()
    }
}

} // verus!
