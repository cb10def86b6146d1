use vstd::prelude::*;

use crate::cpu::CPU;
use crate::machine::{
    carry_bit, compared, compare_reflects, flag_reflects, lemma_compare_reflects, lemma_flag_reflects,
    lemma_shift_reflects, lemma_zn_reflects, rotate_left, rotate_right, shift_reflects, shift_result,
    with_zn, wrap8, zn_reflects, Machine, FLAG_C, FLAG_D, FLAG_I, FLAG_N, FLAG_V,
    FLAG_Z,
};
use crate::opcodes::{AddressingMode, Instruction, Opcode};

verus! {

impl CPU {
    /// The carry flag as 0 or 1.
    fn carry(&self) -> (c: u8)
        ensures
            c == carry_bit(self.status),
    {
        self.status % 2
    }

    /// Sets A to `v` and Z/N from it.
    fn set_a(&mut self, v: u8)
        ensures
            final(self).wf() == old(self).wf(),
            final(self)@ == old(self)@.set_a_zn(v),
            zn_reflects(final(self).status, old(self).status, v),
    {
        proof {
            lemma_zn_reflects(old(self).status, v);
        }
        self.register_a = v;
        self.update_zero_and_negative_flags(v);
    }

    /// Sets X to `v` and Z/N from it.
    fn set_x(&mut self, v: u8)
        ensures
            final(self).wf() == old(self).wf(),
            final(self)@ == old(self)@.set_x_zn(v),
            zn_reflects(final(self).status, old(self).status, v),
    {
        proof {
            lemma_zn_reflects(old(self).status, v);
        }
        self.register_x = v;
        self.update_zero_and_negative_flags(v);
    }

    /// Sets Y to `v` and Z/N from it.
    fn set_y(&mut self, v: u8)
        ensures
            final(self).wf() == old(self).wf(),
            final(self)@ == old(self)@.set_y_zn(v),
            zn_reflects(final(self).status, old(self).status, v),
    {
        proof {
            lemma_zn_reflects(old(self).status, v);
        }
        self.register_y = v;
        self.update_zero_and_negative_flags(v);
    }

    /// Adds `v` and the carry to A, setting C, V, Z and N.
    fn add_to_accumulator(&mut self, v: u8)
        ensures
            final(self).wf() == old(self).wf(),
            final(self)@ == old(self)@.add_with_carry(v),
    {
        let a = self.register_a;
        let sum: u16 = a as u16 + v as u16 + self.carry() as u16;
        let r = (sum % 256) as u8;
        let overflow = (a >= 0x80) == (v >= 0x80) && (r >= 0x80) != (a >= 0x80);
        self.assign_flag(FLAG_C, sum > 255);
        self.assign_flag(FLAG_V, overflow);
        self.set_a(r);
    }

    pub fn adc(&mut self, instruction: &Instruction)
        requires
            old(self).wf(),
            instruction.addressing_mode.is_addressed(),
        ensures
            final(self).wf(),
            final(self)@ == old(self)@.add_with_carry(old(self)@.operand(instruction.addressing_mode)),
    {
        let v = self.get_operand(&instruction.addressing_mode);
        self.add_to_accumulator(v);
    }

    /// Subtracts the operand and the borrow (the complement of C) from A:
    /// ADC with the operand's complement.
    pub fn sbc(&mut self, instruction: &Instruction)
        requires
            old(self).wf(),
            instruction.addressing_mode.is_addressed(),
        ensures
            final(self).wf(),
            final(self)@ == old(self)@.add_with_carry(
                (255 - old(self)@.operand(instruction.addressing_mode)) as u8,
            ),
    {
        let v = self.get_operand(&instruction.addressing_mode);
        self.add_to_accumulator(255 - v);
    }

    pub fn and(&mut self, instruction: &Instruction)
        requires
            old(self).wf(),
            instruction.addressing_mode.is_addressed(),
        ensures
            final(self).wf(),
            final(self)@ == old(self)@.set_a_zn(
                old(self)@.a & old(self)@.operand(instruction.addressing_mode),
            ),
            zn_reflects(final(self).status, old(self).status, final(self).register_a),
    {
        let v = self.get_operand(&instruction.addressing_mode);
        self.set_a(self.register_a & v);
    }

    pub fn ora(&mut self, instruction: &Instruction)
        requires
            old(self).wf(),
            instruction.addressing_mode.is_addressed(),
        ensures
            final(self).wf(),
            final(self)@ == old(self)@.set_a_zn(
                old(self)@.a | old(self)@.operand(instruction.addressing_mode),
            ),
            zn_reflects(final(self).status, old(self).status, final(self).register_a),
    {
        let v = self.get_operand(&instruction.addressing_mode);
        self.set_a(self.register_a | v);
    }

    pub fn eor(&mut self, instruction: &Instruction)
        requires
            old(self).wf(),
            instruction.addressing_mode.is_addressed(),
        ensures
            final(self).wf(),
            final(self)@ == old(self)@.set_a_zn(
                old(self)@.a ^ old(self)@.operand(instruction.addressing_mode),
            ),
            zn_reflects(final(self).status, old(self).status, final(self).register_a),
    {
        let v = self.get_operand(&instruction.addressing_mode);
        self.set_a(self.register_a ^ v);
    }

    /// Z from A AND the operand, N and V from bits 7 and 6 of the operand.
    pub fn bit(&mut self, instruction: &Instruction)
        requires
            old(self).wf(),
            instruction.addressing_mode.is_addressed(),
        ensures
            final(self).wf(),
            final(self)@ == old(self)@.bit_test(old(self)@.operand(instruction.addressing_mode)),
    {
        let v = self.get_operand(&instruction.addressing_mode);
        self.assign_flag(FLAG_Z, self.register_a & v == 0);
        self.assign_flag(FLAG_N, v >= 0x80);
        self.assign_flag(FLAG_V, (v / 64) % 2 == 1);
    }

    /// Stores a shift or rotate result `r`, in A when the mode is
    /// `Accumulator`, else at `addr`, and sets Z and N from it.
    fn finish_shift(&mut self, mode: &AddressingMode, addr: u16, r: u8)
        requires
            old(self).wf(),
        ensures
            final(self).wf(),
            mode is Accumulator ==> final(self)@ == old(self)@.set_a_zn(r),
            !(mode is Accumulator) ==> final(self)@ == (Machine {
                mem: old(self)@.mem.update(addr as int, r),
                status: with_zn(old(self)@.status, r),
                ..old(self)@
            }),
    {
        match mode {
            AddressingMode::Accumulator => {
                self.register_a = r;
            },
            _ => {
                self.memory.write(addr, r);
            },
        }
        self.update_zero_and_negative_flags(r);
    }

    /// The value a shift or rotate in `mode` works on, and where it goes back.
    fn shift_source(&self, mode: &AddressingMode) -> (r: (u8, u16))
        requires
            self.wf(),
            !(mode is NoneAddressing),
        ensures
            mode is Accumulator ==> r.0 == self.register_a,
            !(mode is Accumulator) ==> r.1 == self@.operand_address(*mode) && r.0 == self@.read(r.1),
    {
        match mode {
            AddressingMode::Accumulator => (self.register_a, 0),
            _ => {
                let addr = self.get_operand_address(mode);
                (self.memory.read(addr), addr)
            },
        }
    }

    /// Shifts left; bit 7 goes to C, bit 0 becomes 0.
    pub fn asl(&mut self, instruction: &Instruction)
        requires
            old(self).wf(),
            !(instruction.addressing_mode is NoneAddressing),
        ensures
            final(self).wf(),
            final(self)@ == old(self)@.shifted(Opcode::ASL, instruction.addressing_mode),
            shift_reflects(final(self).status, old(self).status, shift_result(Opcode::ASL, old(self)@.shift_operand(instruction.addressing_mode), carry_bit(old(self).status)).0, shift_result(Opcode::ASL, old(self)@.shift_operand(instruction.addressing_mode), carry_bit(old(self).status)).1),
    {
        proof {
            lemma_shift_reflects(old(self).status, shift_result(Opcode::ASL, old(self)@.shift_operand(instruction.addressing_mode), carry_bit(old(self).status)).0, shift_result(Opcode::ASL, old(self)@.shift_operand(instruction.addressing_mode), carry_bit(old(self).status)).1);
        }
        let (v, addr) = self.shift_source(&instruction.addressing_mode);
        let r = ((v as u16 * 2) % 256) as u8;
        self.assign_flag(FLAG_C, v >= 0x80);
        self.finish_shift(&instruction.addressing_mode, addr, r);
    }

    /// Shifts right; bit 0 goes to C, bit 7 becomes 0.
    pub fn lsr(&mut self, instruction: &Instruction)
        requires
            old(self).wf(),
            !(instruction.addressing_mode is NoneAddressing),
        ensures
            final(self).wf(),
            final(self)@ == old(self)@.shifted(Opcode::LSR, instruction.addressing_mode),
            shift_reflects(final(self).status, old(self).status, shift_result(Opcode::LSR, old(self)@.shift_operand(instruction.addressing_mode), carry_bit(old(self).status)).0, shift_result(Opcode::LSR, old(self)@.shift_operand(instruction.addressing_mode), carry_bit(old(self).status)).1),
    {
        proof {
            lemma_shift_reflects(old(self).status, shift_result(Opcode::LSR, old(self)@.shift_operand(instruction.addressing_mode), carry_bit(old(self).status)).0, shift_result(Opcode::LSR, old(self)@.shift_operand(instruction.addressing_mode), carry_bit(old(self).status)).1);
        }
        let (v, addr) = self.shift_source(&instruction.addressing_mode);
        self.assign_flag(FLAG_C, v % 2 == 1);
        self.finish_shift(&instruction.addressing_mode, addr, v / 2);
    }

    /// `operand` rotated left through C: returns the rotated byte and leaves
    /// the old bit 7 in C.
    fn rotate_left(&mut self, operand: u8) -> (r: u8)
        ensures
            final(self).wf() == old(self).wf(),
            r == rotate_left(operand, carry_bit(old(self)@.status)).0,
            final(self)@ == old(self)@.set_flag(FLAG_C, rotate_left(operand, carry_bit(old(self)@.status)).1),
    {
        let r = ((operand as u16 * 2 + self.carry() as u16) % 256) as u8;
        self.assign_flag(FLAG_C, operand >= 0x80);
        r
    }

    /// `operand` rotated right through C: returns the rotated byte and leaves
    /// the old bit 0 in C.
    fn rotate_right(&mut self, operand: u8) -> (r: u8)
        ensures
            final(self).wf() == old(self).wf(),
            r == rotate_right(operand, carry_bit(old(self)@.status)).0,
            final(self)@ == old(self)@.set_flag(FLAG_C, rotate_right(operand, carry_bit(old(self)@.status)).1),
    {
        let r = operand / 2 + 128 * self.carry();
        self.assign_flag(FLAG_C, operand % 2 == 1);
        r
    }

    /// Shifts left; bit 7 goes to C, the old C into bit 0.
    pub fn rol(&mut self, instruction: &Instruction)
        requires
            old(self).wf(),
            !(instruction.addressing_mode is NoneAddressing),
        ensures
            final(self).wf(),
            final(self)@ == old(self)@.shifted(Opcode::ROL, instruction.addressing_mode),
            shift_reflects(final(self).status, old(self).status, shift_result(Opcode::ROL, old(self)@.shift_operand(instruction.addressing_mode), carry_bit(old(self).status)).0, shift_result(Opcode::ROL, old(self)@.shift_operand(instruction.addressing_mode), carry_bit(old(self).status)).1),
    {
        proof {
            lemma_shift_reflects(old(self).status, shift_result(Opcode::ROL, old(self)@.shift_operand(instruction.addressing_mode), carry_bit(old(self).status)).0, shift_result(Opcode::ROL, old(self)@.shift_operand(instruction.addressing_mode), carry_bit(old(self).status)).1);
        }
        let (v, addr) = self.shift_source(&instruction.addressing_mode);
        let r = self.rotate_left(v);
        self.finish_shift(&instruction.addressing_mode, addr, r);
    }

    /// Shifts right; bit 0 goes to C, the old C into bit 7.
    pub fn ror(&mut self, instruction: &Instruction)
        requires
            old(self).wf(),
            !(instruction.addressing_mode is NoneAddressing),
        ensures
            final(self).wf(),
            final(self)@ == old(self)@.shifted(Opcode::ROR, instruction.addressing_mode),
            shift_reflects(final(self).status, old(self).status, shift_result(Opcode::ROR, old(self)@.shift_operand(instruction.addressing_mode), carry_bit(old(self).status)).0, shift_result(Opcode::ROR, old(self)@.shift_operand(instruction.addressing_mode), carry_bit(old(self).status)).1),
    {
        proof {
            lemma_shift_reflects(old(self).status, shift_result(Opcode::ROR, old(self)@.shift_operand(instruction.addressing_mode), carry_bit(old(self).status)).0, shift_result(Opcode::ROR, old(self)@.shift_operand(instruction.addressing_mode), carry_bit(old(self).status)).1);
        }
        let (v, addr) = self.shift_source(&instruction.addressing_mode);
        let r = self.rotate_right(v);
        self.finish_shift(&instruction.addressing_mode, addr, r);
    }

    // Compares the contents of a register with a value: the flags of
    // `register - value`, the result itself dropped. Shared by CMP, CPX, CPY.
    fn compare_register(&mut self, register: u8, value: u8)
        ensures
            final(self).wf() == old(self).wf(),
            final(self)@ == (Machine { status: compared(old(self)@.status, register, value), ..old(self)@ }),
            compare_reflects(final(self).status, old(self).status, register, value),
    {
        proof {
            lemma_compare_reflects(old(self).status, register, value);
        }
        self.assign_flag(FLAG_C, register >= value);
        self.assign_flag(FLAG_Z, register == value);
        let result = register.wrapping_sub(value);
        self.assign_flag(FLAG_N, result >= 0x80);
    }

    pub fn cmp(&mut self, instruction: &Instruction)
        requires
            old(self).wf(),
            instruction.addressing_mode.is_addressed(),
        ensures
            final(self).wf(),
            final(self)@ == (Machine {
                status: compared(old(self)@.status, old(self)@.a, old(self)@.operand(instruction.addressing_mode)),
                ..old(self)@
            }),
            compare_reflects(final(self).status, old(self).status, old(self).register_a, old(self)@.operand(instruction.addressing_mode)),
    {
        let value = self.get_operand(&instruction.addressing_mode);
        self.compare_register(self.register_a, value);
    }

    pub fn cpx(&mut self, instruction: &Instruction)
        requires
            old(self).wf(),
            instruction.addressing_mode.is_addressed(),
        ensures
            final(self).wf(),
            final(self)@ == (Machine {
                status: compared(old(self)@.status, old(self)@.x, old(self)@.operand(instruction.addressing_mode)),
                ..old(self)@
            }),
            compare_reflects(final(self).status, old(self).status, old(self).register_x, old(self)@.operand(instruction.addressing_mode)),
    {
        let value = self.get_operand(&instruction.addressing_mode);
        self.compare_register(self.register_x, value);
    }

    pub fn cpy(&mut self, instruction: &Instruction)
        requires
            old(self).wf(),
            instruction.addressing_mode.is_addressed(),
        ensures
            final(self).wf(),
            final(self)@ == (Machine {
                status: compared(old(self)@.status, old(self)@.y, old(self)@.operand(instruction.addressing_mode)),
                ..old(self)@
            }),
            compare_reflects(final(self).status, old(self).status, old(self).register_y, old(self)@.operand(instruction.addressing_mode)),
    {
        let value = self.get_operand(&instruction.addressing_mode);
        self.compare_register(self.register_y, value);
    }

    pub fn dec(&mut self, instruction: &Instruction)
        requires
            old(self).wf(),
            instruction.addressing_mode.is_addressed(),
        ensures
            final(self).wf(),
            final(self)@ == old(self)@.step_memory(instruction.addressing_mode, -1),
            zn_reflects(final(self).status, old(self).status, final(self)@.read(old(self)@.operand_address(instruction.addressing_mode))),
    {
        let address = self.get_operand_address(&instruction.addressing_mode);
        let mem_value = self.memory.read(address);
        let result = mem_value.wrapping_sub(1);
        self.memory.write(address, result);
        self.update_zero_and_negative_flags(result);
    }

    pub fn inc(&mut self, instruction: &Instruction)
        requires
            old(self).wf(),
            instruction.addressing_mode.is_addressed(),
        ensures
            final(self).wf(),
            final(self)@ == old(self)@.step_memory(instruction.addressing_mode, 1),
            zn_reflects(final(self).status, old(self).status, final(self)@.read(old(self)@.operand_address(instruction.addressing_mode))),
    {
        let address = self.get_operand_address(&instruction.addressing_mode);
        let mem_value = self.memory.read(address);
        let result = mem_value.wrapping_add(1);
        self.memory.write(address, result);
        self.update_zero_and_negative_flags(result);
    }

    pub fn dex(&mut self)
        ensures
            final(self).wf() == old(self).wf(),
            final(self)@ == old(self)@.set_x_zn(wrap8(old(self)@.x - 1)),
            zn_reflects(final(self).status, old(self).status, final(self).register_x),
    {
        self.set_x(self.register_x.wrapping_sub(1));
    }

    pub fn dey(&mut self)
        ensures
            final(self).wf() == old(self).wf(),
            final(self)@ == old(self)@.set_y_zn(wrap8(old(self)@.y - 1)),
            zn_reflects(final(self).status, old(self).status, final(self).register_y),
    {
        self.set_y(self.register_y.wrapping_sub(1));
    }

    pub fn inx(&mut self)
        ensures
            final(self).wf() == old(self).wf(),
            final(self)@ == old(self)@.set_x_zn(wrap8(old(self)@.x + 1)),
            zn_reflects(final(self).status, old(self).status, final(self).register_x),
    {
        self.set_x(self.register_x.wrapping_add(1));
    }

    pub fn iny(&mut self)
        ensures
            final(self).wf() == old(self).wf(),
            final(self)@ == old(self)@.set_y_zn(wrap8(old(self)@.y + 1)),
            zn_reflects(final(self).status, old(self).status, final(self).register_y),
    {
        self.set_y(self.register_y.wrapping_add(1));
    }

    pub fn lda(&mut self, instruction: &Instruction)
        requires
            old(self).wf(),
            instruction.addressing_mode.is_addressed(),
        ensures
            final(self).wf(),
            final(self)@ == old(self)@.set_a_zn(old(self)@.operand(instruction.addressing_mode)),
            zn_reflects(final(self).status, old(self).status, final(self).register_a),
    {
        let v = self.get_operand(&instruction.addressing_mode);
        self.set_a(v);
    }

    pub fn ldx(&mut self, instruction: &Instruction)
        requires
            old(self).wf(),
            instruction.addressing_mode.is_addressed(),
        ensures
            final(self).wf(),
            final(self)@ == old(self)@.set_x_zn(old(self)@.operand(instruction.addressing_mode)),
            zn_reflects(final(self).status, old(self).status, final(self).register_x),
    {
        let v = self.get_operand(&instruction.addressing_mode);
        self.set_x(v);
    }

    pub fn ldy(&mut self, instruction: &Instruction)
        requires
            old(self).wf(),
            instruction.addressing_mode.is_addressed(),
        ensures
            final(self).wf(),
            final(self)@ == old(self)@.set_y_zn(old(self)@.operand(instruction.addressing_mode)),
            zn_reflects(final(self).status, old(self).status, final(self).register_y),
    {
        let v = self.get_operand(&instruction.addressing_mode);
        self.set_y(v);
    }

    pub fn sta(&mut self, instruction: &Instruction)
        requires
            old(self).wf(),
            instruction.addressing_mode.is_addressed(),
        ensures
            final(self).wf(),
            final(self)@ == old(self)@.write(
                old(self)@.operand_address(instruction.addressing_mode),
                old(self)@.a,
            ),
    {
        let address = self.get_operand_address(&instruction.addressing_mode);
        self.memory.write(address, self.register_a);
    }

    pub fn stx(&mut self, instruction: &Instruction)
        requires
            old(self).wf(),
            instruction.addressing_mode.is_addressed(),
        ensures
            final(self).wf(),
            final(self)@ == old(self)@.write(
                old(self)@.operand_address(instruction.addressing_mode),
                old(self)@.x,
            ),
    {
        let address = self.get_operand_address(&instruction.addressing_mode);
        self.memory.write(address, self.register_x);
    }

    pub fn sty(&mut self, instruction: &Instruction)
        requires
            old(self).wf(),
            instruction.addressing_mode.is_addressed(),
        ensures
            final(self).wf(),
            final(self)@ == old(self)@.write(
                old(self)@.operand_address(instruction.addressing_mode),
                old(self)@.y,
            ),
    {
        let address = self.get_operand_address(&instruction.addressing_mode);
        self.memory.write(address, self.register_y);
    }

    pub fn pha(&mut self)
        requires
            old(self).wf(),
        ensures
            final(self).wf(),
            final(self)@ == old(self)@.push(old(self)@.a),
    {
        self.push_stack(self.register_a);
    }

    pub fn php(&mut self)
        requires
            old(self).wf(),
        ensures
            final(self).wf(),
            final(self)@ == old(self)@.push(old(self)@.status),
    {
        self.push_stack(self.status);
    }

    pub fn pla(&mut self)
        requires
            old(self).wf(),
        ensures
            final(self).wf(),
            final(self)@ == old(self)@.pop().0.set_a_zn(old(self)@.pop().1),
            zn_reflects(final(self).status, old(self).status, final(self).register_a),
    {
        let v = self.pop_stack();
        self.set_a(v);
    }

    pub fn plp(&mut self)
        requires
            old(self).wf(),
        ensures
            final(self).wf(),
            final(self)@ == (Machine { status: old(self)@.pop().1, ..old(self)@.pop().0 }),
    {
        self.status = self.pop_stack();
    }

    pub fn rti(&mut self)
        requires
            old(self).wf(),
        ensures
            final(self).wf(),
            final(self)@ == old(self)@.return_from_interrupt(),
    {
        self.status = self.pop_stack();
        self.program_counter = self.pop_stack_u16();
    }

    pub fn rts(&mut self)
        requires
            old(self).wf(),
        ensures
            final(self).wf(),
            final(self)@ == old(self)@.return_from_subroutine(),
    {
        self.program_counter = self.pop_stack_u16().wrapping_sub(1);
    }

    pub fn jmp(&mut self, instruction: &Instruction)
        requires
            old(self).wf(),
            !(instruction.addressing_mode is Accumulator),
        ensures
            final(self).wf(),
            final(self)@ == old(self)@.jump(instruction.addressing_mode),
    {
        match instruction.addressing_mode {
            AddressingMode::NoneAddressing => {
                let ptr = self.memory.read_u16(self.program_counter);
                self.program_counter = self.memory.read_u16(ptr);
            },
            _ => {
                self.program_counter = self.get_operand_address(&instruction.addressing_mode);
            },
        }
    }

    pub fn jsr(&mut self, instruction: &Instruction)
        requires
            old(self).wf(),
            instruction.addressing_mode.is_addressed(),
        ensures
            final(self).wf(),
            final(self)@ == old(self)@.jump_to_subroutine(instruction.addressing_mode),
    {
        let target = self.get_operand_address(&instruction.addressing_mode);
        self.push_stack_u16(self.program_counter.wrapping_add(2));
        self.program_counter = target;
    }

    pub fn clc(&mut self)
        ensures
            final(self).wf() == old(self).wf(),
            final(self)@ == old(self)@.set_flag(FLAG_C, false),
            flag_reflects(final(self).status, old(self).status, FLAG_C, false),
    {
        proof {
            lemma_flag_reflects(old(self).status, FLAG_C, false);
        }
        self.assign_flag(FLAG_C, false);
    }

    pub fn cld(&mut self)
        ensures
            final(self).wf() == old(self).wf(),
            final(self)@ == old(self)@.set_flag(FLAG_D, false),
            flag_reflects(final(self).status, old(self).status, FLAG_D, false),
    {
        proof {
            lemma_flag_reflects(old(self).status, FLAG_D, false);
        }
        self.assign_flag(FLAG_D, false);
    }

    pub fn cli(&mut self)
        ensures
            final(self).wf() == old(self).wf(),
            final(self)@ == old(self)@.set_flag(FLAG_I, false),
            flag_reflects(final(self).status, old(self).status, FLAG_I, false),
    {
        proof {
            lemma_flag_reflects(old(self).status, FLAG_I, false);
        }
        self.assign_flag(FLAG_I, false);
    }

    pub fn clv(&mut self)
        ensures
            final(self).wf() == old(self).wf(),
            final(self)@ == old(self)@.set_flag(FLAG_V, false),
            flag_reflects(final(self).status, old(self).status, FLAG_V, false),
    {
        proof {
            lemma_flag_reflects(old(self).status, FLAG_V, false);
        }
        self.assign_flag(FLAG_V, false);
    }

    pub fn sec(&mut self)
        ensures
            final(self).wf() == old(self).wf(),
            final(self)@ == old(self)@.set_flag(FLAG_C, true),
            flag_reflects(final(self).status, old(self).status, FLAG_C, true),
    {
        proof {
            lemma_flag_reflects(old(self).status, FLAG_C, true);
        }
        self.assign_flag(FLAG_C, true);
    }

    pub fn sed(&mut self)
        ensures
            final(self).wf() == old(self).wf(),
            final(self)@ == old(self)@.set_flag(FLAG_D, true),
            flag_reflects(final(self).status, old(self).status, FLAG_D, true),
    {
        proof {
            lemma_flag_reflects(old(self).status, FLAG_D, true);
        }
        self.assign_flag(FLAG_D, true);
    }

    pub fn sei(&mut self)
        ensures
            final(self).wf() == old(self).wf(),
            final(self)@ == old(self)@.set_flag(FLAG_I, true),
            flag_reflects(final(self).status, old(self).status, FLAG_I, true),
    {
        proof {
            lemma_flag_reflects(old(self).status, FLAG_I, true);
        }
        self.assign_flag(FLAG_I, true);
    }

    pub fn tax(&mut self)
        ensures
            final(self).wf() == old(self).wf(),
            final(self)@ == old(self)@.set_x_zn(old(self)@.a),
            zn_reflects(final(self).status, old(self).status, final(self).register_x),
    {
        self.set_x(self.register_a);
    }

    pub fn tay(&mut self)
        ensures
            final(self).wf() == old(self).wf(),
            final(self)@ == old(self)@.set_y_zn(old(self)@.a),
            zn_reflects(final(self).status, old(self).status, final(self).register_y),
    {
        self.set_y(self.register_a);
    }

    pub fn tsx(&mut self)
        ensures
            final(self).wf() == old(self).wf(),
            final(self)@ == old(self)@.set_x_zn(old(self)@.sp),
            zn_reflects(final(self).status, old(self).status, final(self).register_x),
    {
        self.set_x(self.stack_pointer);
    }

    pub fn txa(&mut self)
        ensures
            final(self).wf() == old(self).wf(),
            final(self)@ == old(self)@.set_a_zn(old(self)@.x),
            zn_reflects(final(self).status, old(self).status, final(self).register_a),
    {
        self.set_a(self.register_x);
    }

    pub fn txs(&mut self)
        ensures
            final(self).wf() == old(self).wf(),
            final(self)@ == (Machine { sp: old(self)@.x, ..old(self)@ }),
    {
        self.stack_pointer = self.register_x;
    }

    pub fn tya(&mut self)
        ensures
            final(self).wf() == old(self).wf(),
            final(self)@ == old(self)@.set_a_zn(old(self)@.y),
            zn_reflects(final(self).status, old(self).status, final(self).register_a),
    {
        self.set_a(self.register_y);
    }
}

} // verus!
