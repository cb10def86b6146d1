use vstd::prelude::*;

verus! {

/// How an instruction finds its operand.
#[allow(non_camel_case_types)]
#[derive(Clone, Copy, Debug, PartialEq, Eq, Structural)]
pub enum AddressingMode {
    Immediate,
    ZeroPage,
    ZeroPage_X,
    ZeroPage_Y,
    Absolute,
    Absolute_X,
    Absolute_Y,
    Indirect_X,
    Indirect_Y,
    Accumulator,
    NoneAddressing,
}

/// The operation an instruction performs.
#[derive(Clone, Copy, Debug, PartialEq, Eq, Structural)]
pub enum Opcode {
    /// Add with carry.
    ADC,
    /// Bitwise and with the accumulator.
    AND,
    /// Arithmetic shift left.
    ASL,
    /// Branch if carry clear.
    BCC,
    /// Branch if carry set.
    BCS,
    /// Branch if zero set.
    BEQ,
    /// Test bits against the accumulator.
    BIT,
    /// Branch if negative set.
    BMI,
    /// Branch if zero clear.
    BNE,
    /// Branch if negative clear.
    BPL,
    /// Halt.
    BRK,
    /// Branch if overflow clear.
    BVC,
    /// Branch if overflow set.
    BVS,
    /// Clear carry.
    CLC,
    /// Clear decimal mode.
    CLD,
    /// Clear interrupt disable.
    CLI,
    /// Clear overflow.
    CLV,
    /// Compare with the accumulator.
    CMP,
    /// Compare with X.
    CPX,
    /// Compare with Y.
    CPY,
    /// Decrement memory.
    DEC,
    /// Decrement X.
    DEX,
    /// Decrement Y.
    DEY,
    /// Exclusive or with the accumulator.
    EOR,
    /// Increment memory.
    INC,
    /// Increment X.
    INX,
    /// Increment Y.
    INY,
    /// Jump.
    JMP,
    /// Jump to subroutine.
    JSR,
    /// Load the accumulator.
    LDA,
    /// Load X.
    LDX,
    /// Load Y.
    LDY,
    /// Logical shift right.
    LSR,
    /// No operation.
    NOP,
    /// Bitwise or with the accumulator.
    ORA,
    /// Push the accumulator.
    PHA,
    /// Push the status byte.
    PHP,
    /// Pull the accumulator.
    PLA,
    /// Pull the status byte.
    PLP,
    /// Rotate left through carry.
    ROL,
    /// Rotate right through carry.
    ROR,
    /// Return from interrupt.
    RTI,
    /// Return from subroutine.
    RTS,
    /// Subtract with borrow.
    SBC,
    /// Set carry.
    SEC,
    /// Set decimal mode.
    SED,
    /// Set interrupt disable.
    SEI,
    /// Store the accumulator.
    STA,
    /// Store X.
    STX,
    /// Store Y.
    STY,
    /// Copy A to X.
    TAX,
    /// Copy A to Y.
    TAY,
    /// Copy the stack pointer to X.
    TSX,
    /// Copy X to A.
    TXA,
    /// Copy X to the stack pointer.
    TXS,
    /// Copy Y to A.
    TYA,
}

/// Describes one opcode byte: what it does, how it addresses its operand,
/// its length in bytes (opcode included) and its base cycle count.
#[derive(Clone, Copy, Debug, PartialEq, Eq, Structural)]
pub struct Instruction {
    pub opcode: Opcode,
    pub bytes: u8,
    pub cycles: u8,
    pub addressing_mode: AddressingMode,
}

impl AddressingMode {
    /// The mode computes an effective address from the operand bytes.
    pub open spec fn spec_is_addressed(&self) -> bool {
        !(self is Accumulator || self is NoneAddressing)
    }

    #[verifier::when_used_as_spec(spec_is_addressed)]
    pub fn is_addressed(&self) -> (r: bool)
        ensures
            r == self.spec_is_addressed(),
    {
        match self {
            AddressingMode::Accumulator | AddressingMode::NoneAddressing => false,
            _ => true,
        }
    }
}

impl Instruction {
    /// The addressing mode is one that the operation can be carried out
    /// with, and the length counts the opcode byte. Shifts and rotates act on
    /// the accumulator or on memory; a jump without an address goes through
    /// the word its operand names; the other operations that read or write
    /// memory need an effective address.
    pub open spec fn spec_is_well_formed(&self) -> bool {
        &&& self.bytes >= 1
        &&& match self.opcode {
            Opcode::ASL | Opcode::LSR | Opcode::ROL | Opcode::ROR => !(self.addressing_mode is NoneAddressing),
            Opcode::JMP => !(self.addressing_mode is Accumulator),
            Opcode::ADC | Opcode::AND | Opcode::BIT | Opcode::CMP | Opcode::CPX | Opcode::CPY
            | Opcode::DEC | Opcode::EOR | Opcode::INC | Opcode::JSR | Opcode::LDA | Opcode::LDX
            | Opcode::LDY | Opcode::ORA | Opcode::SBC | Opcode::STA | Opcode::STX
            | Opcode::STY => self.addressing_mode.is_addressed(),
            _ => true,
        }
    }

    #[verifier::when_used_as_spec(spec_is_well_formed)]
    pub fn is_well_formed(&self) -> (r: bool)
        ensures
            r == self.spec_is_well_formed(),
    {
        if self.bytes < 1 {
            return false;
        }
        match self.opcode {
            Opcode::ASL | Opcode::LSR | Opcode::ROL | Opcode::ROR => {
                match self.addressing_mode {
                    AddressingMode::NoneAddressing => false,
                    _ => true,
                }
            },
            Opcode::JMP => {
                match self.addressing_mode {
                    AddressingMode::Accumulator => false,
                    _ => true,
                }
            },
            Opcode::ADC | Opcode::AND | Opcode::BIT | Opcode::CMP | Opcode::CPX | Opcode::CPY
            | Opcode::DEC | Opcode::EOR | Opcode::INC | Opcode::JSR | Opcode::LDA | Opcode::LDX
            | Opcode::LDY | Opcode::ORA | Opcode::SBC | Opcode::STA | Opcode::STX
            | Opcode::STY => self.addressing_mode.is_addressed(),
            _ => true,
        }
    }
}

pub open spec fn entry(opcode: Opcode, bytes: u8, cycles: u8, addressing_mode: AddressingMode) -> Option<Instruction> {
    Some(Instruction { opcode, bytes, cycles, addressing_mode })
}

/// The descriptor of every documented opcode byte; `None` for the others.
#[verifier::opaque]
pub open spec fn opcode_table(code: u8) -> Option<Instruction> {
    match code {
        0x69 => entry(Opcode::ADC, 2, 2, AddressingMode::Immediate),
        0x65 => entry(Opcode::ADC, 2, 3, AddressingMode::ZeroPage),
        0x75 => entry(Opcode::ADC, 2, 4, AddressingMode::ZeroPage_X),
        0x6D => entry(Opcode::ADC, 3, 4, AddressingMode::Absolute),
        0x7D => entry(Opcode::ADC, 3, 4, AddressingMode::Absolute_X),
        0x79 => entry(Opcode::ADC, 3, 4, AddressingMode::Absolute_Y),
        0x61 => entry(Opcode::ADC, 2, 6, AddressingMode::Indirect_X),
        0x71 => entry(Opcode::ADC, 2, 5, AddressingMode::Indirect_Y),
        0x29 => entry(Opcode::AND, 2, 2, AddressingMode::Immediate),
        0x25 => entry(Opcode::AND, 2, 3, AddressingMode::ZeroPage),
        0x35 => entry(Opcode::AND, 2, 4, AddressingMode::ZeroPage_X),
        0x2D => entry(Opcode::AND, 3, 4, AddressingMode::Absolute),
        0x3D => entry(Opcode::AND, 3, 4, AddressingMode::Absolute_X),
        0x39 => entry(Opcode::AND, 3, 4, AddressingMode::Absolute_Y),
        0x21 => entry(Opcode::AND, 2, 6, AddressingMode::Indirect_X),
        0x31 => entry(Opcode::AND, 2, 5, AddressingMode::Indirect_Y),
        0x0A => entry(Opcode::ASL, 1, 2, AddressingMode::Accumulator),
        0x06 => entry(Opcode::ASL, 2, 5, AddressingMode::ZeroPage),
        0x16 => entry(Opcode::ASL, 2, 6, AddressingMode::ZeroPage_X),
        0x0E => entry(Opcode::ASL, 3, 6, AddressingMode::Absolute),
        0x1E => entry(Opcode::ASL, 3, 7, AddressingMode::Absolute_X),
        0x90 => entry(Opcode::BCC, 2, 2, AddressingMode::NoneAddressing),
        0xB0 => entry(Opcode::BCS, 2, 2, AddressingMode::NoneAddressing),
        0xF0 => entry(Opcode::BEQ, 2, 2, AddressingMode::NoneAddressing),
        0x24 => entry(Opcode::BIT, 2, 3, AddressingMode::ZeroPage),
        0x2C => entry(Opcode::BIT, 3, 4, AddressingMode::Absolute),
        0x30 => entry(Opcode::BMI, 2, 2, AddressingMode::NoneAddressing),
        0xD0 => entry(Opcode::BNE, 2, 2, AddressingMode::NoneAddressing),
        0x10 => entry(Opcode::BPL, 2, 2, AddressingMode::NoneAddressing),
        0x00 => entry(Opcode::BRK, 1, 7, AddressingMode::NoneAddressing),
        0x50 => entry(Opcode::BVC, 2, 2, AddressingMode::NoneAddressing),
        0x70 => entry(Opcode::BVS, 2, 2, AddressingMode::NoneAddressing),
        0x18 => entry(Opcode::CLC, 1, 2, AddressingMode::NoneAddressing),
        0xD8 => entry(Opcode::CLD, 1, 2, AddressingMode::NoneAddressing),
        0x58 => entry(Opcode::CLI, 1, 2, AddressingMode::NoneAddressing),
        0xB8 => entry(Opcode::CLV, 1, 2, AddressingMode::NoneAddressing),
        0xC9 => entry(Opcode::CMP, 2, 2, AddressingMode::Immediate),
        0xC5 => entry(Opcode::CMP, 2, 3, AddressingMode::ZeroPage),
        0xD5 => entry(Opcode::CMP, 2, 4, AddressingMode::ZeroPage_X),
        0xCD => entry(Opcode::CMP, 3, 4, AddressingMode::Absolute),
        0xDD => entry(Opcode::CMP, 3, 4, AddressingMode::Absolute_X),
        0xD9 => entry(Opcode::CMP, 3, 4, AddressingMode::Absolute_Y),
        0xC1 => entry(Opcode::CMP, 2, 6, AddressingMode::Indirect_X),
        0xD1 => entry(Opcode::CMP, 2, 5, AddressingMode::Indirect_Y),
        0xE0 => entry(Opcode::CPX, 2, 2, AddressingMode::Immediate),
        0xE4 => entry(Opcode::CPX, 2, 3, AddressingMode::ZeroPage),
        0xEC => entry(Opcode::CPX, 3, 4, AddressingMode::Absolute),
        0xC0 => entry(Opcode::CPY, 2, 2, AddressingMode::Immediate),
        0xC4 => entry(Opcode::CPY, 2, 3, AddressingMode::ZeroPage),
        0xCC => entry(Opcode::CPY, 3, 4, AddressingMode::Absolute),
        0xC6 => entry(Opcode::DEC, 2, 5, AddressingMode::ZeroPage),
        0xD6 => entry(Opcode::DEC, 2, 6, AddressingMode::ZeroPage_X),
        0xCE => entry(Opcode::DEC, 3, 6, AddressingMode::Absolute),
        0xDE => entry(Opcode::DEC, 3, 7, AddressingMode::Absolute_X),
        0xCA => entry(Opcode::DEX, 1, 2, AddressingMode::NoneAddressing),
        0x88 => entry(Opcode::DEY, 1, 2, AddressingMode::NoneAddressing),
        0x49 => entry(Opcode::EOR, 2, 2, AddressingMode::Immediate),
        0x45 => entry(Opcode::EOR, 2, 3, AddressingMode::ZeroPage),
        0x55 => entry(Opcode::EOR, 2, 4, AddressingMode::ZeroPage_X),
        0x4D => entry(Opcode::EOR, 3, 4, AddressingMode::Absolute),
        0x5D => entry(Opcode::EOR, 3, 4, AddressingMode::Absolute_X),
        0x59 => entry(Opcode::EOR, 3, 4, AddressingMode::Absolute_Y),
        0x41 => entry(Opcode::EOR, 2, 6, AddressingMode::Indirect_X),
        0x51 => entry(Opcode::EOR, 2, 5, AddressingMode::Indirect_Y),
        0xE6 => entry(Opcode::INC, 2, 5, AddressingMode::ZeroPage),
        0xF6 => entry(Opcode::INC, 2, 6, AddressingMode::ZeroPage_X),
        0xEE => entry(Opcode::INC, 3, 6, AddressingMode::Absolute),
        0xFE => entry(Opcode::INC, 3, 7, AddressingMode::Absolute_X),
        0xE8 => entry(Opcode::INX, 1, 2, AddressingMode::NoneAddressing),
        0xC8 => entry(Opcode::INY, 1, 2, AddressingMode::NoneAddressing),
        0x4C => entry(Opcode::JMP, 3, 3, AddressingMode::Absolute),
        0x6C => entry(Opcode::JMP, 3, 5, AddressingMode::NoneAddressing),
        0x20 => entry(Opcode::JSR, 3, 6, AddressingMode::Absolute),
        0xA9 => entry(Opcode::LDA, 2, 2, AddressingMode::Immediate),
        0xA5 => entry(Opcode::LDA, 2, 3, AddressingMode::ZeroPage),
        0xB5 => entry(Opcode::LDA, 2, 4, AddressingMode::ZeroPage_X),
        0xAD => entry(Opcode::LDA, 3, 4, AddressingMode::Absolute),
        0xBD => entry(Opcode::LDA, 3, 4, AddressingMode::Absolute_X),
        0xB9 => entry(Opcode::LDA, 3, 4, AddressingMode::Absolute_Y),
        0xA1 => entry(Opcode::LDA, 2, 6, AddressingMode::Indirect_X),
        0xB1 => entry(Opcode::LDA, 2, 5, AddressingMode::Indirect_Y),
        0xA2 => entry(Opcode::LDX, 2, 2, AddressingMode::Immediate),
        0xA6 => entry(Opcode::LDX, 2, 3, AddressingMode::ZeroPage),
        0xB6 => entry(Opcode::LDX, 2, 4, AddressingMode::ZeroPage_Y),
        0xAE => entry(Opcode::LDX, 3, 4, AddressingMode::Absolute),
        0xBE => entry(Opcode::LDX, 3, 4, AddressingMode::Absolute_Y),
        0xA0 => entry(Opcode::LDY, 2, 2, AddressingMode::Immediate),
        0xA4 => entry(Opcode::LDY, 2, 3, AddressingMode::ZeroPage),
        0xB4 => entry(Opcode::LDY, 2, 4, AddressingMode::ZeroPage_X),
        0xAC => entry(Opcode::LDY, 3, 4, AddressingMode::Absolute),
        0xBC => entry(Opcode::LDY, 3, 4, AddressingMode::Absolute_X),
        0x4A => entry(Opcode::LSR, 1, 2, AddressingMode::Accumulator),
        0x46 => entry(Opcode::LSR, 2, 5, AddressingMode::ZeroPage),
        0x56 => entry(Opcode::LSR, 2, 6, AddressingMode::ZeroPage_X),
        0x4E => entry(Opcode::LSR, 3, 6, AddressingMode::Absolute),
        0x5E => entry(Opcode::LSR, 3, 7, AddressingMode::Absolute_X),
        0xEA => entry(Opcode::NOP, 1, 2, AddressingMode::NoneAddressing),
        0x09 => entry(Opcode::ORA, 2, 2, AddressingMode::Immediate),
        0x05 => entry(Opcode::ORA, 2, 3, AddressingMode::ZeroPage),
        0x15 => entry(Opcode::ORA, 2, 4, AddressingMode::ZeroPage_X),
        0x0D => entry(Opcode::ORA, 3, 4, AddressingMode::Absolute),
        0x1D => entry(Opcode::ORA, 3, 4, AddressingMode::Absolute_X),
        0x19 => entry(Opcode::ORA, 3, 4, AddressingMode::Absolute_Y),
        0x01 => entry(Opcode::ORA, 2, 6, AddressingMode::Indirect_X),
        0x11 => entry(Opcode::ORA, 2, 5, AddressingMode::Indirect_Y),
        0x48 => entry(Opcode::PHA, 1, 3, AddressingMode::NoneAddressing),
        0x08 => entry(Opcode::PHP, 1, 3, AddressingMode::NoneAddressing),
        0x68 => entry(Opcode::PLA, 1, 4, AddressingMode::NoneAddressing),
        0x28 => entry(Opcode::PLP, 1, 4, AddressingMode::NoneAddressing),
        0x2A => entry(Opcode::ROL, 1, 2, AddressingMode::Accumulator),
        0x26 => entry(Opcode::ROL, 2, 5, AddressingMode::ZeroPage),
        0x36 => entry(Opcode::ROL, 2, 6, AddressingMode::ZeroPage_X),
        0x2E => entry(Opcode::ROL, 3, 6, AddressingMode::Absolute),
        0x3E => entry(Opcode::ROL, 3, 7, AddressingMode::Absolute_X),
        0x6A => entry(Opcode::ROR, 1, 2, AddressingMode::Accumulator),
        0x66 => entry(Opcode::ROR, 2, 5, AddressingMode::ZeroPage),
        0x76 => entry(Opcode::ROR, 2, 6, AddressingMode::ZeroPage_X),
        0x6E => entry(Opcode::ROR, 3, 6, AddressingMode::Absolute),
        0x7E => entry(Opcode::ROR, 3, 7, AddressingMode::Absolute_X),
        0x40 => entry(Opcode::RTI, 1, 6, AddressingMode::NoneAddressing),
        0x60 => entry(Opcode::RTS, 1, 6, AddressingMode::NoneAddressing),
        0xE9 => entry(Opcode::SBC, 2, 2, AddressingMode::Immediate),
        0xE5 => entry(Opcode::SBC, 2, 3, AddressingMode::ZeroPage),
        0xF5 => entry(Opcode::SBC, 2, 4, AddressingMode::ZeroPage_X),
        0xED => entry(Opcode::SBC, 3, 4, AddressingMode::Absolute),
        0xFD => entry(Opcode::SBC, 3, 4, AddressingMode::Absolute_X),
        0xF9 => entry(Opcode::SBC, 3, 4, AddressingMode::Absolute_Y),
        0xE1 => entry(Opcode::SBC, 2, 6, AddressingMode::Indirect_X),
        0xF1 => entry(Opcode::SBC, 2, 5, AddressingMode::Indirect_Y),
        0x38 => entry(Opcode::SEC, 1, 2, AddressingMode::NoneAddressing),
        0xF8 => entry(Opcode::SED, 1, 2, AddressingMode::NoneAddressing),
        0x78 => entry(Opcode::SEI, 1, 2, AddressingMode::NoneAddressing),
        0x85 => entry(Opcode::STA, 2, 3, AddressingMode::ZeroPage),
        0x95 => entry(Opcode::STA, 2, 4, AddressingMode::ZeroPage_X),
        0x8D => entry(Opcode::STA, 3, 4, AddressingMode::Absolute),
        0x9D => entry(Opcode::STA, 3, 5, AddressingMode::Absolute_X),
        0x99 => entry(Opcode::STA, 3, 5, AddressingMode::Absolute_Y),
        0x81 => entry(Opcode::STA, 2, 6, AddressingMode::Indirect_X),
        0x91 => entry(Opcode::STA, 2, 6, AddressingMode::Indirect_Y),
        0x86 => entry(Opcode::STX, 2, 3, AddressingMode::ZeroPage),
        0x96 => entry(Opcode::STX, 2, 4, AddressingMode::ZeroPage_Y),
        0x8E => entry(Opcode::STX, 3, 4, AddressingMode::Absolute),
        0x84 => entry(Opcode::STY, 2, 3, AddressingMode::ZeroPage),
        0x94 => entry(Opcode::STY, 2, 4, AddressingMode::ZeroPage_X),
        0x8C => entry(Opcode::STY, 3, 4, AddressingMode::Absolute),
        0xAA => entry(Opcode::TAX, 1, 2, AddressingMode::NoneAddressing),
        0xA8 => entry(Opcode::TAY, 1, 2, AddressingMode::NoneAddressing),
        0xBA => entry(Opcode::TSX, 1, 2, AddressingMode::NoneAddressing),
        0x8A => entry(Opcode::TXA, 1, 2, AddressingMode::NoneAddressing),
        0x9A => entry(Opcode::TXS, 1, 2, AddressingMode::NoneAddressing),
        0x98 => entry(Opcode::TYA, 1, 2, AddressingMode::NoneAddressing),
        _ => None,
    }
}

fn make_entry(opcode: Opcode, bytes: u8, cycles: u8, addressing_mode: AddressingMode) -> (r: Option<Instruction>)
    ensures
        r == entry(opcode, bytes, cycles, addressing_mode),
{
    Some(Instruction { opcode, bytes, cycles, addressing_mode })
}

/// Looks up the descriptor of an opcode byte.
pub fn lookup(code: u8) -> (r: Option<Instruction>)
    ensures
        r == opcode_table(code),
        r matches Some(ins) ==> ins.is_well_formed() && ins.bytes >= 1,
{
    reveal(opcode_table);
    match code {
        0x69 => make_entry(Opcode::ADC, 2, 2, AddressingMode::Immediate),
        0x65 => make_entry(Opcode::ADC, 2, 3, AddressingMode::ZeroPage),
        0x75 => make_entry(Opcode::ADC, 2, 4, AddressingMode::ZeroPage_X),
        0x6D => make_entry(Opcode::ADC, 3, 4, AddressingMode::Absolute),
        0x7D => make_entry(Opcode::ADC, 3, 4, AddressingMode::Absolute_X),
        0x79 => make_entry(Opcode::ADC, 3, 4, AddressingMode::Absolute_Y),
        0x61 => make_entry(Opcode::ADC, 2, 6, AddressingMode::Indirect_X),
        0x71 => make_entry(Opcode::ADC, 2, 5, AddressingMode::Indirect_Y),
        0x29 => make_entry(Opcode::AND, 2, 2, AddressingMode::Immediate),
        0x25 => make_entry(Opcode::AND, 2, 3, AddressingMode::ZeroPage),
        0x35 => make_entry(Opcode::AND, 2, 4, AddressingMode::ZeroPage_X),
        0x2D => make_entry(Opcode::AND, 3, 4, AddressingMode::Absolute),
        0x3D => make_entry(Opcode::AND, 3, 4, AddressingMode::Absolute_X),
        0x39 => make_entry(Opcode::AND, 3, 4, AddressingMode::Absolute_Y),
        0x21 => make_entry(Opcode::AND, 2, 6, AddressingMode::Indirect_X),
        0x31 => make_entry(Opcode::AND, 2, 5, AddressingMode::Indirect_Y),
        0x0A => make_entry(Opcode::ASL, 1, 2, AddressingMode::Accumulator),
        0x06 => make_entry(Opcode::ASL, 2, 5, AddressingMode::ZeroPage),
        0x16 => make_entry(Opcode::ASL, 2, 6, AddressingMode::ZeroPage_X),
        0x0E => make_entry(Opcode::ASL, 3, 6, AddressingMode::Absolute),
        0x1E => make_entry(Opcode::ASL, 3, 7, AddressingMode::Absolute_X),
        0x90 => make_entry(Opcode::BCC, 2, 2, AddressingMode::NoneAddressing),
        0xB0 => make_entry(Opcode::BCS, 2, 2, AddressingMode::NoneAddressing),
        0xF0 => make_entry(Opcode::BEQ, 2, 2, AddressingMode::NoneAddressing),
        0x24 => make_entry(Opcode::BIT, 2, 3, AddressingMode::ZeroPage),
        0x2C => make_entry(Opcode::BIT, 3, 4, AddressingMode::Absolute),
        0x30 => make_entry(Opcode::BMI, 2, 2, AddressingMode::NoneAddressing),
        0xD0 => make_entry(Opcode::BNE, 2, 2, AddressingMode::NoneAddressing),
        0x10 => make_entry(Opcode::BPL, 2, 2, AddressingMode::NoneAddressing),
        0x00 => make_entry(Opcode::BRK, 1, 7, AddressingMode::NoneAddressing),
        0x50 => make_entry(Opcode::BVC, 2, 2, AddressingMode::NoneAddressing),
        0x70 => make_entry(Opcode::BVS, 2, 2, AddressingMode::NoneAddressing),
        0x18 => make_entry(Opcode::CLC, 1, 2, AddressingMode::NoneAddressing),
        0xD8 => make_entry(Opcode::CLD, 1, 2, AddressingMode::NoneAddressing),
        0x58 => make_entry(Opcode::CLI, 1, 2, AddressingMode::NoneAddressing),
        0xB8 => make_entry(Opcode::CLV, 1, 2, AddressingMode::NoneAddressing),
        0xC9 => make_entry(Opcode::CMP, 2, 2, AddressingMode::Immediate),
        0xC5 => make_entry(Opcode::CMP, 2, 3, AddressingMode::ZeroPage),
        0xD5 => make_entry(Opcode::CMP, 2, 4, AddressingMode::ZeroPage_X),
        0xCD => make_entry(Opcode::CMP, 3, 4, AddressingMode::Absolute),
        0xDD => make_entry(Opcode::CMP, 3, 4, AddressingMode::Absolute_X),
        0xD9 => make_entry(Opcode::CMP, 3, 4, AddressingMode::Absolute_Y),
        0xC1 => make_entry(Opcode::CMP, 2, 6, AddressingMode::Indirect_X),
        0xD1 => make_entry(Opcode::CMP, 2, 5, AddressingMode::Indirect_Y),
        0xE0 => make_entry(Opcode::CPX, 2, 2, AddressingMode::Immediate),
        0xE4 => make_entry(Opcode::CPX, 2, 3, AddressingMode::ZeroPage),
        0xEC => make_entry(Opcode::CPX, 3, 4, AddressingMode::Absolute),
        0xC0 => make_entry(Opcode::CPY, 2, 2, AddressingMode::Immediate),
        0xC4 => make_entry(Opcode::CPY, 2, 3, AddressingMode::ZeroPage),
        0xCC => make_entry(Opcode::CPY, 3, 4, AddressingMode::Absolute),
        0xC6 => make_entry(Opcode::DEC, 2, 5, AddressingMode::ZeroPage),
        0xD6 => make_entry(Opcode::DEC, 2, 6, AddressingMode::ZeroPage_X),
        0xCE => make_entry(Opcode::DEC, 3, 6, AddressingMode::Absolute),
        0xDE => make_entry(Opcode::DEC, 3, 7, AddressingMode::Absolute_X),
        0xCA => make_entry(Opcode::DEX, 1, 2, AddressingMode::NoneAddressing),
        0x88 => make_entry(Opcode::DEY, 1, 2, AddressingMode::NoneAddressing),
        0x49 => make_entry(Opcode::EOR, 2, 2, AddressingMode::Immediate),
        0x45 => make_entry(Opcode::EOR, 2, 3, AddressingMode::ZeroPage),
        0x55 => make_entry(Opcode::EOR, 2, 4, AddressingMode::ZeroPage_X),
        0x4D => make_entry(Opcode::EOR, 3, 4, AddressingMode::Absolute),
        0x5D => make_entry(Opcode::EOR, 3, 4, AddressingMode::Absolute_X),
        0x59 => make_entry(Opcode::EOR, 3, 4, AddressingMode::Absolute_Y),
        0x41 => make_entry(Opcode::EOR, 2, 6, AddressingMode::Indirect_X),
        0x51 => make_entry(Opcode::EOR, 2, 5, AddressingMode::Indirect_Y),
        0xE6 => make_entry(Opcode::INC, 2, 5, AddressingMode::ZeroPage),
        0xF6 => make_entry(Opcode::INC, 2, 6, AddressingMode::ZeroPage_X),
        0xEE => make_entry(Opcode::INC, 3, 6, AddressingMode::Absolute),
        0xFE => make_entry(Opcode::INC, 3, 7, AddressingMode::Absolute_X),
        0xE8 => make_entry(Opcode::INX, 1, 2, AddressingMode::NoneAddressing),
        0xC8 => make_entry(Opcode::INY, 1, 2, AddressingMode::NoneAddressing),
        0x4C => make_entry(Opcode::JMP, 3, 3, AddressingMode::Absolute),
        0x6C => make_entry(Opcode::JMP, 3, 5, AddressingMode::NoneAddressing),
        0x20 => make_entry(Opcode::JSR, 3, 6, AddressingMode::Absolute),
        0xA9 => make_entry(Opcode::LDA, 2, 2, AddressingMode::Immediate),
        0xA5 => make_entry(Opcode::LDA, 2, 3, AddressingMode::ZeroPage),
        0xB5 => make_entry(Opcode::LDA, 2, 4, AddressingMode::ZeroPage_X),
        0xAD => make_entry(Opcode::LDA, 3, 4, AddressingMode::Absolute),
        0xBD => make_entry(Opcode::LDA, 3, 4, AddressingMode::Absolute_X),
        0xB9 => make_entry(Opcode::LDA, 3, 4, AddressingMode::Absolute_Y),
        0xA1 => make_entry(Opcode::LDA, 2, 6, AddressingMode::Indirect_X),
        0xB1 => make_entry(Opcode::LDA, 2, 5, AddressingMode::Indirect_Y),
        0xA2 => make_entry(Opcode::LDX, 2, 2, AddressingMode::Immediate),
        0xA6 => make_entry(Opcode::LDX, 2, 3, AddressingMode::ZeroPage),
        0xB6 => make_entry(Opcode::LDX, 2, 4, AddressingMode::ZeroPage_Y),
        0xAE => make_entry(Opcode::LDX, 3, 4, AddressingMode::Absolute),
        0xBE => make_entry(Opcode::LDX, 3, 4, AddressingMode::Absolute_Y),
        0xA0 => make_entry(Opcode::LDY, 2, 2, AddressingMode::Immediate),
        0xA4 => make_entry(Opcode::LDY, 2, 3, AddressingMode::ZeroPage),
        0xB4 => make_entry(Opcode::LDY, 2, 4, AddressingMode::ZeroPage_X),
        0xAC => make_entry(Opcode::LDY, 3, 4, AddressingMode::Absolute),
        0xBC => make_entry(Opcode::LDY, 3, 4, AddressingMode::Absolute_X),
        0x4A => make_entry(Opcode::LSR, 1, 2, AddressingMode::Accumulator),
        0x46 => make_entry(Opcode::LSR, 2, 5, AddressingMode::ZeroPage),
        0x56 => make_entry(Opcode::LSR, 2, 6, AddressingMode::ZeroPage_X),
        0x4E => make_entry(Opcode::LSR, 3, 6, AddressingMode::Absolute),
        0x5E => make_entry(Opcode::LSR, 3, 7, AddressingMode::Absolute_X),
        0xEA => make_entry(Opcode::NOP, 1, 2, AddressingMode::NoneAddressing),
        0x09 => make_entry(Opcode::ORA, 2, 2, AddressingMode::Immediate),
        0x05 => make_entry(Opcode::ORA, 2, 3, AddressingMode::ZeroPage),
        0x15 => make_entry(Opcode::ORA, 2, 4, AddressingMode::ZeroPage_X),
        0x0D => make_entry(Opcode::ORA, 3, 4, AddressingMode::Absolute),
        0x1D => make_entry(Opcode::ORA, 3, 4, AddressingMode::Absolute_X),
        0x19 => make_entry(Opcode::ORA, 3, 4, AddressingMode::Absolute_Y),
        0x01 => make_entry(Opcode::ORA, 2, 6, AddressingMode::Indirect_X),
        0x11 => make_entry(Opcode::ORA, 2, 5, AddressingMode::Indirect_Y),
        0x48 => make_entry(Opcode::PHA, 1, 3, AddressingMode::NoneAddressing),
        0x08 => make_entry(Opcode::PHP, 1, 3, AddressingMode::NoneAddressing),
        0x68 => make_entry(Opcode::PLA, 1, 4, AddressingMode::NoneAddressing),
        0x28 => make_entry(Opcode::PLP, 1, 4, AddressingMode::NoneAddressing),
        0x2A => make_entry(Opcode::ROL, 1, 2, AddressingMode::Accumulator),
        0x26 => make_entry(Opcode::ROL, 2, 5, AddressingMode::ZeroPage),
        0x36 => make_entry(Opcode::ROL, 2, 6, AddressingMode::ZeroPage_X),
        0x2E => make_entry(Opcode::ROL, 3, 6, AddressingMode::Absolute),
        0x3E => make_entry(Opcode::ROL, 3, 7, AddressingMode::Absolute_X),
        0x6A => make_entry(Opcode::ROR, 1, 2, AddressingMode::Accumulator),
        0x66 => make_entry(Opcode::ROR, 2, 5, AddressingMode::ZeroPage),
        0x76 => make_entry(Opcode::ROR, 2, 6, AddressingMode::ZeroPage_X),
        0x6E => make_entry(Opcode::ROR, 3, 6, AddressingMode::Absolute),
        0x7E => make_entry(Opcode::ROR, 3, 7, AddressingMode::Absolute_X),
        0x40 => make_entry(Opcode::RTI, 1, 6, AddressingMode::NoneAddressing),
        0x60 => make_entry(Opcode::RTS, 1, 6, AddressingMode::NoneAddressing),
        0xE9 => make_entry(Opcode::SBC, 2, 2, AddressingMode::Immediate),
        0xE5 => make_entry(Opcode::SBC, 2, 3, AddressingMode::ZeroPage),
        0xF5 => make_entry(Opcode::SBC, 2, 4, AddressingMode::ZeroPage_X),
        0xED => make_entry(Opcode::SBC, 3, 4, AddressingMode::Absolute),
        0xFD => make_entry(Opcode::SBC, 3, 4, AddressingMode::Absolute_X),
        0xF9 => make_entry(Opcode::SBC, 3, 4, AddressingMode::Absolute_Y),
        0xE1 => make_entry(Opcode::SBC, 2, 6, AddressingMode::Indirect_X),
        0xF1 => make_entry(Opcode::SBC, 2, 5, AddressingMode::Indirect_Y),
        0x38 => make_entry(Opcode::SEC, 1, 2, AddressingMode::NoneAddressing),
        0xF8 => make_entry(Opcode::SED, 1, 2, AddressingMode::NoneAddressing),
        0x78 => make_entry(Opcode::SEI, 1, 2, AddressingMode::NoneAddressing),
        0x85 => make_entry(Opcode::STA, 2, 3, AddressingMode::ZeroPage),
        0x95 => make_entry(Opcode::STA, 2, 4, AddressingMode::ZeroPage_X),
        0x8D => make_entry(Opcode::STA, 3, 4, AddressingMode::Absolute),
        0x9D => make_entry(Opcode::STA, 3, 5, AddressingMode::Absolute_X),
        0x99 => make_entry(Opcode::STA, 3, 5, AddressingMode::Absolute_Y),
        0x81 => make_entry(Opcode::STA, 2, 6, AddressingMode::Indirect_X),
        0x91 => make_entry(Opcode::STA, 2, 6, AddressingMode::Indirect_Y),
        0x86 => make_entry(Opcode::STX, 2, 3, AddressingMode::ZeroPage),
        0x96 => make_entry(Opcode::STX, 2, 4, AddressingMode::ZeroPage_Y),
        0x8E => make_entry(Opcode::STX, 3, 4, AddressingMode::Absolute),
        0x84 => make_entry(Opcode::STY, 2, 3, AddressingMode::ZeroPage),
        0x94 => make_entry(Opcode::STY, 2, 4, AddressingMode::ZeroPage_X),
        0x8C => make_entry(Opcode::STY, 3, 4, AddressingMode::Absolute),
        0xAA => make_entry(Opcode::TAX, 1, 2, AddressingMode::NoneAddressing),
        0xA8 => make_entry(Opcode::TAY, 1, 2, AddressingMode::NoneAddressing),
        0xBA => make_entry(Opcode::TSX, 1, 2, AddressingMode::NoneAddressing),
        0x8A => make_entry(Opcode::TXA, 1, 2, AddressingMode::NoneAddressing),
        0x9A => make_entry(Opcode::TXS, 1, 2, AddressingMode::NoneAddressing),
        0x98 => make_entry(Opcode::TYA, 1, 2, AddressingMode::NoneAddressing),
        _ => None,
    }
}

} // verus!
