use vstd::prelude::*;
use crate::error::EmuError;
use crate::memory::{written, word_at, MEMORY_SIZE};
use crate::registers::{high_byte, low_byte, FlagRegister, Registers};

verus! {

/// The single registers that the implemented instructions address by opcode.
#[derive(Debug, Clone, Copy, PartialEq, Eq, Structural)]
pub enum Reg8 {
    B,
    C,
    D,
}

/// The register pairs that the implemented instructions address by opcode.
#[derive(Debug, Clone, Copy, PartialEq, Eq, Structural)]
pub enum Reg16 {
    BC,
    DE,
}

/// The implemented instruction set.
#[derive(Debug, Clone, Copy, PartialEq, Eq, Structural)]
pub enum Instruction {
    /// NOP.
    Nop,
    /// LD rr,d16: load the little-endian immediate word into a pair.
    LoadPairImmediate(Reg16),
    /// LD (rr),A: store A at the address held in a pair.
    StoreAIndirect(Reg16),
    /// INC rr, wrapping, no flag effect.
    IncrementPair(Reg16),
    /// DEC rr, wrapping, no flag effect.
    DecrementPair(Reg16),
    /// INC r.
    Increment(Reg8),
    /// DEC r.
    Decrement(Reg8),
    /// LD r,d8.
    LoadImmediate(Reg8),
    /// RLCA: rotate A left, bit 7 to bit 0 and to carry.
    RotateLeftCircular,
    /// RRCA: rotate A right, bit 0 to bit 7 and to carry.
    RotateRightCircular,
    /// RLA: rotate A left through carry.
    RotateLeft,
    /// RRA: rotate A right through carry.
    RotateRight,
    /// LD (a16),SP: store SP little-endian at the immediate address.
    StoreStackPointer,
    /// ADD HL,BC.
    AddHlBc,
    /// LD A,(n): load A from the byte that follows the opcode.
    LoadAFromNext,
    /// STOP.
    Stop,
    /// HALT.
    Halt,
}

/// The instruction that `opcode` names, if it is implemented.
pub open spec fn opcode_instruction(opcode: u8) -> Option<Instruction> {
    match opcode {
        0x00 => Some(Instruction::Nop),
        0x01 => Some(Instruction::LoadPairImmediate(Reg16::BC)),
        0x02 => Some(Instruction::StoreAIndirect(Reg16::BC)),
        0x03 => Some(Instruction::IncrementPair(Reg16::BC)),
        0x04 => Some(Instruction::Increment(Reg8::B)),
        0x05 => Some(Instruction::Decrement(Reg8::B)),
        0x06 => Some(Instruction::LoadImmediate(Reg8::B)),
        0x07 => Some(Instruction::RotateLeftCircular),
        0x08 => Some(Instruction::StoreStackPointer),
        0x09 => Some(Instruction::AddHlBc),
        0x0A => Some(Instruction::LoadAFromNext),
        0x0B => Some(Instruction::DecrementPair(Reg16::BC)),
        0x0C => Some(Instruction::Increment(Reg8::C)),
        0x0D => Some(Instruction::Decrement(Reg8::C)),
        0x0E => Some(Instruction::LoadImmediate(Reg8::C)),
        0x0F => Some(Instruction::RotateRightCircular),
        0x10 => Some(Instruction::Stop),
        0x11 => Some(Instruction::LoadPairImmediate(Reg16::DE)),
        0x12 => Some(Instruction::StoreAIndirect(Reg16::DE)),
        0x13 => Some(Instruction::IncrementPair(Reg16::DE)),
        0x14 => Some(Instruction::Increment(Reg8::D)),
        0x15 => Some(Instruction::Decrement(Reg8::D)),
        0x16 => Some(Instruction::LoadImmediate(Reg8::D)),
        0x17 => Some(Instruction::RotateLeft),
        0x1F => Some(Instruction::RotateRight),
        0x76 => Some(Instruction::Halt),
        _ => None,
    }
}

/// Decodes an opcode byte.
pub fn decode(opcode: u8) -> (r: Option<Instruction>)
    ensures
        r == opcode_instruction(opcode),
{
    match opcode {
        0x00 => Some(Instruction::Nop),
        0x01 => Some(Instruction::LoadPairImmediate(Reg16::BC)),
        0x02 => Some(Instruction::StoreAIndirect(Reg16::BC)),
        0x03 => Some(Instruction::IncrementPair(Reg16::BC)),
        0x04 => Some(Instruction::Increment(Reg8::B)),
        0x05 => Some(Instruction::Decrement(Reg8::B)),
        0x06 => Some(Instruction::LoadImmediate(Reg8::B)),
        0x07 => Some(Instruction::RotateLeftCircular),
        0x08 => Some(Instruction::StoreStackPointer),
        0x09 => Some(Instruction::AddHlBc),
        0x0A => Some(Instruction::LoadAFromNext),
        0x0B => Some(Instruction::DecrementPair(Reg16::BC)),
        0x0C => Some(Instruction::Increment(Reg8::C)),
        0x0D => Some(Instruction::Decrement(Reg8::C)),
        0x0E => Some(Instruction::LoadImmediate(Reg8::C)),
        0x0F => Some(Instruction::RotateRightCircular),
        0x10 => Some(Instruction::Stop),
        0x11 => Some(Instruction::LoadPairImmediate(Reg16::DE)),
        0x12 => Some(Instruction::StoreAIndirect(Reg16::DE)),
        0x13 => Some(Instruction::IncrementPair(Reg16::DE)),
        0x14 => Some(Instruction::Increment(Reg8::D)),
        0x15 => Some(Instruction::Decrement(Reg8::D)),
        0x16 => Some(Instruction::LoadImmediate(Reg8::D)),
        0x17 => Some(Instruction::RotateLeft),
        0x1F => Some(Instruction::RotateRight),
        0x76 => Some(Instruction::Halt),
        _ => None,
    }
}

impl Instruction {
    /// Encoded length in bytes: the amount by which the instruction advances PC.
    pub open spec fn spec_length(&self) -> u16 {
        match self {
            Instruction::LoadPairImmediate(_) | Instruction::StoreStackPointer => 3,
            Instruction::LoadImmediate(_) | Instruction::Stop => 2,
            _ => 1,
        }
    }

    /// Cost in T-cycles.
    pub open spec fn spec_cycles(&self) -> u8 {
        match self {
            Instruction::StoreStackPointer => 20,
            Instruction::LoadPairImmediate(_) => 12,
            Instruction::StoreAIndirect(_)
            | Instruction::IncrementPair(_)
            | Instruction::DecrementPair(_)
            | Instruction::LoadImmediate(_)
            | Instruction::AddHlBc
            | Instruction::LoadAFromNext => 8,
            _ => 4,
        }
    }

    #[verifier::when_used_as_spec(spec_length)]
    pub fn length(&self) -> (r: u16)
        ensures
            r == self.spec_length(),
    {
        match self {
            Instruction::LoadPairImmediate(_) | Instruction::StoreStackPointer => 3,
            Instruction::LoadImmediate(_) | Instruction::Stop => 2,
            _ => 1,
        }
    }

    #[verifier::when_used_as_spec(spec_cycles)]
    pub fn cycles(&self) -> (r: u8)
        ensures
            r == self.spec_cycles(),
    {
        match self {
            Instruction::StoreStackPointer => 20,
            Instruction::LoadPairImmediate(_) => 12,
            Instruction::StoreAIndirect(_)
            | Instruction::IncrementPair(_)
            | Instruction::DecrementPair(_)
            | Instruction::LoadImmediate(_)
            | Instruction::AddHlBc
            | Instruction::LoadAFromNext => 8,
            _ => 4,
        }
    }
}

/// What an instruction can observe and change: the register file, PC, SP,
/// the contents of the memory store, and the halt and stop states.
pub struct MachineState {
    pub registers: Registers,
    pub pc: u16,
    pub sp: u16,
    pub memory: Seq<u8>,
    pub halt: bool,
    pub stop: bool,
}

/// The value of register `r`.
pub open spec fn reg8(regs: Registers, r: Reg8) -> u8 {
    match r {
        Reg8::B => regs.b,
        Reg8::C => regs.c,
        Reg8::D => regs.d,
    }
}

/// The registers with `r` set to `v`.
pub open spec fn with_reg8(regs: Registers, r: Reg8, v: u8) -> Registers {
    match r {
        Reg8::B => Registers { b: v, ..regs },
        Reg8::C => Registers { c: v, ..regs },
        Reg8::D => Registers { d: v, ..regs },
    }
}

/// The value of pair `p`.
pub open spec fn reg16(regs: Registers, p: Reg16) -> u16 {
    match p {
        Reg16::BC => regs.bc_value(),
        Reg16::DE => regs.de_value(),
    }
}

/// The registers with pair `p` set to `v`.
pub open spec fn with_reg16(regs: Registers, p: Reg16, v: u16) -> Registers {
    match p {
        Reg16::BC => regs.with_bc(v),
        Reg16::DE => regs.with_de(v),
    }
}

/// The flags after a rotate of A whose bit shifted out is `out`: carry takes
/// that bit, the other three are cleared.
pub open spec fn rotate_flags(out: bool) -> FlagRegister {
    FlagRegister { zero: false, subtract: false, half_carry: false, carry: out }
}

/// The value 1 for a set flag, 0 for a clear one.
pub open spec fn bit_of(b: bool) -> nat {
    if b {
        1
    } else {
        0
    }
}

/// The failure of an access of `length` bytes at `address`.
pub open spec fn out_of_bounds(address: int, length: int) -> EmuError {
    EmuError::MemoryBoundsViolation { address: address as usize, length: length as usize }
}

/// LD rr,d16: the pair takes the word after the opcode.
pub open spec fn op_load_pair_immediate(s: MachineState, p: Reg16) -> Result<MachineState, EmuError> {
    let next = s.pc + 1;
    if next + 1 < MEMORY_SIZE {
        Ok(MachineState { registers: with_reg16(s.registers, p, word_at(s.memory, next)), ..s })
    } else {
        Err(out_of_bounds(next, 2))
    }
}

/// LD (rr),A: A is stored at the address the pair holds.
pub open spec fn op_store_a_indirect(s: MachineState, p: Reg16) -> Result<MachineState, EmuError> {
    let address = reg16(s.registers, p) as int;
    if address + 1 <= MEMORY_SIZE {
        Ok(MachineState { memory: written(s.memory, address, seq![s.registers.a]), ..s })
    } else {
        Err(out_of_bounds(address, 1))
    }
}

/// INC rr: the pair is incremented modulo 2^16; no flag changes.
pub open spec fn op_increment_pair(s: MachineState, p: Reg16) -> MachineState {
    let v = reg16(s.registers, p);
    MachineState { registers: with_reg16(s.registers, p, ((v + 1) % 0x10000) as u16), ..s }
}

/// DEC rr: the pair is decremented modulo 2^16; no flag changes.
pub open spec fn op_decrement_pair(s: MachineState, p: Reg16) -> MachineState {
    let v = reg16(s.registers, p);
    MachineState { registers: with_reg16(s.registers, p, ((v + 0xFFFF) % 0x10000) as u16), ..s }
}

/// INC r: the register is incremented modulo 2^8; zero tells whether the
/// result is 0, subtract is cleared, half-carry tells whether the low nibble
/// was 0xF; carry is kept.
pub open spec fn op_increment(s: MachineState, r: Reg8) -> MachineState {
    let v = reg8(s.registers, r);
    let res = ((v + 1) % 0x100) as u8;
    let f = FlagRegister { zero: res == 0, subtract: false, half_carry: v % 16 == 15, ..s.registers.f };
    MachineState { registers: Registers { f, ..with_reg8(s.registers, r, res) }, ..s }
}

/// DEC r: the register is decremented modulo 2^8; zero tells whether the
/// result is 0, subtract is set, half-carry tells whether the low nibble was
/// 0 (a borrow from bit 4); carry is kept.
pub open spec fn op_decrement(s: MachineState, r: Reg8) -> MachineState {
    let v = reg8(s.registers, r);
    let res = ((v + 0xFF) % 0x100) as u8;
    let f = FlagRegister { zero: res == 0, subtract: true, half_carry: v % 16 == 0, ..s.registers.f };
    MachineState { registers: Registers { f, ..with_reg8(s.registers, r, res) }, ..s }
}

/// LD r,d8: the register takes the byte after the opcode.
pub open spec fn op_load_immediate(s: MachineState, r: Reg8) -> Result<MachineState, EmuError> {
    let next = s.pc + 1;
    if next < MEMORY_SIZE {
        Ok(MachineState { registers: with_reg8(s.registers, r, s.memory[next]), ..s })
    } else {
        Err(out_of_bounds(next, 1))
    }
}

/// A takes `a`; carry takes `out`, the bit shifted out, and the other flags
/// are cleared.
pub open spec fn rotated(s: MachineState, a: u8, out: bool) -> MachineState {
    MachineState { registers: Registers { a, f: rotate_flags(out), ..s.registers }, ..s }
}

/// RLCA, RRCA, RLA and RRA.
pub open spec fn op_rotate(s: MachineState, ins: Instruction) -> MachineState {
    let a = s.registers.a;
    let carry = bit_of(s.registers.f.carry);
    match ins {
        Instruction::RotateLeftCircular => rotated(s, ((a * 2) % 0x100 + a / 0x80) as u8, a >= 0x80),
        Instruction::RotateRightCircular => rotated(s, (a / 2 + (a % 2) * 0x80) as u8, a % 2 == 1),
        Instruction::RotateLeft => rotated(s, ((a * 2) % 0x100 + carry) as u8, a >= 0x80),
        _ => rotated(s, (a / 2 + carry * 0x80) as u8, a % 2 == 1),
    }
}

/// LD (a16),SP: SP is stored little-endian at the address after the opcode.
pub open spec fn op_store_stack_pointer(s: MachineState) -> Result<MachineState, EmuError> {
    let next = s.pc + 1;
    if next + 1 < MEMORY_SIZE {
        let address = word_at(s.memory, next) as int;
        if address + 2 <= MEMORY_SIZE {
            let bytes = seq![low_byte(s.sp), high_byte(s.sp)];
            Ok(MachineState { memory: written(s.memory, address, bytes), ..s })
        } else {
            Err(out_of_bounds(address, 2))
        }
    } else {
        Err(out_of_bounds(next, 2))
    }
}

/// ADD HL,BC: HL takes the sum modulo 2^16; subtract is cleared, half-carry
/// tells whether the low 11 bits overflow, carry whether the sum does; zero
/// is kept.
pub open spec fn op_add_hl_bc(s: MachineState) -> MachineState {
    let hl = s.registers.hl_value();
    let bc = s.registers.bc_value();
    let f = FlagRegister {
        subtract: false,
        half_carry: hl % 0x800 + bc % 0x800 > 0x7FF,
        carry: hl + bc > 0xFFFF,
        ..s.registers.f
    };
    MachineState { registers: Registers { f, ..s.registers.with_hl(((hl + bc) % 0x10000) as u16) }, ..s }
}

/// LD A,(n) as this instruction set has it: A takes the byte after the
/// opcode.
pub open spec fn op_load_a_from_next(s: MachineState) -> Result<MachineState, EmuError> {
    let next = s.pc + 1;
    if next < MEMORY_SIZE {
        Ok(MachineState { registers: Registers { a: s.memory[next], ..s.registers }, ..s })
    } else {
        Err(out_of_bounds(next, 1))
    }
}

/// The effect of `ins` on `s` apart from the advance of PC: the new state, or
/// the error that stops it when it would access memory outside the store.
#[verifier::opaque]
pub open spec fn operate(s: MachineState, ins: Instruction) -> Result<MachineState, EmuError> {
    match ins {
        Instruction::Nop => Ok(s),
        Instruction::LoadPairImmediate(p) => op_load_pair_immediate(s, p),
        Instruction::StoreAIndirect(p) => op_store_a_indirect(s, p),
        Instruction::IncrementPair(p) => Ok(op_increment_pair(s, p)),
        Instruction::DecrementPair(p) => Ok(op_decrement_pair(s, p)),
        Instruction::Increment(r) => Ok(op_increment(s, r)),
        Instruction::Decrement(r) => Ok(op_decrement(s, r)),
        Instruction::LoadImmediate(r) => op_load_immediate(s, r),
        Instruction::RotateLeftCircular
        | Instruction::RotateRightCircular
        | Instruction::RotateLeft
        | Instruction::RotateRight => Ok(op_rotate(s, ins)),
        Instruction::StoreStackPointer => op_store_stack_pointer(s),
        Instruction::AddHlBc => Ok(op_add_hl_bc(s)),
        Instruction::LoadAFromNext => op_load_a_from_next(s),
        Instruction::Stop => Ok(MachineState { stop: true, ..s }),
        Instruction::Halt => Ok(MachineState { halt: true, ..s }),
    }
}

/// The state after executing `ins` in `s`: its effect, then PC advanced by the
/// instruction's length. An instruction whose encoded bytes would run past the
/// end of the store fails before anything else is looked at.
pub open spec fn execute_spec(s: MachineState, ins: Instruction) -> Result<MachineState, EmuError> {
    let length = ins.spec_length();
    if s.pc + length > MEMORY_SIZE {
        Err(out_of_bounds(s.pc as int, length as int))
    } else {
        match operate(s, ins) {
            Ok(t) => Ok(MachineState { pc: (s.pc + length) as u16, ..t }),
            Err(e) => Err(e),
        }
    }
}

/// One fetch-decode-execute step from `s`: the new state and the step's cost
/// in T-cycles, or the error that stops the run.
pub open spec fn step_spec(s: MachineState) -> Result<(MachineState, u8), EmuError> {
    if s.pc >= MEMORY_SIZE {
        Err(out_of_bounds(s.pc as int, 1))
    } else {
        match opcode_instruction(s.memory[s.pc as int]) {
            None => Err(EmuError::UnimplementedOpcode { opcode: s.memory[s.pc as int], pc: s.pc }),
            Some(ins) => match execute_spec(s, ins) {
                Ok(t) => Ok((t, ins.spec_cycles())),
                Err(e) => Err(e),
            },
        }
    }
}

/// NOP at PC changes nothing but PC, which advances by one, and costs four
/// T-cycles.
pub proof fn lemma_nop_step(s: MachineState)
    requires
        s.pc < MEMORY_SIZE,
        s.memory[s.pc as int] == 0x00,
    ensures
        step_spec(s) == Ok::<(MachineState, u8), EmuError>(
            (MachineState { pc: (s.pc + 1) as u16, ..s }, 4),
        ),
{
    reveal(operate);
}

/// HALT at PC sets the halt state, advances PC by one and costs four T-cycles;
/// nothing else changes.
pub proof fn lemma_halt_step(s: MachineState)
    requires
        s.pc < MEMORY_SIZE,
        s.memory[s.pc as int] == 0x76,
    ensures
        step_spec(s) == Ok::<(MachineState, u8), EmuError>(
            (MachineState { pc: (s.pc + 1) as u16, halt: true, ..s }, 4),
        ),
{
    reveal(operate);
}

/// A byte at PC outside the implemented set stops the step with
/// `UnimplementedOpcode`, naming the byte and PC; no state is produced.
pub proof fn lemma_unimplemented_opcode_stops(s: MachineState)
    requires
        s.pc < MEMORY_SIZE,
        opcode_instruction(s.memory[s.pc as int]) is None,
    ensures
        step_spec(s) == Err::<(MachineState, u8), EmuError>(
            EmuError::UnimplementedOpcode { opcode: s.memory[s.pc as int], pc: s.pc },
        ),
{
}

} // verus!
