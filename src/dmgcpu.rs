use vstd::prelude::*;
use crate::clock::{paced_total, Clock};
use crate::error::EmuError;
use crate::instruction::{
    decode, execute_spec, op_add_hl_bc, op_decrement, op_decrement_pair, op_increment,
    op_increment_pair, op_load_a_from_next, op_load_immediate, op_load_pair_immediate, op_rotate,
    op_store_a_indirect, op_store_stack_pointer, opcode_instruction, operate, reg16, reg8,
    step_spec, with_reg16, with_reg8, Instruction, MachineState, Reg16, Reg8,
};
use crate::memory::{Memory, MEMORY_SIZE};
use crate::registers::{lemma_split_bits, FlagRegister, Registers};

verus! {

/// Address at which execution starts, where the boot sequence would leave it.
pub const ENTRY_POINT: u16 = 0x0100;

/// Address of the HALT opcode that every new machine holds as a safety net.
pub const HALT_GUARD_ADDRESS: usize = 0xFF00;

/// The HALT opcode.
pub const HALT_OPCODE: u8 = 0x76;

/// `count` after `cost` more T-cycles, pinned at the largest `u64`.
pub open spec fn add_cycles(count: u64, cost: u8) -> u64 {
    if count + cost > u64::MAX {
        u64::MAX
    } else {
        (count + cost) as u64
    }
}

/// What one pass of the run loop did.
#[derive(Debug, Clone, Copy, PartialEq, Eq, Structural)]
pub enum RunStatus {
    /// The machine is halted: the run is over and nothing was done.
    Halted,
    /// The clock has not yet passed the retired cycles: nothing was executed.
    Waiting,
    /// One instruction was executed.
    Stepped,
}

/// The value of register `r`.
fn get_reg8(regs: &Registers, r: Reg8) -> (v: u8)
    ensures
        v == reg8(*regs, r),
{
    match r {
        Reg8::B => regs.b,
        Reg8::C => regs.c,
        Reg8::D => regs.d,
    }
}

/// Sets register `r` to `v`.
fn set_reg8(regs: &mut Registers, r: Reg8, v: u8)
    ensures
        *final(regs) == with_reg8(*old(regs), r, v),
{
    match r {
        Reg8::B => regs.b = v,
        Reg8::C => regs.c = v,
        Reg8::D => regs.d = v,
    }
}

/// The value of pair `p`.
fn get_reg16(regs: &Registers, p: Reg16) -> (v: u16)
    ensures
        v == reg16(*regs, p),
{
    match p {
        Reg16::BC => regs.bc(),
        Reg16::DE => regs.de(),
    }
}

/// Sets pair `p` to `v`.
fn set_reg16(regs: &mut Registers, p: Reg16, v: u16)
    ensures
        *final(regs) == with_reg16(*old(regs), p, v),
{
    match p {
        Reg16::BC => regs.write_bc(v),
        Reg16::DE => regs.write_de(v),
    }
}

/// `after` is `before` with the instruction state taken to `outcome` (PC left
/// where it was), and `r` reports it; on failure nothing changed.
pub open spec fn transition(
    before: DMGCPU,
    after: DMGCPU,
    outcome: Result<MachineState, EmuError>,
    r: Result<(), EmuError>,
) -> bool {
    &&& after.cycle_count == before.cycle_count
    &&& after.cpu_clock == before.cpu_clock
    &&& after.pc == before.pc
    &&& match outcome {
        Ok(t) => r == Ok::<(), EmuError>(()) && after.state() == t,
        Err(e) => r == Err::<(), EmuError>(e) && after.state() == before.state(),
    }
}

/// `after` is `before` with the effect of `ins` applied, apart from the
/// advance of PC, and `r` reports it; on failure nothing changed.
pub open spec fn applied(
    before: DMGCPU,
    after: DMGCPU,
    ins: Instruction,
    r: Result<(), EmuError>,
) -> bool {
    transition(before, after, operate(before.state(), ins), r)
}

/// The processor: registers, PC, SP, memory store, halt and stop states, the
/// count of retired T-cycles and the clock that paces retirement.
pub struct DMGCPU {
    pub registers: Registers,
    pub pc: u16,
    pub sp: u16,
    pub memory: Memory,
    pub halt: bool,
    pub stop: bool,
    pub cycle_count: u64,
    pub cpu_clock: Clock,
}

impl DMGCPU {
    /// The part of the machine that instructions see.
    pub open spec fn state(&self) -> MachineState {
        MachineState {
            registers: self.registers,
            pc: self.pc,
            sp: self.sp,
            memory: self.memory@,
            halt: self.halt,
            stop: self.stop,
        }
    }

    /// A machine with zeroed registers, PC at the entry point, SP at zero, a
    /// zeroed store holding a HALT opcode at the guard address, neither halted
    /// nor stopped, and a clock at `speed` Hz; a speed of zero is refused.
    pub fn new(speed: u32) -> (r: Result<DMGCPU, EmuError>)
        ensures
            speed == 0 ==> r == Err::<DMGCPU, EmuError>(EmuError::InvalidConfiguration),
            speed > 0 ==> (r matches Ok(cpu) && {
                &&& cpu.registers == Registers::new_spec()
                &&& cpu.pc == ENTRY_POINT
                &&& cpu.sp == 0
                &&& cpu.memory@ == Seq::new(
                    MEMORY_SIZE as nat,
                    |i: int|
                        if i == HALT_GUARD_ADDRESS {
                            HALT_OPCODE
                        } else {
                            0u8
                        },
                )
                &&& !cpu.halt
                &&& !cpu.stop
                &&& cpu.cycle_count == 0
                &&& cpu.cpu_clock.speed() == speed
                &&& cpu.cpu_clock.total() == 0
            }),
    {
        let registers = Registers::new();
        let mut memory = Memory::new();
        let cpu_clock = match Clock::new(speed) {
            Ok(c) => c,
            Err(e) => {
                return Err(e);
            },
        };
        memory.write(HALT_GUARD_ADDRESS, &[HALT_OPCODE]);
        proof {
            let expected = Seq::new(
                MEMORY_SIZE as nat,
                |i: int|
                    if i == HALT_GUARD_ADDRESS {
                        HALT_OPCODE
                    } else {
                        0u8
                    },
            );
            assert(memory@ =~= expected);
        }
        Ok(
            DMGCPU {
                registers,
                pc: ENTRY_POINT,
                sp: 0x0000,
                memory,
                halt: false,
                stop: false,
                cycle_count: 0,
                cpu_clock,
            },
        )
    }

    /// LD rr,d16.
    fn load_pair_immediate(&mut self, p: Reg16) -> (r: Result<(), EmuError>)
        ensures
            transition(*old(self), *final(self), op_load_pair_immediate(old(self).state(), p), r),
    {
        let next = self.pc as usize + 1;
        if next + 1 < MEMORY_SIZE {
            let v = self.memory.read_word(self.pc + 1);
            set_reg16(&mut self.registers, p, v);
            Ok(())
        } else {
            Err(EmuError::MemoryBoundsViolation { address: next, length: 2 })
        }
    }

    /// LD (rr),A.
    fn store_a_indirect(&mut self, p: Reg16) -> (r: Result<(), EmuError>)
        ensures
            transition(*old(self), *final(self), op_store_a_indirect(old(self).state(), p), r),
    {
        let address = get_reg16(&self.registers, p) as usize;
        if address + 1 <= MEMORY_SIZE {
            let data = [self.registers.a];
            proof {
                assert(data@ =~= seq![old(self).registers.a]);
            }
            self.memory.write(address, &data);
            Ok(())
        } else {
            Err(EmuError::MemoryBoundsViolation { address, length: 1 })
        }
    }

    /// INC rr when `up`, DEC rr otherwise.
    fn step_pair(&mut self, p: Reg16, up: bool) -> (r: Result<(), EmuError>)
        ensures
            transition(
                *old(self),
                *final(self),
                Ok(
                    if up {
                        op_increment_pair(old(self).state(), p)
                    } else {
                        op_decrement_pair(old(self).state(), p)
                    },
                ),
                r,
            ),
    {
        let v = get_reg16(&self.registers, p);
        let res = if up {
            v.wrapping_add(1)
        } else {
            v.wrapping_sub(1)
        };
        set_reg16(&mut self.registers, p, res);
        Ok(())
    }

    /// INC r.
    fn increment(&mut self, r: Reg8) -> (res: Result<(), EmuError>)
        ensures
            transition(*old(self), *final(self), Ok(op_increment(old(self).state(), r)), res),
    {
        let v = get_reg8(&self.registers, r);
        let result = v.wrapping_add(1);
        assert(v & 0x0F <= 0x0F) by (bit_vector);
        let half_carry = (v & 0x0F) + 1 > 0x0F;
        assert(half_carry == (v % 16 == 15)) by (bit_vector)
            requires
                half_carry == ((v & 0x0F) + 1 > 0x0F),
        ;
        set_reg8(&mut self.registers, r, result);
        self.registers.f.zero = result == 0;
        self.registers.f.subtract = false;
        self.registers.f.half_carry = half_carry;
        Ok(())
    }

    /// DEC r.
    fn decrement(&mut self, r: Reg8) -> (res: Result<(), EmuError>)
        ensures
            transition(*old(self), *final(self), Ok(op_decrement(old(self).state(), r)), res),
    {
        let v = get_reg8(&self.registers, r);
        let result = v.wrapping_sub(1);
        let half_carry = v & 0x0F == 0;
        assert(half_carry == (v % 16 == 0)) by (bit_vector)
            requires
                half_carry == (v & 0x0F == 0),
        ;
        set_reg8(&mut self.registers, r, result);
        self.registers.f.zero = result == 0;
        self.registers.f.subtract = true;
        self.registers.f.half_carry = half_carry;
        Ok(())
    }

    /// LD r,d8.
    fn load_immediate(&mut self, r: Reg8) -> (res: Result<(), EmuError>)
        ensures
            transition(*old(self), *final(self), op_load_immediate(old(self).state(), r), res),
    {
        let next = self.pc as usize + 1;
        if next < MEMORY_SIZE {
            let v = self.memory.read_byte(self.pc + 1);
            set_reg8(&mut self.registers, r, v);
            Ok(())
        } else {
            Err(EmuError::MemoryBoundsViolation { address: next, length: 1 })
        }
    }

    /// RLCA, RRCA, RLA and RRA.
    fn rotate(&mut self, ins: Instruction) -> (r: Result<(), EmuError>)
        requires
            ins is RotateLeftCircular || ins is RotateRightCircular || ins is RotateLeft
                || ins is RotateRight,
        ensures
            transition(*old(self), *final(self), Ok(op_rotate(old(self).state(), ins)), r),
    {
        let a = self.registers.a;
        let carry_in = self.registers.f.carry;
        let (res, out) = match ins {
            Instruction::RotateLeftCircular => {
                let res = a << 1u8 | a >> 7u8;
                assert(res == ((a * 2) % 0x100 + a / 0x80) as u8) by (bit_vector)
                    requires
                        res == a << 1u8 | a >> 7u8,
                ;
                (res, a & 0x80 == 0x80)
            },
            Instruction::RotateRightCircular => {
                let res = a >> 1u8 | a << 7u8;
                assert(res == (a / 2 + (a % 2) * 0x80) as u8) by (bit_vector)
                    requires
                        res == a >> 1u8 | a << 7u8,
                ;
                (res, a & 0x01 == 0x01)
            },
            Instruction::RotateLeft => {
                let low: u8 = if carry_in { 0x01 } else { 0 };
                let res = a << 1u8 | low;
                assert(res == ((a * 2) % 0x100 + low) as u8) by (bit_vector)
                    requires
                        low <= 1,
                        res == a << 1u8 | low,
                ;
                (res, a & 0x80 == 0x80)
            },
            _ => {
                let high: u8 = if carry_in { 0x80 } else { 0 };
                let res = a >> 1u8 | high;
                assert(res == (a / 2 + high) as u8) by (bit_vector)
                    requires
                        high == 0 || high == 0x80,
                        res == a >> 1u8 | high,
                ;
                (res, a & 0x01 == 0x01)
            },
        };
        assert((a & 0x80 == 0x80) == (a >= 0x80) && (a & 0x01 == 0x01) == (a % 2 == 1))
            by (bit_vector);
        self.registers.a = res;
        self.registers.f = FlagRegister { zero: false, subtract: false, half_carry: false, carry: out };
        Ok(())
    }

    /// LD (a16),SP.
    fn store_stack_pointer(&mut self) -> (r: Result<(), EmuError>)
        ensures
            transition(*old(self), *final(self), op_store_stack_pointer(old(self).state()), r),
    {
        let next = self.pc as usize + 1;
        if next + 1 < MEMORY_SIZE {
            let address = self.memory.read_word(self.pc + 1) as usize;
            if address + 2 <= MEMORY_SIZE {
                let sp = self.sp;
                proof {
                    lemma_split_bits(sp);
                }
                self.memory.write(address, &[(sp & 0xFF) as u8, (sp >> 8u16) as u8]);
                Ok(())
            } else {
                Err(EmuError::MemoryBoundsViolation { address, length: 2 })
            }
        } else {
            Err(EmuError::MemoryBoundsViolation { address: next, length: 2 })
        }
    }

    /// ADD HL,BC.
    fn add_hl_bc(&mut self) -> (r: Result<(), EmuError>)
        ensures
            transition(*old(self), *final(self), Ok(op_add_hl_bc(old(self).state())), r),
    {
        let hl = self.registers.hl();
        let bc = self.registers.bc();
        assert(hl & 0x07FF <= 0x07FF && bc & 0x07FF <= 0x07FF) by (bit_vector);
        let half_carry = (hl & 0x07FF) + (bc & 0x07FF) > 0x07FF;
        assert(half_carry == (hl % 0x800 + bc % 0x800 > 0x7FF)) by (bit_vector)
            requires
                half_carry == ((hl & 0x07FF) + (bc & 0x07FF) > 0x07FF),
        ;
        let carry = hl > 0xFFFF - bc;
        self.registers.write_hl(hl.wrapping_add(bc));
        self.registers.f.subtract = false;
        self.registers.f.half_carry = half_carry;
        self.registers.f.carry = carry;
        Ok(())
    }

    /// LD A,(n) as this instruction set has it: A takes the byte that follows
    /// the opcode.
    fn load_a_from_next(&mut self) -> (r: Result<(), EmuError>)
        ensures
            transition(*old(self), *final(self), op_load_a_from_next(old(self).state()), r),
    {
        let next = self.pc as usize + 1;
        if next < MEMORY_SIZE {
            self.registers.a = self.memory.read_byte(self.pc + 1);
            Ok(())
        } else {
            Err(EmuError::MemoryBoundsViolation { address: next, length: 1 })
        }
    }

    /// The clock that paces this machine.
    pub fn get_cpu_clock(&mut self) -> (r: &Clock)
        ensures
            *r == old(self).cpu_clock,
            *final(self) == *old(self),
    {
        &self.cpu_clock
    }

    /// The T-cycles retired so far.
    pub fn get_cycle_count(&mut self) -> (r: &u64)
        ensures
            *r == old(self).cycle_count,
            *final(self) == *old(self),
    {
        &self.cycle_count
    }

    /// Applies the effect of `ins`, apart from the advance of PC. A memory
    /// access outside the store fails before anything is changed.
    fn apply(&mut self, ins: Instruction) -> (r: Result<(), EmuError>)
        ensures
            applied(*old(self), *final(self), ins, r),
    {
        proof {
            reveal(operate);
        }
        match ins {
            Instruction::Nop => Ok(()),
            Instruction::LoadPairImmediate(p) => self.load_pair_immediate(p),
            Instruction::StoreAIndirect(p) => self.store_a_indirect(p),
            Instruction::IncrementPair(p) => self.step_pair(p, true),
            Instruction::DecrementPair(p) => self.step_pair(p, false),
            Instruction::Increment(r) => self.increment(r),
            Instruction::Decrement(r) => self.decrement(r),
            Instruction::LoadImmediate(r) => self.load_immediate(r),
            Instruction::RotateLeftCircular
            | Instruction::RotateRightCircular
            | Instruction::RotateLeft
            | Instruction::RotateRight => self.rotate(ins),
            Instruction::StoreStackPointer => self.store_stack_pointer(),
            Instruction::AddHlBc => self.add_hl_bc(),
            Instruction::LoadAFromNext => self.load_a_from_next(),
            Instruction::Stop => {
                self.stop = true;
                Ok(())
            },
            Instruction::Halt => {
                self.halt = true;
                Ok(())
            },
        }
    }

    /// Executes `instr` as the opcode at PC: its effect, the advance of PC by
    /// its length, and its cost in T-cycles as the result. An opcode outside
    /// the implemented set, an instruction whose bytes run past the end of the
    /// store, or an access outside the store, fails with the machine left as
    /// it was.
    pub fn execute(&mut self, instr: u8) -> (r: Result<u8, EmuError>)
        ensures
            final(self).cycle_count == old(self).cycle_count,
            final(self).cpu_clock == old(self).cpu_clock,
            match opcode_instruction(instr) {
                None => r == Err::<u8, EmuError>(
                    EmuError::UnimplementedOpcode { opcode: instr, pc: old(self).pc },
                ) && final(self).state() == old(self).state(),
                Some(ins) => match execute_spec(old(self).state(), ins) {
                    Ok(t) => r == Ok::<u8, EmuError>(ins.spec_cycles()) && final(self).state() == t,
                    Err(e) => r == Err::<u8, EmuError>(e) && final(self).state() == old(self).state(),
                },
            },
    {
        let ins = match decode(instr) {
            Some(ins) => ins,
            None => {
                return Err(EmuError::UnimplementedOpcode { opcode: instr, pc: self.pc });
            },
        };
        let length = ins.length();
        if self.pc as usize + length as usize > MEMORY_SIZE {
            return Err(EmuError::MemoryBoundsViolation {
                address: self.pc as usize,
                length: length as usize,
            });
        }
        match self.apply(ins) {
            Ok(()) => {
                self.pc = self.pc + length;
                Ok(ins.cycles())
            },
            Err(e) => Err(e),
        }
    }

    /// One fetch-decode-execute step: fetches the opcode at PC, executes it
    /// and adds its cost to the retired T-cycles. On failure nothing changes.
    pub fn cycle(&mut self) -> (r: Result<(), EmuError>)
        ensures
            final(self).cpu_clock == old(self).cpu_clock,
            match step_spec(old(self).state()) {
                Ok((t, cost)) => r == Ok::<(), EmuError>(()) && final(self).state() == t
                    && final(self).cycle_count == add_cycles(old(self).cycle_count, cost),
                Err(e) => r == Err::<(), EmuError>(e) && final(self).state() == old(self).state()
                    && final(self).cycle_count == old(self).cycle_count,
            },
    {
        if self.pc as usize >= MEMORY_SIZE {
            return Err(EmuError::MemoryBoundsViolation { address: self.pc as usize, length: 1 });
        }
        let instr = self.memory.read_byte(self.pc);
        match self.execute(instr) {
            Ok(cost) => {
                self.cycle_count = self.cycle_count.saturating_add(cost as u64);
                Ok(())
            },
            Err(e) => Err(e),
        }
    }

    /// One pass of the run loop, `elapsed_ns` nanoseconds after the clock
    /// started. A halted machine does nothing. Otherwise the clock is paced to
    /// `elapsed_ns`, and one instruction is executed when the clock's count
    /// has passed the retired T-cycles.
    pub fn poll(&mut self, elapsed_ns: u64) -> (r: Result<RunStatus, EmuError>)
        ensures
            old(self).halt ==> r == Ok::<RunStatus, EmuError>(RunStatus::Halted) && *final(self)
                == *old(self),
            !old(self).halt ==> {
                let clock_total = paced_total(
                    old(self).cpu_clock.total(),
                    old(self).cpu_clock.speed(),
                    elapsed_ns,
                );
                &&& final(self).cpu_clock.speed() == old(self).cpu_clock.speed()
                &&& final(self).cpu_clock.total() == clock_total
                &&& clock_total <= old(self).cycle_count ==> r == Ok::<RunStatus, EmuError>(
                    RunStatus::Waiting,
                ) && final(self).state() == old(self).state() && final(self).cycle_count == old(
                    self,
                ).cycle_count
                &&& clock_total > old(self).cycle_count ==> match step_spec(old(self).state()) {
                    Ok((t, cost)) => r == Ok::<RunStatus, EmuError>(RunStatus::Stepped)
                        && final(self).state() == t && final(self).cycle_count == add_cycles(
                        old(self).cycle_count,
                        cost,
                    ),
                    Err(e) => r == Err::<RunStatus, EmuError>(e) && final(self).state() == old(
                        self,
                    ).state() && final(self).cycle_count == old(self).cycle_count,
                }
            },
    {
        if self.halt {
            return Ok(RunStatus::Halted);
        }
        self.cpu_clock.advance_to(elapsed_ns);
        if self.cpu_clock.get_total_cycles() > self.cycle_count {
            match self.cycle() {
                Ok(()) => Ok(RunStatus::Stepped),
                Err(e) => Err(e),
            }
        } else {
            Ok(RunStatus::Waiting)
        }
    }
}

} // verus!
