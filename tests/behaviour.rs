use crabboy::clock::Clock;
use crabboy::dmgcpu::{RunStatus, DMGCPU};
use crabboy::error::EmuError;
use crabboy::instruction::{decode, Instruction, Reg16, Reg8};
use crabboy::memory::{Memory, MEMORY_SIZE};
use crabboy::registers::{FlagRegister, Registers};

fn machine() -> DMGCPU {
    DMGCPU::new(4_190_000).unwrap()
}

#[test]
fn pair_round_trip_on_every_pair() {
    for v in [0x0000u16, 0x0001, 0x00FF, 0x0100, 0xBEEF, 0x1234, 0xFFFF] {
        let mut r = Registers::new();
        r.write_bc(v);
        assert_eq!(r.bc(), v);
        r.write_de(v);
        assert_eq!(r.de(), v);
        r.write_hl(v);
        assert_eq!(r.hl(), v);
        r.write_af(v);
        assert_eq!(r.af(), v & 0xFFF0);
    }
}

#[test]
fn pair_write_splits_high_and_low() {
    let mut r = Registers::new();
    r.write_bc(0xBEEF);
    assert_eq!(r.b, 0xBE);
    assert_eq!(r.c, 0xEF);
    r.write_af(0x12FF);
    assert_eq!(r.a, 0x12);
    assert_eq!(r.f, FlagRegister { zero: true, subtract: true, half_carry: true, carry: true });
}

#[test]
fn flag_round_trip_clears_low_nibble() {
    for b in [0x00u8, 0x0F, 0x10, 0x5A, 0xA5, 0xB7, 0xF0, 0xFF] {
        assert_eq!(u8::from(FlagRegister::from(b)), b & 0xF0);
    }
}

#[test]
fn flag_bits_positions() {
    assert_eq!(u8::from(FlagRegister { zero: true, subtract: false, half_carry: false, carry: false }), 0x80);
    assert_eq!(u8::from(FlagRegister { zero: false, subtract: true, half_carry: false, carry: false }), 0x40);
    assert_eq!(u8::from(FlagRegister { zero: false, subtract: false, half_carry: true, carry: false }), 0x20);
    assert_eq!(u8::from(FlagRegister { zero: false, subtract: false, half_carry: false, carry: true }), 0x10);
    let f = FlagRegister::from(0x90);
    assert!(f.zero && !f.subtract && !f.half_carry && f.carry);
}

#[test]
fn clock_rejects_zero_frequency() {
    assert_eq!(Clock::new(0), Err(EmuError::InvalidConfiguration));
    assert!(matches!(DMGCPU::new(0), Err(EmuError::InvalidConfiguration)));
}

#[test]
fn clock_counts_whole_exact_periods() {
    // a period at 4.19 MHz is about 238.66 ns
    let mut c = Clock::new(4_190_000).unwrap();
    assert_eq!(c.get_speed(), 4_190_000);
    assert_eq!(c.get_total_cycles(), 0);
    c.advance_to(238);
    assert_eq!(c.get_total_cycles(), 0);
    c.advance_to(239);
    assert_eq!(c.get_total_cycles(), 1);
    c.advance_to(2_386);
    assert_eq!(c.get_total_cycles(), 9);
    c.advance_to(2_387);
    assert_eq!(c.get_total_cycles(), 10);
}

#[test]
fn clock_never_runs_ahead_of_the_frequency() {
    let mut c = Clock::new(4_190_000).unwrap();
    c.advance_to(1_000_000_000);
    assert_eq!(c.get_total_cycles(), 4_190_000);
    c.advance_to(999_999_999);
    assert_eq!(c.get_total_cycles(), 4_190_000);
}

#[test]
fn clock_is_monotonic() {
    let mut c = Clock::new(1_000_000).unwrap();
    c.advance_to(5_000);
    let first = c.get_total_cycles();
    assert_eq!(first, 5);
    c.advance_to(1_000);
    let second = c.get_total_cycles();
    assert!(second >= first);
    c.advance_to(9_999);
    assert_eq!(c.get_total_cycles(), 9);
}

#[test]
fn clock_above_a_gigahertz() {
    let mut c = Clock::new(2_000_000_000).unwrap();
    c.advance_to(0);
    assert_eq!(c.get_total_cycles(), 0);
    c.advance_to(10);
    assert_eq!(c.get_total_cycles(), 20);
    c.advance_to(10);
    assert_eq!(c.get_total_cycles(), 20);
}

#[test]
fn clock_saturates_at_the_largest_count() {
    let mut c = Clock::new(u32::MAX).unwrap();
    c.advance_to(u64::MAX);
    assert_eq!(c.get_total_cycles(), u64::MAX);
}

#[test]
fn new_machine_state() {
    let mut cpu = machine();
    assert_eq!(cpu.pc, 0x0100);
    assert_eq!(cpu.sp, 0x0000);
    assert_eq!(cpu.registers, Registers::new());
    assert!(!cpu.halt);
    assert!(!cpu.stop);
    assert_eq!(*cpu.get_cycle_count(), 0);
    assert_eq!(cpu.get_cpu_clock().get_total_cycles(), 0);
    assert_eq!(cpu.memory.read_byte(0xFF00), 0x76);
    assert_eq!(cpu.memory.read_byte(0x0100), 0x00);
}

#[test]
fn nop_costs_four_and_changes_only_pc() {
    let mut cpu = machine();
    cpu.registers.a = 0x42;
    cpu.registers.write_hl(0x1234);
    let before = cpu.registers;
    cpu.cycle().unwrap();
    assert_eq!(cpu.pc, 0x0101);
    assert_eq!(cpu.registers, before);
    assert_eq!(*cpu.get_cycle_count(), 4);
}

#[test]
fn ld_bc_d16_costs_twelve() {
    let mut cpu = machine();
    cpu.memory.write(0x0100, &[0x01, 0xEF, 0xBE]);
    cpu.cycle().unwrap();
    assert_eq!(cpu.registers.bc(), 0xBEEF);
    assert_eq!(cpu.pc, 0x0103);
    assert_eq!(*cpu.get_cycle_count(), 12);
}

#[test]
fn add_hl_bc_overflow_sets_both_carries() {
    let mut cpu = machine();
    cpu.registers.write_hl(0xFFFE);
    cpu.registers.write_bc(0x0004);
    cpu.registers.f.subtract = true;
    cpu.memory.write(0x0100, &[0x09]);
    cpu.cycle().unwrap();
    assert_eq!(cpu.registers.hl(), 0x0002);
    assert!(cpu.registers.f.carry);
    assert!(cpu.registers.f.half_carry);
    assert!(!cpu.registers.f.subtract);
    assert_eq!(*cpu.get_cycle_count(), 8);
}

#[test]
fn add_hl_bc_without_carries() {
    let mut cpu = machine();
    cpu.registers.write_hl(0x0100);
    cpu.registers.write_bc(0x0200);
    cpu.memory.write(0x0100, &[0x09]);
    cpu.cycle().unwrap();
    assert_eq!(cpu.registers.hl(), 0x0300);
    assert!(!cpu.registers.f.carry);
    assert!(!cpu.registers.f.half_carry);
}

#[test]
fn rlca_clears_other_flags() {
    let mut cpu = machine();
    cpu.registers.a = 0b10101010;
    cpu.registers.f = FlagRegister { zero: true, subtract: true, half_carry: true, carry: false };
    cpu.memory.write(0x0100, &[0x07]);
    cpu.cycle().unwrap();
    assert_eq!(cpu.registers.a, 0b01010101);
    assert_eq!(cpu.registers.f, FlagRegister { zero: false, subtract: false, half_carry: false, carry: true });
}

#[test]
fn rla_and_rra_feed_the_carry_back() {
    let mut cpu = machine();
    cpu.registers.a = 0b00000001;
    cpu.registers.f.carry = true;
    cpu.memory.write(0x0100, &[0x17, 0x1F]);
    cpu.cycle().unwrap();
    assert_eq!(cpu.registers.a, 0b00000011);
    assert!(!cpu.registers.f.carry);
    cpu.cycle().unwrap();
    assert_eq!(cpu.registers.a, 0b00000001);
    assert!(cpu.registers.f.carry);
}

#[test]
fn inc_and_dec_keep_carry() {
    let mut cpu = machine();
    cpu.registers.f.carry = true;
    cpu.registers.d = 0x10;
    cpu.memory.write(0x0100, &[0x15, 0x0C]);
    cpu.cycle().unwrap();
    assert_eq!(cpu.registers.d, 0x0F);
    assert!(cpu.registers.f.half_carry);
    assert!(cpu.registers.f.carry);
    cpu.cycle().unwrap();
    assert_eq!(cpu.registers.c, 0x01);
    assert!(!cpu.registers.f.half_carry);
    assert!(cpu.registers.f.carry);
}

#[test]
fn dec_pair_wraps() {
    let mut cpu = machine();
    cpu.memory.write(0x0100, &[0x0B, 0x13]);
    cpu.registers.write_de(0xFFFF);
    cpu.cycle().unwrap();
    assert_eq!(cpu.registers.bc(), 0xFFFF);
    cpu.cycle().unwrap();
    assert_eq!(cpu.registers.de(), 0x0000);
    assert_eq!(*cpu.get_cycle_count(), 16);
}

#[test]
fn store_sp_little_endian() {
    let mut cpu = machine();
    cpu.sp = 0x1234;
    cpu.memory.write(0x0100, &[0x08, 0x00, 0xC0]);
    cpu.cycle().unwrap();
    assert_eq!(cpu.memory.read_byte(0xC000), 0x34);
    assert_eq!(cpu.memory.read_byte(0xC001), 0x12);
    assert_eq!(cpu.memory.read_word(0xC000), 0x1234);
    assert_eq!(cpu.pc, 0x0103);
    assert_eq!(*cpu.get_cycle_count(), 20);
}

#[test]
fn store_a_through_de() {
    let mut cpu = machine();
    cpu.registers.a = 0x5C;
    cpu.registers.write_de(0x8000);
    cpu.memory.write(0x0100, &[0x12]);
    cpu.cycle().unwrap();
    assert_eq!(cpu.memory.read_byte(0x8000), 0x5C);
}

#[test]
fn stop_advances_two() {
    let mut cpu = machine();
    cpu.memory.write(0x0100, &[0x10]);
    cpu.cycle().unwrap();
    assert!(cpu.stop);
    assert_eq!(cpu.pc, 0x0102);
    assert_eq!(*cpu.get_cycle_count(), 4);
}

#[test]
fn unimplemented_opcode_is_an_error() {
    let mut cpu = machine();
    cpu.memory.write(0x0100, &[0xD3]);
    let before = cpu.registers;
    assert_eq!(cpu.cycle(), Err(EmuError::UnimplementedOpcode { opcode: 0xD3, pc: 0x0100 }));
    assert_eq!(cpu.pc, 0x0100);
    assert_eq!(cpu.registers, before);
    assert_eq!(*cpu.get_cycle_count(), 0);
}

#[test]
fn unimplemented_opcode_stops_the_run() {
    let mut cpu = machine();
    cpu.memory.write(0x0100, &[0x00, 0xFF]);
    assert_eq!(cpu.poll(1_000_000), Ok(RunStatus::Stepped));
    assert_eq!(cpu.poll(2_000_000), Err(EmuError::UnimplementedOpcode { opcode: 0xFF, pc: 0x0101 }));
}

#[test]
fn store_a_outside_the_store_is_an_error() {
    let mut cpu = machine();
    cpu.registers.write_bc(0xFFFF);
    cpu.memory.write(0x0100, &[0x02]);
    assert_eq!(cpu.cycle(), Err(EmuError::MemoryBoundsViolation { address: 0xFFFF, length: 1 }));
    assert_eq!(cpu.pc, 0x0100);
}

#[test]
fn store_sp_across_the_end_is_an_error() {
    let mut cpu = machine();
    cpu.memory.write(0x0100, &[0x08, 0xFE, 0xFF]);
    assert_eq!(cpu.cycle(), Err(EmuError::MemoryBoundsViolation { address: 0xFFFE, length: 2 }));
}

#[test]
fn fetch_outside_the_store_is_an_error() {
    let mut cpu = machine();
    cpu.pc = 0xFFFF;
    assert_eq!(cpu.cycle(), Err(EmuError::MemoryBoundsViolation { address: 0xFFFF, length: 1 }));
}

#[test]
fn immediate_past_the_end_is_an_error() {
    let mut cpu = machine();
    cpu.pc = 0xFFFE;
    cpu.memory.write(0xFFFE, &[0x06]);
    assert_eq!(cpu.cycle(), Err(EmuError::MemoryBoundsViolation { address: 0xFFFE, length: 2 }));
    assert_eq!(cpu.pc, 0xFFFE);
}

#[test]
fn stop_at_the_last_address_is_an_error() {
    let mut cpu = machine();
    cpu.pc = 0xFFFE;
    cpu.memory.write(0xFFFE, &[0x10]);
    assert_eq!(cpu.cycle(), Err(EmuError::MemoryBoundsViolation { address: 0xFFFE, length: 2 }));
    assert!(!cpu.stop);
    assert_eq!(cpu.pc, 0xFFFE);
}

#[test]
fn execute_with_pc_outside_the_store_is_an_error() {
    let mut cpu = machine();
    cpu.pc = 0xFFFF;
    assert_eq!(cpu.execute(0x00), Err(EmuError::MemoryBoundsViolation { address: 0xFFFF, length: 1 }));
    assert_eq!(cpu.pc, 0xFFFF);
}

#[test]
fn nop_at_the_last_address_reaches_the_end() {
    let mut cpu = machine();
    cpu.pc = 0xFFFE;
    assert_eq!(cpu.cycle(), Ok(()));
    assert_eq!(cpu.pc, 0xFFFF);
}

#[test]
fn halt_then_run_does_nothing() {
    let mut cpu = machine();
    cpu.memory.write(0x0100, &[0x76, 0x04]);
    assert_eq!(cpu.poll(1_000_000), Ok(RunStatus::Stepped));
    assert!(cpu.halt);
    assert_eq!(cpu.pc, 0x0101);
    assert_eq!(*cpu.get_cycle_count(), 4);
    assert_eq!(cpu.poll(9_000_000), Ok(RunStatus::Halted));
    assert_eq!(cpu.pc, 0x0101);
    assert_eq!(cpu.registers.b, 0);
    assert_eq!(*cpu.get_cycle_count(), 4);
}

#[test]
fn poll_waits_for_the_clock() {
    let mut cpu = machine();
    assert_eq!(cpu.poll(0), Ok(RunStatus::Waiting));
    assert_eq!(cpu.pc, 0x0100);
    // not yet a whole period: nothing retires
    assert_eq!(cpu.poll(238), Ok(RunStatus::Waiting));
    // one whole period counts one cycle: the first instruction may retire
    assert_eq!(cpu.poll(239), Ok(RunStatus::Stepped));
    assert_eq!(*cpu.get_cycle_count(), 4);
    // the clock has counted 3 cycles, fewer than the 4 retired
    assert_eq!(cpu.poll(239 * 3), Ok(RunStatus::Waiting));
    assert_eq!(cpu.poll(239 * 5), Ok(RunStatus::Stepped));
    assert_eq!(cpu.pc, 0x0102);
}

#[test]
fn run_reaches_the_guard_halt() {
    let mut cpu = machine();
    cpu.pc = 0xFF00;
    let mut t: u64 = 0;
    loop {
        t += 1_000;
        match cpu.poll(t).unwrap() {
            RunStatus::Halted => break,
            _ => {}
        }
    }
    assert!(cpu.halt);
    assert_eq!(cpu.pc, 0xFF01);
}

#[test]
fn memory_store_bounds_and_words() {
    let mut m = Memory::new();
    assert_eq!(MEMORY_SIZE, 65_535);
    m.write(MEMORY_SIZE - 2, &[0xCD, 0xAB]);
    assert_eq!(m.read_byte(0xFFFE), 0xAB);
    assert_eq!(m.read_word(0xFFFD), 0xABCD);
    assert_eq!(m.read_byte(0x0000), 0);
}

#[test]
fn decode_table() {
    assert_eq!(decode(0x00), Some(Instruction::Nop));
    assert_eq!(decode(0x11), Some(Instruction::LoadPairImmediate(Reg16::DE)));
    assert_eq!(decode(0x16), Some(Instruction::LoadImmediate(Reg8::D)));
    assert_eq!(decode(0x76), Some(Instruction::Halt));
    assert_eq!(decode(0x18), None);
    assert_eq!(decode(0x1B), None);
    assert_eq!(Instruction::StoreStackPointer.length(), 3);
    assert_eq!(Instruction::StoreStackPointer.cycles(), 20);
    assert_eq!(Instruction::Stop.length(), 2);
    assert_eq!(Instruction::LoadAFromNext.length(), 1);
}
