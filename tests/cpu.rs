use gb_cpu::cpu::CPU;
use gb_cpu::flags_register::FlagsRegister;
use gb_cpu::instruction::{ArithmeticTarget, Instruction};
use gb_cpu::registers::Registers;

fn cpu_with_a(a: u8) -> CPU {
    let mut registers = Registers::new();
    registers.a = a;
    CPU { registers }
}

#[test]
fn add_wraps_and_sets_every_carry() {
    let mut cpu = cpu_with_a(0xFF);
    let result = cpu.add(0x01);
    assert_eq!(result, 0x00);
    assert_eq!(
        cpu.registers.f,
        FlagsRegister { zero: true, subtract: false, half_carry: true, carry: true }
    );
    assert_eq!(cpu.registers.a, 0xFF);
}

#[test]
fn add_carries_out_of_the_low_nibble() {
    let mut cpu = cpu_with_a(0x0F);
    let result = cpu.add(0x01);
    assert_eq!(result, 0x10);
    assert_eq!(cpu.registers.f.zero, false);
    assert_eq!(cpu.registers.f.carry, false);
    assert_eq!(cpu.registers.f.half_carry, true);
    assert_eq!(cpu.registers.f.subtract, false);
}

#[test]
fn add_clears_the_subtract_flag() {
    let mut cpu = cpu_with_a(0x20);
    cpu.registers.f = FlagsRegister { zero: true, subtract: true, half_carry: true, carry: true };
    let result = cpu.add(0x22);
    assert_eq!(result, 0x42);
    assert_eq!(
        cpu.registers.f,
        FlagsRegister { zero: false, subtract: false, half_carry: false, carry: false }
    );
}

#[test]
fn add_carry_without_half_carry() {
    let mut cpu = cpu_with_a(0xF0);
    let result = cpu.add(0x20);
    assert_eq!(result, 0x10);
    assert_eq!(cpu.registers.f.carry, true);
    assert_eq!(cpu.registers.f.half_carry, false);
    assert_eq!(cpu.registers.f.zero, false);
}

#[test]
fn execute_add_c_stores_the_sum_in_a() {
    let mut cpu = cpu_with_a(10);
    cpu.registers.c = 5;
    cpu.execute(Instruction::ADD(ArithmeticTarget::C));
    assert_eq!(cpu.registers.a, 15);
    assert_eq!(cpu.registers.c, 5);
    assert_eq!(
        cpu.registers.f,
        FlagsRegister { zero: false, subtract: false, half_carry: false, carry: false }
    );
}

#[test]
fn execute_add_c_wraps_to_zero() {
    let mut cpu = cpu_with_a(0x80);
    cpu.registers.c = 0x80;
    cpu.execute(Instruction::ADD(ArithmeticTarget::C));
    assert_eq!(cpu.registers.a, 0);
    assert_eq!(
        cpu.registers.f,
        FlagsRegister { zero: true, subtract: false, half_carry: false, carry: true }
    );
}

#[test]
fn unwired_operand_leaves_registers_unchanged() {
    let mut cpu = cpu_with_a(10);
    cpu.registers.b = 7;
    cpu.registers.c = 5;
    cpu.execute(Instruction::ADD(ArithmeticTarget::B));
    assert_eq!(cpu.registers.a, 10);
    assert_eq!(cpu.registers.b, 7);
    assert_eq!(cpu.registers.f, FlagsRegister::new());
}
