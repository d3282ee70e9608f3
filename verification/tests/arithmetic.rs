use emulator::{ArithmeticTarget, FlagsRegister, Instruction, Registers, CPU};

const TARGETS: [ArithmeticTarget; 7] = [
    ArithmeticTarget::A,
    ArithmeticTarget::B,
    ArithmeticTarget::C,
    ArithmeticTarget::D,
    ArithmeticTarget::E,
    ArithmeticTarget::H,
    ArithmeticTarget::L,
];

fn flags(zero: bool, subtract: bool, half_carry: bool, carry: bool) -> FlagsRegister {
    FlagsRegister { zero, subtract, half_carry, carry }
}

fn blank() -> Registers {
    Registers { a: 0, b: 0, c: 0, d: 0, e: 0, f: flags(false, false, false, false), h: 0, l: 0 }
}

fn cpu_with(a: u8, b: u8, carry: bool) -> CPU {
    CPU { registers: Registers { a, b, f: flags(false, false, false, carry), ..blank() } }
}

fn run(registers: Registers, instruction: Instruction) -> Registers {
    let mut cpu = CPU { registers };
    assert!(instruction.is_well_formed());
    cpu.execute(instruction);
    cpu.registers
}

#[test]
fn add_overflow() {
    let mut cpu = cpu_with(0xFF, 0x01, false);
    cpu.execute(Instruction::ADD(ArithmeticTarget::B));
    assert_eq!(cpu.registers.a, 0x00);
    assert_eq!(cpu.registers.f, flags(true, false, true, true));
    assert_eq!(cpu.registers.b, 0x01);
}

#[test]
fn add_half_carry_boundary() {
    let mut cpu = cpu_with(0x0F, 0x01, false);
    cpu.execute(Instruction::ADD(ArithmeticTarget::B));
    assert_eq!(cpu.registers.a, 0x10);
    assert_eq!(cpu.registers.f, flags(false, false, true, false));
}

#[test]
fn add_without_any_carry() {
    let mut cpu = cpu_with(0x12, 0x34, true);
    cpu.registers.f.subtract = true;
    cpu.execute(Instruction::ADD(ArithmeticTarget::B));
    assert_eq!(cpu.registers.a, 0x46);
    assert_eq!(cpu.registers.f, flags(false, false, false, false));
}

#[test]
fn add_accumulator_to_itself() {
    let mut cpu = cpu_with(0x80, 0, false);
    cpu.execute(Instruction::ADD(ArithmeticTarget::A));
    assert_eq!(cpu.registers.a, 0x00);
    assert_eq!(cpu.registers.f, flags(true, false, false, true));
    let mut cpu = cpu_with(0x09, 0, false);
    cpu.execute(Instruction::ADD(ArithmeticTarget::A));
    assert_eq!(cpu.registers.a, 0x12);
    assert_eq!(cpu.registers.f, flags(false, false, true, false));
}

#[test]
fn add_reads_each_register() {
    let start = Registers { a: 1, b: 2, c: 3, d: 4, e: 5, h: 6, l: 7, ..blank() };
    let sums = [2u8, 3, 4, 5, 6, 7, 8];
    for (target, sum) in TARGETS.iter().zip(sums) {
        let after = run(start, Instruction::ADD(*target));
        assert_eq!(after, Registers { a: sum, ..start });
    }
}

#[test]
fn add_agrees_with_wide_arithmetic() {
    for a in 0u8..=255 {
        for v in 0u8..=255 {
            let after = run(Registers { a, b: v, ..blank() }, Instruction::ADD(ArithmeticTarget::B));
            let wide = a as u16 + v as u16;
            assert_eq!(after.a as u16, wide % 256);
            assert_eq!(after.f.zero, wide % 256 == 0);
            assert_eq!(after.f.carry, wide > 0xFF);
            assert_eq!(after.f.half_carry, (a % 16) + (v % 16) > 15);
            assert!(!after.f.subtract);
            assert_eq!(after.b, v);
        }
    }
}

#[test]
fn add_helper_sets_flags_and_returns_the_sum() {
    let mut cpu = cpu_with(0xF8, 0, false);
    let sum = cpu.add(0x0A);
    assert_eq!(sum, 0x02);
    assert_eq!(cpu.registers, Registers { a: 0xF8, f: flags(false, false, true, true), ..blank() });
}

#[test]
fn sub_borrow() {
    let mut cpu = cpu_with(0x00, 0x01, false);
    cpu.execute(Instruction::SUB(ArithmeticTarget::B));
    assert_eq!(cpu.registers.a, 0xFF);
    assert!(cpu.registers.f.carry);
    assert!(cpu.registers.f.subtract);
    assert_eq!(cpu.registers.f, flags(false, true, true, true));
}

#[test]
fn sub_half_borrow_only() {
    let mut cpu = cpu_with(0x10, 0x01, false);
    cpu.execute(Instruction::SUB(ArithmeticTarget::B));
    assert_eq!(cpu.registers.a, 0x0F);
    assert_eq!(cpu.registers.f, flags(false, true, true, false));
}

#[test]
fn sub_equal_values_gives_zero() {
    let mut cpu = cpu_with(0x42, 0x42, true);
    cpu.execute(Instruction::SUB(ArithmeticTarget::B));
    assert_eq!(cpu.registers.a, 0x00);
    assert_eq!(cpu.registers.f, flags(true, true, false, false));
    let mut cpu = cpu_with(0x9C, 0, false);
    cpu.execute(Instruction::SUB(ArithmeticTarget::A));
    assert_eq!(cpu.registers.a, 0x00);
    assert_eq!(cpu.registers.f, flags(true, true, false, false));
}

#[test]
fn sub_agrees_with_wide_arithmetic() {
    for a in 0u8..=255 {
        for v in 0u8..=255 {
            let after = run(Registers { a, c: v, ..blank() }, Instruction::SUB(ArithmeticTarget::C));
            let wide = (a as i16 - v as i16).rem_euclid(256);
            assert_eq!(after.a as i16, wide);
            assert_eq!(after.f.zero, a == v);
            assert_eq!(after.f.carry, a < v);
            assert_eq!(after.f.half_carry, a % 16 < v % 16);
            assert!(after.f.subtract);
            assert_eq!(after.c, v);
        }
    }
}

#[test]
fn sub_helper_sets_flags_and_returns_the_difference() {
    let mut cpu = cpu_with(0x20, 0, false);
    let difference = cpu.sub(0x31);
    assert_eq!(difference, 0xEF);
    assert_eq!(cpu.registers, Registers { a: 0x20, f: flags(false, true, true, true), ..blank() });
}

#[test]
fn adc_overflow_in_the_first_step_is_not_kept() {
    let mut cpu = cpu_with(0xFF, 0x01, false);
    cpu.execute(Instruction::ADC(ArithmeticTarget::B));
    assert_eq!(cpu.registers.a, 0x00);
    assert_eq!(cpu.registers.f, flags(true, false, false, false));
}

#[test]
fn adc_overflow_in_the_carry_step() {
    let mut cpu = cpu_with(0xFF, 0x00, true);
    cpu.execute(Instruction::ADC(ArithmeticTarget::B));
    assert_eq!(cpu.registers.a, 0x00);
    assert_eq!(cpu.registers.f, flags(true, false, true, true));
}

#[test]
fn adc_half_carry_in_the_carry_step() {
    let mut cpu = cpu_with(0x0E, 0x01, true);
    cpu.execute(Instruction::ADC(ArithmeticTarget::B));
    assert_eq!(cpu.registers.a, 0x10);
    assert_eq!(cpu.registers.f, flags(false, false, true, false));
}

#[test]
fn adc_without_carry_in_adds_like_add() {
    let mut cpu = cpu_with(0x01, 0x02, false);
    cpu.execute(Instruction::ADC(ArithmeticTarget::B));
    assert_eq!(cpu.registers.a, 0x03);
    assert_eq!(cpu.registers.f, flags(false, false, false, false));
    let mut cpu = cpu_with(0x08, 0x08, false);
    cpu.execute(Instruction::ADC(ArithmeticTarget::B));
    assert_eq!(cpu.registers.a, 0x10);
    assert_eq!(cpu.registers.f, flags(false, false, false, false));
}

#[test]
fn adc_adds_operand_and_carry_in() {
    for a in 0u8..=255 {
        for v in 0u8..=255 {
            for carry in [false, true] {
                let start = Registers { a, d: v, f: flags(true, true, false, carry), ..blank() };
                let after = run(start, Instruction::ADC(ArithmeticTarget::D));
                let first = (a as u16 + v as u16) % 256;
                let wide = first + carry as u16;
                assert_eq!(after.a as u16, (a as u16 + v as u16 + carry as u16) % 256);
                assert_eq!(after.f.zero, wide % 256 == 0);
                assert_eq!(after.f.carry, wide > 0xFF);
                assert_eq!(after.f.half_carry, first % 16 + carry as u16 > 15);
                assert!(!after.f.subtract);
            }
        }
    }
}

#[test]
fn sbc_borrow_in_the_first_step_is_not_kept() {
    let mut cpu = cpu_with(0x00, 0x01, false);
    cpu.execute(Instruction::SBC(ArithmeticTarget::B));
    assert_eq!(cpu.registers.a, 0xFF);
    assert_eq!(cpu.registers.f, flags(false, true, false, false));
}

#[test]
fn sbc_borrow_in_the_carry_step() {
    let mut cpu = cpu_with(0x00, 0x00, true);
    cpu.execute(Instruction::SBC(ArithmeticTarget::B));
    assert_eq!(cpu.registers.a, 0xFF);
    assert_eq!(cpu.registers.f, flags(false, true, true, true));
}

#[test]
fn sbc_down_to_zero() {
    let mut cpu = cpu_with(0x10, 0x0F, true);
    cpu.execute(Instruction::SBC(ArithmeticTarget::B));
    assert_eq!(cpu.registers.a, 0x00);
    assert_eq!(cpu.registers.f, flags(true, true, false, false));
}

#[test]
fn sbc_subtracts_operand_and_carry_in() {
    for a in 0u8..=255 {
        for v in 0u8..=255 {
            for carry in [false, true] {
                let start = Registers { a, e: v, f: flags(true, false, true, carry), ..blank() };
                let after = run(start, Instruction::SBC(ArithmeticTarget::E));
                let first = (a as i16 - v as i16).rem_euclid(256);
                assert_eq!(after.a as i16, (a as i16 - v as i16 - carry as i16).rem_euclid(256));
                assert_eq!(after.f.zero, first == carry as i16);
                assert_eq!(after.f.carry, first < carry as i16);
                assert_eq!(after.f.half_carry, first % 16 < carry as i16);
                assert!(after.f.subtract);
            }
        }
    }
}

#[test]
fn addhl_carry_out_of_bit_eleven() {
    let start = Registers { h: 0x0F, l: 0xFF, b: 0x01, a: 0x0F, ..blank() };
    let after = run(start, Instruction::ADDHL(ArithmeticTarget::B));
    assert_eq!(after, Registers { h: 0x10, l: 0x00, f: flags(false, false, true, false), ..start });
}

#[test]
fn addhl_carry_out_of_the_low_byte_sets_nothing() {
    let start = Registers { h: 0x00, l: 0xFF, b: 0x01, a: 0x0F, ..blank() };
    let after = run(start, Instruction::ADDHL(ArithmeticTarget::B));
    assert_eq!(after, Registers { h: 0x01, l: 0x00, f: flags(false, false, false, false), ..start });
}

#[test]
fn addhl_wraps_at_sixteen_bits() {
    let start = Registers { h: 0xFF, l: 0xFF, c: 0x01, ..blank() };
    let after = run(start, Instruction::ADDHL(ArithmeticTarget::C));
    assert_eq!(after, Registers { h: 0x00, l: 0x00, f: flags(true, false, true, true), ..start });
    let start = Registers { h: 0xFF, l: 0xFF, c: 0xFF, ..blank() };
    let after = run(start, Instruction::ADDHL(ArithmeticTarget::C));
    assert_eq!(after, Registers { h: 0x00, l: 0xFE, f: flags(false, false, true, true), ..start });
}

#[test]
fn addhl_with_its_own_halves() {
    let start = Registers { h: 0x12, l: 0x34, f: flags(true, true, true, true), ..blank() };
    let after = run(start, Instruction::ADDHL(ArithmeticTarget::H));
    assert_eq!(after.get_hl(), 0x1246);
    assert_eq!(after.f, flags(false, false, false, false));
    let after = run(start, Instruction::ADDHL(ArithmeticTarget::L));
    assert_eq!(after.get_hl(), 0x1268);
}

#[test]
fn addhl_agrees_with_wide_arithmetic() {
    for hl in (0u16..=0xFFFF).step_by(7) {
        for v in [0u8, 1, 0x0F, 0x10, 0x7F, 0x80, 0xFF] {
            let mut start = Registers { d: v, ..blank() };
            start.set_hl(hl);
            let after = run(start, Instruction::ADDHL(ArithmeticTarget::D));
            let wide = hl as u32 + v as u32;
            assert_eq!(after.get_hl() as u32, wide % 0x1_0000);
            assert_eq!(after.f.zero, wide % 0x1_0000 == 0);
            assert_eq!(after.f.carry, wide > 0xFFFF);
            assert_eq!(after.f.half_carry, (hl % 0x1000) as u32 + v as u32 > 0xFFF);
            assert!(!after.f.subtract);
            assert_eq!(after.d, v);
            assert_eq!(after.a, 0);
        }
    }
}

#[test]
fn addhl_helper_sets_flags_and_returns_the_sum() {
    let mut cpu = CPU { registers: Registers { h: 0xFF, l: 0xF0, ..blank() } };
    let start = cpu.registers;
    let sum = cpu.addhl(0x20);
    assert_eq!(sum, 0x0010);
    assert_eq!(cpu.registers, Registers { f: flags(false, false, true, true), ..start });
}

#[test]
fn cp_equal_values() {
    let start = Registers { a: 0x42, b: 0x42, f: flags(false, true, true, true), ..blank() };
    let after = run(start, Instruction::CP(ArithmeticTarget::B));
    assert_eq!(after, Registers { f: flags(true, false, false, false), ..start });
}

#[test]
fn cp_accumulator_below_operand() {
    let start = Registers { a: 0x10, b: 0x20, ..blank() };
    let after = run(start, Instruction::CP(ArithmeticTarget::B));
    assert_eq!(after, Registers { f: flags(false, false, false, true), ..start });
    let start = Registers { a: 0x10, b: 0x21, ..blank() };
    let after = run(start, Instruction::CP(ArithmeticTarget::B));
    assert_eq!(after, Registers { f: flags(false, true, false, true), ..start });
}

#[test]
fn cp_low_nibble_borrow_sets_subtract() {
    let start = Registers { a: 0x10, b: 0x01, ..blank() };
    let after = run(start, Instruction::CP(ArithmeticTarget::B));
    assert_eq!(after, Registers { f: flags(false, true, false, false), ..start });
}

#[test]
fn cp_with_itself() {
    let start = Registers { a: 0x77, f: flags(false, true, true, true), ..blank() };
    let after = run(start, Instruction::CP(ArithmeticTarget::A));
    assert_eq!(after, Registers { f: flags(true, false, false, false), ..start });
}

#[test]
fn cp_changes_no_register() {
    for a in 0u8..=255 {
        for v in 0u8..=255 {
            let start = Registers { a, l: v, b: 9, h: 3, ..blank() };
            let after = run(start, Instruction::CP(ArithmeticTarget::L));
            assert_eq!(Registers { f: start.f, ..after }, start);
            assert_eq!(after.f.zero, a == v);
            assert_eq!(after.f.carry, a < v);
            assert_eq!(after.f.subtract, (a ^ v ^ a.wrapping_sub(v)) & 0x10 != 0);
            assert!(!after.f.half_carry);
        }
    }
}

#[test]
fn inc_half_carry_looks_at_the_old_value() {
    let start = Registers { b: 0x0F, f: flags(true, true, false, true), ..blank() };
    let after = run(start, Instruction::INC(ArithmeticTarget::B));
    assert_eq!(after, Registers { b: 0x10, f: flags(false, false, true, true), ..start });
}

#[test]
fn inc_wraps_to_zero() {
    let start = Registers { c: 0xFF, ..blank() };
    let after = run(start, Instruction::INC(ArithmeticTarget::C));
    assert_eq!(after, Registers { c: 0x00, f: flags(true, false, true, false), ..start });
}

#[test]
fn inc_plain() {
    let start = Registers { a: 0x41, d: 0x10, ..blank() };
    let after = run(start, Instruction::INC(ArithmeticTarget::D));
    assert_eq!(after, Registers { d: 0x11, f: flags(false, false, false, false), ..start });
    let after = run(start, Instruction::INC(ArithmeticTarget::A));
    assert_eq!(after, Registers { a: 0x42, f: flags(false, false, false, false), ..start });
}

#[test]
fn dec_half_carry_when_low_nibble_was_zero() {
    let start = Registers { b: 0x10, f: flags(true, false, false, true), ..blank() };
    let after = run(start, Instruction::DEC(ArithmeticTarget::B));
    assert_eq!(after, Registers { b: 0x0F, f: flags(false, true, true, true), ..start });
}

#[test]
fn dec_down_to_zero() {
    let start = Registers { h: 0x01, ..blank() };
    let after = run(start, Instruction::DEC(ArithmeticTarget::H));
    assert_eq!(after, Registers { h: 0x00, f: flags(true, true, false, false), ..start });
}

#[test]
fn dec_wraps_below_zero() {
    let start = Registers { l: 0x00, ..blank() };
    let after = run(start, Instruction::DEC(ArithmeticTarget::L));
    assert_eq!(after, Registers { l: 0xFF, f: flags(false, true, true, false), ..start });
}

#[test]
fn inc_and_dec_leave_carry_alone() {
    for carry in [false, true] {
        for v in 0u8..=255 {
            let start = Registers { e: v, f: flags(false, false, false, carry), ..blank() };
            let up = run(start, Instruction::INC(ArithmeticTarget::E));
            assert_eq!(up.f.carry, carry);
            assert_eq!(up.e, v.wrapping_add(1));
            assert_eq!(up.f.zero, v == 0xFF);
            assert_eq!(up.f.half_carry, v & 0xF == 0xF);
            assert!(!up.f.subtract);
            let down = run(start, Instruction::DEC(ArithmeticTarget::E));
            assert_eq!(down.f.carry, carry);
            assert_eq!(down.e, v.wrapping_sub(1));
            assert_eq!(down.f.zero, v == 1);
            assert_eq!(down.f.half_carry, v & 0xF == 0);
            assert!(down.f.subtract);
        }
    }
}

#[test]
fn inc_then_dec_restores_the_register() {
    for target in TARGETS {
        for v in 0u8..=255 {
            let mut start = Registers { a: 1, b: 2, c: 3, d: 4, e: 5, h: 6, l: 7, ..blank() };
            start.write(target, v);
            let up = run(start, Instruction::INC(target));
            let back = run(up, Instruction::DEC(target));
            assert_eq!(back.read(target), v);
            assert_eq!(Registers { f: start.f, ..back }, start);
        }
    }
}
