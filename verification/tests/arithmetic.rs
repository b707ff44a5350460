use rustboy::cpu::registers::{
    register_af, register_bc, register_de, register_hl, Flag, Register, RegisterPair, CPU,
};
use rustboy::memory::Memory;

fn flags(cpu: &CPU) -> (bool, bool, bool, bool) {
    (
        cpu.get_flag(&Flag::Z),
        cpu.get_flag(&Flag::N),
        cpu.get_flag(&Flag::H),
        cpu.get_flag(&Flag::C),
    )
}

fn cpu_with_a(a: u8, carry: bool) -> CPU {
    let mut cpu = CPU::new();
    cpu.write_register(&Register::A, a);
    cpu.set_flag(&Flag::C, carry);
    cpu
}

const PLAIN: [Register; 7] = [
    Register::A,
    Register::B,
    Register::C,
    Register::D,
    Register::E,
    Register::H,
    Register::L,
];

#[test]
fn increment_sets_half_carry_from_low_nibble() {
    let mut cpu = CPU::new();
    cpu.write_register(&Register::B, 0x0F);
    cpu.increment_register(&Register::B);
    assert_eq!(cpu.b, 0x10);
    assert_eq!(flags(&cpu), (false, false, true, false));
    cpu.write_register(&Register::B, 0x10);
    cpu.increment_register(&Register::B);
    assert_eq!(cpu.b, 0x11);
    assert_eq!(flags(&cpu), (false, false, false, false));
}

#[test]
fn increment_wraps_to_zero_and_keeps_carry() {
    for carry in [false, true] {
        let mut cpu = cpu_with_a(0xFF, carry);
        cpu.set_flag(&Flag::N, true);
        cpu.increment_register(&Register::A);
        assert_eq!(cpu.a, 0x00);
        assert_eq!(flags(&cpu), (true, false, true, carry));
    }
}

#[test]
fn decrement_sets_half_carry_on_borrow_from_bit_four() {
    let mut cpu = CPU::new();
    cpu.write_register(&Register::C, 0x10);
    cpu.decrement_register(&Register::C);
    assert_eq!(cpu.c, 0x0F);
    assert_eq!(flags(&cpu), (false, true, true, false));
    cpu.write_register(&Register::C, 0x0F);
    cpu.decrement_register(&Register::C);
    assert_eq!(cpu.c, 0x0E);
    assert_eq!(flags(&cpu), (false, true, false, false));
}

#[test]
fn decrement_to_zero_and_below() {
    for carry in [false, true] {
        let mut cpu = cpu_with_a(0x01, carry);
        cpu.decrement_register(&Register::A);
        assert_eq!(cpu.a, 0x00);
        assert_eq!(flags(&cpu), (true, true, false, carry));
        cpu.decrement_register(&Register::A);
        assert_eq!(cpu.a, 0xFF);
        assert_eq!(flags(&cpu), (false, true, true, carry));
    }
}

#[test]
fn increment_then_decrement_restores_every_value() {
    for register in PLAIN {
        for value in 0..=255u8 {
            for carry in [false, true] {
                let mut cpu = CPU::new();
                cpu.write_register(&register, value);
                cpu.set_flag(&Flag::C, carry);
                let before = cpu;
                cpu.increment_register(&register);
                cpu.decrement_register(&register);
                assert_eq!(cpu.read_register(&register), value);
                assert_eq!(flags(&cpu), (value == 0, true, value & 0x0F == 0x0F, carry));
                cpu.f = before.f;
                assert_eq!(cpu, before);
            }
        }
    }
}

#[test]
fn pair_increment_and_decrement_wrap_without_flags() {
    let mut cpu = CPU::new();
    cpu.f = 0xF0;
    cpu.write_register_pair(&register_de(), 0xFFFF);
    cpu.increment_register_pair(&register_de());
    assert_eq!(cpu.read_register_pair(&register_de()), 0x0000);
    assert_eq!(cpu.f, 0xF0);
    cpu.decrement_register_pair(&register_de());
    assert_eq!(cpu.read_register_pair(&register_de()), 0xFFFF);
    assert_eq!((cpu.d, cpu.e), (0xFF, 0xFF));
    assert_eq!(cpu.f, 0xF0);
    cpu.write_register_pair(&register_bc(), 0x00FF);
    cpu.increment_register_pair(&register_bc());
    assert_eq!((cpu.b, cpu.c), (0x01, 0x00));
}

#[test]
fn pair_is_high_byte_first() {
    let mut cpu = CPU::new();
    cpu.write_register_pair(&register_bc(), 0x1234);
    assert_eq!((cpu.b, cpu.c), (0x12, 0x34));
    cpu.write_register(&Register::H, 0xAB);
    cpu.write_register(&Register::L, 0xCD);
    assert_eq!(cpu.read_register_pair(&register_hl()), 0xABCD);
    let swapped = RegisterPair { first: Register::L, second: Register::H };
    assert_eq!(cpu.read_register_pair(&swapped), 0xCDAB);
}

#[test]
fn writes_to_f_lose_the_low_nibble() {
    let mut cpu = CPU::new();
    cpu.write_register(&Register::F, 0xFF);
    assert_eq!(cpu.f, 0xF0);
    cpu.write_register(&Register::F, 0x0F);
    assert_eq!(cpu.f, 0x00);
    cpu.write_register_pair(&register_af(), 0x12FF);
    assert_eq!((cpu.a, cpu.f), (0x12, 0xF0));
    assert_eq!(cpu.read_register_pair(&register_af()), 0x12F0);
}

#[test]
fn flags_sit_in_the_upper_nibble() {
    let mut cpu = CPU::new();
    cpu.set_flag(&Flag::Z, true);
    assert_eq!(cpu.f, 0x80);
    cpu.set_flag(&Flag::N, true);
    assert_eq!(cpu.f, 0xC0);
    cpu.set_flag(&Flag::H, true);
    assert_eq!(cpu.f, 0xE0);
    cpu.set_flag(&Flag::C, true);
    assert_eq!(cpu.f, 0xF0);
    cpu.set_flag(&Flag::N, false);
    assert_eq!(cpu.f, 0xB0);
    assert!(cpu.get_flag(&Flag::Z));
    assert!(!cpu.get_flag(&Flag::N));
    assert!(cpu.get_flag(&Flag::H));
    assert!(cpu.get_flag(&Flag::C));
    cpu.set_flag(&Flag::Z, false);
    cpu.set_flag(&Flag::H, false);
    cpu.set_flag(&Flag::C, false);
    assert_eq!(cpu.f, 0x00);
}

#[test]
fn add_with_both_carries() {
    let mut cpu = cpu_with_a(0x3A, false);
    cpu.add_u8_to_register(&Register::A, 0xC6);
    assert_eq!(cpu.a, 0x00);
    assert_eq!(flags(&cpu), (true, false, true, true));
}

#[test]
fn add_ignores_carry_in() {
    let mut cpu = cpu_with_a(0x3C, true);
    cpu.add_u8_to_register(&Register::A, 0xFF);
    assert_eq!(cpu.a, 0x3B);
    assert_eq!(flags(&cpu), (false, false, true, true));
    let mut cpu = cpu_with_a(0x3C, true);
    cpu.add_u8_to_register(&Register::A, 0x12);
    assert_eq!(cpu.a, 0x4E);
    assert_eq!(flags(&cpu), (false, false, false, false));
}

#[test]
fn add_register_to_itself() {
    let mut cpu = cpu_with_a(0x88, false);
    cpu.add_register_to_register(&Register::A, &Register::A);
    assert_eq!(cpu.a, 0x10);
    assert_eq!(flags(&cpu), (false, false, true, true));
}

#[test]
fn adc_counts_the_carry_in() {
    let mut cpu = cpu_with_a(0xE1, true);
    cpu.write_register(&Register::E, 0x0F);
    cpu.add_register_to_register_with_carry(&Register::A, &Register::E);
    assert_eq!(cpu.a, 0xF1);
    assert_eq!(flags(&cpu), (false, false, true, false));

    let mut cpu = cpu_with_a(0xE1, true);
    cpu.add_u8_to_register_with_carry(&Register::A, 0x3B);
    assert_eq!(cpu.a, 0x1D);
    assert_eq!(flags(&cpu), (false, false, false, true));

    let mut cpu = cpu_with_a(0xE1, true);
    cpu.add_u8_to_register_with_carry(&Register::A, 0x1E);
    assert_eq!(cpu.a, 0x00);
    assert_eq!(flags(&cpu), (true, false, true, true));
}

#[test]
fn adc_carry_in_takes_part_in_both_carries() {
    let mut cpu = cpu_with_a(0x00, true);
    cpu.add_u8_to_register_with_carry(&Register::A, 0xFF);
    assert_eq!(cpu.a, 0x00);
    assert_eq!(flags(&cpu), (true, false, true, true));

    let mut cpu = cpu_with_a(0x0F, true);
    cpu.add_u8_to_register_with_carry(&Register::A, 0x00);
    assert_eq!(cpu.a, 0x10);
    assert_eq!(flags(&cpu), (false, false, true, false));

    let mut cpu = cpu_with_a(0x0F, false);
    cpu.add_u8_to_register_with_carry(&Register::A, 0x00);
    assert_eq!(cpu.a, 0x0F);
    assert_eq!(flags(&cpu), (false, false, false, false));
}

#[test]
fn sub_borrows() {
    let mut cpu = cpu_with_a(0x3E, false);
    cpu.sub_u8_from_register(&Register::A, 0x3E);
    assert_eq!(cpu.a, 0x00);
    assert_eq!(flags(&cpu), (true, true, false, false));

    let mut cpu = cpu_with_a(0x3E, true);
    cpu.sub_u8_from_register(&Register::A, 0x0F);
    assert_eq!(cpu.a, 0x2F);
    assert_eq!(flags(&cpu), (false, true, true, false));

    let mut cpu = cpu_with_a(0x3E, false);
    cpu.write_register(&Register::B, 0x40);
    cpu.sub_register_from_register(&Register::A, &Register::B);
    assert_eq!(cpu.a, 0xFE);
    assert_eq!(flags(&cpu), (false, true, false, true));
}

#[test]
fn sbc_counts_the_borrow_in() {
    let mut cpu = cpu_with_a(0x3B, true);
    cpu.write_register(&Register::H, 0x2A);
    cpu.sub_register_from_register_with_carry(&Register::A, &Register::H);
    assert_eq!(cpu.a, 0x10);
    assert_eq!(flags(&cpu), (false, true, false, false));

    let mut cpu = cpu_with_a(0x3B, true);
    cpu.sub_u8_from_register_with_carry(&Register::A, 0x3A);
    assert_eq!(cpu.a, 0x00);
    assert_eq!(flags(&cpu), (true, true, false, false));

    let mut cpu = cpu_with_a(0x3B, true);
    cpu.sub_u8_from_register_with_carry(&Register::A, 0x4F);
    assert_eq!(cpu.a, 0xEB);
    assert_eq!(flags(&cpu), (false, true, true, true));
}

#[test]
fn sbc_borrow_in_takes_part_in_both_borrows() {
    let mut cpu = cpu_with_a(0x00, true);
    cpu.sub_u8_from_register_with_carry(&Register::A, 0xFF);
    assert_eq!(cpu.a, 0x00);
    assert_eq!(flags(&cpu), (true, true, true, true));

    let mut cpu = cpu_with_a(0x10, true);
    cpu.sub_u8_from_register_with_carry(&Register::A, 0x00);
    assert_eq!(cpu.a, 0x0F);
    assert_eq!(flags(&cpu), (false, true, true, false));

    let mut cpu = cpu_with_a(0x00, true);
    cpu.sub_u8_from_register_with_carry(&Register::A, 0x00);
    assert_eq!(cpu.a, 0xFF);
    assert_eq!(flags(&cpu), (false, true, true, true));
}

#[test]
fn add_then_sub_restores_a() {
    for a in 0..=255u8 {
        for n in 0..=255u8 {
            let mut cpu = cpu_with_a(a, false);
            cpu.add_u8_to_register(&Register::A, n);
            let after_add = flags(&cpu);
            cpu.sub_u8_from_register(&Register::A, n);
            assert_eq!(cpu.a, a);
            assert_eq!(flags(&cpu), (a == 0, true, after_add.2, after_add.3));
        }
    }
}

#[test]
fn sixteen_bit_add_keeps_zero_flag() {
    for zero in [false, true] {
        let mut cpu = CPU::new();
        cpu.set_flag(&Flag::Z, zero);
        cpu.set_flag(&Flag::N, true);
        cpu.write_register_pair(&register_hl(), 0x8A23);
        cpu.write_register_pair(&register_bc(), 0x0605);
        cpu.add_register_pair(&register_hl(), &register_bc());
        assert_eq!(cpu.read_register_pair(&register_hl()), 0x9028);
        assert_eq!(flags(&cpu), (zero, false, true, false));
        assert_eq!(cpu.read_register_pair(&register_bc()), 0x0605);
    }
}

#[test]
fn sixteen_bit_add_to_itself() {
    let mut cpu = CPU::new();
    cpu.write_register_pair(&register_hl(), 0x8A23);
    cpu.add_register_pair(&register_hl(), &register_hl());
    assert_eq!(cpu.read_register_pair(&register_hl()), 0x1446);
    assert_eq!(flags(&cpu), (false, false, true, true));
}

#[test]
fn sixteen_bit_add_of_a_value() {
    let mut cpu = CPU::new();
    cpu.write_register_pair(&register_hl(), 0x0800);
    cpu.add_u16_to_register_pair(&register_hl(), 0x0800);
    assert_eq!(cpu.read_register_pair(&register_hl()), 0x1000);
    assert_eq!(flags(&cpu), (false, false, true, false));
    cpu.add_u16_to_register_pair(&register_hl(), 0xF000);
    assert_eq!(cpu.read_register_pair(&register_hl()), 0x0000);
    assert_eq!(flags(&cpu), (false, false, false, true));
}

#[test]
fn sp_offset_forward() {
    let mut cpu = CPU::new();
    cpu.f = 0xF0;
    assert_eq!(cpu.add_i8_to_sp(0x02, 0xFFF8), 0xFFFA);
    assert_eq!(flags(&cpu), (false, false, false, false));
    assert_eq!(cpu.add_i8_to_sp(0x01, 0x000F), 0x0010);
    assert_eq!(flags(&cpu), (false, false, true, false));
    assert_eq!(cpu.add_i8_to_sp(0x01, 0x00FF), 0x0100);
    assert_eq!(flags(&cpu), (false, false, true, true));
    assert_eq!(cpu.add_i8_to_sp(0x7F, 0xFFFF), 0x007E);
    assert_eq!(flags(&cpu), (false, false, true, true));
}

#[test]
fn sp_offset_backward_uses_the_unsigned_byte_for_flags() {
    let mut cpu = CPU::new();
    assert_eq!(cpu.add_i8_to_sp(0xFF, 0x0000), 0xFFFF);
    assert_eq!(flags(&cpu), (false, false, false, false));
    assert_eq!(cpu.add_i8_to_sp(0xFF, 0x0001), 0x0000);
    assert_eq!(flags(&cpu), (false, false, true, true));
    assert_eq!(cpu.add_i8_to_sp(0x80, 0x0100), 0x0080);
    assert_eq!(flags(&cpu), (false, false, false, false));
    assert_eq!(cpu.add_i8_to_sp(0xF0, 0xFFF0), 0xFFE0);
    assert_eq!(flags(&cpu), (false, false, false, true));
    assert_eq!(cpu.sp, 0xFFFE);
}

#[test]
fn daa_after_addition() {
    let cases: [(u8, bool, bool, u8, bool); 6] = [
        (0x7D, false, false, 0x83, false),
        (0x0A, false, false, 0x10, false),
        (0x9A, false, false, 0x00, true),
        (0x12, true, false, 0x18, false),
        (0x12, false, true, 0x72, true),
        (0xA0, false, false, 0x00, true),
    ];
    for (a, h, c, expected, carry) in cases {
        let mut cpu = cpu_with_a(a, c);
        cpu.set_flag(&Flag::H, h);
        cpu.daa(&Register::A);
        assert_eq!(cpu.a, expected);
        assert_eq!(flags(&cpu), (expected == 0, false, false, carry));
    }
}

#[test]
fn daa_after_subtraction() {
    let cases: [(u8, bool, bool, u8); 5] = [
        (0x0F, true, false, 0x09),
        (0xF0, false, true, 0x90),
        (0xFF, true, true, 0x99),
        (0x45, false, false, 0x45),
        (0x9B, false, false, 0x9B),
    ];
    for (a, h, c, expected) in cases {
        let mut cpu = cpu_with_a(a, c);
        cpu.set_flag(&Flag::N, true);
        cpu.set_flag(&Flag::H, h);
        cpu.daa(&Register::A);
        assert_eq!(cpu.a, expected);
        assert_eq!(flags(&cpu), (expected == 0, true, false, c));
    }
}

#[test]
fn daa_gives_the_decimal_sum() {
    for x in 0..100u8 {
        for y in 0..100u8 {
            let a = (x / 10) * 16 + x % 10;
            let b = (y / 10) * 16 + y % 10;
            let mut cpu = cpu_with_a(a, false);
            cpu.add_u8_to_register(&Register::A, b);
            cpu.daa(&Register::A);
            let sum = (x + y) % 100;
            assert_eq!(cpu.a, (sum / 10) * 16 + sum % 10);
            assert_eq!(cpu.get_flag(&Flag::C), x + y > 99);
            assert_eq!(cpu.get_flag(&Flag::Z), sum == 0);
            assert!(!cpu.get_flag(&Flag::H));
            assert!(!cpu.get_flag(&Flag::N));
        }
    }
}

#[test]
fn daa_gives_the_decimal_difference() {
    for x in 0..100u8 {
        for y in 0..100u8 {
            let a = (x / 10) * 16 + x % 10;
            let b = (y / 10) * 16 + y % 10;
            let mut cpu = cpu_with_a(a, false);
            cpu.sub_u8_from_register(&Register::A, b);
            cpu.daa(&Register::A);
            let difference = (100 + x - y) % 100;
            assert_eq!(cpu.a, (difference / 10) * 16 + difference % 10);
            assert_eq!(cpu.get_flag(&Flag::C), x < y);
            assert!(cpu.get_flag(&Flag::N));
        }
    }
}

#[test]
fn memory_increment_and_decrement() {
    let mut cpu = CPU::new();
    let mut memory = Memory::new();
    cpu.set_flag(&Flag::C, true);
    memory.write_byte(0xC000, 0xFF);
    cpu.increment_byte_at_address(&mut memory, 0xC000);
    assert_eq!(memory.read_byte(0xC000), 0x00);
    assert_eq!(flags(&cpu), (true, false, true, true));
    cpu.decrement_byte_at_address(&mut memory, 0xC000);
    assert_eq!(memory.read_byte(0xC000), 0xFF);
    assert_eq!(flags(&cpu), (false, true, true, true));

    cpu.write_register_pair(&register_hl(), 0xC123);
    memory.write_byte(0xC123, 0x4F);
    cpu.increment_byte_pointed_by_register_pair(&mut memory, &register_hl());
    assert_eq!(memory.read_byte(0xC123), 0x50);
    assert_eq!(flags(&cpu), (false, false, true, true));
    cpu.decrement_byte_pointed_by_register_pair(&mut memory, &register_hl());
    cpu.decrement_byte_pointed_by_register_pair(&mut memory, &register_hl());
    assert_eq!(memory.read_byte(0xC123), 0x4E);
    assert_eq!(flags(&cpu), (false, true, false, true));
    assert_eq!(cpu.read_register_pair(&register_hl()), 0xC123);
}

#[test]
fn new_cpu_starts_behind_the_header() {
    let cpu = CPU::new();
    assert_eq!(cpu.pc, 0x0100);
    assert_eq!(cpu.sp, 0xFFFE);
    assert_eq!(
        (cpu.a, cpu.f, cpu.b, cpu.c, cpu.d, cpu.e, cpu.h, cpu.l),
        (0, 0, 0, 0, 0, 0, 0, 0)
    );
    assert_eq!(cpu.cycles, 0);
    assert!(!cpu.interrupts.ime);
    assert!(!cpu.interrupts.enable_ime_next);
    assert!(!cpu.is_halted);
    assert!(!cpu.is_stopped);
}

#[test]
fn spend_wraps_the_accumulator() {
    let mut cpu = CPU::new();
    assert_eq!(cpu.spend(24), 24);
    assert_eq!(cpu.cycles, 24);
    cpu.cycles = u64::MAX - 3;
    assert_eq!(cpu.spend(4), 4);
    assert_eq!(cpu.cycles, 0);
}

#[test]
fn increment_then_decrement_restores_memory() {
    for value in [0x00u8, 0x0F, 0x10, 0x7F, 0xFF] {
        let mut cpu = CPU::new();
        let mut memory = Memory::new();
        memory.write_byte(0xC800, value);
        cpu.increment_byte_at_address(&mut memory, 0xC800);
        cpu.decrement_byte_at_address(&mut memory, 0xC800);
        assert_eq!(memory.read_byte(0xC800), value);
        assert_eq!(flags(&cpu), (value == 0, true, value & 0x0F == 0x0F, false));
    }
}

#[test]
fn increment_of_the_divider_reads_zero() {
    let mut cpu = CPU::new();
    let mut memory = Memory::new();
    cpu.increment_byte_at_address(&mut memory, 0xFF04);
    assert_eq!(memory.read_byte(0xFF04), 0x00);
    assert_eq!(flags(&cpu), (false, false, false, false));
}
