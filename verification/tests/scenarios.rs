use rustboy::cpu::opcodes::CpuError;
use rustboy::cpu::registers::{register_bc, register_hl, Flag, Register};
use rustboy::data::HardwareRegister;
use rustboy::gameboy::GameBoy;

fn machine_with(program: &[(u16, &[u8])]) -> GameBoy {
    let mut machine = GameBoy::new();
    for &(address, bytes) in program {
        for (i, value) in bytes.iter().enumerate() {
            machine.write_byte(address.wrapping_add(i as u16), *value);
        }
    }
    machine
}

#[test]
fn inc_a_baseline() {
    let mut machine = machine_with(&[(0x0100, &[0x3C])]);
    let cycles = machine.step().unwrap();
    assert_eq!(machine.cpu.read_register(&Register::A), 1);
    assert_eq!(machine.cpu.f & 0x0F, 0);
    assert!(!machine.cpu.get_flag(&Flag::Z));
    assert!(!machine.cpu.get_flag(&Flag::N));
    assert!(!machine.cpu.get_flag(&Flag::H));
    assert_eq!(machine.cpu.pc, 0x0101);
    assert_eq!(cycles, 4);
    assert_eq!(machine.cpu.cycles, 4);
}

#[test]
fn add_hl_bc_with_half_carry() {
    let mut machine = machine_with(&[(0x0100, &[0x09])]);
    machine.cpu.write_register_pair(&register_hl(), 0x0FFF);
    machine.cpu.write_register_pair(&register_bc(), 0x0001);
    machine.cpu.set_flag(&Flag::Z, true);
    let cycles = machine.step().unwrap();
    assert_eq!(machine.cpu.read_register_pair(&register_hl()), 0x1000);
    assert!(!machine.cpu.get_flag(&Flag::N));
    assert!(machine.cpu.get_flag(&Flag::H));
    assert!(!machine.cpu.get_flag(&Flag::C));
    assert!(machine.cpu.get_flag(&Flag::Z));
    assert_eq!(cycles, 8);

    let mut machine = machine_with(&[(0x0100, &[0x09])]);
    machine.cpu.write_register_pair(&register_hl(), 0x0FFF);
    machine.cpu.write_register_pair(&register_bc(), 0x0001);
    machine.step().unwrap();
    assert!(!machine.cpu.get_flag(&Flag::Z));
}

#[test]
fn add_hl_bc_with_full_carry() {
    let mut machine = machine_with(&[(0x0100, &[0x09])]);
    machine.cpu.write_register_pair(&register_hl(), 0xFFFF);
    machine.cpu.write_register_pair(&register_bc(), 0x0001);
    machine.step().unwrap();
    assert_eq!(machine.cpu.read_register_pair(&register_hl()), 0x0000);
    assert!(machine.cpu.get_flag(&Flag::H));
    assert!(machine.cpu.get_flag(&Flag::C));
    assert!(!machine.cpu.get_flag(&Flag::Z));
}

#[test]
fn daa_after_adjustment() {
    let mut machine = machine_with(&[(0x0100, &[0x80, 0x27])]);
    machine.cpu.write_register(&Register::A, 0x45);
    machine.cpu.write_register(&Register::B, 0x38);
    assert_eq!(machine.step(), Ok(4));
    assert_eq!(machine.cpu.a, 0x7D);
    assert!(!machine.cpu.get_flag(&Flag::N));
    assert!(!machine.cpu.get_flag(&Flag::H));
    assert!(!machine.cpu.get_flag(&Flag::C));
    assert_eq!(machine.step(), Ok(4));
    assert_eq!(machine.cpu.a, 0x83);
    assert!(!machine.cpu.get_flag(&Flag::Z));
    assert!(!machine.cpu.get_flag(&Flag::N));
    assert!(!machine.cpu.get_flag(&Flag::H));
    assert!(!machine.cpu.get_flag(&Flag::C));
}

#[test]
fn call_ret_round_trip() {
    let mut machine = machine_with(&[(0x0100, &[0x00, 0xCD, 0x00, 0x02, 0x00]), (0x0200, &[0xC9])]);
    assert_eq!(machine.cpu.sp, 0xFFFE);
    assert_eq!(machine.step(), Ok(4));
    assert_eq!(machine.step(), Ok(24));
    assert_eq!(machine.cpu.pc, 0x0200);
    assert_eq!(machine.cpu.sp, 0xFFFC);
    assert_eq!(machine.read_byte(0xFFFC), 0x04);
    assert_eq!(machine.read_byte(0xFFFD), 0x01);
    assert_eq!(machine.step(), Ok(16));
    assert_eq!(machine.cpu.pc, 0x0104);
    assert_eq!(machine.cpu.sp, 0xFFFE);
}

#[test]
fn timer_overflow_raises_interrupt() {
    let mut machine = GameBoy::new();
    machine.memory.write_hardware_register(HardwareRegister::TAC, 0x05);
    machine.memory.write_hardware_register(HardwareRegister::TIMA, 0xFF);
    machine.memory.write_hardware_register(HardwareRegister::TMA, 0x34);
    machine.timer.step(16, &mut machine.memory);
    assert_eq!(machine.memory.read_hardware_register(HardwareRegister::TIMA), 0x34);
    assert_eq!(machine.memory.read_hardware_register(HardwareRegister::IF) & 0x04, 0x04);
}

#[test]
fn delayed_ei() {
    let mut machine = machine_with(&[(0x0100, &[0xFB, 0x00, 0x00])]);
    machine.memory.write_hardware_register(HardwareRegister::IE, 0x01);
    machine.memory.write_hardware_register(HardwareRegister::IF, 0x01);

    assert_eq!(machine.step(), Ok(4));
    assert!(!machine.cpu.interrupts.ime);
    assert!(machine.cpu.interrupts.enable_ime_next);

    assert_eq!(machine.step(), Ok(4));
    assert!(machine.cpu.interrupts.ime);
    assert!(!machine.cpu.interrupts.enable_ime_next);
    assert_eq!(machine.cpu.pc, 0x0102);

    assert_eq!(machine.step(), Ok(20));
    assert_eq!(machine.cpu.pc, 0x0040);
    assert_eq!(machine.cpu.sp, 0xFFFC);
    assert_eq!(machine.read_byte(0xFFFC), 0x02);
    assert_eq!(machine.read_byte(0xFFFD), 0x01);
    assert_eq!(machine.memory.read_hardware_register(HardwareRegister::IF) & 0x01, 0x00);
    assert!(!machine.cpu.interrupts.ime);
}

#[test]
fn di_right_after_ei_keeps_interrupts_off() {
    let mut machine = machine_with(&[(0x0100, &[0xFB, 0xF3, 0x00])]);
    assert_eq!(machine.step(), Ok(4));
    assert!(machine.cpu.interrupts.enable_ime_next);
    assert_eq!(machine.step(), Ok(4));
    assert!(!machine.cpu.interrupts.ime);
    assert!(!machine.cpu.interrupts.enable_ime_next);
    assert_eq!(machine.step(), Ok(4));
    assert!(!machine.cpu.interrupts.ime);
}

#[test]
fn reti_enables_at_once() {
    let mut machine = machine_with(&[(0x0100, &[0xD9]), (0xFFFC, &[0x34, 0x12])]);
    machine.cpu.sp = 0xFFFC;
    assert_eq!(machine.step(), Ok(16));
    assert!(machine.cpu.interrupts.ime);
    assert_eq!(machine.cpu.pc, 0x1234);
    assert_eq!(machine.cpu.sp, 0xFFFE);
}

#[test]
fn interrupt_priority_picks_lowest_bit() {
    let mut machine = machine_with(&[(0x0100, &[0x00])]);
    machine.memory.write_hardware_register(HardwareRegister::IE, 0x1F);
    machine.memory.write_hardware_register(HardwareRegister::IF, 0x14);
    machine.cpu.interrupts.ime = true;
    assert_eq!(machine.step(), Ok(20));
    assert_eq!(machine.cpu.pc, 0x0050);
    assert_eq!(machine.memory.read_hardware_register(HardwareRegister::IF), 0x10);
    assert!(!machine.cpu.interrupts.ime);
    assert_eq!(machine.cpu.cycles, 20);
    assert_eq!(machine.timer.div_counter, 20);
}

#[test]
fn each_source_has_its_vector() {
    let vectors = [0x0040u16, 0x0048, 0x0050, 0x0058, 0x0060];
    for bit in 0..5u8 {
        let mut machine = GameBoy::new();
        machine.memory.write_hardware_register(HardwareRegister::IE, 0xFF);
        machine.request_interrupt(bit);
        machine.cpu.interrupts.ime = true;
        assert_eq!(machine.step(), Ok(20));
        assert_eq!(machine.cpu.pc, vectors[bit as usize]);
        assert_eq!(machine.memory.read_hardware_register(HardwareRegister::IF), 0x00);
    }
}

#[test]
fn masked_interrupt_is_not_taken() {
    let mut machine = machine_with(&[(0x0100, &[0x00])]);
    machine.memory.write_hardware_register(HardwareRegister::IE, 0x02);
    machine.memory.write_hardware_register(HardwareRegister::IF, 0x01);
    machine.cpu.interrupts.ime = true;
    assert_eq!(machine.step(), Ok(4));
    assert_eq!(machine.cpu.pc, 0x0101);
}

#[test]
fn interrupt_waits_for_master_enable() {
    let mut machine = machine_with(&[(0x0100, &[0x00])]);
    machine.memory.write_hardware_register(HardwareRegister::IE, 0x01);
    machine.memory.write_hardware_register(HardwareRegister::IF, 0x01);
    assert_eq!(machine.step(), Ok(4));
    assert_eq!(machine.cpu.pc, 0x0101);
    assert_eq!(machine.memory.read_hardware_register(HardwareRegister::IF), 0x01);
}

#[test]
fn halt_idles_until_an_interrupt_is_pending() {
    let mut machine = machine_with(&[(0x0100, &[0x76, 0x3C])]);
    assert_eq!(machine.step(), Ok(4));
    assert!(machine.cpu.is_halted);
    assert_eq!(machine.cpu.pc, 0x0101);
    for _ in 0..10 {
        assert_eq!(machine.step(), Ok(4));
        assert!(machine.cpu.is_halted);
        assert_eq!(machine.cpu.pc, 0x0101);
    }
    assert_eq!(machine.cpu.cycles, 44);
    assert_eq!(machine.timer.div_counter, 44);
    machine.memory.write_hardware_register(HardwareRegister::IE, 0x04);
    machine.request_interrupt(2);
    assert_eq!(machine.step(), Ok(4));
    assert!(!machine.cpu.is_halted);
    assert_eq!(machine.cpu.a, 1);
    assert_eq!(machine.cpu.pc, 0x0102);
}

#[test]
fn halt_wakes_on_timer_overflow() {
    let mut machine = machine_with(&[(0x0100, &[0x76, 0x00])]);
    machine.memory.write_hardware_register(HardwareRegister::IE, 0x04);
    machine.memory.write_hardware_register(HardwareRegister::TAC, 0x05);
    machine.memory.write_hardware_register(HardwareRegister::TIMA, 0xFF);
    assert_eq!(machine.step(), Ok(4));
    assert_eq!(machine.step(), Ok(4));
    assert_eq!(machine.step(), Ok(4));
    assert!(machine.cpu.is_halted);
    assert_eq!(machine.step(), Ok(4));
    assert_eq!(machine.memory.read_hardware_register(HardwareRegister::IF) & 0x04, 0x04);
    assert!(machine.cpu.is_halted);
    assert_eq!(machine.step(), Ok(4));
    assert!(!machine.cpu.is_halted);
    assert_eq!(machine.cpu.pc, 0x0102);
}

#[test]
fn stop_stands_still_until_a_button_is_pressed() {
    let mut machine = machine_with(&[(0x0100, &[0x10, 0x00, 0x3C])]);
    machine.memory.write_hardware_register(HardwareRegister::P1, 0xFF);
    assert_eq!(machine.step(), Ok(4));
    assert!(machine.cpu.is_stopped);
    assert_eq!(machine.cpu.pc, 0x0102);
    let cycles = machine.cpu.cycles;
    let timer = machine.timer;
    for _ in 0..5 {
        assert_eq!(machine.step(), Ok(0));
        assert!(machine.cpu.is_stopped);
    }
    assert_eq!(machine.cpu.cycles, cycles);
    assert_eq!(machine.timer, timer);
    machine.memory.write_hardware_register(HardwareRegister::P1, 0xFE);
    assert_eq!(machine.step(), Ok(4));
    assert!(!machine.cpu.is_stopped);
    assert_eq!(machine.cpu.a, 1);
}

#[test]
fn stop_with_operand_is_reported() {
    let mut machine = machine_with(&[(0x0100, &[0x10, 0x07])]);
    assert_eq!(
        machine.step(),
        Err(CpuError::UnexpectedStopOperand { operand: 0x07, pc: 0x0100 })
    );
    assert!(!machine.cpu.is_stopped);
    assert_eq!(machine.cpu.pc, 0x0102);
    assert_eq!(machine.cpu.cycles, 0);
    assert_eq!(machine.timer.div_counter, 0);
}

#[test]
fn unused_opcodes_are_reported() {
    let unused = [0xD3u8, 0xDB, 0xDD, 0xE3, 0xE4, 0xEB, 0xEC, 0xED, 0xF4, 0xFC, 0xFD];
    for opcode in unused {
        let mut machine = machine_with(&[(0x0100, &[opcode])]);
        assert_eq!(machine.step(), Err(CpuError::IllegalInstruction { opcode, pc: 0x0100 }));
        assert_eq!(machine.cpu.pc, 0x0101);
        assert_eq!(machine.cpu.cycles, 0);
        assert_eq!(machine.cpu.sp, 0xFFFE);
    }
}

#[test]
fn new_machine_is_cleared() {
    let machine = GameBoy::new();
    assert_eq!(machine.cpu.pc, 0x0100);
    assert_eq!(machine.cpu.sp, 0xFFFE);
    assert_eq!(machine.cpu.a, 0);
    assert_eq!(machine.cpu.f, 0);
    assert_eq!(machine.cpu.cycles, 0);
    assert!(!machine.cpu.interrupts.ime);
    assert!(!machine.cpu.is_halted);
    assert!(!machine.cpu.is_stopped);
    assert_eq!(machine.timer.div_counter, 0);
    assert_eq!(machine.timer.tima_counter, 0);
    for address in [0x0000u16, 0x0100, 0x8000, 0xC000, 0xFF04, 0xFF0F, 0xFFFF] {
        assert_eq!(machine.read_byte(address), 0);
    }
}

#[test]
fn post_boot_snapshot() {
    let mut machine = GameBoy::new();
    machine.cpu.pc = 0x1234;
    machine.cpu.cycles = 77;
    machine.reset_registers_post_boot();
    assert_eq!(machine.cpu.a, 0x01);
    assert_eq!(machine.cpu.f, 0xB0);
    assert_eq!(machine.cpu.b, 0x00);
    assert_eq!(machine.cpu.c, 0x13);
    assert_eq!(machine.cpu.d, 0x00);
    assert_eq!(machine.cpu.e, 0xD8);
    assert_eq!(machine.cpu.h, 0x01);
    assert_eq!(machine.cpu.l, 0x4D);
    assert_eq!(machine.cpu.sp, 0xFFFE);
    assert_eq!(machine.cpu.pc, 0x0100);
    assert_eq!(machine.cpu.cycles, 77);
}

#[test]
fn load_rom_copies_from_zero_and_truncates() {
    let mut machine = GameBoy::new();
    machine.write_byte(0x0003, 0xAA);
    machine.load_rom(&[1, 2, 3]);
    assert_eq!(machine.read_byte(0x0000), 1);
    assert_eq!(machine.read_byte(0x0001), 2);
    assert_eq!(machine.read_byte(0x0002), 3);
    assert_eq!(machine.read_byte(0x0003), 0xAA);

    let mut image = vec![0x11u8; 0x10000 + 5];
    image[0xFFFF] = 0x22;
    image[0x10000] = 0x33;
    machine.load_rom(&image);
    assert_eq!(machine.read_byte(0x0000), 0x11);
    assert_eq!(machine.read_byte(0xFFFF), 0x22);
    assert_eq!(machine.read_byte(0x0003), 0x11);
}

#[test]
fn request_interrupt_sets_one_bit() {
    let mut machine = GameBoy::new();
    machine.request_interrupt(0);
    assert_eq!(machine.memory.read_hardware_register(HardwareRegister::IF), 0x01);
    machine.request_interrupt(4);
    assert_eq!(machine.memory.read_hardware_register(HardwareRegister::IF), 0x11);
    machine.request_interrupt(4);
    assert_eq!(machine.memory.read_hardware_register(HardwareRegister::IF), 0x11);
    machine.request_interrupt(5);
    machine.request_interrupt(200);
    assert_eq!(machine.memory.read_hardware_register(HardwareRegister::IF), 0x11);
}

#[test]
fn step_feeds_the_timer_with_the_cost() {
    let mut machine = machine_with(&[(0x0100, &[0xCD, 0x00, 0x02])]);
    machine.memory.write_hardware_register(HardwareRegister::TAC, 0x05);
    assert_eq!(machine.step(), Ok(24));
    assert_eq!(machine.timer.div_counter, 24);
    assert_eq!(machine.timer.tima_counter, 8);
    assert_eq!(machine.memory.read_hardware_register(HardwareRegister::TIMA), 1);
}

#[test]
fn cycles_accumulate_over_steps() {
    let mut machine = machine_with(&[(0x0100, &[0x00, 0x01, 0x34, 0x12, 0x09, 0xC3, 0x00, 0x01])]);
    let mut total = 0u64;
    for _ in 0..40 {
        total += machine.step().unwrap() as u64;
        assert_eq!(machine.cpu.cycles, total);
        assert_eq!(machine.cpu.f & 0x0F, 0);
    }
    assert_eq!(total, 10 * (4 + 12 + 8 + 16));
    assert_eq!(machine.memory.read_hardware_register(HardwareRegister::DIV), 1);
    assert_eq!(machine.timer.div_counter, (400 - 256) as u16);
}
