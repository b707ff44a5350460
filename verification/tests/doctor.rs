use rustboy::cpu::registers::CPU;
use rustboy::gameboy_doctor::{
    gb_doc_handle_serial, gb_doc_load_test_rom, gb_doc_set_varibles, gb_doc_trace_line, hex_digit,
};
use rustboy::memory::Memory;

fn text(line: Vec<u8>) -> String {
    String::from_utf8(line).unwrap()
}

#[test]
fn trace_line_after_boot() {
    let mut cpu = CPU::new();
    let mut memory = Memory::new();
    gb_doc_set_varibles(&mut cpu);
    memory.load_test_rom(&[0u8; 0x100]);
    memory.write_byte(0x0100, 0x00);
    memory.write_byte(0x0101, 0xC3);
    memory.write_byte(0x0102, 0x13);
    memory.write_byte(0x0103, 0x02);
    assert_eq!(
        text(gb_doc_trace_line(&cpu, &memory)),
        "A:01 F:B0 B:00 C:13 D:00 E:D8 H:01 L:4D SP:FFFE PC:0100 PCMEM:00,C3,13,02"
    );
    assert_eq!(
        text(cpu.gameboy_doc_output(&memory)),
        "A:01 F:B0 B:00 C:13 D:00 E:D8 H:01 L:4D SP:FFFE PC:0100 PCMEM:00,C3,13,02"
    );
}

#[test]
fn trace_line_matches_the_reference_format() {
    let mut cpu = CPU::new();
    let mut memory = Memory::new();
    cpu.a = 0xAB;
    cpu.f = 0x50;
    cpu.b = 0x0C;
    cpu.c = 0xD0;
    cpu.d = 0xEF;
    cpu.e = 0x09;
    cpu.h = 0x9A;
    cpu.l = 0x00;
    cpu.sp = 0x0ABC;
    cpu.pc = 0xC0DE;
    for (i, value) in [0xFEu8, 0x01, 0x7F, 0xA0].iter().enumerate() {
        memory.write_byte(0xC0DE + i as u16, *value);
    }
    let line = text(gb_doc_trace_line(&cpu, &memory));
    let expected = format!(
        "A:{:02X} F:{:02X} B:{:02X} C:{:02X} D:{:02X} E:{:02X} H:{:02X} L:{:02X} SP:{:04X} PC:{:04X} PCMEM:{:02X},{:02X},{:02X},{:02X}",
        cpu.a, cpu.f, cpu.b, cpu.c, cpu.d, cpu.e, cpu.h, cpu.l, cpu.sp, cpu.pc, 0xFE, 0x01, 0x7F, 0xA0
    );
    assert_eq!(line, expected);
    assert_eq!(line, "A:AB F:50 B:0C C:D0 D:EF E:09 H:9A L:00 SP:0ABC PC:C0DE PCMEM:FE,01,7F,A0");
}

#[test]
fn trace_line_wraps_behind_the_top_of_memory() {
    let mut cpu = CPU::new();
    let mut memory = Memory::new();
    cpu.pc = 0xFFFE;
    memory.write_byte(0xFFFE, 0x11);
    memory.write_byte(0xFFFF, 0x22);
    memory.write_byte(0x0000, 0x33);
    memory.write_byte(0x0001, 0x44);
    let line = text(gb_doc_trace_line(&cpu, &memory));
    assert!(line.ends_with("PC:FFFE PCMEM:11,22,33,44"));
}

#[test]
fn hex_digits() {
    let digits: Vec<u8> = (0..16u8).map(hex_digit).collect();
    assert_eq!(String::from_utf8(digits).unwrap(), "0123456789ABCDEF");
}

#[test]
fn serial_byte_is_taken_once() {
    let mut memory = Memory::new();
    memory.write_byte(0xFF01, 0x50);
    assert_eq!(gb_doc_handle_serial(&mut memory), None);
    memory.write_byte(0xFF02, 0x81);
    assert_eq!(gb_doc_handle_serial(&mut memory), Some(0x50));
    assert_eq!(memory.read_byte(0xFF02), 0x00);
    assert_eq!(memory.read_byte(0xFF01), 0x50);
    assert_eq!(gb_doc_handle_serial(&mut memory), None);
}

#[test]
fn serial_needs_exactly_the_send_request() {
    for control in [0x00u8, 0x01, 0x80, 0x82, 0xFF] {
        let mut memory = Memory::new();
        memory.write_byte(0xFF01, 0x41);
        memory.write_byte(0xFF02, control);
        assert_eq!(gb_doc_handle_serial(&mut memory), None);
        assert_eq!(memory.read_byte(0xFF02), control);
    }
    let cpu = CPU::new();
    let mut memory = Memory::new();
    memory.write_byte(0xFF01, 0x0A);
    memory.write_byte(0xFF02, 0x81);
    assert_eq!(cpu.handle_serial_for_test_rom(&mut memory), Some(0x0A));
    assert_eq!(cpu.handle_serial_for_test_rom(&mut memory), None);
}

#[test]
fn doctor_setup() {
    let mut cpu = CPU::new();
    cpu.cycles = 5;
    cpu.interrupts.ime = true;
    gb_doc_set_varibles(&mut cpu);
    assert_eq!(
        (cpu.a, cpu.f, cpu.b, cpu.c, cpu.d, cpu.e, cpu.h, cpu.l),
        (0x01, 0xB0, 0x00, 0x13, 0x00, 0xD8, 0x01, 0x4D)
    );
    assert_eq!((cpu.sp, cpu.pc), (0xFFFE, 0x0100));
    assert_eq!(cpu.cycles, 5);
    assert!(cpu.interrupts.ime);
    let mut other = CPU::new();
    other.cycles = 5;
    other.interrupts.ime = true;
    other.set_varibles_for_gb_doc();
    assert_eq!(cpu, other);

    let mut memory = Memory::new();
    gb_doc_load_test_rom(&mut memory, &[0x31, 0xFE, 0xFF]);
    assert_eq!(memory.read_byte(0x0000), 0x31);
    assert_eq!(memory.read_byte(0x0001), 0xFE);
    assert_eq!(memory.read_byte(0x0002), 0xFF);
    assert_eq!(memory.read_byte(0x0003), 0x00);
}
