use rustboy::data::HardwareRegister;
use rustboy::memory::Memory;
use rustboy::timer::Timer;

fn read(memory: &Memory, register: HardwareRegister) -> u8 {
    memory.read_hardware_register(register)
}

fn timer_with(tac: u8, tima: u8, tma: u8) -> (Timer, Memory) {
    let mut memory = Memory::new();
    let timer = Timer::new(&mut memory);
    memory.write_hardware_register(HardwareRegister::TAC, tac);
    memory.write_hardware_register(HardwareRegister::TIMA, tima);
    memory.write_hardware_register(HardwareRegister::TMA, tma);
    (timer, memory)
}

#[test]
fn new_timer_clears_its_registers() {
    let mut memory = Memory::new();
    memory.write_hardware_register(HardwareRegister::DIV, 1);
    memory.write_hardware_register(HardwareRegister::TIMA, 2);
    memory.write_hardware_register(HardwareRegister::TMA, 3);
    memory.write_hardware_register(HardwareRegister::TAC, 4);
    memory.write_hardware_register(HardwareRegister::IF, 5);
    let timer = Timer::new(&mut memory);
    assert_eq!(timer, Timer { div_counter: 0, tima_counter: 0 });
    assert_eq!(read(&memory, HardwareRegister::DIV), 0);
    assert_eq!(read(&memory, HardwareRegister::TIMA), 0);
    assert_eq!(read(&memory, HardwareRegister::TMA), 0);
    assert_eq!(read(&memory, HardwareRegister::TAC), 0);
    assert_eq!(read(&memory, HardwareRegister::IF), 5);
}

#[test]
fn div_counts_once_per_256_cycles() {
    let (mut timer, mut memory) = timer_with(0x00, 0, 0);
    timer.step(255, &mut memory);
    assert_eq!(read(&memory, HardwareRegister::DIV), 0);
    assert_eq!(timer.div_counter, 255);
    timer.step(1, &mut memory);
    assert_eq!(read(&memory, HardwareRegister::DIV), 1);
    assert_eq!(timer.div_counter, 0);
    timer.step(1024, &mut memory);
    assert_eq!(read(&memory, HardwareRegister::DIV), 5);
    assert_eq!(timer.div_counter, 0);
    timer.step(300, &mut memory);
    assert_eq!(read(&memory, HardwareRegister::DIV), 6);
    assert_eq!(timer.div_counter, 44);
}

#[test]
fn div_counts_whatever_tac_holds() {
    for tac in 0..8u8 {
        let (mut timer, mut memory) = timer_with(tac, 0, 0);
        for _ in 0..64 {
            timer.step(4, &mut memory);
        }
        assert_eq!(read(&memory, HardwareRegister::DIV), 1, "TAC {}", tac);
        for _ in 0..64 {
            timer.step(12, &mut memory);
        }
        assert_eq!(read(&memory, HardwareRegister::DIV), 4, "TAC {}", tac);
    }
}

#[test]
fn div_wraps_at_256() {
    let (mut timer, mut memory) = timer_with(0x00, 0, 0);
    memory.write_hardware_register(HardwareRegister::DIV, 0xFF);
    timer.step(256, &mut memory);
    assert_eq!(read(&memory, HardwareRegister::DIV), 0x00);
    timer.step(65535, &mut memory);
    assert_eq!(read(&memory, HardwareRegister::DIV), 0xFF);
    assert_eq!(timer.div_counter, 255);
}

#[test]
fn tima_stands_still_while_switched_off() {
    for tac in 0..4u8 {
        let (mut timer, mut memory) = timer_with(tac, 0x10, 0x20);
        timer.step(5000, &mut memory);
        assert_eq!(read(&memory, HardwareRegister::TIMA), 0x10);
        assert_eq!(timer.tima_counter, 0);
        assert_eq!(read(&memory, HardwareRegister::IF), 0);
    }
}

#[test]
fn tima_counts_once_per_selected_period() {
    let periods = [(0x04u8, 1024u16), (0x05, 16), (0x06, 64), (0x07, 256)];
    for (tac, period) in periods {
        let (mut timer, mut memory) = timer_with(tac, 0, 0);
        timer.step(period - 1, &mut memory);
        assert_eq!(read(&memory, HardwareRegister::TIMA), 0, "TAC {}", tac);
        assert_eq!(timer.tima_counter, period - 1);
        timer.step(1, &mut memory);
        assert_eq!(read(&memory, HardwareRegister::TIMA), 1, "TAC {}", tac);
        assert_eq!(timer.tima_counter, 0);
        timer.step(period, &mut memory);
        assert_eq!(read(&memory, HardwareRegister::TIMA), 2, "TAC {}", tac);
        timer.step(3 * period + 1, &mut memory);
        assert_eq!(read(&memory, HardwareRegister::TIMA), 5, "TAC {}", tac);
        assert_eq!(timer.tima_counter, 1);
        assert_eq!(read(&memory, HardwareRegister::IF), 0);
    }
}

#[test]
fn tima_ignores_the_upper_bits_of_tac() {
    let (mut timer, mut memory) = timer_with(0xFD, 0, 0);
    timer.step(32, &mut memory);
    assert_eq!(read(&memory, HardwareRegister::TIMA), 2);
}

#[test]
fn tima_overflow_reloads_and_requests() {
    let (mut timer, mut memory) = timer_with(0x05, 0xFF, 0x34);
    memory.write_hardware_register(HardwareRegister::IF, 0x01);
    timer.step(15, &mut memory);
    assert_eq!(read(&memory, HardwareRegister::TIMA), 0xFF);
    assert_eq!(read(&memory, HardwareRegister::IF), 0x01);
    timer.step(1, &mut memory);
    assert_eq!(read(&memory, HardwareRegister::TIMA), 0x34);
    assert_eq!(read(&memory, HardwareRegister::IF), 0x05);
    timer.step(16, &mut memory);
    assert_eq!(read(&memory, HardwareRegister::TIMA), 0x35);
    assert_eq!(read(&memory, HardwareRegister::TMA), 0x34);
}

#[test]
fn tima_can_overflow_more_than_once_in_a_step() {
    let (mut timer, mut memory) = timer_with(0x05, 0xFE, 0xFE);
    timer.step(16 * 5, &mut memory);
    assert_eq!(read(&memory, HardwareRegister::TIMA), 0xFF);
    assert_eq!(read(&memory, HardwareRegister::IF), 0x04);

    let (mut timer, mut memory) = timer_with(0x05, 0x00, 0xFF);
    timer.step(16 * 255, &mut memory);
    assert_eq!(read(&memory, HardwareRegister::TIMA), 0xFF);
    assert_eq!(read(&memory, HardwareRegister::IF), 0x00);
    timer.step(16, &mut memory);
    assert_eq!(read(&memory, HardwareRegister::TIMA), 0xFF);
    assert_eq!(read(&memory, HardwareRegister::IF), 0x04);
}

#[test]
fn cutting_time_differently_gives_the_same_state() {
    for tac in [0x00u8, 0x04, 0x05, 0x06, 0x07] {
        let (mut whole, mut whole_memory) = timer_with(tac, 0xF0, 0xAB);
        let (mut cut, mut cut_memory) = timer_with(tac, 0xF0, 0xAB);
        let pieces = [4u16, 8, 12, 16, 20, 24, 1, 255, 1000, 37];
        let mut total = 0u16;
        for piece in pieces {
            cut.step(piece, &mut cut_memory);
            total += piece;
        }
        whole.step(total, &mut whole_memory);
        assert_eq!(whole, cut);
        for register in [
            HardwareRegister::DIV,
            HardwareRegister::TIMA,
            HardwareRegister::TMA,
            HardwareRegister::TAC,
            HardwareRegister::IF,
        ] {
            assert_eq!(read(&whole_memory, register), read(&cut_memory, register));
        }
    }
}

#[test]
fn thresholds() {
    assert_eq!(Timer::threshold(0b00), 1024);
    assert_eq!(Timer::threshold(0b01), 16);
    assert_eq!(Timer::threshold(0b10), 64);
    assert_eq!(Timer::threshold(0b11), 256);
    assert_eq!(Timer::threshold(0b101), 16);
    assert_eq!(Timer::threshold(0xFC), 1024);
}

#[test]
fn step_of_zero_cycles_changes_nothing() {
    let (mut timer, mut memory) = timer_with(0x05, 0xFF, 0x12);
    timer.step(7, &mut memory);
    let before = timer;
    timer.step(0, &mut memory);
    assert_eq!(timer, before);
    assert_eq!(read(&memory, HardwareRegister::TIMA), 0xFF);
    assert_eq!(read(&memory, HardwareRegister::DIV), 0x00);
    assert_eq!(read(&memory, HardwareRegister::IF), 0x00);
}
