//! Helpers for running test cartridges headless: the post-boot register
//! snapshot, the trace line that reference logs are compared against, and
//! the serial port used as a debug sink.
//!
//! A trace line reads
//! `A:AA F:FF B:BB C:CC D:DD E:EE H:HH L:LL SP:SSSS PC:PPPP PCMEM:XX,XX,XX,XX`
//! in upper-case hexadecimal, where the last four bytes are those at PC and
//! the three addresses after it.
use vstd::prelude::*;
use vstd::string::StringSliceAdditionalSpecFns;
use crate::bytes::{high_byte, low_byte, spec_high_byte, spec_low_byte};
use crate::cpu::registers::CPU;
use crate::data::HardwareRegister;
use crate::memory::{bus_read, bus_write, spec_load, Memory};

verus! {

/// What a program writes to SC to send the byte in SB.
pub const SERIAL_SEND: u8 = 0x81;

/// The ASCII character for a value below sixteen: `0`..`9`, then `A`..`F`.
pub open spec fn spec_hex_digit(nibble: u8) -> u8 {
    if nibble < 10 {
        (0x30 + nibble) as u8
    } else {
        (0x41 + (nibble - 10)) as u8
    }
}

/// A byte as two hexadecimal characters.
pub open spec fn spec_hex_byte(value: u8) -> Seq<u8> {
    seq![spec_hex_digit(value / 16), spec_hex_digit(value % 16)]
}

/// A word as four hexadecimal characters, high byte first.
pub open spec fn spec_hex_word(value: u16) -> Seq<u8> {
    spec_hex_byte(spec_high_byte(value)) + spec_hex_byte(spec_low_byte(value))
}

/// The trace line for a register file and the cells it runs on.
pub open spec fn spec_trace_line(cpu: CPU, cells: Seq<u8>) -> Seq<u8> {
    "A:".spec_bytes() + spec_hex_byte(cpu.a) + " F:".spec_bytes() + spec_hex_byte(cpu.f)
        + " B:".spec_bytes() + spec_hex_byte(cpu.b) + " C:".spec_bytes() + spec_hex_byte(cpu.c)
        + " D:".spec_bytes() + spec_hex_byte(cpu.d) + " E:".spec_bytes() + spec_hex_byte(cpu.e)
        + " H:".spec_bytes() + spec_hex_byte(cpu.h) + " L:".spec_bytes() + spec_hex_byte(cpu.l)
        + " SP:".spec_bytes() + spec_hex_word(cpu.sp) + " PC:".spec_bytes() + spec_hex_word(cpu.pc)
        + " PCMEM:".spec_bytes() + spec_hex_byte(bus_read(cells, cpu.pc)) + ",".spec_bytes()
        + spec_hex_byte(bus_read(cells, cpu.pc.wrapping_add(1))) + ",".spec_bytes()
        + spec_hex_byte(bus_read(cells, cpu.pc.wrapping_add(2))) + ",".spec_bytes()
        + spec_hex_byte(bus_read(cells, cpu.pc.wrapping_add(3)))
}

/// The byte that the serial port sends, if SC asks for one, and the cells
/// with SC cleared after it.
pub open spec fn spec_handle_serial(cells: Seq<u8>) -> (Option<u8>, Seq<u8>) {
    if bus_read(cells, HardwareRegister::SC.spec_address()) == SERIAL_SEND {
        (
            Some(bus_read(cells, HardwareRegister::SB.spec_address())),
            bus_write(cells, HardwareRegister::SC.spec_address(), 0x00),
        )
    } else {
        (None, cells)
    }
}

/// The ASCII character for a value below sixteen.
pub fn hex_digit(nibble: u8) -> (digit: u8)
    requires
        nibble < 16,
    ensures
        digit == spec_hex_digit(nibble),
{
    if nibble < 10 {
        0x30 + nibble
    } else {
        0x41 + (nibble - 10)
    }
}

fn push_text(out: &mut Vec<u8>, text: &[u8])
    ensures
        final(out)@ == old(out)@ + text@,
{
    let mut i: usize = 0;
    while i < text.len()
        invariant
            i <= text@.len(),
            out@ == old(out)@ + text@.subrange(0, i as int),
        decreases text@.len() - i,
    {
        out.push(text[i]);
        i += 1;
        assert(out@ =~= old(out)@ + text@.subrange(0, i as int));
    }
    assert(text@.subrange(0, i as int) =~= text@);
}

fn push_hex_byte(out: &mut Vec<u8>, value: u8)
    ensures
        final(out)@ == old(out)@ + spec_hex_byte(value),
{
    out.push(hex_digit(value / 16));
    out.push(hex_digit(value % 16));
    assert(out@ =~= old(out)@ + spec_hex_byte(value));
}

fn push_hex_word(out: &mut Vec<u8>, value: u16)
    ensures
        final(out)@ == old(out)@ + spec_hex_word(value),
{
    push_hex_byte(out, high_byte(value));
    push_hex_byte(out, low_byte(value));
    assert(out@ =~= old(out)@ + spec_hex_word(value));
}

impl CPU {
    /// The trace line for the current state, as ASCII bytes without a line
    /// end.
    pub fn gameboy_doc_output(&self, memory: &Memory) -> (line: Vec<u8>)
        ensures
            line@ == spec_trace_line(*self, memory@),
    {
        let mut out: Vec<u8> = Vec::new();
        assert(out@ =~= Seq::<u8>::empty());
        push_text(&mut out, "A:".as_bytes());
        assert(out@ =~= "A:".spec_bytes());
        push_hex_byte(&mut out, self.a);
        push_text(&mut out, " F:".as_bytes());
        push_hex_byte(&mut out, self.f);
        push_text(&mut out, " B:".as_bytes());
        push_hex_byte(&mut out, self.b);
        push_text(&mut out, " C:".as_bytes());
        push_hex_byte(&mut out, self.c);
        push_text(&mut out, " D:".as_bytes());
        push_hex_byte(&mut out, self.d);
        push_text(&mut out, " E:".as_bytes());
        push_hex_byte(&mut out, self.e);
        push_text(&mut out, " H:".as_bytes());
        push_hex_byte(&mut out, self.h);
        push_text(&mut out, " L:".as_bytes());
        push_hex_byte(&mut out, self.l);
        push_text(&mut out, " SP:".as_bytes());
        push_hex_word(&mut out, self.sp);
        push_text(&mut out, " PC:".as_bytes());
        push_hex_word(&mut out, self.pc);
        push_text(&mut out, " PCMEM:".as_bytes());
        push_hex_byte(&mut out, memory.read_byte(self.pc));
        push_text(&mut out, ",".as_bytes());
        push_hex_byte(&mut out, memory.read_byte(self.pc.wrapping_add(1)));
        push_text(&mut out, ",".as_bytes());
        push_hex_byte(&mut out, memory.read_byte(self.pc.wrapping_add(2)));
        push_text(&mut out, ",".as_bytes());
        push_hex_byte(&mut out, memory.read_byte(self.pc.wrapping_add(3)));
        out
    }

    /// Takes the byte that the program sends over the serial port, if it
    /// sends one, and clears the request.
    pub fn handle_serial_for_test_rom(&self, memory: &mut Memory) -> (sent: Option<u8>)
        ensures
            (sent, final(memory)@) == spec_handle_serial(old(memory)@),
    {
        gb_doc_handle_serial(memory)
    }
}

/// The trace line for a register file and a memory, as ASCII bytes without
/// a line end.
pub fn gb_doc_trace_line(cpu: &CPU, memory: &Memory) -> (line: Vec<u8>)
    ensures
        line@ == spec_trace_line(*cpu, memory@),
{
    cpu.gameboy_doc_output(memory)
}

/// Loads the register snapshot the boot program leaves behind.
pub fn gb_doc_set_varibles(cpu: &mut CPU)
    ensures
        *final(cpu) == old(cpu).spec_post_boot(),
        final(cpu).wf(),
{
    cpu.set_varibles_for_gb_doc();
}

/// Takes the byte that the program sends over the serial port, if it sends
/// one, and clears the request.
pub fn gb_doc_handle_serial(memory: &mut Memory) -> (sent: Option<u8>)
    ensures
        (sent, final(memory)@) == spec_handle_serial(old(memory)@),
{
    let control = memory.read_byte(HardwareRegister::SC.address());
    if control == SERIAL_SEND {
        let byte = memory.read_byte(HardwareRegister::SB.address());
        memory.write_byte(HardwareRegister::SC.address(), 0x00);
        Some(byte)
    } else {
        None
    }
}

/// Copies the image of a test cartridge in, starting at address 0.
pub fn gb_doc_load_test_rom(memory: &mut Memory, rom: &[u8])
    ensures
        final(memory)@ == spec_load(old(memory)@, rom@),
{
    memory.load_test_rom(rom);
}

} // verus!
