//! Register file, flags, operand fetch and the stack.
use vstd::prelude::*;
use crate::bytes::{
    high_byte,
    lemma_word_round_trip,
    low_byte,
    spec_high_byte,
    spec_low_byte,
    spec_word,
    word,
};
use crate::memory::{bus_read, bus_read_word, bus_write, spec_is_plain, spec_next, Memory};

verus! {

/// The zero flag: the result was zero.
pub const FLAG_Z: u8 = 0b1000_0000;

/// The subtract flag: the last operation subtracted.
pub const FLAG_N: u8 = 0b0100_0000;

/// The half-carry flag: carry or borrow between bits 3 and 4.
pub const FLAG_H: u8 = 0b0010_0000;

/// The carry flag: carry or borrow out of the top bit.
pub const FLAG_C: u8 = 0b0001_0000;

/// The eight 8-bit registers.
#[derive(Clone, Copy, Debug, PartialEq, Eq)]
pub enum Register {
    A,
    B,
    C,
    D,
    E,
    F,
    H,
    L,
}

/// The four flags that F holds in its upper nibble.
#[derive(Clone, Copy, Debug, PartialEq, Eq)]
pub enum Flag {
    Z,
    N,
    H,
    C,
}

/// Two registers read as one 16-bit value; `first` is the high byte.
#[derive(Clone, Copy, Debug, PartialEq, Eq)]
pub struct RegisterPair {
    pub first: Register,
    pub second: Register,
}

/// The pair AF.
pub open spec fn spec_register_af() -> RegisterPair {
    RegisterPair { first: Register::A, second: Register::F }
}

/// The pair BC.
pub open spec fn spec_register_bc() -> RegisterPair {
    RegisterPair { first: Register::B, second: Register::C }
}

/// The pair DE.
pub open spec fn spec_register_de() -> RegisterPair {
    RegisterPair { first: Register::D, second: Register::E }
}

/// The pair HL.
pub open spec fn spec_register_hl() -> RegisterPair {
    RegisterPair { first: Register::H, second: Register::L }
}

/// The pair AF.
#[verifier::when_used_as_spec(spec_register_af)]
pub fn register_af() -> (pair: RegisterPair)
    ensures
        pair == spec_register_af(),
{
    RegisterPair { first: Register::A, second: Register::F }
}

/// The pair BC.
#[verifier::when_used_as_spec(spec_register_bc)]
pub fn register_bc() -> (pair: RegisterPair)
    ensures
        pair == spec_register_bc(),
{
    RegisterPair { first: Register::B, second: Register::C }
}

/// The pair DE.
#[verifier::when_used_as_spec(spec_register_de)]
pub fn register_de() -> (pair: RegisterPair)
    ensures
        pair == spec_register_de(),
{
    RegisterPair { first: Register::D, second: Register::E }
}

/// The pair HL.
#[verifier::when_used_as_spec(spec_register_hl)]
pub fn register_hl() -> (pair: RegisterPair)
    ensures
        pair == spec_register_hl(),
{
    RegisterPair { first: Register::H, second: Register::L }
}

/// The master enable and the latch that `EI` sets.
#[derive(Clone, Copy, Debug, PartialEq, Eq)]
pub struct Interrupts {
    pub ime: bool,
    pub enable_ime_next: bool,
}

/// The register file: eight 8-bit registers, SP, PC, the cycle accumulator,
/// and the switches for interrupts, HALT and STOP.
#[derive(Clone, Copy, Debug, PartialEq, Eq)]
pub struct CPU {
    pub a: u8,
    pub f: u8,
    pub b: u8,
    pub c: u8,
    pub d: u8,
    pub e: u8,
    pub h: u8,
    pub l: u8,
    pub sp: u16,
    pub pc: u16,
    pub cycles: u64,
    pub interrupts: Interrupts,
    pub is_halted: bool,
    pub is_stopped: bool,
}

/// The bit of F that holds `flag`.
pub open spec fn spec_flag_mask(flag: Flag) -> u8 {
    match flag {
        Flag::Z => FLAG_Z,
        Flag::N => FLAG_N,
        Flag::H => FLAG_H,
        Flag::C => FLAG_C,
    }
}

/// The value of F in which exactly the given flags are set.
pub open spec fn spec_flags_byte(z: bool, n: bool, h: bool, c: bool) -> u8 {
    (if z { FLAG_Z } else { 0u8 }) | (if n { FLAG_N } else { 0u8 }) | (if h { FLAG_H } else { 0u8 })
        | (if c { FLAG_C } else { 0u8 })
}

/// F built from four flags has a clear low nibble and gives each flag back.
pub proof fn lemma_flags_byte(z: bool, n: bool, h: bool, c: bool)
    by (bit_vector)
    ensures
        spec_flags_byte(z, n, h, c) & 0x0F == 0,
        (spec_flags_byte(z, n, h, c) & FLAG_Z != 0) == z,
        (spec_flags_byte(z, n, h, c) & FLAG_N != 0) == n,
        (spec_flags_byte(z, n, h, c) & FLAG_H != 0) == h,
        (spec_flags_byte(z, n, h, c) & FLAG_C != 0) == c,
{
}

/// An F with a clear low nibble is the byte built from its four flags, and
/// so is what setting or clearing one bit of it gives.
pub proof fn lemma_flag_bits(f: u8)
    by (bit_vector)
    requires
        f & 0x0F == 0,
    ensures
        f == spec_flags_byte(f & FLAG_Z != 0, f & FLAG_N != 0, f & FLAG_H != 0, f & FLAG_C != 0),
        f | FLAG_Z == spec_flags_byte(true, f & FLAG_N != 0, f & FLAG_H != 0, f & FLAG_C != 0),
        f & !FLAG_Z == spec_flags_byte(false, f & FLAG_N != 0, f & FLAG_H != 0, f & FLAG_C != 0),
        f | FLAG_N == spec_flags_byte(f & FLAG_Z != 0, true, f & FLAG_H != 0, f & FLAG_C != 0),
        f & !FLAG_N == spec_flags_byte(f & FLAG_Z != 0, false, f & FLAG_H != 0, f & FLAG_C != 0),
        f | FLAG_H == spec_flags_byte(f & FLAG_Z != 0, f & FLAG_N != 0, true, f & FLAG_C != 0),
        f & !FLAG_H == spec_flags_byte(f & FLAG_Z != 0, f & FLAG_N != 0, false, f & FLAG_C != 0),
        f | FLAG_C == spec_flags_byte(f & FLAG_Z != 0, f & FLAG_N != 0, f & FLAG_H != 0, true),
        f & !FLAG_C == spec_flags_byte(f & FLAG_Z != 0, f & FLAG_N != 0, f & FLAG_H != 0, false),
{
}

/// Whatever goes into F, its low nibble stays zero: a byte built from four
/// flags has none of the low bits, and a byte written to F loses them.
pub proof fn lemma_flag_bytes_are_clear_below()
    ensures
        forall|z: bool, n: bool, h: bool, c: bool|
            #[trigger] spec_flags_byte(z, n, h, c) & 0x0F == 0,
        forall|value: u8| #[trigger] (value & 0xF0) & 0x0F == 0,
{
    assert forall|z: bool, n: bool, h: bool, c: bool| #[trigger]
        spec_flags_byte(z, n, h, c) & 0x0F == 0 by {
        lemma_flags_byte(z, n, h, c);
    }
    assert forall|value: u8| #[trigger] (value & 0xF0) & 0x0F == 0 by {
        lemma_mask_low_nibble(value);
    }
}

proof fn lemma_mask_low_nibble(value: u8)
    by (bit_vector)
    ensures
        (value & 0xF0) & 0x0F == 0,
        0x00u8 & 0x0F == 0,
        0xB0u8 & 0x0F == 0,
{
}

impl CPU {
    /// The low nibble of F is zero.
    pub open spec fn wf(&self) -> bool {
        self.f & 0x0F == 0
    }

    /// The register file at power-up: all registers zero, SP at 0xFFFE, PC at
    /// 0x0100.
    pub open spec fn spec_new() -> CPU {
        CPU {
            a: 0,
            f: 0,
            b: 0,
            c: 0,
            d: 0,
            e: 0,
            h: 0,
            l: 0,
            sp: 0xFFFE,
            pc: 0x0100,
            cycles: 0,
            interrupts: Interrupts { ime: false, enable_ime_next: false },
            is_halted: false,
            is_stopped: false,
        }
    }

    /// The register snapshot the boot program leaves behind.
    pub open spec fn spec_post_boot(self) -> CPU {
        CPU {
            a: 0x01,
            f: 0xB0,
            b: 0x00,
            c: 0x13,
            d: 0x00,
            e: 0xD8,
            h: 0x01,
            l: 0x4D,
            sp: 0xFFFE,
            pc: 0x0100,
            ..self
        }
    }

    /// The value of a register.
    pub open spec fn spec_read_register(self, register: Register) -> u8 {
        match register {
            Register::A => self.a,
            Register::B => self.b,
            Register::C => self.c,
            Register::D => self.d,
            Register::E => self.e,
            Register::F => self.f,
            Register::H => self.h,
            Register::L => self.l,
        }
    }

    /// The register file after `value` goes into `register`. F keeps only
    /// its upper nibble.
    pub open spec fn spec_write_register(self, register: Register, value: u8) -> CPU {
        match register {
            Register::A => CPU { a: value, ..self },
            Register::B => CPU { b: value, ..self },
            Register::C => CPU { c: value, ..self },
            Register::D => CPU { d: value, ..self },
            Register::E => CPU { e: value, ..self },
            Register::F => CPU { f: value & 0xF0, ..self },
            Register::H => CPU { h: value, ..self },
            Register::L => CPU { l: value, ..self },
        }
    }

    /// The value of a pair: the first register is the high byte.
    pub open spec fn spec_read_register_pair(self, pair: RegisterPair) -> u16 {
        spec_word(self.spec_read_register(pair.first), self.spec_read_register(pair.second))
    }

    /// The register file after `value` goes into a pair, high byte first.
    pub open spec fn spec_write_register_pair(self, pair: RegisterPair, value: u16) -> CPU {
        self.spec_write_register(pair.first, spec_high_byte(value)).spec_write_register(
            pair.second,
            spec_low_byte(value),
        )
    }

    /// Whether a flag is set.
    pub open spec fn spec_get_flag(self, flag: Flag) -> bool {
        self.f & spec_flag_mask(flag) != 0
    }

    /// The register file with F replaced by the four given flags.
    pub open spec fn spec_with_flags(self, z: bool, n: bool, h: bool, c: bool) -> CPU {
        CPU { f: spec_flags_byte(z, n, h, c), ..self }
    }

    /// The register file with one flag replaced and the other three kept.
    pub open spec fn spec_set_flag(self, flag: Flag, value: bool) -> CPU {
        let z = self.spec_get_flag(Flag::Z);
        let n = self.spec_get_flag(Flag::N);
        let h = self.spec_get_flag(Flag::H);
        let c = self.spec_get_flag(Flag::C);
        match flag {
            Flag::Z => self.spec_with_flags(value, n, h, c),
            Flag::N => self.spec_with_flags(z, value, h, c),
            Flag::H => self.spec_with_flags(z, n, value, c),
            Flag::C => self.spec_with_flags(z, n, h, value),
        }
    }

    /// The register file after `amount` T-cycles are added to the accumulator.
    pub open spec fn spec_spend(self, amount: u16) -> CPU {
        CPU { cycles: self.cycles.wrapping_add(amount as u64), ..self }
    }

    /// The byte at PC, and the register file with PC one further.
    pub open spec fn spec_fetch_byte(self, cells: Seq<u8>) -> (CPU, u8) {
        (CPU { pc: spec_next(self.pc), ..self }, bus_read(cells, self.pc))
    }

    /// The little-endian word at PC, and the register file with PC two further.
    pub open spec fn spec_fetch_word(self, cells: Seq<u8>) -> (CPU, u16) {
        (CPU { pc: spec_next(spec_next(self.pc)), ..self }, bus_read_word(cells, self.pc))
    }

    /// Register file and cells after `value` is pushed: the high byte goes
    /// to SP-1, the low byte to SP-2, and SP ends two lower.
    pub open spec fn spec_push_u16(self, cells: Seq<u8>, value: u16) -> (CPU, Seq<u8>) {
        let upper = self.sp.wrapping_sub(1);
        let lower = upper.wrapping_sub(1);
        (
            CPU { sp: lower, ..self },
            bus_write(bus_write(cells, upper, spec_high_byte(value)), lower, spec_low_byte(value)),
        )
    }

    /// The word on top of the stack, and the register file with SP two higher.
    pub open spec fn spec_pop_u16(self, cells: Seq<u8>) -> (CPU, u16) {
        (CPU { sp: spec_next(spec_next(self.sp)), ..self }, bus_read_word(cells, self.sp))
    }

    /// A register file at power-up.
    pub fn new() -> (cpu: Self)
        ensures
            cpu == Self::spec_new(),
            cpu.wf(),
    {
        proof {
            lemma_mask_low_nibble(0);
        }
        CPU {
            a: 0,
            f: 0,
            b: 0,
            c: 0,
            d: 0,
            e: 0,
            h: 0,
            l: 0,
            sp: 0xFFFE,
            pc: 0x0100,
            cycles: 0,
            interrupts: Interrupts { ime: false, enable_ime_next: false },
            is_halted: false,
            is_stopped: false,
        }
    }

    /// Reads a register.
    pub fn read_register(&self, register: &Register) -> (value: u8)
        ensures
            value == self.spec_read_register(*register),
    {
        match register {
            Register::A => self.a,
            Register::B => self.b,
            Register::C => self.c,
            Register::D => self.d,
            Register::E => self.e,
            Register::F => self.f,
            Register::H => self.h,
            Register::L => self.l,
        }
    }

    /// Writes a register. F keeps only its upper nibble.
    pub fn write_register(&mut self, register: &Register, value: u8)
        ensures
            *final(self) == old(self).spec_write_register(*register, value),
            old(self).wf() ==> final(self).wf(),
            *register != Register::F ==> final(self).f == old(self).f,
    {
        match register {
            Register::A => self.a = value,
            Register::B => self.b = value,
            Register::C => self.c = value,
            Register::D => self.d = value,
            Register::E => self.e = value,
            Register::F => {
                proof {
                    lemma_mask_low_nibble(value);
                }
                self.f = value & 0xF0
            },
            Register::H => self.h = value,
            Register::L => self.l = value,
        }
    }

    /// Reads a pair; its first register is the high byte.
    pub fn read_register_pair(&self, register_pair: &RegisterPair) -> (value: u16)
        ensures
            value == self.spec_read_register_pair(*register_pair),
    {
        let high = self.read_register(&register_pair.first);
        let low = self.read_register(&register_pair.second);
        word(high, low)
    }

    /// Writes a pair; its first register gets the high byte.
    pub fn write_register_pair(&mut self, register_pair: &RegisterPair, value: u16)
        ensures
            *final(self) == old(self).spec_write_register_pair(*register_pair, value),
            old(self).wf() ==> final(self).wf(),
    {
        let high = high_byte(value);
        let low = low_byte(value);
        self.write_register(&register_pair.first, high);
        self.write_register(&register_pair.second, low);
    }

    /// Reads a flag.
    pub fn get_flag(&self, flag: &Flag) -> (set: bool)
        ensures
            set == self.spec_get_flag(*flag),
    {
        match flag {
            Flag::Z => self.f & FLAG_Z != 0,
            Flag::N => self.f & FLAG_N != 0,
            Flag::H => self.f & FLAG_H != 0,
            Flag::C => self.f & FLAG_C != 0,
        }
    }

    /// Sets or clears a flag and leaves the other three alone.
    pub fn set_flag(&mut self, flag: &Flag, value: bool)
        requires
            old(self).wf(),
        ensures
            *final(self) == old(self).spec_set_flag(*flag, value),
            final(self).wf(),
            final(self).spec_get_flag(*flag) == value,
            forall|other: Flag|
                other != *flag ==> #[trigger] final(self).spec_get_flag(other) == old(
                    self,
                ).spec_get_flag(other),
    {
        let mask = match flag {
            Flag::Z => FLAG_Z,
            Flag::N => FLAG_N,
            Flag::H => FLAG_H,
            Flag::C => FLAG_C,
        };
        proof {
            let f = self.f;
            lemma_flag_bits(f);
            lemma_flags_byte(
                *flag == Flag::Z && value || *flag != Flag::Z && f & FLAG_Z != 0,
                *flag == Flag::N && value || *flag != Flag::N && f & FLAG_N != 0,
                *flag == Flag::H && value || *flag != Flag::H && f & FLAG_H != 0,
                *flag == Flag::C && value || *flag != Flag::C && f & FLAG_C != 0,
            );
        }
        if value {
            self.f = self.f | mask;
        } else {
            self.f = self.f & !mask;
        }
    }

    /// Adds `amount` T-cycles to the accumulator and hands the amount back.
    pub fn spend(&mut self, amount: u16) -> (spent: u16)
        ensures
            *final(self) == old(self).spec_spend(amount),
            spent == amount,
    {
        self.cycles = self.cycles.wrapping_add(amount as u64);
        amount
    }

    /// Reads the byte at PC and moves PC one further.
    pub fn fetch_byte(&mut self, memory: &Memory) -> (value: u8)
        ensures
            (*final(self), value) == old(self).spec_fetch_byte(memory@),
    {
        let value = memory.read_byte(self.pc);
        self.pc = self.pc.wrapping_add(1);
        value
    }

    /// Reads the little-endian word at PC and moves PC two further.
    pub fn fetch_word(&mut self, memory: &Memory) -> (value: u16)
        ensures
            (*final(self), value) == old(self).spec_fetch_word(memory@),
    {
        let low_byte = self.fetch_byte(memory);
        let high_byte = self.fetch_byte(memory);
        word(high_byte, low_byte)
    }

    /// Pops a word: the low byte comes from SP, the high byte from SP+1.
    pub fn pop_u16(&mut self, memory: &mut Memory) -> (value: u16)
        ensures
            (*final(self), value) == old(self).spec_pop_u16(old(memory)@),
            final(memory)@ == old(memory)@,
    {
        let low_byte = memory.read_byte(self.sp);
        self.sp = self.sp.wrapping_add(1);
        let high_byte = memory.read_byte(self.sp);
        self.sp = self.sp.wrapping_add(1);
        word(high_byte, low_byte)
    }

    /// Pushes a word: the high byte goes to SP-1, the low byte to SP-2.
    pub fn push_u16(&mut self, memory: &mut Memory, value: u16)
        ensures
            (*final(self), final(memory)@) == old(self).spec_push_u16(old(memory)@, value),
    {
        let high_byte = high_byte(value);
        let low_byte = low_byte(value);
        self.sp = self.sp.wrapping_sub(1);
        memory.write_byte(self.sp, high_byte);
        self.sp = self.sp.wrapping_sub(1);
        memory.write_byte(self.sp, low_byte);
    }

    /// Loads the register snapshot the boot program leaves behind.
    pub fn set_varibles_for_gb_doc(&mut self)
        ensures
            *final(self) == old(self).spec_post_boot(),
            final(self).wf(),
    {
        proof {
            lemma_mask_low_nibble(0xB0);
        }
        self.a = 0x01;
        self.f = 0xB0;
        self.b = 0x00;
        self.c = 0x13;
        self.d = 0x00;
        self.e = 0xD8;
        self.h = 0x01;
        self.l = 0x4D;
        self.sp = 0xFFFE;
        self.pc = 0x0100;
    }
}

/// A word pushed and popped again comes back unchanged, and SP ends where
/// it began, when both stack slots are plain memory.
pub proof fn lemma_push_then_pop(cpu: CPU, cells: Seq<u8>, value: u16)
    requires
        cells.len() == 0x10000,
        spec_is_plain(cpu.sp.wrapping_sub(1)),
        spec_is_plain(cpu.sp.wrapping_sub(2)),
    ensures
        ({
            let (pushed, stored) = cpu.spec_push_u16(cells, value);
            pushed.spec_pop_u16(stored) == (cpu, value)
        }),
{
    lemma_word_round_trip(value, 0, 0);
}

/// A value written to a register pair reads back unchanged, except that
/// the low nibble of F reads as zero.
pub proof fn lemma_pair_round_trip(cpu: CPU, pair: RegisterPair, value: u16)
    requires
        pair.first != pair.second,
    ensures
        pair.first != Register::F && pair.second != Register::F ==> cpu.spec_write_register_pair(
            pair,
            value,
        ).spec_read_register_pair(pair) == value,
        pair == spec_register_af() ==> cpu.spec_write_register_pair(
            pair,
            value,
        ).spec_read_register_pair(pair) == value & 0xFFF0,
        cpu.wf() ==> cpu.spec_write_register_pair(pair, value).wf(),
        cpu.wf() ==> cpu.spec_write_register_pair(pair, cpu.spec_read_register_pair(pair)) == cpu,
{
    lemma_word_round_trip(value, 0, 0);
    lemma_word_round_trip(
        cpu.spec_read_register_pair(pair),
        cpu.spec_read_register(pair.first),
        cpu.spec_read_register(pair.second),
    );
    lemma_mask_low_nibble(spec_low_byte(value));
    lemma_mask_low_nibble(spec_high_byte(value));
    lemma_masked_word(value, cpu.f);
}

proof fn lemma_masked_word(value: u16, f: u8)
    by (bit_vector)
    ensures
        (((value / 256) as u8) as u16) * 256 + ((((value % 256) as u8) & 0xF0) as u16) == value
            & 0xFFF0,
        f & 0x0F == 0 ==> f & 0xF0 == f,
{
}

} // verus!
