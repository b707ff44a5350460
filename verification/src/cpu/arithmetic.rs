//! Increment, decrement, addition, subtraction and decimal adjust.
use vstd::prelude::*;
use crate::bytes::{signed, spec_signed, spec_wrap16};
use crate::cpu::registers::{lemma_flags_byte, Flag, Register, RegisterPair, CPU};
use crate::memory::{bus_read, bus_write, spec_is_plain, Memory};

verus! {

/// `a + b + carry_in`, wrapped into eight bits.
pub open spec fn spec_sum8(a: u8, b: u8, carry_in: int) -> u8 {
    ((a + b + carry_in) % 256) as u8
}

/// `a - b - borrow_in`, wrapped into eight bits.
pub open spec fn spec_difference8(a: u8, b: u8, borrow_in: int) -> u8 {
    ((a - b - borrow_in) % 256) as u8
}

/// What decimal adjust adds to (after an addition) or takes from (after a
/// subtraction) the value `a`, given the flags N, H and C.
pub open spec fn spec_daa_adjustment(a: u8, n: bool, h: bool, c: bool) -> u8 {
    let low: u8 = if h || (!n && (a & 0x0F) > 0x09) {
        0x06
    } else {
        0x00
    };
    let high: u8 = if c || (!n && a > 0x99) {
        0x60
    } else {
        0x00
    };
    (low + high) as u8
}

/// The decimal-adjusted value of `a`, given the flags N, H and C.
pub open spec fn spec_daa_result(a: u8, n: bool, h: bool, c: bool) -> u8 {
    if n {
        a.wrapping_sub(spec_daa_adjustment(a, n, h, c))
    } else {
        a.wrapping_add(spec_daa_adjustment(a, n, h, c))
    }
}

/// The carry that decimal adjust leaves: set by an upper correction after an
/// addition, and never cleared.
pub open spec fn spec_daa_carry(a: u8, n: bool, c: bool) -> bool {
    c || (!n && a > 0x99)
}

impl CPU {
    /// The carry flag as a number.
    pub open spec fn spec_carry_in(self) -> int {
        if self.spec_get_flag(Flag::C) {
            1
        } else {
            0
        }
    }

    /// Flags after `value` was incremented: Z from the result, N clear, H on a
    /// carry out of bit 3, C kept.
    pub open spec fn spec_flags_after_inc(self, value: u8) -> CPU {
        self.spec_with_flags(
            value.wrapping_add(1) == 0,
            false,
            value & 0x0F == 0x0F,
            self.spec_get_flag(Flag::C),
        )
    }

    /// Flags after `value` was decremented: Z from the result, N set, H on a
    /// borrow from bit 4, C kept.
    pub open spec fn spec_flags_after_dec(self, value: u8) -> CPU {
        self.spec_with_flags(
            value.wrapping_sub(1) == 0,
            true,
            value & 0x0F == 0x00,
            self.spec_get_flag(Flag::C),
        )
    }

    /// Flags after `a + b + carry_in`: Z from the result, N clear, H on a carry
    /// out of bit 3, C on a carry out of bit 7.
    pub open spec fn spec_flags_after_add(self, a: u8, b: u8, carry_in: int) -> CPU {
        self.spec_with_flags(
            spec_sum8(a, b, carry_in) == 0,
            false,
            (a & 0x0F) + (b & 0x0F) + carry_in > 0x0F,
            a + b + carry_in > 0xFF,
        )
    }

    /// Flags after `a - b - borrow_in`: Z from the result, N set, H on a borrow
    /// from bit 4, C on a borrow from bit 8.
    pub open spec fn spec_flags_after_sub(self, a: u8, b: u8, borrow_in: int) -> CPU {
        self.spec_with_flags(
            spec_difference8(a, b, borrow_in) == 0,
            true,
            (a & 0x0F) < (b & 0x0F) + borrow_in,
            a < b + borrow_in,
        )
    }

    /// Flags after the 16-bit `a + b`: Z kept, N clear, H on a carry out of
    /// bit 11, C on a carry out of bit 15.
    pub open spec fn spec_flags_after_add16(self, a: u16, b: u16) -> CPU {
        self.spec_with_flags(
            self.spec_get_flag(Flag::Z),
            false,
            (a & 0x0FFF) + (b & 0x0FFF) > 0x0FFF,
            a + b > 0xFFFF,
        )
    }

    /// The register file after `INC r`.
    pub open spec fn spec_increment_register(self, register: Register) -> CPU {
        let value = self.spec_read_register(register);
        self.spec_write_register(register, value.wrapping_add(1)).spec_flags_after_inc(value)
    }

    /// The register file after `DEC r`.
    pub open spec fn spec_decrement_register(self, register: Register) -> CPU {
        let value = self.spec_read_register(register);
        self.spec_write_register(register, value.wrapping_sub(1)).spec_flags_after_dec(value)
    }

    /// The register file after `INC rr`: the pair one higher, wrapping, no flag touched.
    pub open spec fn spec_increment_register_pair(self, pair: RegisterPair) -> CPU {
        self.spec_write_register_pair(pair, self.spec_read_register_pair(pair).wrapping_add(1))
    }

    /// The register file after `DEC rr`: the pair one lower, wrapping, no flag touched.
    pub open spec fn spec_decrement_register_pair(self, pair: RegisterPair) -> CPU {
        self.spec_write_register_pair(pair, self.spec_read_register_pair(pair).wrapping_sub(1))
    }

    /// The register file after `value` is added to a pair, as `ADD HL,rr` does.
    pub open spec fn spec_add_u16_to_register_pair(self, pair: RegisterPair, value: u16) -> CPU {
        let current = self.spec_read_register_pair(pair);
        self.spec_write_register_pair(pair, current.wrapping_add(value)).spec_flags_after_add16(
            current,
            value,
        )
    }

    /// The register file after the pair `rhs` is added to the pair `lhs`.
    pub open spec fn spec_add_register_pair(self, lhs: RegisterPair, rhs: RegisterPair) -> CPU {
        self.spec_add_u16_to_register_pair(lhs, self.spec_read_register_pair(rhs))
    }

    /// Register file and cells after the byte at `address` is incremented.
    pub open spec fn spec_increment_byte_at_address(self, cells: Seq<u8>, address: u16) -> (
        CPU,
        Seq<u8>,
    ) {
        let value = bus_read(cells, address);
        (self.spec_flags_after_inc(value), bus_write(cells, address, value.wrapping_add(1)))
    }

    /// Register file and cells after the byte at `address` is decremented.
    pub open spec fn spec_decrement_byte_at_address(self, cells: Seq<u8>, address: u16) -> (
        CPU,
        Seq<u8>,
    ) {
        let value = bus_read(cells, address);
        (self.spec_flags_after_dec(value), bus_write(cells, address, value.wrapping_sub(1)))
    }

    /// The register file after `ADD`: `value` is added to the register.
    pub open spec fn spec_add_u8_to_register(self, register: Register, value: u8) -> CPU {
        let current = self.spec_read_register(register);
        self.spec_write_register(register, spec_sum8(current, value, 0)).spec_flags_after_add(
            current,
            value,
            0,
        )
    }

    /// The register file after `ADC`: `value` and the carry flag are added to the
    /// register.
    pub open spec fn spec_add_u8_to_register_with_carry(
        self,
        register: Register,
        value: u8,
    ) -> CPU {
        let current = self.spec_read_register(register);
        let carry = self.spec_carry_in();
        self.spec_write_register(register, spec_sum8(current, value, carry)).spec_flags_after_add(
            current,
            value,
            carry,
        )
    }

    /// The register file after `SUB`: `value` is taken from the register.
    pub open spec fn spec_sub_u8_from_register(self, register: Register, value: u8) -> CPU {
        let current = self.spec_read_register(register);
        self.spec_write_register(
            register,
            spec_difference8(current, value, 0),
        ).spec_flags_after_sub(current, value, 0)
    }

    /// The register file after `SBC`: `value` and the carry flag are taken from the
    /// register.
    pub open spec fn spec_sub_u8_from_register_with_carry(
        self,
        register: Register,
        value: u8,
    ) -> CPU {
        let current = self.spec_read_register(register);
        let borrow = self.spec_carry_in();
        self.spec_write_register(
            register,
            spec_difference8(current, value, borrow),
        ).spec_flags_after_sub(current, value, borrow)
    }

    /// Flags after a signed byte is added to `sp`: Z and N clear, H and C from
    /// the unsigned addition of the low bytes.
    pub open spec fn spec_flags_after_sp_offset(self, offset: u8, sp: u16) -> CPU {
        self.spec_with_flags(
            false,
            false,
            (sp & 0x0F) + (offset & 0x0F) > 0x0F,
            (sp & 0xFF) + offset > 0xFF,
        )
    }

    /// The register file after `DAA`: the register is decimal-adjusted, Z comes
    /// from the result, N is kept, H is cleared, and C is set or kept.
    pub open spec fn spec_daa(self, register: Register) -> CPU {
        let a = self.spec_read_register(register);
        let n = self.spec_get_flag(Flag::N);
        let h = self.spec_get_flag(Flag::H);
        let c = self.spec_get_flag(Flag::C);
        let result = spec_daa_result(a, n, h, c);
        let written = self.spec_write_register(register, result);
        written.spec_with_flags(
            result == 0,
            written.spec_get_flag(Flag::N),
            false,
            spec_daa_carry(a, n, c),
        )
    }

    /// `INC r`: adds one to a register.
    pub fn increment_register(&mut self, register: &Register)
        requires
            old(self).wf(),
        ensures
            *final(self) == old(self).spec_increment_register(*register),
            final(self).wf(),
    {
        let value = self.read_register(register);
        let result = value.wrapping_add(1);
        self.write_register(register, result);
        self.set_flag(&Flag::Z, result == 0);
        self.set_flag(&Flag::N, false);
        self.set_flag(&Flag::H, (value & 0x0F) == 0x0F);
    }

    /// `DEC r`: takes one from a register.
    pub fn decrement_register(&mut self, register: &Register)
        requires
            old(self).wf(),
        ensures
            *final(self) == old(self).spec_decrement_register(*register),
            final(self).wf(),
    {
        let value = self.read_register(register);
        let result = value.wrapping_sub(1);
        let half_carry = (value & 0x0F) == 0x00;
        self.write_register(register, result);
        self.set_flag(&Flag::Z, result == 0);
        self.set_flag(&Flag::N, true);
        self.set_flag(&Flag::H, half_carry);
    }

    /// `INC rr`: adds one to a register pair.
    pub fn increment_register_pair(&mut self, register_pair: &RegisterPair)
        ensures
            *final(self) == old(self).spec_increment_register_pair(*register_pair),
            old(self).wf() ==> final(self).wf(),
    {
        let value = self.read_register_pair(register_pair);
        let result = value.wrapping_add(1);
        self.write_register_pair(register_pair, result);
    }

    /// `DEC rr`: takes one from a register pair.
    pub fn decrement_register_pair(&mut self, register_pair: &RegisterPair)
        ensures
            *final(self) == old(self).spec_decrement_register_pair(*register_pair),
            old(self).wf() ==> final(self).wf(),
    {
        let value = self.read_register_pair(register_pair);
        let result = value.wrapping_sub(1);
        self.write_register_pair(register_pair, result);
    }

    /// `ADD HL,rr`: adds the pair `rhs` to the pair `lhs`.
    pub fn add_register_pair(&mut self, lhs: &RegisterPair, rhs: &RegisterPair)
        requires
            old(self).wf(),
        ensures
            *final(self) == old(self).spec_add_register_pair(*lhs, *rhs),
            final(self).wf(),
    {
        let rhs_value = self.read_register_pair(rhs);
        self.add_u16_to_register_pair(lhs, rhs_value);
    }

    /// Adds one to the byte at `address`.
    pub fn increment_byte_at_address(&mut self, memory: &mut Memory, address: u16)
        requires
            old(self).wf(),
        ensures
            (*final(self), final(memory)@) == old(self).spec_increment_byte_at_address(
                old(memory)@,
                address,
            ),
            final(self).wf(),
    {
        let value = memory.read_byte(address);
        let result = value.wrapping_add(1);
        memory.write_byte(address, result);
        self.set_flag(&Flag::Z, result == 0);
        self.set_flag(&Flag::N, false);
        self.set_flag(&Flag::H, (value & 0x0F) == 0x0F);
    }

    /// `INC (HL)`: adds one to the byte that the pair points at.
    pub fn increment_byte_pointed_by_register_pair(
        &mut self,
        memory: &mut Memory,
        register_pair: &RegisterPair,
    )
        requires
            old(self).wf(),
        ensures
            (*final(self), final(memory)@) == old(self).spec_increment_byte_at_address(
                old(memory)@,
                old(self).spec_read_register_pair(*register_pair),
            ),
            final(self).wf(),
    {
        let address = self.read_register_pair(register_pair);
        self.increment_byte_at_address(memory, address);
    }

    /// Takes one from the byte at `address`.
    pub fn decrement_byte_at_address(&mut self, memory: &mut Memory, address: u16)
        requires
            old(self).wf(),
        ensures
            (*final(self), final(memory)@) == old(self).spec_decrement_byte_at_address(
                old(memory)@,
                address,
            ),
            final(self).wf(),
    {
        let value = memory.read_byte(address);
        let result = value.wrapping_sub(1);
        memory.write_byte(address, result);
        self.set_flag(&Flag::Z, result == 0);
        self.set_flag(&Flag::N, true);
        self.set_flag(&Flag::H, (value & 0x0F) == 0x00);
    }

    /// `DEC (HL)`: takes one from the byte that the pair points at.
    pub fn decrement_byte_pointed_by_register_pair(
        &mut self,
        memory: &mut Memory,
        register_pair: &RegisterPair,
    )
        requires
            old(self).wf(),
        ensures
            (*final(self), final(memory)@) == old(self).spec_decrement_byte_at_address(
                old(memory)@,
                old(self).spec_read_register_pair(*register_pair),
            ),
            final(self).wf(),
    {
        let address = self.read_register_pair(register_pair);
        self.decrement_byte_at_address(memory, address);
    }

    /// Adds a 16-bit value to a register pair.
    pub fn add_u16_to_register_pair(&mut self, register_pair: &RegisterPair, value_to_add: u16)
        requires
            old(self).wf(),
        ensures
            *final(self) == old(self).spec_add_u16_to_register_pair(*register_pair, value_to_add),
            final(self).wf(),
    {
        let current_value = self.read_register_pair(register_pair);
        let result = current_value.wrapping_add(value_to_add);
        let carry = current_value as u32 + value_to_add as u32 > 0xFFFF;
        let half_carry = (current_value & 0x0FFF) as u32 + (value_to_add & 0x0FFF) as u32 > 0x0FFF;
        self.write_register_pair(register_pair, result);
        self.set_flag(&Flag::N, false);
        self.set_flag(&Flag::H, half_carry);
        self.set_flag(&Flag::C, carry);
    }

    /// `ADD A,n`: adds a byte to a register.
    pub fn add_u8_to_register(&mut self, register: &Register, value_to_add: u8)
        requires
            old(self).wf(),
        ensures
            *final(self) == old(self).spec_add_u8_to_register(*register, value_to_add),
            final(self).wf(),
    {
        let current_value = self.read_register(register);
        let result = current_value.wrapping_add(value_to_add);
        let carry = current_value as u16 + value_to_add as u16 > 0xFF;
        let half_carry = (current_value & 0x0F) as u16 + (value_to_add & 0x0F) as u16 > 0x0F;
        self.write_register(register, result);
        self.set_flag(&Flag::Z, result == 0);
        self.set_flag(&Flag::N, false);
        self.set_flag(&Flag::H, half_carry);
        self.set_flag(&Flag::C, carry);
    }

    /// `ADC A,n`: adds a byte and the carry flag to a register.
    pub fn add_u8_to_register_with_carry(&mut self, register: &Register, value_to_add: u8)
        requires
            old(self).wf(),
        ensures
            *final(self) == old(self).spec_add_u8_to_register_with_carry(*register, value_to_add),
            final(self).wf(),
    {
        let value = self.read_register(register);
        let carry: u8 = if self.get_flag(&Flag::C) {
            1
        } else {
            0
        };
        let intermediate: u16 = value as u16 + value_to_add as u16 + carry as u16;
        let result = (intermediate % 256) as u8;
        let half_carry = (value & 0xF) as u16 + (value_to_add & 0xF) as u16 + carry as u16 > 0xF;
        let full_carry = intermediate > 0xFF;
        self.write_register(register, result);
        self.set_flag(&Flag::Z, result == 0);
        self.set_flag(&Flag::N, false);
        self.set_flag(&Flag::H, half_carry);
        self.set_flag(&Flag::C, full_carry);
    }

    /// `ADD A,r`: adds the register `rhs` to the register `lhs`.
    pub fn add_register_to_register(&mut self, lhs: &Register, rhs: &Register)
        requires
            old(self).wf(),
        ensures
            *final(self) == old(self).spec_add_u8_to_register(
                *lhs,
                old(self).spec_read_register(*rhs),
            ),
            final(self).wf(),
    {
        let rhs_value = self.read_register(rhs);
        self.add_u8_to_register(lhs, rhs_value);
    }

    /// `ADC A,r`: adds the register `rhs` and the carry flag to the register `lhs`.
    pub fn add_register_to_register_with_carry(&mut self, lhs: &Register, rhs: &Register)
        requires
            old(self).wf(),
        ensures
            *final(self) == old(self).spec_add_u8_to_register_with_carry(
                *lhs,
                old(self).spec_read_register(*rhs),
            ),
            final(self).wf(),
    {
        let rhs_value = self.read_register(rhs);
        self.add_u8_to_register_with_carry(lhs, rhs_value);
    }

    /// `SUB A,n`: takes a byte from a register.
    #[verifier::rlimit(30)]
    pub fn sub_u8_from_register(&mut self, register: &Register, value_to_sub: u8)
        requires
            old(self).wf(),
        ensures
            *final(self) == old(self).spec_sub_u8_from_register(*register, value_to_sub),
            final(self).wf(),
    {
        let current_value = self.read_register(register);
        let result = current_value.wrapping_sub(value_to_sub);
        let carry = current_value < value_to_sub;
        let half_carry = (current_value & 0x0F) < (value_to_sub & 0x0F);
        self.write_register(register, result);
        self.set_flag(&Flag::N, true);
        self.set_flag(&Flag::H, half_carry);
        self.set_flag(&Flag::C, carry);
        self.set_flag(&Flag::Z, result == 0);
    }

    /// `SUB A,r`: takes the register `rhs` from the register `lhs`.
    pub fn sub_register_from_register(&mut self, lhs: &Register, rhs: &Register)
        requires
            old(self).wf(),
        ensures
            *final(self) == old(self).spec_sub_u8_from_register(
                *lhs,
                old(self).spec_read_register(*rhs),
            ),
            final(self).wf(),
    {
        let rhs_value = self.read_register(rhs);
        self.sub_u8_from_register(lhs, rhs_value);
    }

    /// `SBC A,n`: takes a byte and the carry flag from a register.
    #[verifier::rlimit(30)]
    pub fn sub_u8_from_register_with_carry(&mut self, register: &Register, value_to_sub: u8)
        requires
            old(self).wf(),
        ensures
            *final(self) == old(self).spec_sub_u8_from_register_with_carry(
                *register,
                value_to_sub,
            ),
            final(self).wf(),
    {
        let value = self.read_register(register);
        let carry: u8 = if self.get_flag(&Flag::C) {
            1
        } else {
            0
        };
        let result = value.wrapping_sub(value_to_sub).wrapping_sub(carry);
        let half_borrow = ((value & 0xF) as u16) < (value_to_sub & 0xF) as u16 + carry as u16;
        let full_borrow = (value as u16) < value_to_sub as u16 + carry as u16;
        self.write_register(register, result);
        self.set_flag(&Flag::Z, result == 0);
        self.set_flag(&Flag::N, true);
        self.set_flag(&Flag::H, half_borrow);
        self.set_flag(&Flag::C, full_borrow);
    }

    /// `SBC A,r`: takes the register `rhs` and the carry flag from the register
    /// `lhs`.
    pub fn sub_register_from_register_with_carry(&mut self, lhs: &Register, rhs: &Register)
        requires
            old(self).wf(),
        ensures
            *final(self) == old(self).spec_sub_u8_from_register_with_carry(
                *lhs,
                old(self).spec_read_register(*rhs),
            ),
            final(self).wf(),
    {
        let rhs_value = self.read_register(rhs);
        self.sub_u8_from_register_with_carry(lhs, rhs_value);
    }

    /// Adds the byte `offset`, read as signed, to `sp`, and sets the flags
    /// from the unsigned addition of the low bytes.
    pub fn add_i8_to_sp(&mut self, offset: u8, sp: u16) -> (result: u16)
        requires
            old(self).wf(),
        ensures
            result == spec_wrap16(sp + spec_signed(offset)),
            *final(self) == old(self).spec_flags_after_sp_offset(offset, sp),
            final(self).wf(),
    {
        let result = sp.wrapping_add_signed(signed(offset) as i16);
        let half_carry = (sp & 0x0F) as u32 + (offset & 0x0F) as u32 > 0x0F;
        let carry = (sp & 0xFF) as u32 + offset as u32 > 0xFF;
        self.set_flag(&Flag::Z, false);
        self.set_flag(&Flag::N, false);
        self.set_flag(&Flag::H, half_carry);
        self.set_flag(&Flag::C, carry);
        result
    }

    /// `DAA`: corrects a register to two decimal digits after an addition or a
    /// subtraction of two such bytes.
    pub fn daa(&mut self, register: &Register)
        requires
            old(self).wf(),
        ensures
            *final(self) == old(self).spec_daa(*register),
            final(self).wf(),
    {
        let mut a = self.read_register(register);
        let n_flag = self.get_flag(&Flag::N);
        let h_flag = self.get_flag(&Flag::H);
        let c_flag = self.get_flag(&Flag::C);
        let mut adjust: u8 = 0;
        let mut carry = false;
        if !n_flag {
            if h_flag || (a & 0x0F) > 0x09 {
                adjust = adjust + 0x06;
            }
            if c_flag || a > 0x99 {
                adjust = adjust + 0x60;
                carry = true;
            }
            a = a.wrapping_add(adjust);
        } else {
            if h_flag {
                adjust = adjust + 0x06;
            }
            if c_flag {
                adjust = adjust + 0x60;
            }
            a = a.wrapping_sub(adjust);
        }
        self.write_register(register, a);
        self.set_flag(&Flag::Z, a == 0);
        self.set_flag(&Flag::H, false);
        self.set_flag(&Flag::C, carry || c_flag);
    }
}

/// Both nibbles of the byte are decimal digits.
pub open spec fn spec_is_bcd(value: u8) -> bool {
    value / 16 <= 9 && value % 16 <= 9
}

/// The number 0..99 that a byte of two decimal digits stands for.
pub open spec fn spec_bcd_value(value: u8) -> int {
    (value / 16) * 10 + value % 16
}

proof fn lemma_nibbles(a: u8, b: u8)
    by (bit_vector)
    ensures
        a & 0x0F == a % 16,
        b & 0x0F == b % 16,
{
}

/// `INC r` followed by `DEC r` leaves the register as it was. The pair
/// leaves N set, Z telling whether the register is zero, H telling whether
/// its low nibble is 0xF, and C as it was.
pub proof fn lemma_increment_then_decrement(cpu: CPU, register: Register)
    requires
        cpu.wf(),
        register != Register::F,
    ensures
        cpu.spec_increment_register(register).spec_decrement_register(register)
            == cpu.spec_with_flags(
            cpu.spec_read_register(register) == 0,
            true,
            cpu.spec_read_register(register) & 0x0F == 0x0F,
            cpu.spec_get_flag(Flag::C),
        ),
        cpu.spec_increment_register(register).spec_decrement_register(
            register,
        ).spec_read_register(register) == cpu.spec_read_register(register),
{
    let value = cpu.spec_read_register(register);
    let raised = value.wrapping_add(1);
    let up = cpu.spec_increment_register(register);
    lemma_flags_byte(raised == 0, false, value & 0x0F == 0x0F, cpu.spec_get_flag(Flag::C));
    lemma_nibbles(value, raised);
    assert(up.spec_read_register(register) == raised);
    assert(raised.wrapping_sub(1) == value);
}

/// Incrementing and then decrementing the byte at a plain address leaves
/// the byte as it was, with the same flags as for a register.
pub proof fn lemma_increment_then_decrement_memory(cpu: CPU, cells: Seq<u8>, address: u16)
    requires
        cpu.wf(),
        cells.len() == 0x10000,
        spec_is_plain(address),
    ensures
        ({
            let (up, raised) = cpu.spec_increment_byte_at_address(cells, address);
            let (down, lowered) = up.spec_decrement_byte_at_address(raised, address);
            &&& bus_read(lowered, address) == bus_read(cells, address)
            &&& down == cpu.spec_with_flags(
                bus_read(cells, address) == 0,
                true,
                bus_read(cells, address) & 0x0F == 0x0F,
                cpu.spec_get_flag(Flag::C),
            )
        }),
{
    let value = bus_read(cells, address);
    let raised = value.wrapping_add(1);
    lemma_flags_byte(raised == 0, false, value & 0x0F == 0x0F, cpu.spec_get_flag(Flag::C));
    lemma_nibbles(value, raised);
    assert(raised.wrapping_sub(1) == value);
}

/// `ADD A,n` followed by `SUB A,n` leaves A as it was. The pair leaves N
/// set, Z telling whether A is zero, and H and C as the addition set them.
pub proof fn lemma_add_then_sub(cpu: CPU, value: u8)
    requires
        cpu.wf(),
    ensures
        cpu.spec_add_u8_to_register(Register::A, value).spec_sub_u8_from_register(
            Register::A,
            value,
        ) == cpu.spec_with_flags(
            cpu.a == 0,
            true,
            (cpu.a & 0x0F) + (value & 0x0F) > 0x0F,
            cpu.a + value > 0xFF,
        ),
{
    let sum = spec_sum8(cpu.a, value, 0);
    lemma_nibbles(cpu.a, value);
    lemma_nibbles(sum, value);
    assert(spec_difference8(sum, value, 0) == cpu.a);
}

proof fn lemma_daa_digits(a: u8, b: u8, sum: u8, low: u8, high: u8, result: u8)
    by (bit_vector)
    requires
        a / 16 <= 9,
        a % 16 <= 9,
        b / 16 <= 9,
        b % 16 <= 9,
        sum == ((a + b) % 256) as u8,
        low == 0x06 || low == 0x00,
        high == 0x60 || high == 0x00,
        low == 0x06 <==> ((a & 0x0F) + (b & 0x0F) > 0x0F || (sum & 0x0F) > 0x09),
        high == 0x60 <==> (a + b > 0xFF || sum > 0x99),
        result == ((sum + (low + high)) % 256) as u8,
    ensures
        result / 16 <= 9,
        result % 16 <= 9,
        high == 0x60 ==> (result / 16) * 10 + result % 16 + 100 == (a / 16) * 10 + a % 16 + (b
            / 16) * 10 + b % 16,
        high == 0x00 ==> (result / 16) * 10 + result % 16 == (a / 16) * 10 + a % 16 + (b / 16)
            * 10 + b % 16,
{
}

/// After two bytes of decimal digits are added, `DAA` leaves a byte of
/// decimal digits in A, and A together with C, worth one hundred, is the
/// decimal sum of the two.
#[verifier::rlimit(30)]
pub proof fn lemma_daa_after_add(cpu: CPU, value: u8)
    requires
        cpu.wf(),
        spec_is_bcd(cpu.a),
        spec_is_bcd(value),
    ensures
        ({
            let adjusted = cpu.spec_add_u8_to_register(Register::A, value).spec_daa(Register::A);
            &&& spec_is_bcd(adjusted.a)
            &&& spec_bcd_value(adjusted.a) + (if adjusted.spec_get_flag(Flag::C) {
                100int
            } else {
                0int
            }) == spec_bcd_value(cpu.a) + spec_bcd_value(value)
            &&& adjusted.wf()
        }),
{
    let a = cpu.a;
    let sum = spec_sum8(a, value, 0);
    let h = (a & 0x0F) + (value & 0x0F) > 0x0F;
    let c = a + value > 0xFF;
    let added = cpu.spec_add_u8_to_register(Register::A, value);
    lemma_flags_byte(sum == 0, false, h, c);
    assert(added.a == sum);
    assert(added.spec_get_flag(Flag::N) == false);
    assert(added.spec_get_flag(Flag::H) == h);
    assert(added.spec_get_flag(Flag::C) == c);
    let low: u8 = if h || (sum & 0x0F) > 0x09 {
        0x06
    } else {
        0x00
    };
    let high: u8 = if c || sum > 0x99 {
        0x60
    } else {
        0x00
    };
    let result = spec_daa_result(sum, false, h, c);
    lemma_daa_digits(a, value, sum, low, high, result);
    lemma_flags_byte(result == 0, false, false, spec_daa_carry(sum, false, c));
}

} // verus!
