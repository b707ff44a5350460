//! Rotates of a register, complement, logic and compare.
use vstd::prelude::*;
use crate::cpu::arithmetic::spec_difference8;
use crate::cpu::registers::{Flag, Register, CPU};

verus! {

/// `value` rotated left by one; bit 7 comes back in at bit 0.
pub open spec fn spec_rotate_left(value: u8) -> u8 {
    (value << 1) | (value >> 7)
}

/// `value` rotated right by one; bit 0 comes back in at bit 7.
pub open spec fn spec_rotate_right(value: u8) -> u8 {
    (value >> 1) | (value << 7)
}

/// `value` shifted left by one with `carry` coming in at bit 0.
pub open spec fn spec_rotate_left_through(value: u8, carry: bool) -> u8 {
    (value << 1) | (if carry { 0x01u8 } else { 0x00u8 })
}

/// `value` shifted right by one with `carry` coming in at bit 7.
pub open spec fn spec_rotate_right_through(value: u8, carry: bool) -> u8 {
    (value >> 1) | (if carry { 0x80u8 } else { 0x00u8 })
}

/// Bit 7 of `value`.
pub open spec fn spec_top_bit(value: u8) -> bool {
    value & 0x80 != 0
}

/// Bit 0 of `value`.
pub open spec fn spec_bottom_bit(value: u8) -> bool {
    value & 0x01 != 0
}

impl CPU {
    /// Flags after a rotate of the accumulator kind: Z, N and H clear, C the
    /// bit that left.
    pub open spec fn spec_flags_after_rotate(self, carry: bool) -> CPU {
        self.spec_with_flags(false, false, false, carry)
    }

    /// Flags after a logic operation: Z from the result, N clear, H as given,
    /// C clear.
    pub open spec fn spec_flags_after_logic(self, result: u8, h: bool) -> CPU {
        self.spec_with_flags(result == 0, false, h, false)
    }

    /// The register file after `RLCA`.
    pub open spec fn spec_rotate_left_circular(self, register: Register) -> CPU {
        let value = self.spec_read_register(register);
        self.spec_write_register(register, spec_rotate_left(value)).spec_flags_after_rotate(
            spec_top_bit(value),
        )
    }

    /// The register file after `RRCA`.
    pub open spec fn spec_rotate_right_circular(self, register: Register) -> CPU {
        let value = self.spec_read_register(register);
        self.spec_write_register(register, spec_rotate_right(value)).spec_flags_after_rotate(
            spec_bottom_bit(value),
        )
    }

    /// The register file after `RLA`.
    pub open spec fn spec_rotate_left_through_carry(self, register: Register) -> CPU {
        let value = self.spec_read_register(register);
        self.spec_write_register(
            register,
            spec_rotate_left_through(value, self.spec_get_flag(Flag::C)),
        ).spec_flags_after_rotate(spec_top_bit(value))
    }

    /// The register file after `RRA`.
    pub open spec fn spec_rotate_right_through_carry(self, register: Register) -> CPU {
        let value = self.spec_read_register(register);
        self.spec_write_register(
            register,
            spec_rotate_right_through(value, self.spec_get_flag(Flag::C)),
        ).spec_flags_after_rotate(spec_bottom_bit(value))
    }

    /// Every bit of the register flipped; N and H set, Z and C kept.
    pub open spec fn spec_complement_register(self, register: Register) -> CPU {
        let written = self.spec_write_register(register, !self.spec_read_register(register));
        written.spec_with_flags(
            written.spec_get_flag(Flag::Z),
            true,
            true,
            written.spec_get_flag(Flag::C),
        )
    }

    /// C flipped; N and H clear, Z kept.
    pub open spec fn spec_complement_carry_flag(self) -> CPU {
        self.spec_with_flags(
            self.spec_get_flag(Flag::Z),
            false,
            false,
            !self.spec_get_flag(Flag::C),
        )
    }

    /// C set; N and H clear, Z kept.
    pub open spec fn spec_set_carry_flag(self) -> CPU {
        self.spec_with_flags(self.spec_get_flag(Flag::Z), false, false, true)
    }

    /// The register file after `AND`: H is set.
    pub open spec fn spec_and_u8_with_register(self, register: Register, value: u8) -> CPU {
        let result = self.spec_read_register(register) & value;
        self.spec_write_register(register, result).spec_flags_after_logic(result, true)
    }

    /// The register file after `XOR`.
    pub open spec fn spec_xor_u8_with_register(self, register: Register, value: u8) -> CPU {
        let result = self.spec_read_register(register) ^ value;
        self.spec_write_register(register, result).spec_flags_after_logic(result, false)
    }

    /// The register file after `OR`.
    pub open spec fn spec_or_u8_with_register(self, register: Register, value: u8) -> CPU {
        let result = self.spec_read_register(register) | value;
        self.spec_write_register(register, result).spec_flags_after_logic(result, false)
    }

    /// The flags of a subtraction whose result is thrown away.
    pub open spec fn spec_compare_u8_with_register(self, register: Register, value: u8) -> CPU {
        self.spec_flags_after_sub(self.spec_read_register(register), value, 0)
    }

    /// `RLCA`: rotates a register left; bit 7 goes to bit 0 and to C.
    pub fn rotate_left_circular(&mut self, register: &Register)
        requires
            old(self).wf(),
        ensures
            *final(self) == old(self).spec_rotate_left_circular(*register),
            final(self).wf(),
    {
        let value = self.read_register(register);
        let carry = value & 0x80 != 0;
        let result = (value << 1) | (value >> 7);
        self.write_register(register, result);
        self.set_flag(&Flag::Z, false);
        self.set_flag(&Flag::N, false);
        self.set_flag(&Flag::H, false);
        self.set_flag(&Flag::C, carry);
    }

    /// `RRCA`: rotates a register right; bit 0 goes to bit 7 and to C.
    pub fn rotate_right_circular(&mut self, register: &Register)
        requires
            old(self).wf(),
        ensures
            *final(self) == old(self).spec_rotate_right_circular(*register),
            final(self).wf(),
    {
        let value = self.read_register(register);
        let carry = value & 0x01 != 0;
        let result = (value >> 1) | (value << 7);
        self.write_register(register, result);
        self.set_flag(&Flag::Z, false);
        self.set_flag(&Flag::N, false);
        self.set_flag(&Flag::H, false);
        self.set_flag(&Flag::C, carry);
    }

    /// `RLA`: rotates a register left through C.
    pub fn rotate_left_through_carry(&mut self, register: &Register)
        requires
            old(self).wf(),
        ensures
            *final(self) == old(self).spec_rotate_left_through_carry(*register),
            final(self).wf(),
    {
        let value = self.read_register(register);
        let old_carry: u8 = if self.get_flag(&Flag::C) {
            0x01
        } else {
            0x00
        };
        let new_carry = value & 0x80 != 0;
        let result = (value << 1) | old_carry;
        self.write_register(register, result);
        self.set_flag(&Flag::Z, false);
        self.set_flag(&Flag::N, false);
        self.set_flag(&Flag::H, false);
        self.set_flag(&Flag::C, new_carry);
    }

    /// `RRA`: rotates a register right through C.
    pub fn rotate_right_through_carry(&mut self, register: &Register)
        requires
            old(self).wf(),
        ensures
            *final(self) == old(self).spec_rotate_right_through_carry(*register),
            final(self).wf(),
    {
        let value = self.read_register(register);
        let old_carry: u8 = if self.get_flag(&Flag::C) {
            0x80
        } else {
            0x00
        };
        let new_carry = value & 0x01 != 0;
        let result = (value >> 1) | old_carry;
        self.write_register(register, result);
        self.set_flag(&Flag::Z, false);
        self.set_flag(&Flag::N, false);
        self.set_flag(&Flag::H, false);
        self.set_flag(&Flag::C, new_carry);
    }

    /// `CPL`: flips every bit of a register.
    pub fn complement_register(&mut self, register: &Register)
        requires
            old(self).wf(),
        ensures
            *final(self) == old(self).spec_complement_register(*register),
            final(self).wf(),
    {
        let value = self.read_register(register);
        let result = !value;
        self.write_register(register, result);
        self.set_flag(&Flag::N, true);
        self.set_flag(&Flag::H, true);
    }

    /// `CCF`: flips the carry flag.
    pub fn complement_carry_flag(&mut self)
        requires
            old(self).wf(),
        ensures
            *final(self) == old(self).spec_complement_carry_flag(),
            final(self).wf(),
    {
        let carry = self.get_flag(&Flag::C);
        self.set_flag(&Flag::C, !carry);
        self.set_flag(&Flag::N, false);
        self.set_flag(&Flag::H, false);
    }

    /// `AND n`: Z from the result, H set, N and C clear.
    pub fn and_u8_with_register(&mut self, register: &Register, value: u8)
        requires
            old(self).wf(),
        ensures
            *final(self) == old(self).spec_and_u8_with_register(*register, value),
            final(self).wf(),
    {
        let current_value = self.read_register(register);
        let result = current_value & value;
        self.write_register(register, result);
        self.set_flag(&Flag::Z, result == 0);
        self.set_flag(&Flag::N, false);
        self.set_flag(&Flag::H, true);
        self.set_flag(&Flag::C, false);
    }

    /// `AND r`: as `AND n` with the value of the register `rhs`.
    pub fn and_register_with_register(&mut self, lhs: &Register, rhs: &Register)
        requires
            old(self).wf(),
        ensures
            *final(self) == old(self).spec_and_u8_with_register(
                *lhs,
                old(self).spec_read_register(*rhs),
            ),
            final(self).wf(),
    {
        let rhs_value = self.read_register(rhs);
        self.and_u8_with_register(lhs, rhs_value);
    }

    /// `XOR n`: Z from the result, the other flags clear.
    pub fn xor_u8_with_register(&mut self, register: &Register, value: u8)
        requires
            old(self).wf(),
        ensures
            *final(self) == old(self).spec_xor_u8_with_register(*register, value),
            final(self).wf(),
    {
        let current_value = self.read_register(register);
        let result = current_value ^ value;
        self.write_register(register, result);
        self.set_flag(&Flag::Z, result == 0);
        self.set_flag(&Flag::N, false);
        self.set_flag(&Flag::H, false);
        self.set_flag(&Flag::C, false);
    }

    /// `XOR r`: as `XOR n` with the value of the register `rhs`.
    pub fn xor_register_with_register(&mut self, lhs: &Register, rhs: &Register)
        requires
            old(self).wf(),
        ensures
            *final(self) == old(self).spec_xor_u8_with_register(
                *lhs,
                old(self).spec_read_register(*rhs),
            ),
            final(self).wf(),
    {
        let rhs_value = self.read_register(rhs);
        self.xor_u8_with_register(lhs, rhs_value);
    }

    /// `OR n`: Z from the result, the other flags clear.
    pub fn or_u8_with_register(&mut self, register: &Register, value: u8)
        requires
            old(self).wf(),
        ensures
            *final(self) == old(self).spec_or_u8_with_register(*register, value),
            final(self).wf(),
    {
        let current_value = self.read_register(register);
        let result = current_value | value;
        self.write_register(register, result);
        self.set_flag(&Flag::Z, result == 0);
        self.set_flag(&Flag::N, false);
        self.set_flag(&Flag::H, false);
        self.set_flag(&Flag::C, false);
    }

    /// `OR r`: as `OR n` with the value of the register `rhs`.
    pub fn or_register_with_register(&mut self, lhs: &Register, rhs: &Register)
        requires
            old(self).wf(),
        ensures
            *final(self) == old(self).spec_or_u8_with_register(
                *lhs,
                old(self).spec_read_register(*rhs),
            ),
            final(self).wf(),
    {
        let rhs_value = self.read_register(rhs);
        self.or_u8_with_register(lhs, rhs_value);
    }

    /// `CP n`: sets the flags of a subtraction and leaves the register alone.
    pub fn compare_u8_with_register(&mut self, register: &Register, value: u8)
        requires
            old(self).wf(),
        ensures
            *final(self) == old(self).spec_compare_u8_with_register(*register, value),
            final(self).wf(),
    {
        let current_value = self.read_register(register);
        let result = current_value.wrapping_sub(value);
        self.set_flag(&Flag::Z, result == 0);
        self.set_flag(&Flag::N, true);
        self.set_flag(&Flag::H, (current_value & 0x0F) < (value & 0x0F));
        self.set_flag(&Flag::C, current_value < value);
    }

    /// `CP r`: as `CP n` with the value of the register `rhs`.
    pub fn compare_register_with_register(&mut self, lhs: &Register, rhs: &Register)
        requires
            old(self).wf(),
        ensures
            *final(self) == old(self).spec_compare_u8_with_register(
                *lhs,
                old(self).spec_read_register(*rhs),
            ),
            final(self).wf(),
    {
        let rhs_value = self.read_register(rhs);
        self.compare_u8_with_register(lhs, rhs_value);
    }
}

} // verus!
