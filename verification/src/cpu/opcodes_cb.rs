//! The CB-prefixed table: rotates, shifts and single-bit operations on any
//! 8-bit operand.
//!
//! Bits 7..6 of the opcode select the group, bits 5..3 the operation or the
//! bit, bits 2..0 the operand in the order B, C, D, E, H, L, (HL), A.
use vstd::prelude::*;
use crate::cpu::bit::{
    spec_bottom_bit,
    spec_rotate_left,
    spec_rotate_left_through,
    spec_rotate_right,
    spec_rotate_right_through,
    spec_top_bit,
};
use crate::cpu::registers::{register_hl, spec_register_hl, Flag, Register, CPU};
use crate::memory::{bus_read, bus_write, Memory};

verus! {

/// The eight operations of the first CB group.
#[derive(Clone, Copy, Debug, PartialEq, Eq)]
pub enum ByteOperation {
    RotateLeftCircular,
    RotateRightCircular,
    RotateLeftCarry,
    RotateRightCarry,
    ShiftLeftArithmetic,
    ShiftRightArithmetic,
    SwapNibbles,
    ShiftRightLogical,
}

/// Whether a single-bit operation clears or sets the bit.
#[derive(Clone, Copy, Debug, PartialEq, Eq)]
pub enum BitChange {
    Clear,
    Raise,
}

/// T-cycles of a CB instruction on a register.
pub const CB_REGISTER_COST: u16 = 8;

/// T-cycles of a CB instruction that reads and writes back (HL).
pub const CB_MEMORY_COST: u16 = 16;

/// T-cycles of `BIT b,(HL)`, which only reads.
pub const CB_MEMORY_TEST_COST: u16 = 12;

/// `value` shifted left by one; bit 0 becomes 0.
pub open spec fn spec_shift_left(value: u8) -> u8 {
    value << 1
}

/// `value` shifted right by one with bit 7 kept.
pub open spec fn spec_shift_right_arithmetic(value: u8) -> u8 {
    (value >> 1) | (value & 0x80)
}

/// `value` shifted right by one; bit 7 becomes 0.
pub open spec fn spec_shift_right_logical(value: u8) -> u8 {
    value >> 1
}

/// `value` with its two nibbles exchanged.
pub open spec fn spec_swap_nibbles(value: u8) -> u8 {
    (value >> 4) | (value << 4)
}

/// Bit `bit` of `value`.
pub open spec fn spec_test_bit(bit: u8, value: u8) -> bool {
    value & (1u8 << bit) != 0
}

/// `value` with bit `bit` cleared.
pub open spec fn spec_reset_bit(bit: u8, value: u8) -> u8 {
    value & !(1u8 << bit)
}

/// `value` with bit `bit` set.
pub open spec fn spec_set_bit(bit: u8, value: u8) -> u8 {
    value | (1u8 << bit)
}

/// The operand that bits 2..0 select; `None` stands for the byte at (HL).
pub open spec fn spec_get_register(index: u8) -> Option<Register> {
    if index == 0 {
        Some(Register::B)
    } else if index == 1 {
        Some(Register::C)
    } else if index == 2 {
        Some(Register::D)
    } else if index == 3 {
        Some(Register::E)
    } else if index == 4 {
        Some(Register::H)
    } else if index == 5 {
        Some(Register::L)
    } else if index == 6 {
        None
    } else {
        Some(Register::A)
    }
}

/// The operation of the first group that bits 5..3 select.
pub open spec fn spec_byte_operation(selector: u8) -> ByteOperation {
    if selector == 0 {
        ByteOperation::RotateLeftCircular
    } else if selector == 1 {
        ByteOperation::RotateRightCircular
    } else if selector == 2 {
        ByteOperation::RotateLeftCarry
    } else if selector == 3 {
        ByteOperation::RotateRightCarry
    } else if selector == 4 {
        ByteOperation::ShiftLeftArithmetic
    } else if selector == 5 {
        ByteOperation::ShiftRightArithmetic
    } else if selector == 6 {
        ByteOperation::SwapNibbles
    } else {
        ByteOperation::ShiftRightLogical
    }
}

/// What `operation` makes of `value` when the carry flag is `carry`.
pub open spec fn spec_byte_operation_result(
    operation: ByteOperation,
    value: u8,
    carry: bool,
) -> u8 {
    match operation {
        ByteOperation::RotateLeftCircular => spec_rotate_left(value),
        ByteOperation::RotateRightCircular => spec_rotate_right(value),
        ByteOperation::RotateLeftCarry => spec_rotate_left_through(value, carry),
        ByteOperation::RotateRightCarry => spec_rotate_right_through(value, carry),
        ByteOperation::ShiftLeftArithmetic => spec_shift_left(value),
        ByteOperation::ShiftRightArithmetic => spec_shift_right_arithmetic(value),
        ByteOperation::SwapNibbles => spec_swap_nibbles(value),
        ByteOperation::ShiftRightLogical => spec_shift_right_logical(value),
    }
}

/// The bit that `operation` moves out of `value` into the carry flag.
pub open spec fn spec_byte_operation_carry(operation: ByteOperation, value: u8) -> bool {
    match operation {
        ByteOperation::RotateLeftCircular => spec_top_bit(value),
        ByteOperation::RotateRightCircular => spec_bottom_bit(value),
        ByteOperation::RotateLeftCarry => spec_top_bit(value),
        ByteOperation::RotateRightCarry => spec_bottom_bit(value),
        ByteOperation::ShiftLeftArithmetic => spec_top_bit(value),
        ByteOperation::ShiftRightArithmetic => spec_bottom_bit(value),
        ByteOperation::SwapNibbles => false,
        ByteOperation::ShiftRightLogical => spec_bottom_bit(value),
    }
}

/// What a single-bit change makes of `value`.
pub open spec fn spec_bit_change_result(change: BitChange, bit: u8, value: u8) -> u8 {
    match change {
        BitChange::Clear => spec_reset_bit(bit, value),
        BitChange::Raise => spec_set_bit(bit, value),
    }
}

proof fn lemma_opcode_fields(opcode: u8)
    by (bit_vector)
    ensures
        opcode & 0x07 == opcode % 8,
        (opcode & 0b111000) >> 3 == (opcode / 8) % 8,
{
}

impl CPU {
    /// The operand that `index` selects: a register, or the byte at (HL).
    pub open spec fn spec_read_operand(self, cells: Seq<u8>, index: u8) -> u8 {
        match spec_get_register(index) {
            Some(register) => self.spec_read_register(register),
            None => bus_read(cells, self.spec_read_register_pair(spec_register_hl())),
        }
    }

    /// Register file and cells after `value` goes into the operand that
    /// `index` selects.
    pub open spec fn spec_write_operand(self, cells: Seq<u8>, index: u8, value: u8) -> (
        CPU,
        Seq<u8>,
    ) {
        match spec_get_register(index) {
            Some(register) => (self.spec_write_register(register, value), cells),
            None => (
                self,
                bus_write(cells, self.spec_read_register_pair(spec_register_hl()), value),
            ),
        }
    }

    /// Flags after a rotate or shift of the CB table: Z from the result, N
    /// and H clear, C the bit that left.
    pub open spec fn spec_apply_byte_operation(self, operation: ByteOperation, value: u8) -> (
        CPU,
        u8,
    ) {
        let result = spec_byte_operation_result(operation, value, self.spec_get_flag(Flag::C));
        (
            self.spec_with_flags(
                result == 0,
                false,
                false,
                spec_byte_operation_carry(operation, value),
            ),
            result,
        )
    }

    /// Flags after `BIT`: Z set when the bit is clear, N clear, H set, C kept.
    pub open spec fn spec_test_bit_cb(self, bit: u8, value: u8) -> CPU {
        self.spec_with_flags(!spec_test_bit(bit, value), false, true, self.spec_get_flag(Flag::C))
    }

    /// Register file, cells and cost after a rotate or shift of the operand that
    /// `index` selects.
    pub open spec fn spec_run_operation_on_index(
        self,
        cells: Seq<u8>,
        index: u8,
        operation: ByteOperation,
    ) -> (CPU, Seq<u8>, u16) {
        let (flagged, result) = self.spec_apply_byte_operation(
            operation,
            self.spec_read_operand(cells, index),
        );
        let (written, stored) = flagged.spec_write_operand(cells, index, result);
        (
            written,
            stored,
            if spec_get_register(index) is Some {
                CB_REGISTER_COST
            } else {
                CB_MEMORY_COST
            },
        )
    }

    /// Register file, cells and cost after one bit of the operand that `index`
    /// selects is cleared or set. No flag changes.
    pub open spec fn spec_run_res_set_operation_on_index(
        self,
        cells: Seq<u8>,
        index: u8,
        bit: u8,
        change: BitChange,
        hl_cycles: u16,
    ) -> (CPU, Seq<u8>, u16) {
        let result = spec_bit_change_result(change, bit, self.spec_read_operand(cells, index));
        let (written, stored) = self.spec_write_operand(cells, index, result);
        (
            written,
            stored,
            if spec_get_register(index) is Some {
                CB_REGISTER_COST
            } else {
                hl_cycles
            },
        )
    }

    /// Register file and cost after one bit of the operand that `index` selects
    /// is tested. Nothing but F changes.
    pub open spec fn spec_run_bit_operation_on_index(
        self,
        cells: Seq<u8>,
        index: u8,
        bit: u8,
        hl_cycles: u16,
    ) -> (CPU, u16) {
        (
            self.spec_test_bit_cb(bit, self.spec_read_operand(cells, index)),
            if spec_get_register(index) is Some {
                CB_REGISTER_COST
            } else {
                hl_cycles
            },
        )
    }

    /// What the CB instruction `opcode` does, without the cycle accumulator:
    /// register file, cells and T-cycles.
    pub open spec fn spec_cb_operation(self, cells: Seq<u8>, opcode: u8) -> (CPU, Seq<u8>, u16) {
        let index = opcode % 8;
        let selector = (opcode / 8) % 8;
        let group = opcode / 64;
        if group == 0 {
            self.spec_run_operation_on_index(cells, index, spec_byte_operation(selector))
        } else if group == 1 {
            let (flagged, cost) = self.spec_run_bit_operation_on_index(
                cells,
                index,
                selector,
                CB_MEMORY_TEST_COST,
            );
            (flagged, cells, cost)
        } else if group == 2 {
            self.spec_run_res_set_operation_on_index(
                cells,
                index,
                selector,
                BitChange::Clear,
                CB_MEMORY_COST,
            )
        } else {
            self.spec_run_res_set_operation_on_index(
                cells,
                index,
                selector,
                BitChange::Raise,
                CB_MEMORY_COST,
            )
        }
    }

    /// Register file, cells and T-cycles after the CB instruction `opcode`.
    pub open spec fn spec_execute_cb_opcode(self, cells: Seq<u8>, opcode: u8) -> (
        CPU,
        Seq<u8>,
        u16,
    ) {
        let (done, stored, cost) = self.spec_cb_operation(cells, opcode);
        (done.spec_spend(cost), stored, cost)
    }

    /// Executes the CB instruction `opcode`, adds its cost to the accumulator and
    /// hands the cost back: 8 T-cycles on a register, 16 on (HL), 12 for `BIT`
    /// on (HL).
    pub fn execute_cb_opcode(&mut self, opcode: u8, memory: &mut Memory) -> (cost: u16)
        requires
            old(self).wf(),
        ensures
            (*final(self), final(memory)@, cost) == old(self).spec_execute_cb_opcode(
                old(memory)@,
                opcode,
            ),
            final(self).wf(),
    {
        proof {
            lemma_opcode_fields(opcode);
        }
        let index = opcode & 0x07;
        let bit = (opcode & 0b111000) >> 3;
        let cost = match opcode {
            0x00..=0x07 => self.run_operation_on_index(
                memory,
                index,
                ByteOperation::RotateLeftCircular,
            ),
            0x08..=0x0F => self.run_operation_on_index(
                memory,
                index,
                ByteOperation::RotateRightCircular,
            ),
            0x10..=0x17 => self.run_operation_on_index(
                memory,
                index,
                ByteOperation::RotateLeftCarry,
            ),
            0x18..=0x1F => self.run_operation_on_index(
                memory,
                index,
                ByteOperation::RotateRightCarry,
            ),
            0x20..=0x27 => self.run_operation_on_index(
                memory,
                index,
                ByteOperation::ShiftLeftArithmetic,
            ),
            0x28..=0x2F => self.run_operation_on_index(
                memory,
                index,
                ByteOperation::ShiftRightArithmetic,
            ),
            0x30..=0x37 => self.run_operation_on_index(memory, index, ByteOperation::SwapNibbles),
            0x38..=0x3F => self.run_operation_on_index(
                memory,
                index,
                ByteOperation::ShiftRightLogical,
            ),
            0x40..=0x7F => self.run_bit_operation_on_index(memory, index, bit, CB_MEMORY_TEST_COST),
            0x80..=0xBF => self.run_res_set_operation_on_index(
                memory,
                index,
                bit,
                BitChange::Clear,
                CB_MEMORY_COST,
            ),
            0xC0..=0xFF => self.run_res_set_operation_on_index(
                memory,
                index,
                bit,
                BitChange::Raise,
                CB_MEMORY_COST,
            ),
        };
        self.spend(cost)
    }

    /// The operand that `i` selects; `None` stands for the byte at (HL).
    pub fn get_register(&self, i: u8) -> (operand: Option<Register>)
        requires
            i < 8,
        ensures
            operand == spec_get_register(i),
    {
        match i {
            0x00 => Some(Register::B),
            0x01 => Some(Register::C),
            0x02 => Some(Register::D),
            0x03 => Some(Register::E),
            0x04 => Some(Register::H),
            0x05 => Some(Register::L),
            0x06 => None,
            _ => Some(Register::A),
        }
    }

    /// Reads the operand that `index` selects.
    pub fn read_operand(&self, memory: &Memory, index: u8) -> (value: u8)
        requires
            index < 8,
        ensures
            value == self.spec_read_operand(memory@, index),
    {
        if let Some(register) = self.get_register(index) {
            self.read_register(&register)
        } else {
            let address = self.read_register_pair(&register_hl());
            memory.read_byte(address)
        }
    }

    /// Stores into the operand that `index` selects.
    pub fn write_operand(&mut self, memory: &mut Memory, index: u8, value: u8)
        requires
            index < 8,
        ensures
            (*final(self), final(memory)@) == old(self).spec_write_operand(
                old(memory)@,
                index,
                value,
            ),
            final(self).f == old(self).f,
    {
        if let Some(register) = self.get_register(index) {
            self.write_register(&register, value);
        } else {
            let address = self.read_register_pair(&register_hl());
            memory.write_byte(address, value);
        }
    }

    /// Applies a rotate or shift to `value`, sets the flags and hands the
    /// result back.
    pub fn apply_byte_operation(&mut self, operation: ByteOperation, value: u8) -> (result: u8)
        requires
            old(self).wf(),
        ensures
            (*final(self), result) == old(self).spec_apply_byte_operation(operation, value),
            final(self).wf(),
    {
        match operation {
            ByteOperation::RotateLeftCircular => self.rotate_left_circular_cb(value),
            ByteOperation::RotateRightCircular => self.rotate_right_circular_cb(value),
            ByteOperation::RotateLeftCarry => self.rotate_left_carry_cb(value),
            ByteOperation::RotateRightCarry => self.rotate_right_carry_cb(value),
            ByteOperation::ShiftLeftArithmetic => self.shift_left_arithmetic_cb(value),
            ByteOperation::ShiftRightArithmetic => self.shift_right_arithmetic_cb(value),
            ByteOperation::SwapNibbles => self.swap_nibbles_cb(value),
            ByteOperation::ShiftRightLogical => self.shift_right_logical_cb(value),
        }
    }

    /// Rotates or shifts the operand that `index` selects.
    pub fn run_operation_on_index(
        &mut self,
        memory: &mut Memory,
        index: u8,
        operation: ByteOperation,
    ) -> (cost: u16)
        requires
            old(self).wf(),
            index < 8,
        ensures
            (*final(self), final(memory)@, cost) == old(self).spec_run_operation_on_index(
                old(memory)@,
                index,
                operation,
            ),
            final(self).wf(),
    {
        let value = self.read_operand(memory, index);
        let result = self.apply_byte_operation(operation, value);
        self.write_operand(memory, index, result);
        if index == 6 {
            CB_MEMORY_COST
        } else {
            CB_REGISTER_COST
        }
    }

    /// Clears or sets one bit of the operand that `index` selects.
    pub fn run_res_set_operation_on_index(
        &mut self,
        memory: &mut Memory,
        index: u8,
        bit: u8,
        operation: BitChange,
        hl_cycles: u16,
    ) -> (cost: u16)
        requires
            index < 8,
            bit < 8,
        ensures
            (*final(self), final(memory)@, cost) == old(self).spec_run_res_set_operation_on_index(
                old(memory)@,
                index,
                bit,
                operation,
                hl_cycles,
            ),
            final(self).f == old(self).f,
    {
        let value = self.read_operand(memory, index);
        let result = match operation {
            BitChange::Clear => self.reset_bit_cb(bit, value),
            BitChange::Raise => self.set_bit_cb(bit, value),
        };
        self.write_operand(memory, index, result);
        if index == 6 {
            hl_cycles
        } else {
            CB_REGISTER_COST
        }
    }

    /// Tests one bit of the operand that `index` selects.
    pub fn run_bit_operation_on_index(
        &mut self,
        memory: &Memory,
        index: u8,
        bit: u8,
        hl_cycles: u16,
    ) -> (cost: u16)
        requires
            old(self).wf(),
            index < 8,
            bit < 8,
        ensures
            (*final(self), cost) == old(self).spec_run_bit_operation_on_index(
                memory@,
                index,
                bit,
                hl_cycles,
            ),
            final(self).wf(),
    {
        let value = self.read_operand(memory, index);
        self.test_bit_cb(bit, value);
        if index == 6 {
            hl_cycles
        } else {
            CB_REGISTER_COST
        }
    }

    /// `RLC`: rotates `value` left; bit 7 goes to bit 0 and to C, Z comes from
    /// the result.
    pub fn rotate_left_circular_cb(&mut self, value: u8) -> (result: u8)
        requires
            old(self).wf(),
        ensures
            (*final(self), result) == old(self).spec_apply_byte_operation(
                ByteOperation::RotateLeftCircular,
                value,
            ),
            final(self).wf(),
    {
        let bit7 = (value & 0x80) != 0;
        let result = (value << 1) | (value >> 7);
        self.set_flag(&Flag::Z, result == 0);
        self.set_flag(&Flag::N, false);
        self.set_flag(&Flag::H, false);
        self.set_flag(&Flag::C, bit7);
        result
    }

    /// `RRC`: rotates `value` right; bit 0 goes to bit 7 and to C, Z comes from
    /// the result.
    pub fn rotate_right_circular_cb(&mut self, value: u8) -> (result: u8)
        requires
            old(self).wf(),
        ensures
            (*final(self), result) == old(self).spec_apply_byte_operation(
                ByteOperation::RotateRightCircular,
                value,
            ),
            final(self).wf(),
    {
        let bit0 = (value & 0x01) != 0;
        let result = (value >> 1) | (value << 7);
        self.set_flag(&Flag::Z, result == 0);
        self.set_flag(&Flag::N, false);
        self.set_flag(&Flag::H, false);
        self.set_flag(&Flag::C, bit0);
        result
    }

    /// `RL`: rotates `value` left through C; Z comes from the result.
    pub fn rotate_left_carry_cb(&mut self, value: u8) -> (result: u8)
        requires
            old(self).wf(),
        ensures
            (*final(self), result) == old(self).spec_apply_byte_operation(
                ByteOperation::RotateLeftCarry,
                value,
            ),
            final(self).wf(),
    {
        let bit7 = (value & 0x80) != 0;
        let carry: u8 = if self.get_flag(&Flag::C) {
            0x01
        } else {
            0x00
        };
        let result = (value << 1) | carry;
        self.set_flag(&Flag::Z, result == 0);
        self.set_flag(&Flag::N, false);
        self.set_flag(&Flag::H, false);
        self.set_flag(&Flag::C, bit7);
        result
    }

    /// `RR`: rotates `value` right through C; Z comes from the result.
    pub fn rotate_right_carry_cb(&mut self, value: u8) -> (result: u8)
        requires
            old(self).wf(),
        ensures
            (*final(self), result) == old(self).spec_apply_byte_operation(
                ByteOperation::RotateRightCarry,
                value,
            ),
            final(self).wf(),
    {
        let bit0 = (value & 0x01) != 0;
        let carry: u8 = if self.get_flag(&Flag::C) {
            0x80
        } else {
            0x00
        };
        let result = (value >> 1) | carry;
        self.set_flag(&Flag::Z, result == 0);
        self.set_flag(&Flag::N, false);
        self.set_flag(&Flag::H, false);
        self.set_flag(&Flag::C, bit0);
        result
    }

    /// `SLA`: shifts `value` left; bit 7 goes to C and bit 0 becomes 0.
    pub fn shift_left_arithmetic_cb(&mut self, value: u8) -> (result: u8)
        requires
            old(self).wf(),
        ensures
            (*final(self), result) == old(self).spec_apply_byte_operation(
                ByteOperation::ShiftLeftArithmetic,
                value,
            ),
            final(self).wf(),
    {
        let bit7 = (value & 0x80) != 0;
        let result = value << 1;
        self.set_flag(&Flag::Z, result == 0);
        self.set_flag(&Flag::N, false);
        self.set_flag(&Flag::H, false);
        self.set_flag(&Flag::C, bit7);
        result
    }

    /// `SRA`: shifts `value` right and keeps bit 7; bit 0 goes to C.
    pub fn shift_right_arithmetic_cb(&mut self, value: u8) -> (result: u8)
        requires
            old(self).wf(),
        ensures
            (*final(self), result) == old(self).spec_apply_byte_operation(
                ByteOperation::ShiftRightArithmetic,
                value,
            ),
            final(self).wf(),
    {
        let bit0 = (value & 0x01) != 0;
        let bit7 = value & 0x80;
        let result = (value >> 1) | bit7;
        self.set_flag(&Flag::Z, result == 0);
        self.set_flag(&Flag::N, false);
        self.set_flag(&Flag::H, false);
        self.set_flag(&Flag::C, bit0);
        result
    }

    /// `SWAP`: exchanges the two nibbles of `value`; C is cleared.
    pub fn swap_nibbles_cb(&mut self, value: u8) -> (result: u8)
        requires
            old(self).wf(),
        ensures
            (*final(self), result) == old(self).spec_apply_byte_operation(
                ByteOperation::SwapNibbles,
                value,
            ),
            final(self).wf(),
    {
        let result = (value >> 4) | (value << 4);
        self.set_flag(&Flag::Z, result == 0);
        self.set_flag(&Flag::N, false);
        self.set_flag(&Flag::H, false);
        self.set_flag(&Flag::C, false);
        result
    }

    /// `SRL`: shifts `value` right; bit 0 goes to C and bit 7 becomes 0.
    pub fn shift_right_logical_cb(&mut self, value: u8) -> (result: u8)
        requires
            old(self).wf(),
        ensures
            (*final(self), result) == old(self).spec_apply_byte_operation(
                ByteOperation::ShiftRightLogical,
                value,
            ),
            final(self).wf(),
    {
        let bit0 = (value & 0x01) != 0;
        let result = value >> 1;
        self.set_flag(&Flag::Z, result == 0);
        self.set_flag(&Flag::N, false);
        self.set_flag(&Flag::H, false);
        self.set_flag(&Flag::C, bit0);
        result
    }

    /// `BIT b`: sets Z when bit `bit` of `value` is clear; the value itself is
    /// not written anywhere.
    pub fn test_bit_cb(&mut self, bit: u8, value: u8)
        requires
            old(self).wf(),
            bit < 8,
        ensures
            *final(self) == old(self).spec_test_bit_cb(bit, value),
            final(self).wf(),
    {
        let result = value & (1u8 << bit);
        self.set_flag(&Flag::Z, result == 0);
        self.set_flag(&Flag::N, false);
        self.set_flag(&Flag::H, true);
    }

    /// `RES b`: `value` with bit `bit` cleared. No flag changes.
    pub fn reset_bit_cb(&self, bit: u8, value: u8) -> (result: u8)
        requires
            bit < 8,
        ensures
            result == spec_reset_bit(bit, value),
    {
        let result = value & !(1u8 << bit);
        result
    }

    /// `SET b`: `value` with bit `bit` set. No flag changes.
    pub fn set_bit_cb(&self, bit: u8, value: u8) -> (result: u8)
        requires
            bit < 8,
        ensures
            result == spec_set_bit(bit, value),
    {
        let result = value | (1u8 << bit);
        result
    }
}

/// Rotating a byte left and then right, or right and then left, or
/// swapping its nibbles twice, gives the byte back.
pub proof fn lemma_rotate_round_trip(value: u8)
    by (bit_vector)
    ensures
        spec_rotate_right(spec_rotate_left(value)) == value,
        spec_rotate_left(spec_rotate_right(value)) == value,
        spec_swap_nibbles(spec_swap_nibbles(value)) == value,
{
}

/// `RLC` followed by `RRC`, and `SWAP` twice, give the operand back whatever
/// the carry flag holds in between.
pub proof fn lemma_byte_operation_round_trip(value: u8, first: bool, second: bool)
    ensures
        spec_byte_operation_result(
            ByteOperation::RotateRightCircular,
            spec_byte_operation_result(ByteOperation::RotateLeftCircular, value, first),
            second,
        ) == value,
        spec_byte_operation_result(
            ByteOperation::SwapNibbles,
            spec_byte_operation_result(ByteOperation::SwapNibbles, value, first),
            second,
        ) == value,
{
    lemma_rotate_round_trip(value);
}

/// Setting a bit and then clearing it gives what clearing it alone gives:
/// the byte itself when the bit was clear. Clearing and then setting gives
/// the byte itself when the bit was set. After either change the bit reads
/// as it was written.
pub proof fn lemma_set_then_reset(bit: u8, value: u8)
    by (bit_vector)
    requires
        bit < 8,
    ensures
        spec_reset_bit(bit, spec_set_bit(bit, value)) == spec_reset_bit(bit, value),
        !spec_test_bit(bit, value) ==> spec_reset_bit(bit, spec_set_bit(bit, value)) == value,
        spec_test_bit(bit, value) ==> spec_set_bit(bit, spec_reset_bit(bit, value)) == value,
        spec_test_bit(bit, spec_set_bit(bit, value)),
        !spec_test_bit(bit, spec_reset_bit(bit, value)),
{
}

/// `BIT` changes nothing but F: every operand, the byte at (HL) included,
/// reads as before.
pub proof fn lemma_test_bit_keeps_operands(
    cpu: CPU,
    cells: Seq<u8>,
    index: u8,
    bit: u8,
    hl_cycles: u16,
    other: u8,
)
    requires
        index < 8,
        other < 8,
    ensures
        cpu.spec_run_bit_operation_on_index(cells, index, bit, hl_cycles).0.spec_read_operand(
            cells,
            other,
        ) == cpu.spec_read_operand(cells, other),
        cpu.spec_run_bit_operation_on_index(cells, index, bit, hl_cycles).0 == (CPU {
            f: cpu.spec_run_bit_operation_on_index(cells, index, bit, hl_cycles).0.f,
            ..cpu
        }),
{
}

} // verus!
