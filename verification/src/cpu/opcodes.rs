//! The base opcode table.
//!
//! An opcode is read as three fields: bits 7..6 pick one of four blocks,
//! bits 5..3 and bits 2..0 pick row and column inside it. Operands follow
//! the opcode and are fetched from PC; every instruction hands back its
//! cost in T-cycles.
use vstd::prelude::*;
use crate::bytes::{lemma_word_round_trip, signed, spec_signed, spec_wrap16};
use crate::cpu::control::{lemma_call_then_ret, ControlAction};
use crate::cpu::registers::{
    lemma_flag_bytes_are_clear_below,
    lemma_pair_round_trip,
    lemma_push_then_pop,
    register_af,
    register_bc,
    register_de,
    register_hl,
    spec_register_af,
    spec_register_bc,
    spec_register_de,
    spec_register_hl,
    Flag,
    Register,
    RegisterPair,
    CPU,
};
use crate::memory::{bus_read, bus_read_word, bus_write, bus_write_word, spec_is_plain, Memory};

verus! {

/// Why an instruction could not be executed.
#[derive(Clone, Copy, Debug, PartialEq, Eq)]
pub enum CpuError {
    /// The decoder met one of the eleven unused opcodes; `pc` is where it
    /// was fetched.
    IllegalInstruction { opcode: u8, pc: u16 },
    /// The byte after `STOP` was not zero; `pc` is where `STOP` was fetched.
    UnexpectedStopOperand { operand: u8, pc: u16 },
}

/// What one instruction leaves behind: register file, cells, and the cost or
/// the failure.
pub type Executed = (CPU, Seq<u8>, Result<u16, CpuError>);

/// Bits 7..6 of an opcode.
pub open spec fn spec_block(opcode: u8) -> u8 {
    opcode / 64
}

/// Bits 5..3 of an opcode.
pub open spec fn spec_row(opcode: u8) -> u8 {
    (opcode / 8) % 8
}

/// Bits 2..0 of an opcode.
pub open spec fn spec_column(opcode: u8) -> u8 {
    opcode % 8
}

/// The eleven opcodes that no instruction uses.
pub open spec fn spec_is_illegal(opcode: u8) -> bool {
    opcode == 0xD3 || opcode == 0xDB || opcode == 0xDD || opcode == 0xE3 || opcode == 0xE4
        || opcode == 0xEB || opcode == 0xEC || opcode == 0xED || opcode == 0xF4 || opcode == 0xFC
        || opcode == 0xFD
}

/// The flag that a condition code tests: Z for NZ and Z, C for NC and C.
pub open spec fn spec_condition_flag(selector: u8) -> Flag {
    if selector < 2 {
        Flag::Z
    } else {
        Flag::C
    }
}

/// The value that the tested flag must have: clear for NZ and NC, set for Z
/// and C.
pub open spec fn spec_condition_value(selector: u8) -> bool {
    selector % 2 == 1
}

/// The pair that `PUSH` and `POP` name: BC, DE, HL, AF.
pub open spec fn spec_stack_pair(selector: u8) -> RegisterPair {
    if selector == 0 {
        spec_register_bc()
    } else if selector == 1 {
        spec_register_de()
    } else if selector == 2 {
        spec_register_hl()
    } else {
        spec_register_af()
    }
}

/// The address of the page of I/O registers and high RAM, plus `offset`.
pub open spec fn spec_high_page(offset: u8) -> u16 {
    (0xFF00 + offset) as u16
}

impl CPU {
    /// An instruction that ran: its cost is added to the accumulator and
    /// handed back.
    pub open spec fn spec_done(self, cells: Seq<u8>, cost: u16) -> Executed {
        (self.spec_spend(cost), cells, Ok(cost))
    }

    /// An unused opcode: nothing changes, and the failure names the opcode
    /// and the address before PC.
    pub open spec fn spec_illegal(self, cells: Seq<u8>, opcode: u8) -> Executed {
        (self, cells, Err(CpuError::IllegalInstruction { opcode, pc: self.pc.wrapping_sub(1) }))
    }

    /// Whether the instruction `opcode` fails: it is one of the unused
    /// opcodes, or it is `STOP` and the byte behind it is not zero.
    pub open spec fn spec_fails(self, cells: Seq<u8>, opcode: u8) -> bool {
        spec_is_illegal(opcode) || (opcode == 0x10 && bus_read(cells, self.pc) != 0)
    }

    /// Whether the condition code holds: NZ, Z, NC, C.
    pub open spec fn spec_condition(self, selector: u8) -> bool {
        self.spec_get_flag(spec_condition_flag(selector)) == spec_condition_value(selector)
    }

    /// The 16-bit register that a load or an addition names: BC, DE, HL, SP.
    pub open spec fn spec_read_wide(self, selector: u8) -> u16 {
        if selector == 0 {
            self.spec_read_register_pair(spec_register_bc())
        } else if selector == 1 {
            self.spec_read_register_pair(spec_register_de())
        } else if selector == 2 {
            self.spec_read_register_pair(spec_register_hl())
        } else {
            self.sp
        }
    }

    /// The register file after `value` goes into BC, DE, HL or SP.
    pub open spec fn spec_write_wide(self, selector: u8, value: u16) -> CPU {
        if selector == 0 {
            self.spec_write_register_pair(spec_register_bc(), value)
        } else if selector == 1 {
            self.spec_write_register_pair(spec_register_de(), value)
        } else if selector == 2 {
            self.spec_write_register_pair(spec_register_hl(), value)
        } else {
            CPU { sp: value, ..self }
        }
    }

    /// The accumulator combined with `value`: ADD, ADC, SUB, SBC, AND, XOR,
    /// OR, CP.
    pub open spec fn spec_alu(self, selector: u8, value: u8) -> CPU {
        if selector == 0 {
            self.spec_add_u8_to_register(Register::A, value)
        } else if selector == 1 {
            self.spec_add_u8_to_register_with_carry(Register::A, value)
        } else if selector == 2 {
            self.spec_sub_u8_from_register(Register::A, value)
        } else if selector == 3 {
            self.spec_sub_u8_from_register_with_carry(Register::A, value)
        } else if selector == 4 {
            self.spec_and_u8_with_register(Register::A, value)
        } else if selector == 5 {
            self.spec_xor_u8_with_register(Register::A, value)
        } else if selector == 6 {
            self.spec_or_u8_with_register(Register::A, value)
        } else {
            self.spec_compare_u8_with_register(Register::A, value)
        }
    }

    /// The address that an indirect load of the accumulator uses: BC, DE, or
    /// HL for the two forms that step HL afterwards.
    pub open spec fn spec_indirect_address(self, selector: u8) -> u16 {
        if selector == 0 {
            self.spec_read_register_pair(spec_register_bc())
        } else if selector == 1 {
            self.spec_read_register_pair(spec_register_de())
        } else {
            self.spec_read_register_pair(spec_register_hl())
        }
    }

    /// HL one higher for `(HL+)`, one lower for `(HL-)`, nothing for BC and DE.
    pub open spec fn spec_indirect_step(self, selector: u8) -> CPU {
        if selector == 2 {
            self.spec_increment_register_pair(spec_register_hl())
        } else if selector == 3 {
            self.spec_decrement_register_pair(spec_register_hl())
        } else {
            self
        }
    }

    /// `NOP`, `LD (nn),SP`, `STOP`, `JR e`, `JR cc,e`.
    pub open spec fn spec_relative_column(self, cells: Seq<u8>, opcode: u8) -> Executed {
        let row = spec_row(opcode);
        if row == 0 {
            self.spec_done(cells, 4)
        } else if row == 1 {
            let (fetched, address) = self.spec_fetch_word(cells);
            fetched.spec_done(bus_write_word(cells, address, fetched.sp), 20)
        } else if row == 2 {
            let (fetched, operand) = self.spec_fetch_byte(cells);
            if operand != 0 {
                (
                    fetched,
                    cells,
                    Err(
                        CpuError::UnexpectedStopOperand { operand, pc: self.pc.wrapping_sub(1) },
                    ),
                )
            } else {
                fetched.spec_stop().spec_done(cells, 4)
            }
        } else {
            let (fetched, offset) = self.spec_fetch_byte(cells);
            if row == 3 || fetched.spec_condition((row - 4) as u8) {
                fetched.spec_jump_relative(spec_signed(offset) as i8).spec_done(cells, 12)
            } else {
                fetched.spec_done(cells, 8)
            }
        }
    }

    /// `LD rr,nn` and `ADD HL,rr`.
    pub open spec fn spec_wide_load_column(self, cells: Seq<u8>, opcode: u8) -> Executed {
        let row = spec_row(opcode);
        if row % 2 == 0 {
            let (fetched, value) = self.spec_fetch_word(cells);
            fetched.spec_write_wide(row / 2, value).spec_done(cells, 12)
        } else {
            self.spec_add_u16_to_register_pair(
                spec_register_hl(),
                self.spec_read_wide(row / 2),
            ).spec_done(cells, 8)
        }
    }

    /// `LD (BC),A`, `LD (DE),A`, `LD (HL+),A`, `LD (HL-),A` and the four
    /// loads the other way.
    pub open spec fn spec_indirect_column(self, cells: Seq<u8>, opcode: u8) -> Executed {
        let row = spec_row(opcode);
        let address = self.spec_indirect_address(row / 2);
        if row % 2 == 0 {
            self.spec_indirect_step(row / 2).spec_done(bus_write(cells, address, self.a), 8)
        } else {
            self.spec_write_register(Register::A, bus_read(cells, address)).spec_indirect_step(
                row / 2,
            ).spec_done(cells, 8)
        }
    }

    /// `INC rr` and `DEC rr`.
    pub open spec fn spec_wide_step_column(self, cells: Seq<u8>, opcode: u8) -> Executed {
        let row = spec_row(opcode);
        let value = self.spec_read_wide(row / 2);
        if row % 2 == 0 {
            self.spec_write_wide(row / 2, value.wrapping_add(1)).spec_done(cells, 8)
        } else {
            self.spec_write_wide(row / 2, value.wrapping_sub(1)).spec_done(cells, 8)
        }
    }

    /// `INC r`, `INC (HL)`, `DEC r`, `DEC (HL)`.
    pub open spec fn spec_step_column(self, cells: Seq<u8>, opcode: u8) -> Executed {
        let row = spec_row(opcode);
        let up = spec_column(opcode) == 4;
        match crate::cpu::opcodes_cb::spec_get_register(row) {
            Some(register) => if up {
                self.spec_increment_register(register).spec_done(cells, 4)
            } else {
                self.spec_decrement_register(register).spec_done(cells, 4)
            },
            None => {
                let address = self.spec_read_register_pair(spec_register_hl());
                let (stepped, stored) = if up {
                    self.spec_increment_byte_at_address(cells, address)
                } else {
                    self.spec_decrement_byte_at_address(cells, address)
                };
                stepped.spec_done(stored, 12)
            },
        }
    }

    /// `LD r,n` and `LD (HL),n`.
    pub open spec fn spec_immediate_column(self, cells: Seq<u8>, opcode: u8) -> Executed {
        let row = spec_row(opcode);
        let (fetched, value) = self.spec_fetch_byte(cells);
        let (written, stored) = fetched.spec_write_operand(cells, row, value);
        written.spec_done(
            stored,
            if row == 6 {
                12
            } else {
                8
            },
        )
    }

    /// `RLCA`, `RRCA`, `RLA`, `RRA`, `DAA`, `CPL`, `SCF`, `CCF`.
    pub open spec fn spec_accumulator_column(self, cells: Seq<u8>, opcode: u8) -> Executed {
        let row = spec_row(opcode);
        let done = if row == 0 {
            self.spec_rotate_left_circular(Register::A)
        } else if row == 1 {
            self.spec_rotate_right_circular(Register::A)
        } else if row == 2 {
            self.spec_rotate_left_through_carry(Register::A)
        } else if row == 3 {
            self.spec_rotate_right_through_carry(Register::A)
        } else if row == 4 {
            self.spec_daa(Register::A)
        } else if row == 5 {
            self.spec_complement_register(Register::A)
        } else if row == 6 {
            self.spec_set_carry_flag()
        } else {
            self.spec_complement_carry_flag()
        };
        done.spec_done(cells, 4)
    }

    /// `LD r,r'` with either side possibly (HL), and `HALT` in the place of
    /// `LD (HL),(HL)`.
    pub open spec fn spec_load_block(self, cells: Seq<u8>, opcode: u8) -> Executed {
        let row = spec_row(opcode);
        let column = spec_column(opcode);
        if row == 6 && column == 6 {
            self.spec_halt().spec_done(cells, 4)
        } else {
            let (written, stored) = self.spec_write_operand(
                cells,
                row,
                self.spec_read_operand(cells, column),
            );
            written.spec_done(
                stored,
                if row == 6 || column == 6 {
                    8
                } else {
                    4
                },
            )
        }
    }

    /// The eight accumulator operations with a register or (HL).
    pub open spec fn spec_alu_block(self, cells: Seq<u8>, opcode: u8) -> Executed {
        let column = spec_column(opcode);
        self.spec_alu(spec_row(opcode), self.spec_read_operand(cells, column)).spec_done(
            cells,
            if column == 6 {
                8
            } else {
                4
            },
        )
    }

    /// `RET cc`, `LDH (n),A`, `ADD SP,e`, `LDH A,(n)`, `LD HL,SP+e`.
    pub open spec fn spec_return_column(self, cells: Seq<u8>, opcode: u8) -> Executed {
        let row = spec_row(opcode);
        if row < 4 {
            if self.spec_condition(row) {
                self.spec_ret(cells).spec_done(cells, 20)
            } else {
                self.spec_done(cells, 8)
            }
        } else {
            let (fetched, operand) = self.spec_fetch_byte(cells);
            if row == 4 {
                fetched.spec_done(bus_write(cells, spec_high_page(operand), fetched.a), 12)
            } else if row == 6 {
                fetched.spec_write_register(
                    Register::A,
                    bus_read(cells, spec_high_page(operand)),
                ).spec_done(cells, 12)
            } else {
                let flagged = fetched.spec_flags_after_sp_offset(operand, fetched.sp);
                let moved = spec_wrap16(fetched.sp + spec_signed(operand));
                if row == 5 {
                    (CPU { sp: moved, ..flagged }).spec_done(cells, 16)
                } else {
                    flagged.spec_write_register_pair(spec_register_hl(), moved).spec_done(
                        cells,
                        12,
                    )
                }
            }
        }
    }

    /// `POP rr`, `RET`, `RETI`, `JP HL`, `LD SP,HL`.
    pub open spec fn spec_pop_column(self, cells: Seq<u8>, opcode: u8) -> Executed {
        let row = spec_row(opcode);
        if row % 2 == 0 {
            let (popped, value) = self.spec_pop_u16(cells);
            popped.spec_write_register_pair(spec_stack_pair(row / 2), value).spec_done(cells, 12)
        } else if row == 1 {
            self.spec_ret(cells).spec_done(cells, 16)
        } else if row == 3 {
            self.spec_reti(cells).spec_done(cells, 16)
        } else if row == 5 {
            self.spec_jump_to_address(self.spec_read_register_pair(spec_register_hl())).spec_done(
                cells,
                4,
            )
        } else {
            (CPU { sp: self.spec_read_register_pair(spec_register_hl()), ..self }).spec_done(
                cells,
                8,
            )
        }
    }

    /// `JP cc,nn`, `LD (FF00+C),A`, `LD (nn),A`, `LD A,(FF00+C)`, `LD A,(nn)`.
    pub open spec fn spec_jump_column(self, cells: Seq<u8>, opcode: u8) -> Executed {
        let row = spec_row(opcode);
        if row == 4 {
            self.spec_done(bus_write(cells, spec_high_page(self.c), self.a), 8)
        } else if row == 6 {
            self.spec_write_register(
                Register::A,
                bus_read(cells, spec_high_page(self.c)),
            ).spec_done(cells, 8)
        } else {
            let (fetched, address) = self.spec_fetch_word(cells);
            if row < 4 {
                if fetched.spec_condition(row) {
                    fetched.spec_jump_to_address(address).spec_done(cells, 16)
                } else {
                    fetched.spec_done(cells, 12)
                }
            } else if row == 5 {
                fetched.spec_done(bus_write(cells, address, fetched.a), 16)
            } else {
                fetched.spec_write_register(Register::A, bus_read(cells, address)).spec_done(
                    cells,
                    16,
                )
            }
        }
    }

    /// `JP nn`, the CB prefix, `DI`, `EI`, and four unused opcodes.
    pub open spec fn spec_switch_column(self, cells: Seq<u8>, opcode: u8) -> Executed {
        let row = spec_row(opcode);
        if row == 0 {
            let (fetched, address) = self.spec_fetch_word(cells);
            fetched.spec_jump_to_address(address).spec_done(cells, 16)
        } else if row == 1 {
            let (fetched, second) = self.spec_fetch_byte(cells);
            let (done, stored, cost) = fetched.spec_execute_cb_opcode(cells, second);
            (done, stored, Ok(cost))
        } else if row == 6 {
            self.spec_disable_interrupts().spec_done(cells, 4)
        } else if row == 7 {
            self.spec_enable_interrupts().spec_done(cells, 4)
        } else {
            self.spec_illegal(cells, opcode)
        }
    }

    /// `CALL cc,nn`, and four unused opcodes.
    pub open spec fn spec_call_column(self, cells: Seq<u8>, opcode: u8) -> Executed {
        let row = spec_row(opcode);
        if row < 4 {
            let (fetched, address) = self.spec_fetch_word(cells);
            if fetched.spec_condition(row) {
                let (called, stored) = fetched.spec_call(cells, address);
                called.spec_done(stored, 24)
            } else {
                fetched.spec_done(cells, 12)
            }
        } else {
            self.spec_illegal(cells, opcode)
        }
    }

    /// `PUSH rr`, `CALL nn`, and three unused opcodes.
    pub open spec fn spec_push_column(self, cells: Seq<u8>, opcode: u8) -> Executed {
        let row = spec_row(opcode);
        if row % 2 == 0 {
            let (pushed, stored) = self.spec_push_u16(
                cells,
                self.spec_read_register_pair(spec_stack_pair(row / 2)),
            );
            pushed.spec_done(stored, 16)
        } else if row == 1 {
            let (fetched, address) = self.spec_fetch_word(cells);
            let (called, stored) = fetched.spec_call(cells, address);
            called.spec_done(stored, 24)
        } else {
            self.spec_illegal(cells, opcode)
        }
    }

    /// The eight accumulator operations with the byte after the opcode.
    pub open spec fn spec_alu_immediate_column(self, cells: Seq<u8>, opcode: u8) -> Executed {
        let (fetched, value) = self.spec_fetch_byte(cells);
        fetched.spec_alu(spec_row(opcode), value).spec_done(cells, 8)
    }

    /// `RST`: a call to one of the eight fixed addresses 0x00, 0x08, .. 0x38.
    pub open spec fn spec_restart_column(self, cells: Seq<u8>, opcode: u8) -> Executed {
        let (called, stored) = self.spec_call(cells, (spec_row(opcode) * 8) as u16);
        called.spec_done(stored, 16)
    }

    /// What the instruction `opcode` does once the opcode itself has been
    /// fetched: register file, cells, and the cost in T-cycles or the failure.
    pub open spec fn spec_execute(self, cells: Seq<u8>, opcode: u8) -> Executed {
        let block = spec_block(opcode);
        let column = spec_column(opcode);
        if block == 0 {
            if column == 0 {
                self.spec_relative_column(cells, opcode)
            } else if column == 1 {
                self.spec_wide_load_column(cells, opcode)
            } else if column == 2 {
                self.spec_indirect_column(cells, opcode)
            } else if column == 3 {
                self.spec_wide_step_column(cells, opcode)
            } else if column == 4 || column == 5 {
                self.spec_step_column(cells, opcode)
            } else if column == 6 {
                self.spec_immediate_column(cells, opcode)
            } else {
                self.spec_accumulator_column(cells, opcode)
            }
        } else if block == 1 {
            self.spec_load_block(cells, opcode)
        } else if block == 2 {
            self.spec_alu_block(cells, opcode)
        } else {
            if column == 0 {
                self.spec_return_column(cells, opcode)
            } else if column == 1 {
                self.spec_pop_column(cells, opcode)
            } else if column == 2 {
                self.spec_jump_column(cells, opcode)
            } else if column == 3 {
                self.spec_switch_column(cells, opcode)
            } else if column == 4 {
                self.spec_call_column(cells, opcode)
            } else if column == 5 {
                self.spec_push_column(cells, opcode)
            } else if column == 6 {
                self.spec_alu_immediate_column(cells, opcode)
            } else {
                self.spec_restart_column(cells, opcode)
            }
        }
    }
}

/// The flag and the value that a condition code tests.
pub fn condition(selector: u8) -> (tested: (Flag, bool))
    requires
        selector < 4,
    ensures
        tested == (spec_condition_flag(selector), spec_condition_value(selector)),
{
    match selector {
        0 => (Flag::Z, false),
        1 => (Flag::Z, true),
        2 => (Flag::C, false),
        _ => (Flag::C, true),
    }
}

/// The pair that `PUSH` and `POP` name.
pub fn stack_pair(selector: u8) -> (pair: RegisterPair)
    requires
        selector < 4,
    ensures
        pair == spec_stack_pair(selector),
{
    match selector {
        0 => register_bc(),
        1 => register_de(),
        2 => register_hl(),
        _ => register_af(),
    }
}

/// The address `0xFF00 + offset`.
pub fn high_page(offset: u8) -> (address: u16)
    ensures
        address == spec_high_page(offset),
{
    0xFF00 + offset as u16
}

impl CPU {
    fn illegal(&self, opcode: u8) -> (error: CpuError)
        ensures
            error == (CpuError::IllegalInstruction { opcode, pc: self.pc.wrapping_sub(1) }),
    {
        CpuError::IllegalInstruction { opcode, pc: self.pc.wrapping_sub(1) }
    }

    /// Reads BC, DE, HL or SP.
    pub fn read_wide(&self, selector: u8) -> (value: u16)
        requires
            selector < 4,
        ensures
            value == self.spec_read_wide(selector),
    {
        match selector {
            0 => self.read_register_pair(&register_bc()),
            1 => self.read_register_pair(&register_de()),
            2 => self.read_register_pair(&register_hl()),
            _ => self.sp,
        }
    }

    /// Writes BC, DE, HL or SP.
    pub fn write_wide(&mut self, selector: u8, value: u16)
        requires
            selector < 4,
        ensures
            *final(self) == old(self).spec_write_wide(selector, value),
            final(self).f == old(self).f,
    {
        match selector {
            0 => self.write_register_pair(&register_bc(), value),
            1 => self.write_register_pair(&register_de(), value),
            2 => self.write_register_pair(&register_hl(), value),
            _ => self.sp = value,
        }
    }

    /// Combines the accumulator with `value` by one of the eight operations.
    pub fn alu(&mut self, selector: u8, value: u8)
        requires
            old(self).wf(),
            selector < 8,
        ensures
            *final(self) == old(self).spec_alu(selector, value),
            final(self).wf(),
    {
        match selector {
            0 => self.add_u8_to_register(&Register::A, value),
            1 => self.add_u8_to_register_with_carry(&Register::A, value),
            2 => self.sub_u8_from_register(&Register::A, value),
            3 => self.sub_u8_from_register_with_carry(&Register::A, value),
            4 => self.and_u8_with_register(&Register::A, value),
            5 => self.xor_u8_with_register(&Register::A, value),
            6 => self.or_u8_with_register(&Register::A, value),
            _ => self.compare_u8_with_register(&Register::A, value),
        }
    }

    fn indirect_address(&self, selector: u8) -> (address: u16)
        requires
            selector < 4,
        ensures
            address == self.spec_indirect_address(selector),
    {
        match selector {
            0 => self.read_register_pair(&register_bc()),
            1 => self.read_register_pair(&register_de()),
            _ => self.read_register_pair(&register_hl()),
        }
    }

    fn indirect_step(&mut self, selector: u8)
        requires
            selector < 4,
        ensures
            *final(self) == old(self).spec_indirect_step(selector),
            final(self).f == old(self).f,
    {
        match selector {
            2 => self.increment_register_pair(&register_hl()),
            3 => self.decrement_register_pair(&register_hl()),
            _ => {},
        }
    }

    fn relative_column(&mut self, opcode: u8, memory: &mut Memory) -> (result: Result<
        u16,
        CpuError,
    >)
        requires
            old(self).wf(),
            spec_block(opcode) == 0,
            spec_column(opcode) == 0,
        ensures
            (*final(self), final(memory)@, result) == old(self).spec_relative_column(
                old(memory)@,
                opcode,
            ),
            final(self).wf(),
    {
        let row = (opcode / 8) % 8;
        match row {
            0 => Ok(self.spend(4)),
            1 => {
                let address = self.fetch_word(memory);
                memory.write_word(address, self.sp);
                Ok(self.spend(20))
            },
            2 => {
                let pc = self.pc.wrapping_sub(1);
                let operand = self.fetch_byte(memory);
                if operand != 0x00 {
                    return Err(CpuError::UnexpectedStopOperand { operand, pc });
                }
                self.stop();
                Ok(self.spend(4))
            },
            3 => {
                let offset = signed(self.fetch_byte(memory));
                self.jump_relative(offset);
                Ok(self.spend(12))
            },
            _ => {
                let offset = signed(self.fetch_byte(memory));
                let taken = match row {
                    4 => self.jump_relative_if_not_zero(offset),
                    5 => self.jump_relative_if_zero(offset),
                    6 => self.jump_relative_if_not_carry(offset),
                    _ => self.jump_relative_if_carry(offset),
                };
                if taken {
                    Ok(self.spend(12))
                } else {
                    Ok(self.spend(8))
                }
            },
        }
    }

    fn wide_load_column(&mut self, opcode: u8, memory: &mut Memory) -> (result: Result<
        u16,
        CpuError,
    >)
        requires
            old(self).wf(),
            spec_block(opcode) == 0,
            spec_column(opcode) == 1,
        ensures
            (*final(self), final(memory)@, result) == old(self).spec_wide_load_column(
                old(memory)@,
                opcode,
            ),
            final(self).wf(),
    {
        let row = (opcode / 8) % 8;
        if row % 2 == 0 {
            let value = self.fetch_word(memory);
            self.write_wide(row / 2, value);
            Ok(self.spend(12))
        } else {
            let value = self.read_wide(row / 2);
            self.add_u16_to_register_pair(&register_hl(), value);
            Ok(self.spend(8))
        }
    }

    fn indirect_column(&mut self, opcode: u8, memory: &mut Memory) -> (result: Result<
        u16,
        CpuError,
    >)
        requires
            old(self).wf(),
            spec_block(opcode) == 0,
            spec_column(opcode) == 2,
        ensures
            (*final(self), final(memory)@, result) == old(self).spec_indirect_column(
                old(memory)@,
                opcode,
            ),
            final(self).wf(),
    {
        let row = (opcode / 8) % 8;
        let address = self.indirect_address(row / 2);
        if row % 2 == 0 {
            memory.write_byte(address, self.a);
        } else {
            let value = memory.read_byte(address);
            self.write_register(&Register::A, value);
        }
        self.indirect_step(row / 2);
        Ok(self.spend(8))
    }

    fn wide_step_column(&mut self, opcode: u8, memory: &mut Memory) -> (result: Result<
        u16,
        CpuError,
    >)
        requires
            old(self).wf(),
            spec_block(opcode) == 0,
            spec_column(opcode) == 3,
        ensures
            (*final(self), final(memory)@, result) == old(self).spec_wide_step_column(
                old(memory)@,
                opcode,
            ),
            final(self).wf(),
    {
        let row = (opcode / 8) % 8;
        let value = self.read_wide(row / 2);
        if row % 2 == 0 {
            self.write_wide(row / 2, value.wrapping_add(1));
        } else {
            self.write_wide(row / 2, value.wrapping_sub(1));
        }
        Ok(self.spend(8))
    }

    fn step_column(&mut self, opcode: u8, memory: &mut Memory) -> (result: Result<u16, CpuError>)
        requires
            old(self).wf(),
            spec_block(opcode) == 0,
            spec_column(opcode) == 4 || spec_column(opcode) == 5,
        ensures
            (*final(self), final(memory)@, result) == old(self).spec_step_column(
                old(memory)@,
                opcode,
            ),
            final(self).wf(),
    {
        let row = (opcode / 8) % 8;
        let up = opcode % 8 == 4;
        if let Some(register) = self.get_register(row) {
            if up {
                self.increment_register(&register);
            } else {
                self.decrement_register(&register);
            }
            Ok(self.spend(4))
        } else {
            if up {
                self.increment_byte_pointed_by_register_pair(memory, &register_hl());
            } else {
                self.decrement_byte_pointed_by_register_pair(memory, &register_hl());
            }
            Ok(self.spend(12))
        }
    }

    fn immediate_column(&mut self, opcode: u8, memory: &mut Memory) -> (result: Result<
        u16,
        CpuError,
    >)
        requires
            old(self).wf(),
            spec_block(opcode) == 0,
            spec_column(opcode) == 6,
        ensures
            (*final(self), final(memory)@, result) == old(self).spec_immediate_column(
                old(memory)@,
                opcode,
            ),
            final(self).wf(),
    {
        let row = (opcode / 8) % 8;
        let value = self.fetch_byte(memory);
        self.write_operand(memory, row, value);
        if row == 6 {
            Ok(self.spend(12))
        } else {
            Ok(self.spend(8))
        }
    }

    fn accumulator_column(&mut self, opcode: u8, memory: &mut Memory) -> (result: Result<
        u16,
        CpuError,
    >)
        requires
            old(self).wf(),
            spec_block(opcode) == 0,
            spec_column(opcode) == 7,
        ensures
            (*final(self), final(memory)@, result) == old(self).spec_accumulator_column(
                old(memory)@,
                opcode,
            ),
            final(self).wf(),
    {
        let row = (opcode / 8) % 8;
        match row {
            0 => self.rotate_left_circular(&Register::A),
            1 => self.rotate_right_circular(&Register::A),
            2 => self.rotate_left_through_carry(&Register::A),
            3 => self.rotate_right_through_carry(&Register::A),
            4 => self.daa(&Register::A),
            5 => self.complement_register(&Register::A),
            6 => self.set_carry_flag(),
            _ => self.complement_carry_flag(),
        }
        Ok(self.spend(4))
    }

    fn load_block(&mut self, opcode: u8, memory: &mut Memory) -> (result: Result<u16, CpuError>)
        requires
            old(self).wf(),
            spec_block(opcode) == 1,
        ensures
            (*final(self), final(memory)@, result) == old(self).spec_load_block(
                old(memory)@,
                opcode,
            ),
            final(self).wf(),
    {
        let row = (opcode / 8) % 8;
        let column = opcode % 8;
        if row == 6 && column == 6 {
            self.halt();
            return Ok(self.spend(4));
        }
        let value = self.read_operand(memory, column);
        self.write_operand(memory, row, value);
        if row == 6 || column == 6 {
            Ok(self.spend(8))
        } else {
            Ok(self.spend(4))
        }
    }

    fn alu_block(&mut self, opcode: u8, memory: &mut Memory) -> (result: Result<u16, CpuError>)
        requires
            old(self).wf(),
            spec_block(opcode) == 2,
        ensures
            (*final(self), final(memory)@, result) == old(self).spec_alu_block(
                old(memory)@,
                opcode,
            ),
            final(self).wf(),
    {
        let row = (opcode / 8) % 8;
        let column = opcode % 8;
        let value = self.read_operand(memory, column);
        self.alu(row, value);
        if column == 6 {
            Ok(self.spend(8))
        } else {
            Ok(self.spend(4))
        }
    }

    fn return_column(&mut self, opcode: u8, memory: &mut Memory) -> (result: Result<
        u16,
        CpuError,
    >)
        requires
            old(self).wf(),
            spec_block(opcode) == 3,
            spec_column(opcode) == 0,
        ensures
            (*final(self), final(memory)@, result) == old(self).spec_return_column(
                old(memory)@,
                opcode,
            ),
            final(self).wf(),
    {
        let row = (opcode / 8) % 8;
        if row < 4 {
            let (flag, value) = condition(row);
            if self.execute_if_flag_set_to_condition(value, &flag, ControlAction::Return, memory) {
                Ok(self.spend(20))
            } else {
                Ok(self.spend(8))
            }
        } else {
            let operand = self.fetch_byte(memory);
            match row {
                4 => {
                    memory.write_byte(high_page(operand), self.a);
                    Ok(self.spend(12))
                },
                5 => {
                    let sp = self.sp;
                    self.sp = self.add_i8_to_sp(operand, sp);
                    Ok(self.spend(16))
                },
                6 => {
                    let value = memory.read_byte(high_page(operand));
                    self.write_register(&Register::A, value);
                    Ok(self.spend(12))
                },
                _ => {
                    let sp = self.sp;
                    let value = self.add_i8_to_sp(operand, sp);
                    self.write_register_pair(&register_hl(), value);
                    Ok(self.spend(12))
                },
            }
        }
    }

    fn pop_column(&mut self, opcode: u8, memory: &mut Memory) -> (result: Result<u16, CpuError>)
        requires
            old(self).wf(),
            spec_block(opcode) == 3,
            spec_column(opcode) == 1,
        ensures
            (*final(self), final(memory)@, result) == old(self).spec_pop_column(
                old(memory)@,
                opcode,
            ),
            final(self).wf(),
    {
        let row = (opcode / 8) % 8;
        if row % 2 == 0 {
            let value = self.pop_u16(memory);
            self.write_register_pair(&stack_pair(row / 2), value);
            Ok(self.spend(12))
        } else if row == 1 {
            self.ret(memory);
            Ok(self.spend(16))
        } else if row == 3 {
            self.reti(memory);
            Ok(self.spend(16))
        } else if row == 5 {
            let address = self.read_register_pair(&register_hl());
            self.jump_to_address(address);
            Ok(self.spend(4))
        } else {
            self.sp = self.read_register_pair(&register_hl());
            Ok(self.spend(8))
        }
    }

    fn jump_column(&mut self, opcode: u8, memory: &mut Memory) -> (result: Result<u16, CpuError>)
        requires
            old(self).wf(),
            spec_block(opcode) == 3,
            spec_column(opcode) == 2,
        ensures
            (*final(self), final(memory)@, result) == old(self).spec_jump_column(
                old(memory)@,
                opcode,
            ),
            final(self).wf(),
    {
        let row = (opcode / 8) % 8;
        if row == 4 {
            memory.write_byte(high_page(self.c), self.a);
            Ok(self.spend(8))
        } else if row == 6 {
            let value = memory.read_byte(high_page(self.c));
            self.write_register(&Register::A, value);
            Ok(self.spend(8))
        } else {
            let address = self.fetch_word(memory);
            if row < 4 {
                let (flag, value) = condition(row);
                if self.execute_if_flag_set_to_condition(
                    value,
                    &flag,
                    ControlAction::Jump(address),
                    memory,
                ) {
                    Ok(self.spend(16))
                } else {
                    Ok(self.spend(12))
                }
            } else if row == 5 {
                memory.write_byte(address, self.a);
                Ok(self.spend(16))
            } else {
                let value = memory.read_byte(address);
                self.write_register(&Register::A, value);
                Ok(self.spend(16))
            }
        }
    }

    fn switch_column(&mut self, opcode: u8, memory: &mut Memory) -> (result: Result<
        u16,
        CpuError,
    >)
        requires
            old(self).wf(),
            spec_block(opcode) == 3,
            spec_column(opcode) == 3,
        ensures
            (*final(self), final(memory)@, result) == old(self).spec_switch_column(
                old(memory)@,
                opcode,
            ),
            final(self).wf(),
    {
        let row = (opcode / 8) % 8;
        match row {
            0 => {
                let address = self.fetch_word(memory);
                self.jump_to_address(address);
                Ok(self.spend(16))
            },
            1 => {
                let second = self.fetch_byte(memory);
                Ok(self.execute_cb_opcode(second, memory))
            },
            6 => {
                self.disable_interrupts();
                Ok(self.spend(4))
            },
            7 => {
                self.enable_interrupts();
                Ok(self.spend(4))
            },
            _ => Err(self.illegal(opcode)),
        }
    }

    fn call_column(&mut self, opcode: u8, memory: &mut Memory) -> (result: Result<u16, CpuError>)
        requires
            old(self).wf(),
            spec_block(opcode) == 3,
            spec_column(opcode) == 4,
        ensures
            (*final(self), final(memory)@, result) == old(self).spec_call_column(
                old(memory)@,
                opcode,
            ),
            final(self).wf(),
    {
        let row = (opcode / 8) % 8;
        if row < 4 {
            let address = self.fetch_word(memory);
            let (flag, value) = condition(row);
            if self.execute_if_flag_set_to_condition(
                value,
                &flag,
                ControlAction::Call(address),
                memory,
            ) {
                Ok(self.spend(24))
            } else {
                Ok(self.spend(12))
            }
        } else {
            Err(self.illegal(opcode))
        }
    }

    fn push_column(&mut self, opcode: u8, memory: &mut Memory) -> (result: Result<u16, CpuError>)
        requires
            old(self).wf(),
            spec_block(opcode) == 3,
            spec_column(opcode) == 5,
        ensures
            (*final(self), final(memory)@, result) == old(self).spec_push_column(
                old(memory)@,
                opcode,
            ),
            final(self).wf(),
    {
        let row = (opcode / 8) % 8;
        if row % 2 == 0 {
            let value = self.read_register_pair(&stack_pair(row / 2));
            self.push_u16(memory, value);
            Ok(self.spend(16))
        } else if row == 1 {
            let address = self.fetch_word(memory);
            self.call(memory, address);
            Ok(self.spend(24))
        } else {
            Err(self.illegal(opcode))
        }
    }

    fn alu_immediate_column(&mut self, opcode: u8, memory: &mut Memory) -> (result: Result<
        u16,
        CpuError,
    >)
        requires
            old(self).wf(),
            spec_block(opcode) == 3,
            spec_column(opcode) == 6,
        ensures
            (*final(self), final(memory)@, result) == old(self).spec_alu_immediate_column(
                old(memory)@,
                opcode,
            ),
            final(self).wf(),
    {
        let row = (opcode / 8) % 8;
        let value = self.fetch_byte(memory);
        self.alu(row, value);
        Ok(self.spend(8))
    }

    fn restart_column(&mut self, opcode: u8, memory: &mut Memory) -> (result: Result<
        u16,
        CpuError,
    >)
        requires
            old(self).wf(),
            spec_block(opcode) == 3,
            spec_column(opcode) == 7,
        ensures
            (*final(self), final(memory)@, result) == old(self).spec_restart_column(
                old(memory)@,
                opcode,
            ),
            final(self).wf(),
    {
        let row = (opcode / 8) % 8;
        self.call(memory, (row * 8) as u16);
        Ok(self.spend(16))
    }

    /// Executes the instruction `opcode`, whose opcode byte has already been
    /// fetched, and hands back its cost in T-cycles. An unused opcode and a
    /// `STOP` with a non-zero operand are reported and charge nothing.
    pub fn execute(&mut self, opcode: u8, memory: &mut Memory) -> (result: Result<u16, CpuError>)
        requires
            old(self).wf(),
        ensures
            (*final(self), final(memory)@, result) == old(self).spec_execute(old(memory)@, opcode),
            result is Err <==> old(self).spec_fails(old(memory)@, opcode),
            final(self).wf(),
    {
        proof {
            lemma_execute_fails_exactly(*self, memory@, opcode);
        }
        let column = opcode % 8;
        match opcode / 64 {
            0 => match column {
                0 => self.relative_column(opcode, memory),
                1 => self.wide_load_column(opcode, memory),
                2 => self.indirect_column(opcode, memory),
                3 => self.wide_step_column(opcode, memory),
                4 | 5 => self.step_column(opcode, memory),
                6 => self.immediate_column(opcode, memory),
                _ => self.accumulator_column(opcode, memory),
            },
            1 => self.load_block(opcode, memory),
            2 => self.alu_block(opcode, memory),
            _ => match column {
                0 => self.return_column(opcode, memory),
                1 => self.pop_column(opcode, memory),
                2 => self.jump_column(opcode, memory),
                3 => self.switch_column(opcode, memory),
                4 => self.call_column(opcode, memory),
                5 => self.push_column(opcode, memory),
                6 => self.alu_immediate_column(opcode, memory),
                _ => self.restart_column(opcode, memory),
            },
        }
    }
}

/// An instruction fails exactly when its opcode is unused or it is a `STOP`
/// with a non-zero operand. An unused opcode changes nothing and is
/// reported with the address it was fetched from; a bad `STOP` has consumed
/// its operand and is reported with the operand and the address of `STOP`.
pub proof fn lemma_execute_fails_exactly(cpu: CPU, cells: Seq<u8>, opcode: u8)
    ensures
        cpu.spec_execute(cells, opcode).2 is Err <==> cpu.spec_fails(cells, opcode),
        spec_is_illegal(opcode) ==> cpu.spec_execute(cells, opcode) == cpu.spec_illegal(
            cells,
            opcode,
        ),
        opcode == 0x10 && bus_read(cells, cpu.pc) != 0 ==> cpu.spec_execute(cells, opcode) == (
            cpu.spec_fetch_byte(cells).0,
            cells,
            Err::<u16, CpuError>(
                CpuError::UnexpectedStopOperand {
                    operand: bus_read(cells, cpu.pc),
                    pc: cpu.pc.wrapping_sub(1),
                },
            ),
        ),
{
    assert(opcode == spec_block(opcode) * 64 + spec_row(opcode) * 8 + spec_column(opcode));
}

/// How many operand bytes follow the opcode.
pub open spec fn spec_operand_bytes(opcode: u8) -> int {
    let block = spec_block(opcode);
    let row = spec_row(opcode);
    let column = spec_column(opcode);
    if block == 0 {
        if column == 0 {
            if row == 0 {
                0
            } else if row == 1 {
                2
            } else {
                1
            }
        } else if column == 1 && row % 2 == 0 {
            2
        } else if column == 6 {
            1
        } else {
            0
        }
    } else if block == 3 {
        if column == 0 && row >= 4 {
            1
        } else if column == 2 && row != 4 && row != 6 {
            2
        } else if column == 3 && row == 0 {
            2
        } else if column == 3 && row == 1 {
            1
        } else if column == 4 && row < 4 {
            2
        } else if column == 5 && row == 1 {
            2
        } else if column == 6 {
            1
        } else {
            0
        }
    } else {
        0
    }
}

/// The length of an instruction in bytes, prefix and operands included.
pub open spec fn spec_instruction_length(opcode: u8) -> int {
    1 + spec_operand_bytes(opcode)
}

/// Whether the instruction is one that can send PC elsewhere: `JR`, `JP`,
/// `CALL`, `RET`, `RETI`, `RST`.
pub open spec fn spec_is_transfer(opcode: u8) -> bool {
    let block = spec_block(opcode);
    let row = spec_row(opcode);
    let column = spec_column(opcode);
    ||| block == 0 && column == 0 && row >= 3
    ||| block == 3 && (column == 0 || column == 2 || column == 4) && row < 4
    ||| block == 3 && column == 1 && (row == 1 || row == 3 || row == 5)
    ||| block == 3 && column == 3 && row == 0
    ||| block == 3 && column == 5 && row == 1
    ||| block == 3 && column == 7
}

/// Whether a transfer instruction takes its branch: always when it has no
/// condition, else when its condition holds.
pub open spec fn spec_transfer_taken(cpu: CPU, opcode: u8) -> bool {
    let block = spec_block(opcode);
    let row = spec_row(opcode);
    let column = spec_column(opcode);
    if block == 0 {
        row == 3 || cpu.spec_condition((row - 4) as u8)
    } else if column == 0 || column == 2 || column == 4 {
        cpu.spec_condition(row)
    } else {
        true
    }
}

/// An instruction that does not take a branch leaves PC just behind its
/// operands, whatever it is and whether or not it succeeds.
pub proof fn lemma_pc_advances_by_length(cpu: CPU, cells: Seq<u8>, opcode: u8)
    requires
        !(spec_is_transfer(opcode) && spec_transfer_taken(cpu, opcode)),
    ensures
        cpu.spec_execute(cells, opcode).0.pc == spec_wrap16(cpu.pc + spec_operand_bytes(opcode)),
{
    let block = spec_block(opcode);
    let column = spec_column(opcode);
    if block == 0 {
        if column == 0 {
            assert(cpu.spec_execute(cells, opcode) == cpu.spec_relative_column(cells, opcode));
        } else if column == 1 {
            assert(cpu.spec_execute(cells, opcode) == cpu.spec_wide_load_column(cells, opcode));
        } else if column == 2 {
            assert(cpu.spec_execute(cells, opcode) == cpu.spec_indirect_column(cells, opcode));
        } else if column == 3 {
            assert(cpu.spec_execute(cells, opcode) == cpu.spec_wide_step_column(cells, opcode));
        } else if column == 4 || column == 5 {
            assert(cpu.spec_execute(cells, opcode) == cpu.spec_step_column(cells, opcode));
        } else if column == 6 {
            assert(cpu.spec_execute(cells, opcode) == cpu.spec_immediate_column(cells, opcode));
        } else {
            assert(cpu.spec_execute(cells, opcode) == cpu.spec_accumulator_column(cells, opcode));
        }
    } else if block == 1 {
        assert(cpu.spec_execute(cells, opcode) == cpu.spec_load_block(cells, opcode));
    } else if block == 2 {
        assert(cpu.spec_execute(cells, opcode) == cpu.spec_alu_block(cells, opcode));
    } else {
        if column == 0 {
            assert(cpu.spec_execute(cells, opcode) == cpu.spec_return_column(cells, opcode));
        } else if column == 1 {
            assert(cpu.spec_execute(cells, opcode) == cpu.spec_pop_column(cells, opcode));
        } else if column == 2 {
            assert(cpu.spec_execute(cells, opcode) == cpu.spec_jump_column(cells, opcode));
        } else if column == 3 {
            assert(cpu.spec_execute(cells, opcode) == cpu.spec_switch_column(cells, opcode));
        } else if column == 4 {
            assert(cpu.spec_execute(cells, opcode) == cpu.spec_call_column(cells, opcode));
        } else if column == 5 {
            assert(cpu.spec_execute(cells, opcode) == cpu.spec_push_column(cells, opcode));
        } else if column == 6 {
            assert(cpu.spec_execute(cells, opcode) == cpu.spec_alu_immediate_column(
                cells,
                opcode,
            ));
        } else {
            assert(cpu.spec_execute(cells, opcode) == cpu.spec_restart_column(cells, opcode));
        }
    }
}

/// A branch that is taken starts from the address behind its operands: a
/// relative jump lands at that address plus its offset, and a call pushes
/// that address before PC becomes the target.
pub proof fn lemma_taken_branch_targets(cpu: CPU, cells: Seq<u8>, opcode: u8)
    requires
        spec_is_transfer(opcode),
        spec_transfer_taken(cpu, opcode),
    ensures
        spec_block(opcode) == 0 ==> cpu.spec_execute(cells, opcode).0.pc == spec_wrap16(
            cpu.pc + 1 + spec_signed(bus_read(cells, cpu.pc)),
        ),
        spec_block(opcode) == 3 && (spec_column(opcode) == 4 || spec_column(opcode) == 5) ==> {
            let behind = spec_wrap16(cpu.pc + 2);
            &&& cpu.spec_execute(cells, opcode).0.pc == bus_read_word(cells, cpu.pc)
            &&& cpu.spec_execute(cells, opcode).0.sp == cpu.sp.wrapping_sub(2)
            &&& cpu.spec_execute(cells, opcode).1 == cpu.spec_push_u16(cells, behind).1
        },
        spec_block(opcode) == 3 && spec_column(opcode) == 7 ==> {
            &&& cpu.spec_execute(cells, opcode).0.pc == spec_row(opcode) * 8
            &&& cpu.spec_execute(cells, opcode).1 == cpu.spec_push_u16(cells, cpu.pc).1
        },
        spec_block(opcode) == 3 && (spec_column(opcode) == 2 || spec_column(opcode) == 3)
            ==> cpu.spec_execute(cells, opcode).0.pc == bus_read_word(cells, cpu.pc),
        spec_block(opcode) == 3 && spec_column(opcode) == 0 ==> cpu.spec_execute(
            cells,
            opcode,
        ).0.pc == bus_read_word(cells, cpu.sp),
{
}

/// `PUSH rr` followed by `POP rr` leaves every register as it was, the low
/// nibble of F zero, and costs 16 and 12 T-cycles, when both stack slots
/// are plain memory.
#[verifier::rlimit(30)]
pub proof fn lemma_push_then_pop_instruction(cpu: CPU, cells: Seq<u8>, selector: u8)
    requires
        cpu.wf(),
        cells.len() == 0x10000,
        selector < 4,
        spec_is_plain(cpu.sp.wrapping_sub(1)),
        spec_is_plain(cpu.sp.wrapping_sub(2)),
    ensures
        ({
            let (pushed, stored, first) = cpu.spec_execute(cells, (0xC5 + 16 * selector) as u8);
            let (popped, kept, second) = pushed.spec_execute(
                stored,
                (0xC1 + 16 * selector) as u8,
            );
            &&& first == Ok::<u16, CpuError>(16)
            &&& second == Ok::<u16, CpuError>(12)
            &&& popped == cpu.spec_spend(16).spec_spend(12)
            &&& popped.wf()
        }),
{
    let pair = spec_stack_pair(selector);
    let value = cpu.spec_read_register_pair(pair);
    lemma_push_then_pop(cpu, cells, value);
    lemma_pair_round_trip(cpu, pair, value);
    let push = (0xC5 + 16 * selector) as u8;
    let pop = (0xC1 + 16 * selector) as u8;
    assert(spec_block(push) == 3 && spec_column(push) == 5 && spec_row(push) == 2 * selector);
    assert(spec_block(pop) == 3 && spec_column(pop) == 1 && spec_row(pop) == 2 * selector);
    let (after_push, stored) = cpu.spec_push_u16(cells, value);
    let pushed = after_push.spec_spend(16);
    assert(cpu.spec_execute(cells, push) == (pushed, stored, Ok::<u16, CpuError>(16)));
    assert(pushed.spec_pop_u16(stored) == (cpu.spec_spend(16), value));
}

/// `CALL nn` followed by `RET` leaves PC behind the operands of the call
/// and SP where it began, when both stack slots are plain memory.
pub proof fn lemma_call_then_ret_instruction(cpu: CPU, cells: Seq<u8>)
    requires
        cells.len() == 0x10000,
        spec_is_plain(cpu.sp.wrapping_sub(1)),
        spec_is_plain(cpu.sp.wrapping_sub(2)),
    ensures
        ({
            let (called, stored, first) = cpu.spec_execute(cells, 0xCD);
            let (returned, kept, second) = called.spec_execute(stored, 0xC9);
            &&& first == Ok::<u16, CpuError>(24)
            &&& second == Ok::<u16, CpuError>(16)
            &&& called.pc == bus_read_word(cells, cpu.pc)
            &&& returned.pc == spec_wrap16(cpu.pc + spec_operand_bytes(0xCD))
            &&& returned.sp == cpu.sp
        }),
{
    let (fetched, address) = cpu.spec_fetch_word(cells);
    lemma_call_then_ret(fetched, cells, address);
    assert(spec_block(0xCD) == 3 && spec_column(0xCD) == 5 && spec_row(0xCD) == 1);
    assert(spec_block(0xC9) == 3 && spec_column(0xC9) == 1 && spec_row(0xC9) == 1);
    let (after_call, stored) = fetched.spec_call(cells, address);
    let called = after_call.spec_spend(24);
    assert(cpu.spec_execute(cells, 0xCD) == (called, stored, Ok::<u16, CpuError>(24)));
    assert(called.spec_ret(stored) == fetched.spec_spend(24));
}

/// Every instruction leaves the low nibble of F zero.
pub proof fn lemma_execute_keeps_low_nibble_clear(cpu: CPU, cells: Seq<u8>, opcode: u8)
    requires
        cpu.wf(),
    ensures
        cpu.spec_execute(cells, opcode).0.wf(),
{
    lemma_flag_bytes_are_clear_below();
}

/// An instruction that succeeds adds its cost to the cycle accumulator; one
/// that fails adds nothing.
pub proof fn lemma_execute_accounts_cycles(cpu: CPU, cells: Seq<u8>, opcode: u8)
    ensures
        cpu.spec_execute(cells, opcode).0.cycles == match cpu.spec_execute(cells, opcode).2 {
            Ok(cost) => cpu.cycles.wrapping_add(cost as u64),
            Err(_) => cpu.cycles,
        },
{
}

/// `POP AF` leaves the low nibble of F zero whatever the stack holds and
/// whatever F held before.
pub proof fn lemma_pop_af_clears_low_nibble(cpu: CPU, cells: Seq<u8>)
    ensures
        cpu.spec_execute(cells, 0xF1).0.wf(),
        cpu.spec_execute(cells, 0xF1).0.a == bus_read(cells, cpu.sp.wrapping_add(1)),
        cpu.spec_execute(cells, 0xF1).0.f == bus_read(cells, cpu.sp) & 0xF0,
{
    lemma_flag_bytes_are_clear_below();
    assert(spec_block(0xF1) == 3 && spec_column(0xF1) == 1 && spec_row(0xF1) == 6);
    let value = bus_read_word(cells, cpu.sp);
    lemma_word_round_trip(value, bus_read(cells, cpu.sp.wrapping_add(1)), bus_read(cells, cpu.sp));
}

} // verus!
