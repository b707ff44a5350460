//! Jumps, calls, returns, and the switches for interrupts, HALT and STOP.
use vstd::prelude::*;
use crate::bytes::spec_wrap16;
use crate::cpu::registers::{lemma_push_then_pop, Flag, Interrupts, CPU};
use crate::memory::{bus_read, spec_is_plain, Memory};

verus! {

/// What a conditional instruction does when its condition holds.
#[derive(Clone, Copy, Debug, PartialEq, Eq)]
pub enum ControlAction {
    /// Pop the return address into PC.
    Return,
    /// Set PC to the address.
    Jump(u16),
    /// Push PC, then set PC to the address.
    Call(u16),
}

impl CPU {
    /// PC moved by a signed offset, wrapping.
    pub open spec fn spec_jump_relative(self, offset: i8) -> CPU {
        CPU { pc: spec_wrap16(self.pc + offset), ..self }
    }

    /// The register file with PC at `address`.
    pub open spec fn spec_jump_to_address(self, address: u16) -> CPU {
        CPU { pc: address, ..self }
    }

    /// Register file and cells after PC is pushed and replaced by `address`.
    pub open spec fn spec_call(self, cells: Seq<u8>, address: u16) -> (CPU, Seq<u8>) {
        let (pushed, written) = self.spec_push_u16(cells, self.pc);
        (pushed.spec_jump_to_address(address), written)
    }

    /// The register file after PC is popped off the stack.
    pub open spec fn spec_ret(self, cells: Seq<u8>) -> CPU {
        let (popped, address) = self.spec_pop_u16(cells);
        popped.spec_jump_to_address(address)
    }

    /// `RET` with the master enable switched on at once.
    pub open spec fn spec_reti(self, cells: Seq<u8>) -> CPU {
        let returned = self.spec_ret(cells);
        CPU { interrupts: Interrupts { ime: true, ..returned.interrupts }, ..returned }
    }

    /// Register file and cells after `action`.
    pub open spec fn spec_perform(self, cells: Seq<u8>, action: ControlAction) -> (CPU, Seq<u8>) {
        match action {
            ControlAction::Return => (self.spec_ret(cells), cells),
            ControlAction::Jump(address) => (self.spec_jump_to_address(address), cells),
            ControlAction::Call(address) => self.spec_call(cells, address),
        }
    }

    /// The latch is set; the master enable itself does not change yet.
    pub open spec fn spec_enable_interrupts(self) -> CPU {
        CPU { interrupts: Interrupts { enable_ime_next: true, ..self.interrupts }, ..self }
    }

    /// The master enable is off and the latch is cleared.
    pub open spec fn spec_disable_interrupts(self) -> CPU {
        CPU { interrupts: Interrupts { ime: false, enable_ime_next: false }, ..self }
    }

    /// The register file of a halted processor.
    pub open spec fn spec_halt(self) -> CPU {
        CPU { is_halted: true, ..self }
    }

    /// The register file of a stopped processor.
    pub open spec fn spec_stop(self) -> CPU {
        CPU { is_stopped: true, ..self }
    }

    /// `JR e`: moves PC by a signed offset.
    pub fn jump_relative(&mut self, offset: i8)
        ensures
            *final(self) == old(self).spec_jump_relative(offset),
    {
        self.pc = self.pc.wrapping_add_signed(offset as i16);
    }

    /// `JR NZ,e`: jumps when Z is clear, and says whether it did.
    pub fn jump_relative_if_not_zero(&mut self, offset: i8) -> (taken: bool)
        ensures
            taken == !old(self).spec_get_flag(Flag::Z),
            *final(self) == if taken {
                old(self).spec_jump_relative(offset)
            } else {
                *old(self)
            },
    {
        if self.get_flag(&Flag::Z) {
            false
        } else {
            self.jump_relative(offset);
            true
        }
    }

    /// `JR Z,e`: jumps when Z is set, and says whether it did.
    pub fn jump_relative_if_zero(&mut self, offset: i8) -> (taken: bool)
        ensures
            taken == old(self).spec_get_flag(Flag::Z),
            *final(self) == if taken {
                old(self).spec_jump_relative(offset)
            } else {
                *old(self)
            },
    {
        if self.get_flag(&Flag::Z) {
            self.jump_relative(offset);
            true
        } else {
            false
        }
    }

    /// `JR C,e`: jumps when C is set, and says whether it did.
    pub fn jump_relative_if_carry(&mut self, offset: i8) -> (taken: bool)
        ensures
            taken == old(self).spec_get_flag(Flag::C),
            *final(self) == if taken {
                old(self).spec_jump_relative(offset)
            } else {
                *old(self)
            },
    {
        if self.get_flag(&Flag::C) {
            self.jump_relative(offset);
            true
        } else {
            false
        }
    }

    /// `JR NC,e`: jumps when C is clear, and says whether it did.
    pub fn jump_relative_if_not_carry(&mut self, offset: i8) -> (taken: bool)
        ensures
            taken == !old(self).spec_get_flag(Flag::C),
            *final(self) == if taken {
                old(self).spec_jump_relative(offset)
            } else {
                *old(self)
            },
    {
        if self.get_flag(&Flag::C) {
            false
        } else {
            self.jump_relative(offset);
            true
        }
    }

    /// `CALL nn`: pushes PC and continues at `address`.
    pub fn call(&mut self, memory: &mut Memory, address: u16)
        ensures
            (*final(self), final(memory)@) == old(self).spec_call(old(memory)@, address),
    {
        let return_address = self.pc;
        self.push_u16(memory, return_address);
        self.pc = address;
    }

    /// `RET`: pops PC.
    pub fn ret(&mut self, memory: &mut Memory)
        ensures
            *final(self) == old(self).spec_ret(old(memory)@),
            final(memory)@ == old(memory)@,
    {
        self.pc = self.pop_u16(memory);
    }

    /// `JP nn`: continues at `address`.
    pub fn jump_to_address(&mut self, address: u16)
        ensures
            *final(self) == old(self).spec_jump_to_address(address),
    {
        self.pc = address;
    }

    /// Performs `action` when `flag` equals `condition`, and says whether it
    /// did.
    pub fn execute_if_flag_set_to_condition(
        &mut self,
        condition: bool,
        flag: &Flag,
        action: ControlAction,
        memory: &mut Memory,
    ) -> (taken: bool)
        ensures
            taken == (old(self).spec_get_flag(*flag) == condition),
            (*final(self), final(memory)@) == if taken {
                old(self).spec_perform(old(memory)@, action)
            } else {
                (*old(self), old(memory)@)
            },
    {
        if self.get_flag(flag) == condition {
            match action {
                ControlAction::Return => self.ret(memory),
                ControlAction::Jump(address) => self.jump_to_address(address),
                ControlAction::Call(address) => self.call(memory, address),
            }
            return true;
        }
        false
    }

    /// `SCF`: sets the carry flag.
    pub fn set_carry_flag(&mut self)
        requires
            old(self).wf(),
        ensures
            *final(self) == old(self).spec_set_carry_flag(),
            final(self).wf(),
    {
        self.set_flag(&Flag::C, true);
        self.set_flag(&Flag::H, false);
        self.set_flag(&Flag::N, false);
    }

    /// `EI`: sets the latch; the master enable follows one instruction later.
    pub fn enable_interrupts(&mut self)
        ensures
            *final(self) == old(self).spec_enable_interrupts(),
    {
        self.interrupts.enable_ime_next = true;
    }

    /// `DI`: switches the master enable off at once and clears the latch.
    pub fn disable_interrupts(&mut self)
        ensures
            *final(self) == old(self).spec_disable_interrupts(),
    {
        self.interrupts.ime = false;
        self.interrupts.enable_ime_next = false;
    }

    /// `RETI`: pops PC and switches the master enable on at once.
    pub fn reti(&mut self, memory: &mut Memory)
        ensures
            *final(self) == old(self).spec_reti(old(memory)@),
            final(memory)@ == old(memory)@,
    {
        self.interrupts.ime = true;
        self.ret(memory);
    }

    /// `HALT`: the processor idles until an interrupt is pending.
    pub fn halt(&mut self)
        ensures
            *final(self) == old(self).spec_halt(),
    {
        self.is_halted = true;
    }

    /// `STOP`: the processor stands still until a button is pressed.
    pub fn stop(&mut self)
        ensures
            *final(self) == old(self).spec_stop(),
    {
        self.is_stopped = true;
    }
}

/// A call followed by a return leaves PC at the instruction after the call
/// and SP where it began, when both stack slots are plain memory.
pub proof fn lemma_call_then_ret(cpu: CPU, cells: Seq<u8>, address: u16)
    requires
        cells.len() == 0x10000,
        spec_is_plain(cpu.sp.wrapping_sub(1)),
        spec_is_plain(cpu.sp.wrapping_sub(2)),
    ensures
        ({
            let (called, stored) = cpu.spec_call(cells, address);
            &&& called.pc == address
            &&& called.spec_ret(stored) == cpu
        }),
{
    lemma_push_then_pop(cpu, cells, cpu.pc);
}

/// A return finds the address that a call pushed as long as the two stack
/// slots still read as the call left them and SP is where the call left
/// it: whatever else has happened to registers and memory in between, PC
/// comes back to the instruction after the call and SP to where it began.
pub proof fn lemma_ret_finds_pushed_address(
    cpu: CPU,
    cells: Seq<u8>,
    address: u16,
    later: CPU,
    after: Seq<u8>,
)
    requires
        cells.len() == 0x10000,
        spec_is_plain(cpu.sp.wrapping_sub(1)),
        spec_is_plain(cpu.sp.wrapping_sub(2)),
        later.sp == cpu.spec_call(cells, address).0.sp,
        bus_read(after, later.sp) == bus_read(cpu.spec_call(cells, address).1, later.sp),
        bus_read(after, later.sp.wrapping_add(1)) == bus_read(
            cpu.spec_call(cells, address).1,
            later.sp.wrapping_add(1),
        ),
    ensures
        later.spec_ret(after).pc == cpu.pc,
        later.spec_ret(after).sp == cpu.sp,
{
    lemma_push_then_pop(cpu, cells, cpu.pc);
}

} // verus!
