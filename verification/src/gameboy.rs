//! The machine: processor, memory and timer, advanced one step at a time.
//!
//! A step does exactly one of these, in this order of precedence: jump to
//! the handler of a pending interrupt; idle while halted; stand still while
//! stopped; fetch and execute one instruction.
use vstd::prelude::*;
use crate::bytes::spec_wrap16;
use crate::cpu::opcodes::{
    lemma_execute_accounts_cycles,
    lemma_execute_keeps_low_nibble_clear,
    lemma_pc_advances_by_length,
    spec_instruction_length,
    spec_is_transfer,
    spec_transfer_taken,
    CpuError,
};
use crate::cpu::registers::{Interrupts, CPU};
use crate::data::HardwareRegister;
use crate::interrupts::{
    handle_interrupt,
    lowest_pending,
    request_interrupt,
    spec_handle_interrupt,
    spec_lowest_pending,
    spec_request_interrupt,
    DISPATCH_COST,
};
use crate::memory::{bus_read, bus_write, spec_load, Memory};
use crate::timer::Timer;

verus! {

/// T-cycles that pass in one step while the processor is halted.
pub const HALT_COST: u16 = 4;

/// The machine: processor, memory and timer.
pub struct GameBoy {
    pub cpu: CPU,
    pub memory: Memory,
    pub timer: Timer,
}

/// The machine as plain values: register file, the 65536 cells, prescalers.
pub struct MachineState {
    pub cpu: CPU,
    pub cells: Seq<u8>,
    pub timer: Timer,
}

impl View for GameBoy {
    type V = MachineState;

    open spec fn view(&self) -> MachineState {
        MachineState { cpu: self.cpu, cells: self.memory@, timer: self.timer }
    }
}

/// The sources that are both enabled and requested.
pub open spec fn spec_pending(cells: Seq<u8>) -> u8 {
    cells[HardwareRegister::IE.spec_address() as int]
        & cells[HardwareRegister::IF.spec_address() as int]
}

/// Whether any joypad line reads pressed: the low nibble of P1 is not all
/// ones.
pub open spec fn spec_button_pressed(cells: Seq<u8>) -> bool {
    cells[HardwareRegister::P1.spec_address() as int] & 0x0F != 0x0F
}

impl MachineState {
    /// The machine after the jump to the handler of the source at `bit`: its
    /// request is cleared, PC is pushed and replaced by the vector, the
    /// master enable is off, and the timer has seen the cost.
    pub open spec fn spec_dispatch(self, bit: u8) -> MachineState {
        let requests = HardwareRegister::IF.spec_address() as int;
        let cleared = self.cells.update(requests, self.cells[requests] & !(1u8 << bit));
        let (entered, stored) = spec_handle_interrupt(self.cpu, cleared, bit);
        let (timer, ticked) = self.timer.spec_step(stored, DISPATCH_COST);
        MachineState {
            cpu: CPU { interrupts: Interrupts { ime: false, ..entered.interrupts }, ..entered },
            cells: ticked,
            timer,
        }
    }

    /// The machine after one halted step: only time passes.
    pub open spec fn spec_idle(self) -> MachineState {
        let (timer, ticked) = self.timer.spec_step(self.cells, HALT_COST);
        MachineState { cpu: self.cpu.spec_spend(HALT_COST), cells: ticked, timer }
    }

    /// The machine after it fetches and executes one instruction. The timer
    /// sees the cost. A latch that was set before the instruction, and that
    /// the instruction left set, switches the master enable on afterwards.
    /// A failure leaves the timer and the latch alone.
    pub open spec fn spec_run(self) -> (MachineState, Result<u16, CpuError>) {
        let latch = self.cpu.interrupts.enable_ime_next;
        let (fetched, opcode) = self.cpu.spec_fetch_byte(self.cells);
        let (done, stored, result) = fetched.spec_execute(self.cells, opcode);
        match result {
            Ok(cycles) => {
                let (timer, ticked) = self.timer.spec_step(stored, cycles);
                let cpu = if latch && done.interrupts.enable_ime_next {
                    CPU { interrupts: Interrupts { ime: true, enable_ime_next: false }, ..done }
                } else {
                    done
                };
                (MachineState { cpu, cells: ticked, timer }, Ok(cycles))
            },
            Err(error) => (
                MachineState { cpu: done, cells: stored, timer: self.timer },
                Err(error),
            ),
        }
    }

    /// Whether the step fetches and executes an instruction: no interrupt is
    /// taken, and the processor is neither halted with nothing pending nor
    /// stopped with no button pressed.
    pub open spec fn spec_executes(self) -> bool {
        let pending = spec_pending(self.cells);
        &&& !(self.cpu.interrupts.ime && spec_lowest_pending(pending) is Some)
        &&& !(self.cpu.is_halted && pending == 0)
        &&& !(self.cpu.is_stopped && !spec_button_pressed(self.cells))
    }

    /// The machine after one step, and the T-cycles it took.
    ///
    /// An interrupt is taken when the master enable is on and one of the five
    /// sources is both enabled and requested. A halted processor idles until
    /// any bit is set in both IE and IF, and then goes on in the same step. A
    /// stopped processor stands still, at no cost, until a button is pressed,
    /// and then goes on in the same step.
    pub open spec fn spec_step(self) -> (MachineState, Result<u16, CpuError>) {
        let pending = spec_pending(self.cells);
        if self.cpu.interrupts.ime && spec_lowest_pending(pending) is Some {
            (self.spec_dispatch(spec_lowest_pending(pending).unwrap()), Ok(DISPATCH_COST))
        } else if self.cpu.is_halted && pending == 0 {
            (self.spec_idle(), Ok(HALT_COST))
        } else {
            let awake = MachineState { cpu: CPU { is_halted: false, ..self.cpu }, ..self };
            if awake.cpu.is_stopped && !spec_button_pressed(self.cells) {
                (awake, Ok(0u16))
            } else {
                (MachineState { cpu: CPU { is_stopped: false, ..awake.cpu }, ..awake }).spec_run()
            }
        }
    }
}

impl GameBoy {
    /// The low nibble of F is zero.
    pub open spec fn wf(&self) -> bool {
        self.cpu.wf()
    }

    /// A machine with cleared memory, PC at 0x0100 and SP at 0xFFFE.
    pub fn new() -> (machine: Self)
        ensures
            machine@ == (MachineState {
                cpu: CPU::spec_new(),
                cells: Seq::new(0x10000, |i: int| 0u8),
                timer: Timer { div_counter: 0, tima_counter: 0 },
            }),
            machine.wf(),
    {
        let mut memory = Memory::new();
        let timer = Timer::new(&mut memory);
        assert(memory@ =~= Seq::new(0x10000, |i: int| 0u8));
        GameBoy { cpu: CPU::new(), memory, timer }
    }

    /// Copies a cartridge image in, starting at address 0. Bytes beyond the
    /// address space are left out.
    pub fn load_rom(&mut self, bytes: &[u8])
        ensures
            final(self)@ == (MachineState {
                cells: spec_load(old(self)@.cells, bytes@),
                ..old(self)@
            }),
    {
        self.memory.load_test_rom(bytes);
    }

    /// Loads the register snapshot the boot program leaves behind.
    pub fn reset_registers_post_boot(&mut self)
        ensures
            final(self)@ == (MachineState { cpu: old(self).cpu.spec_post_boot(), ..old(self)@ }),
            final(self).wf(),
    {
        self.cpu.set_varibles_for_gb_doc();
    }

    /// Reads a byte as the processor would.
    pub fn read_byte(&self, address: u16) -> (value: u8)
        ensures
            value == bus_read(self@.cells, address),
    {
        self.memory.read_byte(address)
    }

    /// Writes a byte as the processor would.
    pub fn write_byte(&mut self, address: u16, value: u8)
        ensures
            final(self)@ == (MachineState {
                cells: bus_write(old(self)@.cells, address, value),
                ..old(self)@
            }),
    {
        self.memory.write_byte(address, value);
    }

    /// Sets the bit of an interrupt source in IF. A position above 4 names
    /// no source and changes nothing.
    pub fn request_interrupt(&mut self, bit: u8)
        ensures
            final(self)@ == (MachineState {
                cells: spec_request_interrupt(old(self)@.cells, bit),
                ..old(self)@
            }),
    {
        request_interrupt(&mut self.memory, bit);
    }

    /// Advances the machine by one step and hands back the T-cycles spent.
    pub fn step(&mut self) -> (result: Result<u16, CpuError>)
        requires
            old(self).wf(),
        ensures
            (final(self)@, result) == old(self)@.spec_step(),
            result is Err <==> old(self)@.spec_executes() && old(self).cpu.spec_fetch_byte(
                old(self)@.cells,
            ).0.spec_fails(old(self)@.cells, bus_read(old(self)@.cells, old(self).cpu.pc)),
            final(self).wf(),
    {
        let ie = self.memory.read_hardware_register(HardwareRegister::IE);
        let if_ = self.memory.read_hardware_register(HardwareRegister::IF);
        let triggered = ie & if_;

        if self.cpu.interrupts.ime {
            if let Some(i) = lowest_pending(triggered) {
                self.memory.write_hardware_register(HardwareRegister::IF, if_ & !(1u8 << i));
                handle_interrupt(&mut self.cpu, &mut self.memory, i);
                self.cpu.interrupts.ime = false;
                self.timer.step(DISPATCH_COST, &mut self.memory);
                return Ok(DISPATCH_COST);
            }
        }
        if self.cpu.is_halted {
            if triggered != 0 {
                self.cpu.is_halted = false;
            } else {
                self.cpu.spend(HALT_COST);
                self.timer.step(HALT_COST, &mut self.memory);
                return Ok(HALT_COST);
            }
        }
        if self.cpu.is_stopped {
            let joypad = self.memory.read_hardware_register(HardwareRegister::P1);
            if joypad & 0x0F != 0x0F {
                self.cpu.is_stopped = false;
            } else {
                return Ok(0);
            }
        }
        let latch = self.cpu.interrupts.enable_ime_next;
        let opcode = self.cpu.fetch_byte(&self.memory);
        let cycles = match self.cpu.execute(opcode, &mut self.memory) {
            Ok(cycles) => cycles,
            Err(error) => {
                return Err(error);
            },
        };
        self.timer.step(cycles, &mut self.memory);
        if latch && self.cpu.interrupts.enable_ime_next {
            self.cpu.interrupts.ime = true;
            self.cpu.interrupts.enable_ime_next = false;
        }
        Ok(cycles)
    }
}

/// Every step leaves the low nibble of F zero.
pub proof fn lemma_step_keeps_low_nibble_clear(state: MachineState)
    requires
        state.cpu.wf(),
    ensures
        state.spec_step().0.cpu.wf(),
{
    let awake = MachineState {
        cpu: CPU { is_halted: false, is_stopped: false, ..state.cpu },
        ..state
    };
    let (fetched, opcode) = awake.cpu.spec_fetch_byte(awake.cells);
    lemma_execute_keeps_low_nibble_clear(fetched, awake.cells, opcode);
}

/// A step that succeeds adds the T-cycles it hands back to the cycle
/// accumulator; one that fails adds nothing.
pub proof fn lemma_step_accounts_cycles(state: MachineState)
    ensures
        state.spec_step().0.cpu.cycles == match state.spec_step().1 {
            Ok(cost) => state.cpu.cycles.wrapping_add(cost as u64),
            Err(_) => state.cpu.cycles,
        },
{
    let awake = MachineState {
        cpu: CPU { is_halted: false, is_stopped: false, ..state.cpu },
        ..state
    };
    let (fetched, opcode) = awake.cpu.spec_fetch_byte(awake.cells);
    lemma_execute_accounts_cycles(fetched, awake.cells, opcode);
}

/// A machine that fetches and executes an instruction which takes no
/// branch ends with PC advanced by exactly the length of the instruction.
#[verifier::rlimit(30)]
pub proof fn lemma_run_advances_pc(state: MachineState)
    requires
        !(spec_is_transfer(bus_read(state.cells, state.cpu.pc)) && spec_transfer_taken(
            state.cpu,
            bus_read(state.cells, state.cpu.pc),
        )),
    ensures
        state.spec_run().0.cpu.pc == spec_wrap16(
            state.cpu.pc + spec_instruction_length(bus_read(state.cells, state.cpu.pc)),
        ),
{
    let (fetched, opcode) = state.cpu.spec_fetch_byte(state.cells);
    assert(spec_transfer_taken(fetched, opcode) == spec_transfer_taken(state.cpu, opcode));
    lemma_pc_advances_by_length(fetched, state.cells, opcode);
}

/// `EI` takes effect one instruction late. The step that executes `EI`
/// sets the latch and leaves the master enable as it was; the step that
/// executes the instruction after it, unless that is `DI`, switches the
/// master enable on and clears the latch.
#[verifier::rlimit(30)]
pub proof fn lemma_enable_is_delayed(state: MachineState)
    ensures
        bus_read(state.cells, state.cpu.pc) == 0xFB && !state.cpu.interrupts.enable_ime_next ==> {
            &&& state.spec_run().0.cpu.interrupts.enable_ime_next
            &&& state.spec_run().0.cpu.interrupts.ime == state.cpu.interrupts.ime
        },
        state.cpu.interrupts.enable_ime_next && bus_read(state.cells, state.cpu.pc) != 0xF3
            && state.spec_run().1 is Ok ==> {
            &&& state.spec_run().0.cpu.interrupts.ime
            &&& !state.spec_run().0.cpu.interrupts.enable_ime_next
        },
        bus_read(state.cells, state.cpu.pc) == 0xF3 ==> {
            &&& !state.spec_run().0.cpu.interrupts.ime
            &&& !state.spec_run().0.cpu.interrupts.enable_ime_next
        },
{
}

} // verus!
