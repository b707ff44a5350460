//! Interrupt sources, their vectors, and the jump to a handler.
use vstd::prelude::*;
use crate::cpu::registers::CPU;
use crate::data::HardwareRegister;
use crate::memory::Memory;

verus! {

/// The five interrupt sources, highest priority first.
#[derive(Clone, Copy, Debug, PartialEq, Eq)]
pub enum Interrupt {
    VBlank,
    LCDStat,
    Timer,
    Serial,
    Joypad,
}

/// T-cycles that the jump to a handler takes.
pub const DISPATCH_COST: u16 = 20;

impl Interrupt {
    /// Where the handler of the source starts.
    pub open spec fn spec_vector(self) -> u16 {
        match self {
            Interrupt::VBlank => 0x40,
            Interrupt::LCDStat => 0x48,
            Interrupt::Timer => 0x50,
            Interrupt::Serial => 0x58,
            Interrupt::Joypad => 0x60,
        }
    }

    /// The position of the source in IE and IF.
    pub open spec fn spec_bit(self) -> u8 {
        match self {
            Interrupt::VBlank => 0,
            Interrupt::LCDStat => 1,
            Interrupt::Timer => 2,
            Interrupt::Serial => 3,
            Interrupt::Joypad => 4,
        }
    }

    /// The source at a bit position, if there is one.
    pub open spec fn spec_from_bit(bit: u8) -> Option<Interrupt> {
        if bit == 0 {
            Some(Interrupt::VBlank)
        } else if bit == 1 {
            Some(Interrupt::LCDStat)
        } else if bit == 2 {
            Some(Interrupt::Timer)
        } else if bit == 3 {
            Some(Interrupt::Serial)
        } else if bit == 4 {
            Some(Interrupt::Joypad)
        } else {
            None
        }
    }

    /// Where the handler of the source starts.
    pub fn vector(self) -> (address: u16)
        ensures
            address == self.spec_vector(),
    {
        match self {
            Interrupt::VBlank => 0x40,
            Interrupt::LCDStat => 0x48,
            Interrupt::Timer => 0x50,
            Interrupt::Serial => 0x58,
            Interrupt::Joypad => 0x60,
        }
    }

    /// The position of the source in IE and IF.
    pub fn bit(self) -> (bit: u8)
        ensures
            bit == self.spec_bit(),
            bit <= 4,
    {
        match self {
            Interrupt::VBlank => 0,
            Interrupt::LCDStat => 1,
            Interrupt::Timer => 2,
            Interrupt::Serial => 3,
            Interrupt::Joypad => 4,
        }
    }

    /// The source at a bit position, if there is one.
    pub fn from_bit(bit: u8) -> (source: Option<Interrupt>)
        ensures
            source == Self::spec_from_bit(bit),
    {
        match bit {
            0 => Some(Interrupt::VBlank),
            1 => Some(Interrupt::LCDStat),
            2 => Some(Interrupt::Timer),
            3 => Some(Interrupt::Serial),
            4 => Some(Interrupt::Joypad),
            _ => None,
        }
    }
}

/// The lowest-numbered bit among bits 0..4 that is set in `pending`.
pub open spec fn spec_lowest_pending(pending: u8) -> Option<u8> {
    if pending & 0x01 != 0 {
        Some(0u8)
    } else if pending & 0x02 != 0 {
        Some(1u8)
    } else if pending & 0x04 != 0 {
        Some(2u8)
    } else if pending & 0x08 != 0 {
        Some(3u8)
    } else if pending & 0x10 != 0 {
        Some(4u8)
    } else {
        None
    }
}

/// Picks the source to serve: the lowest-numbered bit among bits 0..4 of
/// `pending`.
pub fn lowest_pending(pending: u8) -> (bit: Option<u8>)
    ensures
        bit == spec_lowest_pending(pending),
        bit matches Some(b) ==> b <= 4,
{
    if pending & 0x01 != 0 {
        Some(0)
    } else if pending & 0x02 != 0 {
        Some(1)
    } else if pending & 0x04 != 0 {
        Some(2)
    } else if pending & 0x08 != 0 {
        Some(3)
    } else if pending & 0x10 != 0 {
        Some(4)
    } else {
        None
    }
}

/// Register file and cells after the jump to the handler of the source at
/// bit `interrupt`: PC is pushed, PC becomes the vector, and the cost is
/// added to the accumulator. A position with no source changes nothing.
pub open spec fn spec_handle_interrupt(cpu: CPU, cells: Seq<u8>, interrupt: u8) -> (CPU, Seq<u8>) {
    match Interrupt::spec_from_bit(interrupt) {
        Some(source) => {
            let (called, stored) = cpu.spec_call(cells, source.spec_vector());
            (called.spec_spend(DISPATCH_COST), stored)
        },
        None => (cpu, cells),
    }
}

/// The cells with the bit of a source set in IF. A position with no source
/// changes nothing.
pub open spec fn spec_request_interrupt(cells: Seq<u8>, bit: u8) -> Seq<u8> {
    if bit <= 4 {
        let address = HardwareRegister::IF.spec_address() as int;
        cells.update(address, cells[address] | (1u8 << bit))
    } else {
        cells
    }
}

/// Jumps to the handler of the source at bit `interrupt`: pushes PC, sets PC
/// to the vector and adds the cost to the accumulator. A position with no
/// source changes nothing.
pub fn handle_interrupt(cpu: &mut CPU, memory: &mut Memory, interrupt: u8)
    ensures
        (*final(cpu), final(memory)@) == spec_handle_interrupt(
            *old(cpu),
            old(memory)@,
            interrupt,
        ),
{
    let addr = match Interrupt::from_bit(interrupt) {
        Some(source) => source.vector(),
        None => return ,
    };
    cpu.call(memory, addr);
    cpu.spend(DISPATCH_COST);
}

/// Sets the bit of a source in IF, as a peripheral does.
pub fn request_interrupt(memory: &mut Memory, bit: u8)
    ensures
        final(memory)@ == spec_request_interrupt(old(memory)@, bit),
{
    if bit <= 4 {
        let flags = memory.read_hardware_register(HardwareRegister::IF);
        memory.write_hardware_register(HardwareRegister::IF, flags | (1u8 << bit));
    }
}

} // verus!
