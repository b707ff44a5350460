//! The 16-bit address space the processor speaks through.
//!
//! | Range       | Meaning                                   |
//! |-------------|-------------------------------------------|
//! | 0000–7FFF   | cartridge ROM, flat                       |
//! | 8000–9FFF   | video RAM                                 |
//! | A000–BFFF   | external RAM                              |
//! | C000–DFFF   | work RAM                                  |
//! | E000–FDFF   | echo of C000–DDFF                         |
//! | FE00–FE9F   | object attribute memory                   |
//! | FEA0–FEFF   | prohibited: reads 0xFF, writes dropped    |
//! | FF00–FF7F   | I/O registers                             |
//! | FF80–FFFE   | high RAM                                  |
//! | FFFF        | interrupt enable                          |
use vstd::prelude::*;
use crate::bytes::{high_byte, low_byte, spec_high_byte, spec_low_byte, spec_word, word};
use crate::data::HardwareRegister;

verus! {

/// Number of addressable bytes.
pub const ADDRESS_SPACE: usize = 0x10000;

/// What a read of LY gives while no picture unit is attached.
pub const LY_IDLE: u8 = 0x90;

/// What a read of the prohibited range gives.
pub const OPEN_BUS: u8 = 0xFF;

/// Addresses FEA0–FEFF: nothing is mapped there.
pub open spec fn spec_is_prohibited(address: u16) -> bool {
    0xFEA0 <= address <= 0xFEFF
}

/// Addresses E000–FDFF: they mirror work RAM.
pub open spec fn spec_is_echo(address: u16) -> bool {
    0xE000 <= address <= 0xFDFF
}

/// The cell that backs `address`: echo addresses share the cell 0x2000 below.
pub open spec fn spec_cell(address: u16) -> int {
    if spec_is_echo(address) {
        address as int - 0x2000
    } else {
        address as int
    }
}

/// An address behind which a byte written is the byte read back: not
/// prohibited, not DIV (a write clears it), not LY (a read is fixed).
pub open spec fn spec_is_plain(address: u16) -> bool {
    !spec_is_prohibited(address) && address != HardwareRegister::DIV.spec_address() && address
        != HardwareRegister::LY.spec_address()
}

/// What the processor reads at `address` when the cells hold `cells`.
pub open spec fn bus_read(cells: Seq<u8>, address: u16) -> u8 {
    if address == HardwareRegister::LY.spec_address() {
        LY_IDLE
    } else if spec_is_prohibited(address) {
        OPEN_BUS
    } else {
        cells[spec_cell(address)]
    }
}

/// The cells after the processor writes `value` at `address`.
pub open spec fn bus_write(cells: Seq<u8>, address: u16, value: u8) -> Seq<u8> {
    if spec_is_prohibited(address) {
        cells
    } else if address == HardwareRegister::DIV.spec_address() {
        cells.update(address as int, 0)
    } else {
        cells.update(spec_cell(address), value)
    }
}

/// The address after `address`, wrapping at the top.
pub open spec fn spec_next(address: u16) -> u16 {
    address.wrapping_add(1)
}

/// The little-endian word the processor reads at `address`.
pub open spec fn bus_read_word(cells: Seq<u8>, address: u16) -> u16 {
    spec_word(bus_read(cells, spec_next(address)), bus_read(cells, address))
}

/// The cells after the processor writes `value` at `address`, low byte first.
pub open spec fn bus_write_word(cells: Seq<u8>, address: u16, value: u16) -> Seq<u8> {
    bus_write(
        bus_write(cells, address, spec_low_byte(value)),
        spec_next(address),
        spec_high_byte(value),
    )
}

/// The cells after an image is copied in from address 0; what does not fit
/// is left out.
pub open spec fn spec_load(cells: Seq<u8>, image: Seq<u8>) -> Seq<u8> {
    Seq::new(
        cells.len(),
        |i: int|
            if i < image.len() {
                image[i]
            } else {
                cells[i]
            },
    )
}

/// The 65536 cells behind the address space.
#[derive(Debug)]
pub struct Memory {
    data: [u8; 0x10000],
}

impl View for Memory {
    type V = Seq<u8>;

    closed spec fn view(&self) -> Seq<u8> {
        self.data@
    }
}

/// Every memory holds exactly 65536 cells.
pub broadcast proof fn lemma_memory_len(memory: Memory)
    ensures
        #[trigger] memory@.len() == ADDRESS_SPACE,
{
}

impl Memory {
    /// A memory of zeros.
    pub fn new() -> (memory: Self)
        ensures
            memory@ == Seq::new(ADDRESS_SPACE as nat, |i: int| 0u8),
    {
        let memory = Memory { data: [0u8; 0x10000] };
        assert(memory@ =~= Seq::new(ADDRESS_SPACE as nat, |i: int| 0u8));
        memory
    }

    /// Reads a byte as the processor does: LY gives a fixed value, the prohibited
    /// range gives 0xFF, echo addresses give work RAM.
    pub fn read_byte(&self, address: u16) -> (value: u8)
        ensures
            value == bus_read(self@, address),
    {
        if address == HardwareRegister::LY.address() {
            return LY_IDLE;
        }
        if 0xFEA0 <= address && address <= 0xFEFF {
            return OPEN_BUS;
        }
        if 0xE000 <= address && address <= 0xFDFF {
            return self.data[(address - 0x2000) as usize];
        }
        self.data[address as usize]
    }

    /// Writes a byte as the processor does: the prohibited range drops it, DIV
    /// is cleared by any write, echo addresses reach work RAM.
    pub fn write_byte(&mut self, address: u16, value: u8)
        ensures
            final(self)@ == bus_write(old(self)@, address, value),
    {
        if 0xFEA0 <= address && address <= 0xFEFF {
            return ;
        }
        if address == HardwareRegister::DIV.address() {
            self.data[address as usize] = 0;
        } else if 0xE000 <= address && address <= 0xFDFF {
            self.data[(address - 0x2000) as usize] = value;
        } else {
            self.data[address as usize] = value;
        }
    }

    /// Reads a little-endian word as the processor does.
    pub fn read_word(&self, address: u16) -> (value: u16)
        ensures
            value == bus_read_word(self@, address),
    {
        let low = self.read_byte(address);
        let high = self.read_byte(address.wrapping_add(1));
        word(high, low)
    }

    /// Writes a little-endian word as the processor does.
    pub fn write_word(&mut self, address: u16, value: u16)
        ensures
            final(self)@ == bus_write_word(old(self)@, address, value),
    {
        self.write_byte(address, low_byte(value));
        self.write_byte(address.wrapping_add(1), high_byte(value));
    }

    /// Reads the cell of a hardware register as a peripheral does, with no
    /// bus rule applied.
    pub fn read_hardware_register(&self, register: HardwareRegister) -> (value: u8)
        ensures
            value == self@[register.spec_address() as int],
    {
        self.data[register.address() as usize]
    }

    /// Stores into the cell of a hardware register as a peripheral does, with
    /// no bus rule applied.
    pub fn write_hardware_register(&mut self, register: HardwareRegister, value: u8)
        ensures
            final(self)@ == old(self)@.update(register.spec_address() as int, value),
    {
        self.data[register.address() as usize] = value;
    }

    /// Copies a cartridge image in, starting at address 0. Bytes beyond the
    /// address space are left out.
    pub fn load_test_rom(&mut self, rom: &[u8])
        ensures
            final(self)@ == spec_load(old(self)@, rom@),
    {
        let mut i: usize = 0;
        while i < rom.len() && i < ADDRESS_SPACE
            invariant
                i <= ADDRESS_SPACE,
                i <= rom@.len(),
                self@.len() == ADDRESS_SPACE,
                old(self)@.len() == ADDRESS_SPACE,
                forall|j: int| 0 <= j < i ==> self@[j] == rom@[j],
                forall|j: int| i <= j < ADDRESS_SPACE ==> self@[j] == old(self)@[j],
            decreases ADDRESS_SPACE - i,
        {
            self.data[i] = rom[i];
            i += 1;
        }
        assert(self@ =~= spec_load(old(self)@, rom@));
    }
}

/// A byte written at a plain address is the byte read back there, and a
/// write leaves every address that another cell backs as it was.
pub proof fn lemma_read_after_write(cells: Seq<u8>, address: u16, value: u8, other: u16)
    requires
        cells.len() == ADDRESS_SPACE,
    ensures
        spec_is_plain(address) ==> bus_read(bus_write(cells, address, value), address) == value,
        spec_cell(other) != spec_cell(address) ==> bus_read(
            bus_write(cells, address, value),
            other,
        ) == bus_read(cells, other),
        bus_write(cells, address, value).len() == ADDRESS_SPACE,
{
}

/// An echo address and the work RAM address 0x2000 below it are one cell:
/// either reads what the other was written.
pub proof fn lemma_echo_mirrors(cells: Seq<u8>, address: u16, value: u8)
    requires
        cells.len() == ADDRESS_SPACE,
        spec_is_echo(address),
    ensures
        bus_read(cells, address) == bus_read(cells, (address - 0x2000) as u16),
        bus_write(cells, address, value) == bus_write(cells, (address - 0x2000) as u16, value),
        bus_read(bus_write(cells, address, value), (address - 0x2000) as u16) == value,
        bus_read(bus_write(cells, (address - 0x2000) as u16, value), address) == value,
{
}

/// The prohibited range reads 0xFF and drops writes; a write to DIV stores
/// zero whatever the value; LY reads the same value whatever was stored.
pub proof fn lemma_special_addresses(cells: Seq<u8>, address: u16, value: u8)
    requires
        cells.len() == ADDRESS_SPACE,
    ensures
        spec_is_prohibited(address) ==> bus_read(cells, address) == OPEN_BUS && bus_write(
            cells,
            address,
            value,
        ) == cells,
        bus_read(
            bus_write(cells, HardwareRegister::DIV.spec_address(), value),
            HardwareRegister::DIV.spec_address(),
        ) == 0,
        bus_read(cells, HardwareRegister::LY.spec_address()) == LY_IDLE,
{
}

/// A word written at two plain addresses is the word read back there.
pub proof fn lemma_read_word_after_write(cells: Seq<u8>, address: u16, value: u16)
    requires
        cells.len() == ADDRESS_SPACE,
        spec_is_plain(address),
        spec_is_plain(spec_next(address)),
    ensures
        bus_read_word(bus_write_word(cells, address, value), address) == value,
{
    crate::bytes::lemma_word_round_trip(value, 0, 0);
}

} // verus!
