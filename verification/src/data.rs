//! Tags for the memory-mapped hardware registers.
use vstd::prelude::*;

verus! {

/// The registers that hardware maps into the address space.
#[derive(Debug, Clone, Copy, PartialEq, Eq)]
pub enum HardwareRegister {
    // Joypad
    P1,
    // Serial
    SB,
    SC,
    // Timer
    DIV,
    TIMA,
    TMA,
    TAC,
    // Interrupts
    IF,
    IE,
    // Sound channel 1
    NR10,
    NR11,
    NR12,
    NR13,
    NR14,
    // Sound channel 2
    NR21,
    NR22,
    NR23,
    NR24,
    // Sound channel 3
    NR30,
    NR31,
    NR32,
    NR33,
    NR34,
    // Sound channel 4
    NR41,
    NR42,
    NR43,
    NR44,
    // Sound control
    NR50,
    NR51,
    NR52,
    // Wave RAM, sixteen bytes from here
    WaveRAM,
    // LCD
    LCDC,
    STAT,
    SCY,
    SCX,
    LY,
    LYC,
    // DMA
    DMA,
    // Palettes
    BGP,
    OBP0,
    OBP1,
    // Window
    WY,
    WX,
    // Colour-model registers
    KEY1,
    VBK,
    HDMA1,
    HDMA2,
    HDMA3,
    HDMA4,
    HDMA5,
    RP,
    BCPS,
    BCPD,
    OCPS,
    OCPD,
    OPRI,
    SVBK,
    PCM12,
    PCM34,
}

impl HardwareRegister {
    /// Where the register sits in the address space.
    pub open spec fn spec_address(self) -> u16 {
        match self {
            HardwareRegister::P1 => 0xFF00,
            HardwareRegister::SB => 0xFF01,
            HardwareRegister::SC => 0xFF02,
            HardwareRegister::DIV => 0xFF04,
            HardwareRegister::TIMA => 0xFF05,
            HardwareRegister::TMA => 0xFF06,
            HardwareRegister::TAC => 0xFF07,
            HardwareRegister::IF => 0xFF0F,
            HardwareRegister::IE => 0xFFFF,
            HardwareRegister::NR10 => 0xFF10,
            HardwareRegister::NR11 => 0xFF11,
            HardwareRegister::NR12 => 0xFF12,
            HardwareRegister::NR13 => 0xFF13,
            HardwareRegister::NR14 => 0xFF14,
            HardwareRegister::NR21 => 0xFF16,
            HardwareRegister::NR22 => 0xFF17,
            HardwareRegister::NR23 => 0xFF18,
            HardwareRegister::NR24 => 0xFF19,
            HardwareRegister::NR30 => 0xFF1A,
            HardwareRegister::NR31 => 0xFF1B,
            HardwareRegister::NR32 => 0xFF1C,
            HardwareRegister::NR33 => 0xFF1D,
            HardwareRegister::NR34 => 0xFF1E,
            HardwareRegister::NR41 => 0xFF20,
            HardwareRegister::NR42 => 0xFF21,
            HardwareRegister::NR43 => 0xFF22,
            HardwareRegister::NR44 => 0xFF23,
            HardwareRegister::NR50 => 0xFF24,
            HardwareRegister::NR51 => 0xFF25,
            HardwareRegister::NR52 => 0xFF26,
            HardwareRegister::WaveRAM => 0xFF30,
            HardwareRegister::LCDC => 0xFF40,
            HardwareRegister::STAT => 0xFF41,
            HardwareRegister::SCY => 0xFF42,
            HardwareRegister::SCX => 0xFF43,
            HardwareRegister::LY => 0xFF44,
            HardwareRegister::LYC => 0xFF45,
            HardwareRegister::DMA => 0xFF46,
            HardwareRegister::BGP => 0xFF47,
            HardwareRegister::OBP0 => 0xFF48,
            HardwareRegister::OBP1 => 0xFF49,
            HardwareRegister::WY => 0xFF4A,
            HardwareRegister::WX => 0xFF4B,
            HardwareRegister::KEY1 => 0xFF4D,
            HardwareRegister::VBK => 0xFF4F,
            HardwareRegister::HDMA1 => 0xFF51,
            HardwareRegister::HDMA2 => 0xFF52,
            HardwareRegister::HDMA3 => 0xFF53,
            HardwareRegister::HDMA4 => 0xFF54,
            HardwareRegister::HDMA5 => 0xFF55,
            HardwareRegister::RP => 0xFF56,
            HardwareRegister::BCPS => 0xFF68,
            HardwareRegister::BCPD => 0xFF69,
            HardwareRegister::OCPS => 0xFF6A,
            HardwareRegister::OCPD => 0xFF6B,
            HardwareRegister::OPRI => 0xFF6C,
            HardwareRegister::SVBK => 0xFF70,
            HardwareRegister::PCM12 => 0xFF76,
            HardwareRegister::PCM34 => 0xFF77,
        }
    }

    /// Where the register sits in the address space.
    #[verifier::when_used_as_spec(spec_address)]
    pub fn address(self) -> (address: u16)
        ensures
            address == self.spec_address(),
            address >= 0xFF00,
    {
        match self {
            HardwareRegister::P1 => 0xFF00,
            HardwareRegister::SB => 0xFF01,
            HardwareRegister::SC => 0xFF02,
            HardwareRegister::DIV => 0xFF04,
            HardwareRegister::TIMA => 0xFF05,
            HardwareRegister::TMA => 0xFF06,
            HardwareRegister::TAC => 0xFF07,
            HardwareRegister::IF => 0xFF0F,
            HardwareRegister::IE => 0xFFFF,
            HardwareRegister::NR10 => 0xFF10,
            HardwareRegister::NR11 => 0xFF11,
            HardwareRegister::NR12 => 0xFF12,
            HardwareRegister::NR13 => 0xFF13,
            HardwareRegister::NR14 => 0xFF14,
            HardwareRegister::NR21 => 0xFF16,
            HardwareRegister::NR22 => 0xFF17,
            HardwareRegister::NR23 => 0xFF18,
            HardwareRegister::NR24 => 0xFF19,
            HardwareRegister::NR30 => 0xFF1A,
            HardwareRegister::NR31 => 0xFF1B,
            HardwareRegister::NR32 => 0xFF1C,
            HardwareRegister::NR33 => 0xFF1D,
            HardwareRegister::NR34 => 0xFF1E,
            HardwareRegister::NR41 => 0xFF20,
            HardwareRegister::NR42 => 0xFF21,
            HardwareRegister::NR43 => 0xFF22,
            HardwareRegister::NR44 => 0xFF23,
            HardwareRegister::NR50 => 0xFF24,
            HardwareRegister::NR51 => 0xFF25,
            HardwareRegister::NR52 => 0xFF26,
            HardwareRegister::WaveRAM => 0xFF30,
            HardwareRegister::LCDC => 0xFF40,
            HardwareRegister::STAT => 0xFF41,
            HardwareRegister::SCY => 0xFF42,
            HardwareRegister::SCX => 0xFF43,
            HardwareRegister::LY => 0xFF44,
            HardwareRegister::LYC => 0xFF45,
            HardwareRegister::DMA => 0xFF46,
            HardwareRegister::BGP => 0xFF47,
            HardwareRegister::OBP0 => 0xFF48,
            HardwareRegister::OBP1 => 0xFF49,
            HardwareRegister::WY => 0xFF4A,
            HardwareRegister::WX => 0xFF4B,
            HardwareRegister::KEY1 => 0xFF4D,
            HardwareRegister::VBK => 0xFF4F,
            HardwareRegister::HDMA1 => 0xFF51,
            HardwareRegister::HDMA2 => 0xFF52,
            HardwareRegister::HDMA3 => 0xFF53,
            HardwareRegister::HDMA4 => 0xFF54,
            HardwareRegister::HDMA5 => 0xFF55,
            HardwareRegister::RP => 0xFF56,
            HardwareRegister::BCPS => 0xFF68,
            HardwareRegister::BCPD => 0xFF69,
            HardwareRegister::OCPS => 0xFF6A,
            HardwareRegister::OCPD => 0xFF6B,
            HardwareRegister::OPRI => 0xFF6C,
            HardwareRegister::SVBK => 0xFF70,
            HardwareRegister::PCM12 => 0xFF76,
            HardwareRegister::PCM34 => 0xFF77,
        }
    }
}

} // verus!
