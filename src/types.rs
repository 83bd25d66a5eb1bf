use vstd::prelude::*;

verus! {

pub type Byte = u8;

pub type SignedByte = i8;

pub type Word = u16;

pub type SignedWord = i16;

// Timer registers
pub const TIMA: Word = 0xFF05;

pub const TMA: Word = 0xFF06;

pub const TMC: Word = 0xFF07;

pub const DIVIDER_REGISTER: Word = 0xFF04;

pub const CLOCKSPEED: u32 = 4194304;

/// Carry flag
pub const CF: Byte = 0x01;

/// Add/subtract flag
pub const NF: Byte = 0x02;

/// Overflow flag (same bit as parity)
pub const VF: Byte = 0x04;

/// Parity flag (same bit as overflow)
pub const PF: Byte = 0x04;

/// Undocumented 'X' flag (bit 3 of a result)
pub const XF: Byte = 0x08;

/// Half carry flag
pub const HF: Byte = 0x10;

/// Undocumented 'Y' flag (bit 5 of a result)
pub const YF: Byte = 0x20;

/// Zero flag
pub const ZF: Byte = 0x40;

/// Sign flag
pub const SF: Byte = 0x80;

// Interrupt registers
/// Interrupt enable register
pub const IE: Word = 0xFFFF;

/// Interrupt request register
pub const IF: Word = 0xFF0F;

// Video registers and geometry
pub const SCREEN_HEIGHT: u32 = 144;

pub const SCREEN_WIDTH: u32 = 160;

/// Size of the RGB framebuffer in bytes
pub const LCD_SIZE: usize = 69120;

pub const CURRENT_SCANLINE: Word = 0xFF44;

pub const LCD_STATUS: Word = 0xFF41;

pub const LCD_CONTROL: Word = 0xFF40;

pub const COINCIDENCE_FLAG: Word = 0xFF45;

pub const DMA_REG: Word = 0xFF46;

/// Sprite attribute memory, 0xFE00 to 0xFE9F
pub const SPRITE_RAM: Word = 0xFE00;

/// Cycles in one scanline
pub const SCANLINE_CYCLES: i32 = 456;

pub const MODE_2_BOUNDS: i32 = SCANLINE_CYCLES - 80;

pub const MODE_3_BOUNDS: i32 = MODE_2_BOUNDS - 172;

/// Start of video memory
pub const MEMORY_REGION: Word = 0x8000;

pub const SIZE_OF_TILE_IN_MEMORY: i32 = 16;

pub const OFFSET: i32 = 128;

/// Joypad input register
pub const INPUT_REGISTER: Word = 0xFF00;

/// Size of the address space
pub const MEM_SIZE: usize = 0x10000;

/// Size of one external RAM bank
pub const RAM_BANK_SIZE: usize = 0x2000;

/// Cycles in one video frame
pub const MAXCYCLES: u32 = 69905;

/// A button of the controller.
#[derive(Clone, Copy, Debug, PartialEq, Eq, Structural)]
pub enum GameInput {
    Up,
    Left,
    Right,
    Down,
    Start,
    Select,
    A,
    B,
    Unknown,
}

/// Whether a button is held.
#[derive(Clone, Copy, Debug, PartialEq, Eq, Structural)]
pub enum KeyState {
    Pressed,
    Released,
}

impl KeyState {
    /// The bit the input register shows for this state: pressed buttons read as 0.
    pub open spec fn spec_bit(self) -> u8 {
        match self {
            KeyState::Pressed => 0,
            KeyState::Released => 1,
        }
    }

    pub fn bit(self) -> (r: u8)
        ensures
            r == self.spec_bit(),
    {
        match self {
            KeyState::Pressed => 0,
            KeyState::Released => 1,
        }
    }
}

impl Default for KeyState {
    fn default() -> (r: Self)
        ensures
            r == KeyState::Released,
    {
        KeyState::Released
    }
}

/// The four shades of the display.
#[derive(Clone, Copy, Debug, PartialEq, Eq, Structural)]
pub enum Color {
    White,
    LightGrey,
    DarkGrey,
    Black,
}

impl Color {
    /// The shade with the given 2-bit number.
    pub open spec fn from_index(i: u8) -> Color {
        if i == 0 {
            Color::White
        } else if i == 1 {
            Color::LightGrey
        } else if i == 2 {
            Color::DarkGrey
        } else {
            Color::Black
        }
    }

    /// The grey level written to each of the three channels.
    pub open spec fn spec_level(self) -> u8 {
        match self {
            Color::White => 255,
            Color::LightGrey => 0xCC,
            Color::DarkGrey => 0x77,
            Color::Black => 0,
        }
    }

    pub fn level(self) -> (r: u8)
        ensures
            r == self.spec_level(),
    {
        match self {
            Color::White => 255,
            Color::LightGrey => 0xCC,
            Color::DarkGrey => 0x77,
            Color::Black => 0,
        }
    }
}

/// The bank-switching chip named by the cartridge header.
#[derive(Clone, Copy, Debug, PartialEq, Eq, Structural)]
pub enum RomBankingType {
    MBC1,
    MBC2,
    NoBanking,
}

impl RomBankingType {
    /// The chip named by the header byte at 0x147.
    pub open spec fn spec_from_header(b: u8) -> RomBankingType {
        if 1 <= b <= 3 {
            RomBankingType::MBC1
        } else if 5 <= b <= 6 {
            RomBankingType::MBC2
        } else {
            RomBankingType::NoBanking
        }
    }

    pub fn from_header(b: u8) -> (r: RomBankingType)
        ensures
            r == Self::spec_from_header(b),
    {
        if 1 <= b && b <= 3 {
            RomBankingType::MBC1
        } else if 5 <= b && b <= 6 {
            RomBankingType::MBC2
        } else {
            RomBankingType::NoBanking
        }
    }
}

/// The switchable ROM bank.
#[derive(Clone, Copy, Debug, PartialEq, Eq, Structural)]
pub enum CurrentRomBank {
    Bank(u8),
}

impl CurrentRomBank {
    pub open spec fn spec_value(self) -> u8 {
        match self {
            CurrentRomBank::Bank(v) => v,
        }
    }

    pub fn value(self) -> (r: u8)
        ensures
            r == self.spec_value(),
    {
        match self {
            CurrentRomBank::Bank(val) => val,
        }
    }
}

impl From<u8> for CurrentRomBank {
    fn from(val: u8) -> (r: Self)
        ensures
            r == CurrentRomBank::Bank(val),
    {
        CurrentRomBank::Bank(val)
    }
}

impl vstd::std_specs::convert::FromSpecImpl<u8> for CurrentRomBank {
    open spec fn obeys_from_spec() -> bool {
        true
    }

    open spec fn from_spec(v: u8) -> CurrentRomBank {
        CurrentRomBank::Bank(v)
    }
}

/// The selected external RAM bank.
#[derive(Clone, Copy, Debug, PartialEq, Eq, Structural)]
pub enum CurrentRamBank {
    Bank0,
    Bank1,
    Bank2,
    Bank3,
}

impl CurrentRamBank {
    pub open spec fn spec_index(self) -> u8 {
        match self {
            CurrentRamBank::Bank0 => 0,
            CurrentRamBank::Bank1 => 1,
            CurrentRamBank::Bank2 => 2,
            CurrentRamBank::Bank3 => 3,
        }
    }

    pub fn index(self) -> (r: u8)
        ensures
            r == self.spec_index(),
            r < 4,
    {
        match self {
            CurrentRamBank::Bank0 => 0,
            CurrentRamBank::Bank1 => 1,
            CurrentRamBank::Bank2 => 2,
            CurrentRamBank::Bank3 => 3,
        }
    }

    /// The bank a control write selects: 0 to 3, and bank 0 for any other value.
    pub open spec fn spec_from_value(v: u8) -> CurrentRamBank {
        if v == 1 {
            CurrentRamBank::Bank1
        } else if v == 2 {
            CurrentRamBank::Bank2
        } else if v == 3 {
            CurrentRamBank::Bank3
        } else {
            CurrentRamBank::Bank0
        }
    }

    pub fn from_value(v: u8) -> (r: CurrentRamBank)
        ensures
            r == Self::spec_from_value(v),
    {
        match v {
            1 => CurrentRamBank::Bank1,
            2 => CurrentRamBank::Bank2,
            3 => CurrentRamBank::Bank3,
            _ => CurrentRamBank::Bank0,
        }
    }
}

/// Why the processor stopped.
#[derive(Clone, Copy, Debug, PartialEq, Eq, Structural)]
pub enum CpuError {
    /// No instruction has this encoding.
    InvalidInstruction { prefix: u8, opcode: u8 },
    /// The instruction needs a register or port this core does not model.
    Unsupported { prefix: u8, opcode: u8 },
}

} // verus!
