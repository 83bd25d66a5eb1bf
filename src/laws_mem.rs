use crate::mem::{next_addr, MemModel};
use crate::types::{RomBankingType, CURRENT_SCANLINE, DIVIDER_REGISTER, DMA_REG, INPUT_REGISTER};
use vstd::prelude::*;

verus! {

/// An address whose program write stores the value where a program read
/// finds it: video RAM, working RAM and its echo, sprite memory and the
/// ordinary high registers. Not the cartridge window, external RAM, the
/// restricted range, nor the divider, scanline, input and DMA registers.
pub open spec fn stores_written_byte(a: u16) -> bool {
    ||| 0x8000 <= a < 0xA000
    ||| 0xC000 <= a < 0xFEA0
    ||| (0xFEFF <= a && a != DIVIDER_REGISTER && a != CURRENT_SCANLINE && a != INPUT_REGISTER
        && a != DMA_REG)
}

/// A program write at an ordinary address reads back.
pub proof fn lemma_byte_round_trip(m: MemModel, addr: u16, v: u8)
    requires
        m.wf(),
        stores_written_byte(addr),
    ensures
        m.write(addr, v).read(addr) == v,
        m.write(addr, v).wf(),
{
}

/// Writing a word at `addr` and reading the word back gives the word, when
/// both of its bytes land on ordinary addresses (`addr + 1` wrapping to 0).
pub proof fn lemma_word_round_trip(m: MemModel, addr: u16, v: u16)
    requires
        m.wf(),
        stores_written_byte(addr),
        stores_written_byte(next_addr(addr)),
    ensures
        m.write_word(addr, v).read_word(addr) == v,
{
    let lo = (v % 256) as u8;
    let hi = (v / 256) as u8;
    let m1 = m.write(addr, lo);
    let m2 = m1.write(next_addr(addr), hi);
    lemma_byte_round_trip(m, addr, lo);
    lemma_byte_round_trip(m1, next_addr(addr), hi);
    assert(m2.read(addr) == lo);
    assert((hi as u16) * 256 + lo as u16 == v);
}

/// A write into the echo range [0xE000,0xFE00) is mirrored 0x2000 lower.
pub proof fn lemma_echo_mirrors(m: MemModel, addr: u16, v: u8)
    requires
        m.wf(),
        0xE000 <= addr < 0xFE00,
    ensures
        m.write(addr, v).read((addr - 0x2000) as u16) == v,
        m.write(addr, v).read(addr) == v,
{
}

/// On the first chip, a low-bank control write that would select bank 0
/// selects bank 1.
pub proof fn lemma_bank_zero_selects_one(m: MemModel, addr: u16, v: u8)
    requires
        m.wf(),
        m.banking == RomBankingType::MBC1,
        0x2000 <= addr < 0x4000,
        m.rom_bank & 224 == 0,
        v & 31 == 0,
    ensures
        m.write(addr, v).rom_bank == 1,
{
    let b = m.rom_bank;
    assert((b & 224) | (v & 31) == 0) by (bit_vector)
        requires
            b & 224 == 0,
            v & 31 == 0,
    ;
}

/// In RAM-banking mode a high-bits control write leaves the ROM bank alone.
pub proof fn lemma_ram_mode_keeps_rom_bank(m: MemModel, addr: u16, v: u8)
    requires
        m.wf(),
        !m.rom_bank_enable,
        0x4000 <= addr < 0x6000,
    ensures
        m.write(addr, v).rom_bank == m.rom_bank,
{
}

} // verus!
