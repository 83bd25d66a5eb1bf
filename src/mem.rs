use crate::types::{
    Byte, Color, CurrentRamBank, CurrentRomBank, RomBankingType, Word, CURRENT_SCANLINE,
    DIVIDER_REGISTER, DMA_REG, IE, IF, INPUT_REGISTER, MEM_SIZE, RAM_BANK_SIZE, TMC,
};
use vstd::prelude::*;

verus! {

/// The abstract state of the address space.
pub struct MemModel {
    /// The 64KB backing store.
    pub mem: Seq<u8>,
    /// The cartridge image.
    pub rom: Seq<u8>,
    /// Four 8KB external RAM banks, one after the other.
    pub xram: Seq<u8>,
    pub banking: RomBankingType,
    pub rom_bank: u8,
    pub ram_bank: CurrentRamBank,
    pub ram_write_enable: bool,
    /// true: control writes in [0x4000,0x6000) select high ROM-bank bits;
    /// false: they select the RAM bank.
    pub rom_bank_enable: bool,
    /// Latched button states (bit clear = pressed).
    pub buttons: u8,
    /// Latched direction states (bit clear = pressed).
    pub directions: u8,
    /// Cycles left until the programmable counter ticks.
    pub timer_counter: i32,
}

/// Cycles per tick of the programmable counter for a 2-bit frequency code.
pub open spec fn timer_period(freq: u8) -> i32 {
    if freq == 0 {
        1024
    } else if freq == 1 {
        16
    } else if freq == 2 {
        64
    } else {
        256
    }
}

/// The address after `a`, wrapping from 0xFFFF to 0.
pub open spec fn next_addr(a: u16) -> u16 {
    if a == 0xFFFF {
        0
    } else {
        (a + 1) as u16
    }
}

/// `s` extended with zeros to at least `n` bytes.
pub open spec fn padded(s: Seq<u8>, n: int) -> Seq<u8> {
    if s.len() >= n {
        s
    } else {
        s + Seq::new((n - s.len()) as nat, |i: int| 0u8)
    }
}

/// The backing store after the power-on register values are written.
pub open spec fn startup_mem(s: Seq<u8>) -> Seq<u8> {
    s.update(0xFF05, 0x00).update(0xFF06, 0x00).update(0xFF07, 0x00).update(0xFF10, 0x80).update(
        0xFF11,
        0xBF,
    ).update(0xFF12, 0xF3).update(0xFF14, 0xBF).update(0xFF16, 0x3F).update(0xFF17, 0x00).update(
        0xFF19,
        0xBF,
    ).update(0xFF1A, 0x7F).update(0xFF1B, 0xFF).update(0xFF1C, 0x9F).update(0xFF1E, 0xBF).update(
        0xFF20,
        0xFF,
    ).update(0xFF21, 0x00).update(0xFF22, 0x00).update(0xFF23, 0xBF).update(0xFF24, 0x77).update(
        0xFF25,
        0xF3,
    ).update(0xFF26, 0xF1).update(0xFF40, 0x91).update(0xFF42, 0x00).update(0xFF43, 0x00).update(
        0xFF45,
        0x00,
    ).update(0xFF47, 0xFC).update(0xFF48, 0xFF).update(0xFF49, 0xFF).update(0xFF4A, 0x00).update(
        0xFF4B,
        0x00,
    ).update(0xFFFF, 0x00)
}

impl MemModel {
    pub open spec fn wf(self) -> bool {
        &&& self.mem.len() == MEM_SIZE
        &&& self.xram.len() == 4 * RAM_BANK_SIZE
    }

    /// A byte of the cartridge at `index`, wrapping modulo the image length;
    /// with no image loaded, the backing store (0 past its end).
    pub open spec fn rom_byte(self, index: int) -> u8 {
        if self.rom.len() == 0 {
            if index < self.mem.len() {
                self.mem[index]
            } else {
                0
            }
        } else {
            self.rom[index % (self.rom.len() as int)]
        }
    }

    /// What a program reads at `addr`.
    pub open spec fn read(self, addr: u16) -> u8 {
        if addr < 0x4000 {
            self.rom_byte(addr as int)
        } else if addr <= 0x7FFF {
            self.rom_byte(self.rom_bank as int * 0x4000 + (addr - 0x4000))
        } else if 0xA000 <= addr <= 0xBFFF {
            self.xram[self.ram_bank.spec_index() as int * 0x2000 + (addr - 0xA000)]
        } else {
            self.mem[addr as int]
        }
    }

    /// `read`, kept folded where bytes are only passed along.
    #[verifier::opaque]
    pub open spec fn peek(self, addr: u16) -> u8 {
        self.read(addr)
    }

    /// A little-endian word read at `addr`, the high byte wrapping to 0.
    pub open spec fn read_word(self, addr: u16) -> u16 {
        ((self.read(next_addr(addr)) as u16) * 256 + self.read(addr) as u16) as u16
    }

    pub open spec fn clock_freq(self) -> u8 {
        self.mem[TMC as int] & 3
    }

    pub open spec fn with_mem(self, mem: Seq<u8>) -> MemModel {
        MemModel { mem, ..self }
    }

    /// The request bit of interrupt source `n` set.
    pub open spec fn request(self, n: u8) -> MemModel {
        self.with_mem(self.mem.update(IF as int, self.mem[IF as int] | (1u8 << n)))
    }

    /// The enable bit of interrupt source `n` set.
    pub open spec fn enable(self, n: u8) -> MemModel {
        self.with_mem(self.mem.update(IE as int, self.mem[IE as int] | (1u8 << n)))
    }

    /// A write below 0x2000: RAM enable.
    pub open spec fn ram_enable_write(self, addr: u16, v: u8) -> MemModel {
        if self.banking == RomBankingType::MBC2 && addr & 0x10 == 0x10 {
            self
        } else if v & 0xF == 0xA {
            MemModel { ram_write_enable: true, ..self }
        } else if v & 0xF == 0 {
            MemModel { ram_write_enable: false, ..self }
        } else {
            self
        }
    }

    /// A write in [0x2000,0x4000): low bits of the ROM bank.
    pub open spec fn low_rom_write(self, v: u8) -> MemModel {
        if self.banking == RomBankingType::MBC2 {
            MemModel { rom_bank: v & 0xF, ..self }
        } else {
            let m = (self.rom_bank & 224) | (v & 31);
            MemModel { rom_bank: if m == 0 { 1 } else { m }, ..self }
        }
    }

    /// A write in [0x4000,0x6000) in ROM-banking mode: high bits of the ROM bank.
    pub open spec fn high_rom_write(self, v: u8) -> MemModel {
        let m = (self.rom_bank & 31) | (v & 224);
        MemModel { rom_bank: if m == 0 { 1 } else { m }, ..self }
    }

    /// A write in [0x6000,0x8000): the banking mode.
    pub open spec fn mode_write(self, v: u8) -> MemModel {
        if v & 1 == 0 {
            MemModel { rom_bank_enable: true, ram_bank: CurrentRamBank::Bank0, ..self }
        } else {
            MemModel { rom_bank_enable: false, ..self }
        }
    }

    /// A program write below 0x8000, read as a banking control.
    pub open spec fn banking_write(self, addr: u16, v: u8) -> MemModel {
        if addr < 0x2000 {
            if self.banking != RomBankingType::NoBanking {
                self.ram_enable_write(addr, v)
            } else {
                self
            }
        } else if addr < 0x4000 {
            if self.banking != RomBankingType::NoBanking {
                self.low_rom_write(v)
            } else {
                self
            }
        } else if addr < 0x6000 {
            if self.banking == RomBankingType::MBC1 {
                if self.rom_bank_enable {
                    self.high_rom_write(v)
                } else {
                    MemModel { ram_bank: CurrentRamBank::spec_from_value(v), ..self }
                }
            } else {
                self
            }
        } else if self.banking == RomBankingType::MBC1 {
            self.mode_write(v)
        } else {
            self
        }
    }

    /// The input register as recomputed from the latches and its select bits.
    pub open spec fn joypad_next(self) -> u8 {
        let prev = self.mem[INPUT_REGISTER as int];
        let lower1: u8 = if prev & 0x20 == 0 {
            0x0F & self.buttons
        } else {
            0x0F
        };
        let lower: u8 = if prev & 0x10 == 0 {
            lower1 & self.directions
        } else {
            lower1
        };
        (prev & 0x30) | 0xC0 | (lower & 0x0F)
    }

    /// The input register recomputed; the input interrupt is requested
    /// when a visible bit goes from released (1) to pressed (0).
    pub open spec fn recompute_joypad(self) -> MemModel {
        let prev = self.mem[INPUT_REGISTER as int];
        let next = self.joypad_next();
        let m1 = self.with_mem(self.mem.update(INPUT_REGISTER as int, next));
        if (prev & 0x0F) & !(next & 0x0F) != 0 {
            m1.request(4)
        } else {
            m1
        }
    }

    /// The sprite-attribute area filled with the 160 bytes at `v << 8`.
    pub open spec fn dma(self, v: u8) -> MemModel {
        self.with_mem(
            Seq::new(
                MEM_SIZE as nat,
                |j: int|
                    if 0xFE00 <= j < 0xFEA0 {
                        self.read((v as int * 256 + (j - 0xFE00)) as u16)
                    } else {
                        self.mem[j]
                    },
            ),
        )
    }

    /// The state after a program writes `v` at `addr`.
    pub open spec fn write(self, addr: u16, v: u8) -> MemModel {
        if addr < 0x8000 {
            self.banking_write(addr, v)
        } else if 0xA000 <= addr < 0xC000 {
            if self.ram_write_enable {
                MemModel {
                    xram: self.xram.update(
                        self.ram_bank.spec_index() as int * 0x2000 + (addr - 0xA000),
                        v,
                    ),
                    ..self
                }
            } else {
                self
            }
        } else if 0xE000 <= addr < 0xFE00 {
            self.with_mem(self.mem.update(addr as int, v).update(addr - 0x2000, v))
        } else if 0xFEA0 <= addr < 0xFEFF {
            self
        } else if addr == TMC {
            let m1 = self.with_mem(self.mem.update(TMC as int, v));
            if self.clock_freq() != v & 3 {
                MemModel { timer_counter: timer_period(v & 3), ..m1 }
            } else {
                m1
            }
        } else if addr == DIVIDER_REGISTER || addr == CURRENT_SCANLINE {
            self.with_mem(self.mem.update(addr as int, 0))
        } else if addr == INPUT_REGISTER {
            let cur = self.mem[INPUT_REGISTER as int];
            self.with_mem(
                self.mem.update(INPUT_REGISTER as int, (v & 0x30) | 0xC0 | (cur & 0x0F)),
            ).recompute_joypad()
        } else if addr == DMA_REG {
            self.dma(v)
        } else {
            self.with_mem(self.mem.update(addr as int, v))
        }
    }

    /// A little-endian word written at `addr`, the high byte wrapping to 0.
    pub open spec fn write_word(self, addr: u16, v: u16) -> MemModel {
        self.write(addr, (v % 256) as u8).write(next_addr(addr), (v / 256) as u8)
    }

    /// The state after a write that bypasses every special address.
    pub open spec fn write_forced(self, addr: u16, v: u8) -> MemModel {
        let m1 = if addr < 0x8000 {
            MemModel { rom: padded(self.rom, addr as int + 1).update(addr as int, v), ..self }
        } else if 0xA000 <= addr <= 0xBFFF {
            MemModel {
                xram: self.xram.update(
                    self.ram_bank.spec_index() as int * 0x2000 + (addr - 0xA000),
                    v,
                ),
                ..self
            }
        } else {
            self
        };
        m1.with_mem(m1.mem.update(addr as int, v))
    }

    /// The banking chip re-read from the cartridge header.
    pub open spec fn refresh_banking(self) -> MemModel {
        MemModel { banking: RomBankingType::spec_from_header(self.read(0x147)), ..self }
    }

    /// The state after the hardware registers are set to their power-on
    /// values and the banking chip is re-read.
    pub open spec fn powered_on(self) -> MemModel {
        self.with_mem(startup_mem(self.mem)).refresh_banking()
    }

    /// The state after cartridge image `data` is loaded: backing store and
    /// external RAM cleared, ROM bank 1, RAM bank 0, RAM writes off,
    /// ROM-banking mode, banking chip re-read.
    pub open spec fn loaded(self, data: Seq<u8>) -> MemModel {
        (MemModel {
            mem: Seq::new(MEM_SIZE as nat, |i: int| 0u8),
            rom: data,
            xram: Seq::new((4 * RAM_BANK_SIZE) as nat, |i: int| 0u8),
            rom_bank: 1,
            ram_bank: CurrentRamBank::Bank0,
            ram_write_enable: false,
            rom_bank_enable: true,
            ..self
        }).refresh_banking()
    }

    /// The shade that palette register `addr` gives color number `n`.
    pub open spec fn color(self, n: u8, addr: u16) -> Color {
        Color::from_index((self.peek(addr) >> (2 * n)) & 3)
    }
}

/// A vector of `n` zero bytes.
fn zeros(n: usize) -> (v: Vec<u8>)
    ensures
        v@ == Seq::new(n as nat, |i: int| 0u8),
{
    let mut v: Vec<u8> = Vec::with_capacity(n);
    let mut i: usize = 0;
    while i < n
        invariant
            i <= n,
            v@ == Seq::new(i as nat, |k: int| 0u8),
        decreases n - i,
    {
        v.push(0);
        i = i + 1;
        assert(v@ =~= Seq::new(i as nat, |k: int| 0u8));
    }
    v
}

/// The address space: backing store, cartridge image, external RAM and
/// bank-switching state.
pub struct Memory {
    mem: Vec<Byte>,
    rom: Vec<Byte>,
    external_ram: Vec<Byte>,
    rom_banking_type: RomBankingType,
    rom_banks: CurrentRomBank,
    ram_banks: CurrentRamBank,
    ram_write_enable: bool,
    rom_bank_enable: bool,
    joypad_buttons: Byte,
    joypad_directions: Byte,
    timer_counter: i32,
}

impl View for Memory {
    type V = MemModel;

    closed spec fn view(&self) -> MemModel {
        MemModel {
            mem: self.mem@,
            rom: self.rom@,
            xram: self.external_ram@,
            banking: self.rom_banking_type,
            rom_bank: self.rom_banks.spec_value(),
            ram_bank: self.ram_banks,
            ram_write_enable: self.ram_write_enable,
            rom_bank_enable: self.rom_bank_enable,
            buttons: self.joypad_buttons,
            directions: self.joypad_directions,
            timer_counter: self.timer_counter,
        }
    }
}

impl Default for Memory {
    fn default() -> (r: Self)
        ensures
            r@ == Memory::spec_new(),
    {
        Self::new()
    }
}

impl Memory {
    pub open spec fn wf(&self) -> bool {
        self@.wf()
    }

    pub open spec fn spec_new() -> MemModel {
        MemModel {
            mem: Seq::new(MEM_SIZE as nat, |i: int| 0u8),
            rom: Seq::empty(),
            xram: Seq::new((4 * RAM_BANK_SIZE) as nat, |i: int| 0u8),
            banking: RomBankingType::NoBanking,
            rom_bank: 1,
            ram_bank: CurrentRamBank::Bank0,
            ram_write_enable: false,
            rom_bank_enable: true,
            buttons: 0x0F,
            directions: 0x0F,
            timer_counter: 1024,
        }
    }

    pub fn new() -> (r: Self)
        ensures
            r@ == Self::spec_new(),
            r.wf(),
    {
        let r = Memory {
            mem: zeros(MEM_SIZE),
            rom: Vec::new(),
            external_ram: zeros(4 * RAM_BANK_SIZE),
            rom_banking_type: RomBankingType::NoBanking,
            rom_banks: CurrentRomBank::Bank(1),
            ram_banks: CurrentRamBank::Bank0,
            ram_write_enable: false,
            rom_bank_enable: true,
            joypad_buttons: 0x0F,
            joypad_directions: 0x0F,
            timer_counter: 1024,
        };
        assert(r@.rom =~= Seq::empty());
        r
    }

    /// Cycles left until the programmable counter ticks.
    pub fn timer_counter(&self) -> (r: i32)
        ensures
            r == self@.timer_counter,
    {
        self.timer_counter
    }

    pub fn set_timer_counter(&mut self, v: i32)
        ensures
            final(self)@ == (MemModel { timer_counter: v, ..old(self)@ }),
    {
        self.timer_counter = v;
    }

    pub fn rom_banking_type(&self) -> (r: RomBankingType)
        ensures
            r == self@.banking,
    {
        self.rom_banking_type
    }

    pub fn rom_bank(&self) -> (r: CurrentRomBank)
        ensures
            r == CurrentRomBank::Bank(self@.rom_bank),
    {
        self.rom_banks
    }

    pub fn ram_bank(&self) -> (r: CurrentRamBank)
        ensures
            r == self@.ram_bank,
    {
        self.ram_banks
    }

    pub fn ram_write_enabled(&self) -> (r: bool)
        ensures
            r == self@.ram_write_enable,
    {
        self.ram_write_enable
    }

    pub fn rom_banking_mode(&self) -> (r: bool)
        ensures
            r == self@.rom_bank_enable,
    {
        self.rom_bank_enable
    }

    fn read_rom_byte(&self, index: usize) -> (r: Byte)
        requires
            self.wf(),
        ensures
            r == self@.rom_byte(index as int),
    {
        if self.rom.len() == 0 {
            if index < self.mem.len() {
                self.mem[index]
            } else {
                0
            }
        } else {
            let len = self.rom.len();
            self.rom[index % len]
        }
    }

    /// Reads a byte as the program sees it.
    pub fn read_byte(&self, addr: Word) -> (r: Byte)
        requires
            self.wf(),
        ensures
            r == self@.read(addr),
    {
        if addr < 0x4000 {
            self.read_rom_byte(addr as usize)
        } else if addr <= 0x7FFF {
            let relative = (addr - 0x4000) as usize;
            let offset = (self.rom_banks.value() as usize) * 0x4000;
            self.read_rom_byte(offset + relative)
        } else if 0xA000 <= addr && addr <= 0xBFFF {
            let offset = (addr - 0xA000) as usize;
            let bank = self.ram_banks.index() as usize;
            self.external_ram[bank * RAM_BANK_SIZE + offset]
        } else {
            self.mem[addr as usize]
        }
    }

    /// Reads a byte as the program sees it; the result is stated through
    /// the folded `peek`.
    pub fn peek_byte(&self, addr: Word) -> (r: Byte)
        requires
            self.wf(),
        ensures
            r == self@.peek(addr),
    {
        proof {
            reveal(MemModel::peek);
        }
        self.read_byte(addr)
    }

    /// Reads a byte for hardware use; routed as a program read.
    pub fn read_byte_forced(&self, addr: Word) -> (r: Byte)
        requires
            self.wf(),
        ensures
            r == self@.read(addr),
    {
        self.read_byte(addr)
    }

    /// Reads a little-endian word; the high byte of 0xFFFF comes from 0x0000.
    pub fn read_word(&self, addr: Word) -> (r: Word)
        requires
            self.wf(),
        ensures
            r == self@.read_word(addr),
    {
        let l = self.read_byte(addr) as Word;
        let h = self.read_byte(addr.wrapping_add(1)) as Word;
        assert((h << 8) | l == h * 256 + l) by (bit_vector)
            requires
                h < 256,
                l < 256,
        ;
        (h << 8) | l
    }

    /// Frequency code of the programmable counter (low two bits of TMC).
    pub fn get_clock_freq(&self) -> (r: Byte)
        requires
            self.wf(),
        ensures
            r == self@.clock_freq(),
            r < 4,
    {
        let t = self.read_byte(TMC);
        assert(t & 0x3 < 4) by (bit_vector);
        t & 0x3
    }

    /// Reloads the countdown from the current frequency code.
    pub fn set_clock_frequency(&mut self)
        requires
            old(self).wf(),
        ensures
            final(self)@ == (MemModel {
                timer_counter: timer_period(old(self)@.clock_freq()),
                ..old(self)@
            }),
    {
        let frequency = self.get_clock_freq();
        self.timer_counter = match frequency {
            0 => 1024,
            1 => 16,
            2 => 64,
            _ => 256,
        };
    }

    /// Sets the request bit of interrupt source `interrupt`.
    pub fn request_interrupt(&mut self, interrupt: Byte)
        requires
            old(self).wf(),
            interrupt < 8,
        ensures
            final(self)@ == old(self)@.request(interrupt),
    {
        let request = self.mem[IF as usize] | (1u8 << interrupt);
        self.mem.set(IF as usize, request);
    }

    /// Sets the enable bit of interrupt source `interrupt`, keeping the others.
    pub fn enable_interrupt(&mut self, interrupt: Byte)
        requires
            old(self).wf(),
            interrupt < 8,
        ensures
            final(self)@ == old(self)@.enable(interrupt),
    {
        let enabled = self.mem[IE as usize] | (1u8 << interrupt);
        self.mem.set(IE as usize, enabled);
    }

    fn recompute_joypad(&mut self)
        requires
            old(self).wf(),
        ensures
            final(self)@ == old(self)@.recompute_joypad(),
    {
        let prev = self.mem[INPUT_REGISTER as usize];
        let mut lower: u8 = 0x0F;
        if prev & 0x20 == 0 {
            lower = lower & self.joypad_buttons;
        }
        if prev & 0x10 == 0 {
            lower = lower & self.joypad_directions;
        }
        let next = (prev & 0x30) | 0xC0 | (lower & 0x0F);
        self.mem.set(INPUT_REGISTER as usize, next);
        if (prev & 0x0F) & !(next & 0x0F) != 0 {
            self.request_interrupt(4);
        }
    }

    /// Latches new button and direction states (low nibbles, bit clear =
    /// pressed) and recomputes the input register.
    pub fn update_joypad_state(&mut self, buttons: Byte, directions: Byte)
        requires
            old(self).wf(),
        ensures
            final(self)@ == (MemModel {
                buttons: buttons & 0x0F,
                directions: directions & 0x0F,
                ..old(self)@
            }).recompute_joypad(),
    {
        self.joypad_buttons = buttons & 0x0F;
        self.joypad_directions = directions & 0x0F;
        self.recompute_joypad();
    }
    fn enable_ram_banking(&mut self, addr: Word, value: Byte)
        requires
            old(self).wf(),
        ensures
            final(self)@ == old(self)@.ram_enable_write(addr, value),
    {
        if self.rom_banking_type == RomBankingType::MBC2 && addr & 0x10 == 0x10 {
            return ;
        }
        if value & 0xF == 0xA {
            self.ram_write_enable = true;
        } else if value & 0xF == 0x0 {
            self.ram_write_enable = false;
        }
    }

    fn change_low_rom_banking(&mut self, value: Byte)
        requires
            old(self).wf(),
        ensures
            final(self)@ == old(self)@.low_rom_write(value),
    {
        if self.rom_banking_type == RomBankingType::MBC2 {
            self.rom_banks = CurrentRomBank::from(value & 0xF);
            return ;
        }
        let lower5: Byte = value & 31;
        let current = self.rom_banks.value();
        let masked = (current & 224) | lower5;
        self.rom_banks = CurrentRomBank::from(masked);
        if masked == 0 {
            self.rom_banks = CurrentRomBank::Bank(1);
        }
    }

    fn change_high_rom_banking(&mut self, value: Byte)
        requires
            old(self).wf(),
        ensures
            final(self)@ == old(self)@.high_rom_write(value),
    {
        let current = self.rom_banks.value();
        let masked = (current & 31) | (value & 224);
        self.rom_banks = CurrentRomBank::from(masked);
        if masked == 0 {
            self.rom_banks = CurrentRomBank::Bank(1);
        }
    }

    fn change_ram_banking(&mut self, value: Byte)
        requires
            old(self).wf(),
        ensures
            final(self)@ == (MemModel {
                ram_bank: CurrentRamBank::spec_from_value(value),
                ..old(self)@
            }),
    {
        self.ram_banks = CurrentRamBank::from_value(value);
    }

    fn change_banking_mode(&mut self, value: Byte)
        requires
            old(self).wf(),
        ensures
            final(self)@ == old(self)@.mode_write(value),
    {
        self.rom_bank_enable = value & 0x1 == 0;
        if self.rom_bank_enable {
            self.ram_banks = CurrentRamBank::Bank0;
        }
    }

    /// A program write below 0x8000 never reaches the ROM: it is a
    /// bank-switching control.
    fn handle_banking(&mut self, addr: Word, value: Byte)
        requires
            old(self).wf(),
            addr < 0x8000,
        ensures
            final(self)@ == old(self)@.banking_write(addr, value),
    {
        if addr < 0x2000 {
            if self.rom_banking_type != RomBankingType::NoBanking {
                self.enable_ram_banking(addr, value);
            }
        } else if addr < 0x4000 {
            if self.rom_banking_type != RomBankingType::NoBanking {
                self.change_low_rom_banking(value);
            }
        } else if addr < 0x6000 {
            if self.rom_banking_type == RomBankingType::MBC1 {
                if self.rom_bank_enable {
                    self.change_high_rom_banking(value);
                } else {
                    self.change_ram_banking(value);
                }
            }
        } else if self.rom_banking_type == RomBankingType::MBC1 {
            self.change_banking_mode(value);
        }
    }

    /// Copies the 160 bytes at `value << 8` into sprite-attribute memory.
    fn dma_transfer(&mut self, value: Byte)
        requires
            old(self).wf(),
        ensures
            final(self)@ == old(self)@.dma(value),
    {
        let address: Word = (value as Word) * 256;
        let mut buf: Vec<u8> = Vec::with_capacity(0xA0);
        let mut i: u16 = 0;
        while i < 0xA0
            invariant
                self.wf(),
                i <= 0xA0,
                address == value as int * 256,
                buf@.len() == i,
                forall|k: int| 0 <= k < i ==> buf@[k] == self@.read((address + k) as u16),
            decreases 0xA0 - i,
        {
            let b = self.read_byte(address + i);
            buf.push(b);
            i = i + 1;
        }
        let ghost m0 = self@;
        let mut j: usize = 0;
        while j < 0xA0
            invariant
                self.wf(),
                j <= 0xA0,
                buf@.len() == 0xA0,
                forall|k: int| 0 <= k < 0xA0 ==> buf@[k] == m0.read((address + k) as u16),
                self@ == m0.with_mem(self@.mem),
                forall|k: int|
                    0 <= k < MEM_SIZE ==> #[trigger] self@.mem[k] == if 0xFE00 <= k < 0xFE00 + j {
                        buf@[k - 0xFE00]
                    } else {
                        m0.mem[k]
                    },
            decreases 0xA0 - j,
        {
            self.mem.set(0xFE00 + j, buf[j]);
            j = j + 1;
        }
        assert(self@.mem =~= old(self)@.dma(value).mem);
    }

    /// Writes a byte as the program does, with every special address's side
    /// effect.
    pub fn write_byte(&mut self, addr: Word, value: Byte)
        requires
            old(self).wf(),
        ensures
            final(self)@ == old(self)@.write(addr, value),
            final(self).wf(),
    {
        if addr < 0x8000 {
            self.handle_banking(addr, value);
        } else if 0xA000 <= addr && addr < 0xC000 {
            if self.ram_write_enable {
                let offset = (addr - 0xA000) as usize;
                let bank = self.ram_banks.index() as usize;
                self.external_ram.set(bank * RAM_BANK_SIZE + offset, value);
            }
        } else if 0xE000 <= addr && addr < 0xFE00 {
            self.mem.set(addr as usize, value);
            self.mem.set((addr - 0x2000) as usize, value);
        } else if 0xFEA0 <= addr && addr < 0xFEFF {
            // restricted area: the write is discarded
        } else if addr == TMC {
            let current_frequency: Byte = self.get_clock_freq();
            self.mem.set(TMC as usize, value);
            let new_frequency = self.get_clock_freq();
            if current_frequency != new_frequency {
                self.set_clock_frequency();
            }
        } else if addr == DIVIDER_REGISTER || addr == CURRENT_SCANLINE {
            self.mem.set(addr as usize, 0);
        } else if addr == INPUT_REGISTER {
            let current = self.mem[INPUT_REGISTER as usize];
            self.mem.set(INPUT_REGISTER as usize, (value & 0x30) | 0xC0 | (current & 0x0F));
            self.recompute_joypad();
        } else if addr == DMA_REG {
            self.dma_transfer(value);
        } else {
            self.mem.set(addr as usize, value);
        }
    }

    /// Writes a little-endian word, low byte first; the high byte of 0xFFFF
    /// goes to 0x0000.
    pub fn write_word(&mut self, addr: Word, value: Word)
        requires
            old(self).wf(),
        ensures
            final(self)@ == old(self)@.write_word(addr, value),
            final(self).wf(),
    {
        let l = value % 256;
        let h = value / 256;
        self.write_byte(addr, l as Byte);
        self.write_byte(addr.wrapping_add(1), h as Byte);
    }

    /// Writes a byte with no special behaviour: below 0x8000 it goes into the
    /// cartridge image (grown as needed), in the external-RAM window into the
    /// selected bank, and always into the backing store.
    pub fn write_byte_forced(&mut self, addr: Word, value: Byte)
        requires
            old(self).wf(),
        ensures
            final(self)@ == old(self)@.write_forced(addr, value),
            final(self).wf(),
    {
        if addr < 0x8000 {
            let index = addr as usize;
            let ghost r0 = self.rom@;
            while self.rom.len() <= index
                invariant
                    index < 0x8000,
                    r0 == old(self)@.rom,
                    self@ == (MemModel { rom: self@.rom, ..old(self)@ }),
                    self.rom@ == r0 + Seq::new((self.rom@.len() - r0.len()) as nat, |i: int| 0u8),
                    self.rom@.len() >= r0.len(),
                    self.rom@.len() <= r0.len() || self.rom@.len() <= index + 1,
                decreases index + 1 - self.rom.len(),
            {
                self.rom.push(0);
                assert(self.rom@ =~= r0 + Seq::new((self.rom@.len() - r0.len()) as nat, |i: int| 0u8));
            }
            assert(self.rom@ =~= padded(r0, index + 1));
            self.rom.set(index, value);
        } else if 0xA000 <= addr && addr <= 0xBFFF {
            let offset = (addr - 0xA000) as usize;
            let bank = self.ram_banks.index() as usize;
            self.external_ram.set(bank * RAM_BANK_SIZE + offset, value);
        }
        self.mem.set(addr as usize, value);
    }

    /// Re-reads the banking chip from the cartridge header byte.
    pub fn refresh_rom_banking_type(&mut self)
        requires
            old(self).wf(),
        ensures
            final(self)@ == old(self)@.refresh_banking(),
    {
        let header = self.read_byte_forced(0x147);
        self.rom_banking_type = RomBankingType::from_header(header);
    }

    /// The banking chip the cartridge header names.
    pub fn identify_banking_type(&self) -> (r: RomBankingType)
        requires
            self.wf(),
        ensures
            r == RomBankingType::spec_from_header(self@.read(0x147)),
    {
        RomBankingType::from_header(self.read_byte(0x147))
    }

    /// Writes the hardware registers' power-on values and re-reads the
    /// banking chip.
    pub fn ram_startup(&mut self)
        requires
            old(self).wf(),
        ensures
            final(self)@ == old(self)@.powered_on(),
            final(self).wf(),
    {
        self.mem.set(0xFF05, 0x00);
        self.mem.set(0xFF06, 0x00);
        self.mem.set(0xFF07, 0x00);
        self.mem.set(0xFF10, 0x80);
        self.mem.set(0xFF11, 0xBF);
        self.mem.set(0xFF12, 0xF3);
        self.mem.set(0xFF14, 0xBF);
        self.mem.set(0xFF16, 0x3F);
        self.mem.set(0xFF17, 0x00);
        self.mem.set(0xFF19, 0xBF);
        self.mem.set(0xFF1A, 0x7F);
        self.mem.set(0xFF1B, 0xFF);
        self.mem.set(0xFF1C, 0x9F);
        self.mem.set(0xFF1E, 0xBF);
        self.mem.set(0xFF20, 0xFF);
        self.mem.set(0xFF21, 0x00);
        self.mem.set(0xFF22, 0x00);
        self.mem.set(0xFF23, 0xBF);
        self.mem.set(0xFF24, 0x77);
        self.mem.set(0xFF25, 0xF3);
        self.mem.set(0xFF26, 0xF1);
        self.mem.set(0xFF40, 0x91);
        self.mem.set(0xFF42, 0x00);
        self.mem.set(0xFF43, 0x00);
        self.mem.set(0xFF45, 0x00);
        self.mem.set(0xFF47, 0xFC);
        self.mem.set(0xFF48, 0xFF);
        self.mem.set(0xFF49, 0xFF);
        self.mem.set(0xFF4A, 0x00);
        self.mem.set(0xFF4B, 0x00);
        self.mem.set(0xFFFF, 0x00);
        self.refresh_rom_banking_type();
    }

    /// Replaces the cartridge image: clears the backing store and external
    /// RAM, resets the banking state to ROM bank 1, RAM bank 0, RAM writes
    /// off, ROM-banking mode, and re-reads the banking chip.
    pub fn load_rom_data(&mut self, data: &[u8])
        requires
            old(self).wf(),
        ensures
            final(self)@ == old(self)@.loaded(data@),
            final(self).wf(),
    {
        self.mem = zeros(MEM_SIZE);
        let mut rom: Vec<u8> = Vec::with_capacity(data.len());
        let mut i: usize = 0;
        while i < data.len()
            invariant
                i <= data@.len(),
                rom@ == data@.subrange(0, i as int),
            decreases data@.len() - i,
        {
            rom.push(data[i]);
            i = i + 1;
            assert(rom@ =~= data@.subrange(0, i as int));
        }
        assert(rom@ =~= data@);
        self.rom = rom;
        self.external_ram = zeros(4 * RAM_BANK_SIZE);
        self.rom_banks = CurrentRomBank::Bank(1);
        self.ram_banks = CurrentRamBank::Bank0;
        self.rom_bank_enable = true;
        self.ram_write_enable = false;
        self.refresh_rom_banking_type();
    }

    /// The shade that palette register `addr` gives color number `color_num`.
    pub fn get_color(&self, color_num: Byte, addr: Word) -> (r: Color)
        requires
            self.wf(),
            color_num < 4,
        ensures
            r == self@.color(color_num, addr),
    {
        let palette = self.peek_byte(addr);
        let color = (palette >> (2 * color_num)) & 0x3;
        match color {
            0 => Color::White,
            1 => Color::LightGrey,
            2 => Color::DarkGrey,
            _ => Color::Black,
        }
    }
}

} // verus!
