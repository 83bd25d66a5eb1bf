use crate::types::{Byte, Word};
use vstd::prelude::*;

verus! {

/// A flag bit of the flag register.
#[derive(Clone, Copy, Debug, PartialEq, Eq, Structural)]
pub enum CpuFlag {
    S,
    Z,
    Y,
    H,
    X,
    PV,
    N,
    C,
}

impl CpuFlag {
    pub open spec fn spec_mask(self) -> u8 {
        match self {
            CpuFlag::S => 0x80,
            CpuFlag::Z => 0x40,
            CpuFlag::Y => 0x20,
            CpuFlag::H => 0x10,
            CpuFlag::X => 0x08,
            CpuFlag::PV => 0x04,
            CpuFlag::N => 0x02,
            CpuFlag::C => 0x01,
        }
    }

    pub fn mask(self) -> (r: u8)
        ensures
            r == self.spec_mask(),
    {
        match self {
            CpuFlag::S => 0x80,
            CpuFlag::Z => 0x40,
            CpuFlag::Y => 0x20,
            CpuFlag::H => 0x10,
            CpuFlag::X => 0x08,
            CpuFlag::PV => 0x04,
            CpuFlag::N => 0x02,
            CpuFlag::C => 0x01,
        }
    }
}

/// A 16-bit register pair, also addressable as two 8-bit halves.
#[derive(Clone, Copy, Debug, PartialEq, Eq, Structural)]
pub struct Register {
    pub word: Word,
}

impl Register {
    pub open spec fn hi(self) -> u8 {
        (self.word >> 8) as u8
    }

    pub open spec fn lo(self) -> u8 {
        self.word as u8
    }

    pub open spec fn with_hi(self, b: u8) -> Register {
        Register { word: ((b as u16) << 8) | (self.word & 0xFF) }
    }

    pub open spec fn with_lo(self, b: u8) -> Register {
        Register { word: (self.word & 0xFF00) | (b as u16) }
    }

    pub fn new(word: Word) -> (r: Register)
        ensures
            r.word == word,
    {
        Register { word }
    }

    pub fn value(&self) -> (r: Word)
        ensures
            r == self.word,
    {
        self.word
    }

    pub fn high_value(&self) -> (r: Byte)
        ensures
            r == self.hi(),
            r as int == self.word as int / 256,
    {
        let r = (self.word >> 8) as u8;
        let w = self.word;
        assert(((w >> 8) as u8) as int == w as int / 256) by (bit_vector);
        r
    }

    pub fn low_value(&self) -> (r: Byte)
        ensures
            r == self.lo(),
            r as int == self.word as int % 256,
    {
        let w = self.word;
        assert((w as u8) as int == w as int % 256) by (bit_vector);
        self.word as u8
    }

    pub fn set(&mut self, word: Word)
        ensures
            final(self).word == word,
    {
        self.word = word;
    }

    pub fn set_high(&mut self, b: Byte)
        ensures
            *final(self) == old(self).with_hi(b),
            final(self).hi() == b,
            final(self).lo() == old(self).lo(),
    {
        let w = self.word;
        assert((((((b as u16) << 8) | (w & 0xFF)) >> 8) as u8) == b) by (bit_vector);
        assert(((((b as u16) << 8) | (w & 0xFF)) as u8) == w as u8) by (bit_vector);
        self.word = ((b as u16) << 8) | (self.word & 0xFF);
    }

    pub fn set_low(&mut self, b: Byte)
        ensures
            *final(self) == old(self).with_lo(b),
            final(self).lo() == b,
            final(self).hi() == old(self).hi(),
    {
        let w = self.word;
        assert(((((w & 0xFF00) | (b as u16)) >> 8) as u8) == (w >> 8) as u8) by (bit_vector);
        assert((((w & 0xFF00) | (b as u16)) as u8) == b) by (bit_vector);
        self.word = (self.word & 0xFF00) | (b as u16);
    }

    /// Adds one, wrapping at 16 bits.
    pub fn incriment(&mut self)
        ensures
            final(self).word == (old(self).word + 1) % 0x10000,
    {
        self.word = if self.word == 0xFFFF {
            0
        } else {
            self.word + 1
        };
    }

    /// Subtracts one, wrapping at 16 bits.
    pub fn decriment(&mut self)
        ensures
            final(self).word == (old(self).word + 0xFFFF) % 0x10000,
    {
        self.word = if self.word == 0 {
            0xFFFF
        } else {
            self.word - 1
        };
    }
}

/// The register file: main and shadow pairs, index registers, stack
/// pointer, program counter and the internal scratch register WZ.
#[derive(Clone, Copy, Debug, PartialEq, Eq, Structural)]
pub struct Registers {
    pub reg_af: Register,
    pub reg_bc: Register,
    pub reg_de: Register,
    pub reg_hl: Register,
    pub reg_ix: Register,
    pub reg_iy: Register,
    pub reg_sp: Register,
    pub reg_pc: Register,
    pub reg_wz: Register,
    pub reg_af_: Register,
    pub reg_bc_: Register,
    pub reg_de_: Register,
    pub reg_hl_: Register,
    pub reg_wz_: Register,
}

/// x reduced to 16 bits
pub open spec fn wrap16(x: int) -> u16 {
    (x % 0x10000) as u16
}

impl Registers {
    pub open spec fn spec_new() -> Registers {
        Registers {
            reg_af: Register { word: 0x01B0 },
            reg_bc: Register { word: 0x0013 },
            reg_de: Register { word: 0x00D8 },
            reg_hl: Register { word: 0x014D },
            reg_ix: Register { word: 0 },
            reg_iy: Register { word: 0 },
            reg_sp: Register { word: 0xFFFE },
            reg_pc: Register { word: 0x0100 },
            reg_wz: Register { word: 0 },
            reg_af_: Register { word: 0 },
            reg_bc_: Register { word: 0 },
            reg_de_: Register { word: 0 },
            reg_hl_: Register { word: 0 },
            reg_wz_: Register { word: 0 },
        }
    }

    pub open spec fn spec_a(self) -> u8 {
        self.reg_af.hi()
    }

    pub open spec fn spec_f(self) -> u8 {
        self.reg_af.lo()
    }

    pub open spec fn spec_b(self) -> u8 {
        self.reg_bc.hi()
    }

    pub open spec fn spec_c(self) -> u8 {
        self.reg_bc.lo()
    }

    pub open spec fn spec_l(self) -> u8 {
        self.reg_hl.lo()
    }

    pub open spec fn spec_w(self) -> u8 {
        self.reg_wz.hi()
    }

    pub open spec fn with_a(self, v: u8) -> Registers {
        Registers { reg_af: self.reg_af.with_hi(v), ..self }
    }

    pub open spec fn with_f(self, v: u8) -> Registers {
        Registers { reg_af: self.reg_af.with_lo(v), ..self }
    }

    pub open spec fn with_b(self, v: u8) -> Registers {
        Registers { reg_bc: self.reg_bc.with_hi(v), ..self }
    }

    pub open spec fn with_bc(self, v: u16) -> Registers {
        Registers { reg_bc: Register { word: v }, ..self }
    }

    pub open spec fn with_de(self, v: u16) -> Registers {
        Registers { reg_de: Register { word: v }, ..self }
    }

    pub open spec fn with_hl(self, v: u16) -> Registers {
        Registers { reg_hl: Register { word: v }, ..self }
    }

    pub open spec fn with_sp(self, v: u16) -> Registers {
        Registers { reg_sp: Register { word: v }, ..self }
    }

    pub open spec fn with_pc(self, v: u16) -> Registers {
        Registers { reg_pc: Register { word: v }, ..self }
    }

    pub open spec fn with_wz(self, v: u16) -> Registers {
        Registers { reg_wz: Register { word: v }, ..self }
    }

    /// The 8-bit register with the given instruction-field index
    /// (B, C, D, E, H, L, -, A).
    pub open spec fn spec_reg8(self, i: u8) -> u8 {
        if i == 0 {
            self.reg_bc.hi()
        } else if i == 1 {
            self.reg_bc.lo()
        } else if i == 2 {
            self.reg_de.hi()
        } else if i == 3 {
            self.reg_de.lo()
        } else if i == 4 {
            self.reg_hl.hi()
        } else if i == 5 {
            self.reg_hl.lo()
        } else {
            self.reg_af.hi()
        }
    }

    pub open spec fn with_reg8(self, i: u8, v: u8) -> Registers {
        if i == 0 {
            Registers { reg_bc: self.reg_bc.with_hi(v), ..self }
        } else if i == 1 {
            Registers { reg_bc: self.reg_bc.with_lo(v), ..self }
        } else if i == 2 {
            Registers { reg_de: self.reg_de.with_hi(v), ..self }
        } else if i == 3 {
            Registers { reg_de: self.reg_de.with_lo(v), ..self }
        } else if i == 4 {
            Registers { reg_hl: self.reg_hl.with_hi(v), ..self }
        } else if i == 5 {
            Registers { reg_hl: self.reg_hl.with_lo(v), ..self }
        } else {
            Registers { reg_af: self.reg_af.with_hi(v), ..self }
        }
    }

    /// The 16-bit pair with the given field index (BC, DE, HL, SP).
    pub open spec fn spec_r16sp(self, p: u8) -> u16 {
        if p == 0 {
            self.reg_bc.word
        } else if p == 1 {
            self.reg_de.word
        } else if p == 2 {
            self.reg_hl.word
        } else {
            self.reg_sp.word
        }
    }

    pub open spec fn with_r16sp(self, p: u8, v: u16) -> Registers {
        if p == 0 {
            self.with_bc(v)
        } else if p == 1 {
            self.with_de(v)
        } else if p == 2 {
            self.with_hl(v)
        } else {
            self.with_sp(v)
        }
    }

    /// The 16-bit pair with the given field index (BC, DE, HL, AF).
    pub open spec fn spec_r16af(self, p: u8) -> u16 {
        if p == 3 {
            self.reg_af.word
        } else {
            self.spec_r16sp(p)
        }
    }

    pub open spec fn with_r16af(self, p: u8, v: u16) -> Registers {
        if p == 3 {
            Registers { reg_af: Register { word: v }, ..self }
        } else {
            self.with_r16sp(p, v)
        }
    }

    pub fn new() -> (r: Registers)
        ensures
            r == Self::spec_new(),
    {
        Registers {
            reg_af: Register::new(0x01B0),
            reg_bc: Register::new(0x0013),
            reg_de: Register::new(0x00D8),
            reg_hl: Register::new(0x014D),
            reg_ix: Register::new(0),
            reg_iy: Register::new(0),
            reg_sp: Register::new(0xFFFE),
            reg_pc: Register::new(0x0100),
            reg_wz: Register::new(0),
            reg_af_: Register::new(0),
            reg_bc_: Register::new(0),
            reg_de_: Register::new(0),
            reg_hl_: Register::new(0),
            reg_wz_: Register::new(0),
        }
    }

    pub fn reset(&mut self)
        ensures
            *final(self) == Self::spec_new(),
    {
        *self = Registers::new();
    }

    pub fn af(&self) -> (r: Word)
        ensures
            r == self.reg_af.word,
    {
        self.reg_af.word
    }

    pub fn setaf(&mut self, value: Word)
        ensures
            *final(self) == (Registers { reg_af: Register { word: value }, ..*old(self) }),
    {
        self.reg_af.word = value;
    }

    pub fn bc(&self) -> (r: Word)
        ensures
            r == self.reg_bc.word,
    {
        self.reg_bc.word
    }

    pub fn setbc(&mut self, value: Word)
        ensures
            *final(self) == old(self).with_bc(value),
    {
        self.reg_bc.word = value;
    }

    pub fn de(&self) -> (r: Word)
        ensures
            r == self.reg_de.word,
    {
        self.reg_de.word
    }

    pub fn setde(&mut self, value: Word)
        ensures
            *final(self) == old(self).with_de(value),
    {
        self.reg_de.word = value;
    }

    pub fn hl(&self) -> (r: Word)
        ensures
            r == self.reg_hl.word,
    {
        self.reg_hl.word
    }

    pub fn sethl(&mut self, value: Word)
        ensures
            *final(self) == old(self).with_hl(value),
    {
        self.reg_hl.word = value;
    }

    /// Returns HL and then increments it, wrapping at 16 bits.
    pub fn hli(&mut self) -> (r: Word)
        ensures
            r == old(self).reg_hl.word,
            *final(self) == old(self).with_hl(wrap16(r + 1)),
    {
        let addr = self.reg_hl.word;
        self.reg_hl.word = addr.wrapping_add(1);
        addr
    }

    /// Returns HL and then decrements it, wrapping at 16 bits.
    pub fn hld(&mut self) -> (r: Word)
        ensures
            r == old(self).reg_hl.word,
            *final(self) == old(self).with_hl(wrap16(r + 0xFFFF)),
    {
        let addr = self.reg_hl.word;
        self.reg_hl.word = addr.wrapping_sub(1);
        addr
    }

    /// Sets or clears one flag bit, leaving the others.
    pub fn flag(&mut self, flag: CpuFlag, set: bool)
        ensures
            *final(self) == old(self).with_f(
                if set {
                    old(self).spec_f() | flag.spec_mask()
                } else {
                    old(self).spec_f() & !flag.spec_mask()
                },
            ),
    {
        let bit = flag.mask();
        let f = self.reg_af.low_value();
        if set {
            self.reg_af.set_low(f | bit);
        } else {
            self.reg_af.set_low(f & !bit);
        }
    }

    pub fn getflag(&self, flag: CpuFlag) -> (r: bool)
        ensures
            r == (self.spec_f() & flag.spec_mask() != 0),
    {
        (self.reg_af.low_value() & flag.mask()) != 0
    }

    pub fn a(&self) -> (r: Byte)
        ensures
            r == self.spec_a(),
    {
        self.reg_af.high_value()
    }

    pub fn f(&self) -> (r: Byte)
        ensures
            r == self.spec_f(),
    {
        self.reg_af.low_value()
    }

    pub fn b(&self) -> (r: Byte)
        ensures
            r == self.spec_b(),
    {
        self.reg_bc.high_value()
    }

    pub fn c(&self) -> (r: Byte)
        ensures
            r == self.spec_c(),
    {
        self.reg_bc.low_value()
    }

    pub fn l(&self) -> (r: Byte)
        ensures
            r == self.spec_l(),
    {
        self.reg_hl.low_value()
    }

    pub fn w(&self) -> (r: Byte)
        ensures
            r == self.spec_w(),
    {
        self.reg_wz.high_value()
    }

    pub fn set_a(&mut self, v: Byte)
        ensures
            *final(self) == old(self).with_a(v),
            final(self).spec_a() == v,
            final(self).spec_f() == old(self).spec_f(),
    {
        self.reg_af.set_high(v);
    }

    pub fn set_f(&mut self, v: Byte)
        ensures
            *final(self) == old(self).with_f(v),
            final(self).spec_f() == v,
            final(self).spec_a() == old(self).spec_a(),
    {
        self.reg_af.set_low(v);
    }

    pub fn set_b(&mut self, v: Byte)
        ensures
            *final(self) == old(self).with_b(v),
            final(self).spec_b() == v,
            final(self).spec_c() == old(self).spec_c(),
    {
        self.reg_bc.set_high(v);
    }

    pub fn sp(&self) -> (r: Word)
        ensures
            r == self.reg_sp.word,
    {
        self.reg_sp.word
    }

    pub fn set_sp(&mut self, v: Word)
        ensures
            *final(self) == old(self).with_sp(v),
    {
        self.reg_sp.word = v;
    }

    pub fn pc(&self) -> (r: Word)
        ensures
            r == self.reg_pc.word,
    {
        self.reg_pc.word
    }

    pub fn set_pc(&mut self, v: Word)
        ensures
            *final(self) == old(self).with_pc(v),
    {
        self.reg_pc.word = v;
    }

    pub fn wz(&self) -> (r: Word)
        ensures
            r == self.reg_wz.word,
    {
        self.reg_wz.word
    }

    pub fn set_wz(&mut self, v: Word)
        ensures
            *final(self) == old(self).with_wz(v),
    {
        self.reg_wz.word = v;
    }

    /// Moves the program counter forward by `n`, wrapping at 16 bits.
    pub fn inc_pc(&mut self, n: Word)
        ensures
            *final(self) == old(self).with_pc(wrap16(old(self).reg_pc.word + n)),
    {
        self.reg_pc.word = self.reg_pc.word.wrapping_add(n);
    }

    /// Moves the program counter back by `n`, wrapping at 16 bits.
    pub fn dec_pc(&mut self, n: Word)
        ensures
            *final(self) == old(self).with_pc(wrap16(old(self).reg_pc.word + 0x10000 - n)),
    {
        self.reg_pc.word = self.reg_pc.word.wrapping_sub(n);
    }

    pub fn get_reg8_by_index(&self, i: Byte) -> (r: Byte)
        requires
            i < 8,
            i != 6,
        ensures
            r == self.spec_reg8(i),
    {
        match i {
            0 => self.reg_bc.high_value(),
            1 => self.reg_bc.low_value(),
            2 => self.reg_de.high_value(),
            3 => self.reg_de.low_value(),
            4 => self.reg_hl.high_value(),
            5 => self.reg_hl.low_value(),
            _ => self.reg_af.high_value(),
        }
    }

    pub fn set_reg8_by_index(&mut self, i: Byte, v: Byte)
        requires
            i < 8,
            i != 6,
        ensures
            *final(self) == old(self).with_reg8(i, v),
    {
        match i {
            0 => self.reg_bc.set_high(v),
            1 => self.reg_bc.set_low(v),
            2 => self.reg_de.set_high(v),
            3 => self.reg_de.set_low(v),
            4 => self.reg_hl.set_high(v),
            5 => self.reg_hl.set_low(v),
            _ => self.reg_af.set_high(v),
        }
    }

    pub fn r16sp(&self, p: Byte) -> (r: Word)
        ensures
            r == self.spec_r16sp(p),
    {
        match p {
            0 => self.reg_bc.word,
            1 => self.reg_de.word,
            2 => self.reg_hl.word,
            _ => self.reg_sp.word,
        }
    }

    pub fn set_r16sp(&mut self, p: Byte, v: Word)
        ensures
            *final(self) == old(self).with_r16sp(p, v),
    {
        match p {
            0 => self.reg_bc.word = v,
            1 => self.reg_de.word = v,
            2 => self.reg_hl.word = v,
            _ => self.reg_sp.word = v,
        }
    }

    pub fn r16af(&self, p: Byte) -> (r: Word)
        ensures
            r == self.spec_r16af(p),
    {
        if p == 3 {
            self.reg_af.word
        } else {
            self.r16sp(p)
        }
    }

    pub fn set_r16af(&mut self, p: Byte, v: Word)
        ensures
            *final(self) == old(self).with_r16af(p, v),
    {
        if p == 3 {
            self.reg_af.word = v;
        } else {
            self.set_r16sp(p, v);
        }
    }

    /// EX AF,AF': swaps the accumulator pair with its shadow.
    pub fn ex_af(&mut self)
        ensures
            *final(self) == (Registers {
                reg_af: old(self).reg_af_,
                reg_af_: old(self).reg_af,
                ..*old(self)
            }),
    {
        let t = self.reg_af;
        self.reg_af = self.reg_af_;
        self.reg_af_ = t;
    }

    /// EXX: swaps BC, DE, HL and WZ with their shadows.
    pub fn exx(&mut self)
        ensures
            *final(self) == (Registers {
                reg_bc: old(self).reg_bc_,
                reg_bc_: old(self).reg_bc,
                reg_de: old(self).reg_de_,
                reg_de_: old(self).reg_de,
                reg_hl: old(self).reg_hl_,
                reg_hl_: old(self).reg_hl,
                reg_wz: old(self).reg_wz_,
                reg_wz_: old(self).reg_wz,
                ..*old(self)
            }),
    {
        let t = self.reg_bc;
        self.reg_bc = self.reg_bc_;
        self.reg_bc_ = t;
        let t = self.reg_de;
        self.reg_de = self.reg_de_;
        self.reg_de_ = t;
        let t = self.reg_hl;
        self.reg_hl = self.reg_hl_;
        self.reg_hl_ = t;
        let t = self.reg_wz;
        self.reg_wz = self.reg_wz_;
        self.reg_wz_ = t;
    }

    /// EX DE,HL
    pub fn ex_de_hl(&mut self)
        ensures
            *final(self) == old(self).with_de(old(self).reg_hl.word).with_hl(old(self).reg_de.word),
    {
        let t = self.reg_de;
        self.reg_de = self.reg_hl;
        self.reg_hl = t;
    }
}

} // verus!
