use crate::types::{CF, HF, NF, PF, SF, VF, XF, YF, ZF};
use vstd::prelude::*;

verus! {

/// x - y on 16 bits, wrapping.
pub open spec fn wsub16(x: u16, y: u16) -> u16 {
    if x >= y {
        (x - y) as u16
    } else {
        (x + 0x10000 - y) as u16
    }
}

/// x - y on 32 bits, wrapping.
pub open spec fn wsub32(x: u32, y: u32) -> u32 {
    if x >= y {
        (x - y) as u32
    } else {
        (x + 0x1_0000_0000 - y) as u32
    }
}

pub fn sub16_wrapping(x: u16, y: u16) -> (r: u16)
    ensures
        r == wsub16(x, y),
{
    x.wrapping_sub(y)
}

pub fn sub32_wrapping(x: u32, y: u32) -> (r: u32)
    ensures
        r == wsub32(x, y),
{
    x.wrapping_sub(y)
}

/// Sign and zero flags of an 8-bit result: Z when it is 0, else its sign bit.
pub open spec fn sz(v: u8) -> u8 {
    if v == 0 {
        ZF
    } else {
        v & SF
    }
}

/// Number of set bits in a byte.
pub open spec fn ones(v: u8) -> u8 {
    ((v & 1) + ((v >> 1) & 1) + ((v >> 2) & 1) + ((v >> 3) & 1) + ((v >> 4) & 1) + ((v >> 5)
        & 1) + ((v >> 6) & 1) + ((v >> 7) & 1)) as u8
}

/// Flags after an 8-bit addition `acc + add (+ carry)` with the unsigned
/// sum `res` (up to 9 bits): S, Z, the undocumented Y and X copied from the
/// result, carry out of bit 7, half carry out of bit 3, and signed overflow.
pub open spec fn spec_flags_add(acc: u8, add: u8, res: u16) -> u8 {
    let r = res as u8;
    sz(r) | (r & (YF | XF)) | (((res >> 8) as u8) & CF) | ((acc ^ add ^ r) & HF) | ((((acc ^ add
        ^ 0x80) & (add ^ r)) >> 5) & VF)
}

/// Flags after an 8-bit subtraction, `res` wrapping on 16 bits so that bit 8
/// is the borrow.
pub open spec fn spec_flags_sub(acc: u8, sub: u8, res: u16) -> u8 {
    let r = res as u8;
    NF | sz(r) | (r & (YF | XF)) | (((res >> 8) as u8) & CF) | ((acc ^ sub ^ r) & HF) | ((((acc
        ^ sub) & (r ^ acc)) >> 5) & VF)
}

/// Flags after a compare: as for a subtraction, but Y and X come from the
/// operand, not the result.
pub open spec fn spec_flags_cp(acc: u8, sub: u8, res: u16) -> u8 {
    let r = res as u8;
    NF | sz(r) | (sub & (YF | XF)) | (((res >> 8) as u8) & CF) | ((acc ^ sub ^ r) & HF) | ((((acc
        ^ sub) & (r ^ acc)) >> 5) & VF)
}

/// Sign, zero, parity (set for an even number of one bits), Y and X of a byte.
pub open spec fn spec_flags_szp(v: u8) -> u8 {
    (if ones(v) & 1 == 0 {
        PF
    } else {
        0
    }) | sz(v) | (v & (YF | XF))
}

pub fn flags_add(acc: u8, add: u8, res: u16) -> (r: u8)
    ensures
        r == spec_flags_add(acc, add, res),
{
    let v = res as u8;
    (if v == 0 {
        ZF
    } else {
        v & SF
    }) | (v & (YF | XF)) | (((res >> 8) as u8) & CF) | ((acc ^ add ^ v) & HF) | ((((acc ^ add
        ^ 0x80) & (add ^ v)) >> 5) & VF)
}

pub fn flags_sub(acc: u8, sub: u8, res: u16) -> (r: u8)
    ensures
        r == spec_flags_sub(acc, sub, res),
{
    let v = res as u8;
    NF | (if v == 0 {
        ZF
    } else {
        v & SF
    }) | (v & (YF | XF)) | (((res >> 8) as u8) & CF) | ((acc ^ sub ^ v) & HF) | ((((acc ^ sub)
        & (v ^ acc)) >> 5) & VF)
}

pub fn flags_cp(acc: u8, sub: u8, res: u16) -> (r: u8)
    ensures
        r == spec_flags_cp(acc, sub, res),
{
    let v = res as u8;
    NF | (if v == 0 {
        ZF
    } else {
        v & SF
    }) | (sub & (YF | XF)) | (((res >> 8) as u8) & CF) | ((acc ^ sub ^ v) & HF) | ((((acc ^ sub)
        & (v ^ acc)) >> 5) & VF)
}

pub fn flags_szp(v: u8) -> (r: u8)
    ensures
        r == spec_flags_szp(v),
{
    assert((v & 1) <= 1 && ((v >> 1) & 1) <= 1 && ((v >> 2) & 1) <= 1 && ((v >> 3) & 1) <= 1 && ((v
        >> 4) & 1) <= 1 && ((v >> 5) & 1) <= 1 && ((v >> 6) & 1) <= 1 && ((v >> 7) & 1) <= 1)
        by (bit_vector);
    let n: u8 = (v & 1) + ((v >> 1) & 1) + ((v >> 2) & 1) + ((v >> 3) & 1) + ((v >> 4) & 1) + ((v
        >> 5) & 1) + ((v >> 6) & 1) + ((v >> 7) & 1);
    (if n & 1 == 0 {
        PF
    } else {
        0
    }) | (if v == 0 {
        ZF
    } else {
        v & SF
    }) | (v & (YF | XF))
}

/// After an 8-bit addition the zero flag is set exactly when the 8-bit
/// result is 0, and the carry flag exactly when the unsigned sum exceeds 255.
pub proof fn lemma_add8_flags(a: u8, b: u8)
    ensures
        (spec_flags_add(a, b, (a as u16 + b as u16) as u16) & ZF != 0) == ((a + b) % 256 == 0),
        (spec_flags_add(a, b, (a as u16 + b as u16) as u16) & CF != 0) == (a + b > 255),
{
    assert(spec_flags_add(a, b, (a as u16 + b as u16) as u16) & ZF != 0 <==> (a + b) % 256 == 0)
        by (bit_vector);
    assert(spec_flags_add(a, b, (a as u16 + b as u16) as u16) & CF != 0 <==> a + b > 255)
        by (bit_vector);
}

} // verus!
