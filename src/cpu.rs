use crate::alu::{
    flags_add, flags_cp, flags_sub, flags_szp, spec_flags_add, spec_flags_cp, spec_flags_sub,
    spec_flags_szp, sub16_wrapping, sub32_wrapping, sz, wsub16, wsub32,
};
use crate::mem::{MemModel, Memory};
use crate::registers::{wrap16, Registers};
use crate::timer::Timer;
use crate::types::{Byte, CpuError, Word, CF, HF, IE, IF, NF, PF, SF, VF, XF, YF, ZF};
use vstd::prelude::*;

verus! {

/// Registers after ADD A,v.
pub open spec fn add8_regs(r: Registers, v: u8) -> Registers {
    let a = r.spec_a();
    let res = (a as u16 + v as u16) as u16;
    r.with_f(spec_flags_add(a, v, res)).with_a(res as u8)
}

/// Registers after ADC A,v.
pub open spec fn adc8_regs(r: Registers, v: u8) -> Registers {
    let a = r.spec_a();
    let res = (a as u16 + v as u16 + (r.spec_f() & CF) as u16) as u16;
    r.with_f(spec_flags_add(a, v, res)).with_a(res as u8)
}

/// Registers after SUB v.
pub open spec fn sub8_regs(r: Registers, v: u8) -> Registers {
    let a = r.spec_a();
    let res = wsub16(a as u16, v as u16);
    r.with_f(spec_flags_sub(a, v, res)).with_a(res as u8)
}

/// Registers after SBC A,v.
pub open spec fn sbc8_regs(r: Registers, v: u8) -> Registers {
    let a = r.spec_a();
    let res = wsub16(wsub16(a as u16, v as u16), (r.spec_f() & CF) as u16);
    r.with_f(spec_flags_sub(a, v, res)).with_a(res as u8)
}

/// Registers after CP v: only the flags change.
pub open spec fn cp8_regs(r: Registers, v: u8) -> Registers {
    let a = r.spec_a();
    r.with_f(spec_flags_cp(a, v, wsub16(a as u16, v as u16)))
}

/// Registers after AND v.
pub open spec fn and8_regs(r: Registers, v: u8) -> Registers {
    let res = r.spec_a() & v;
    r.with_a(res).with_f(spec_flags_szp(res) | HF)
}

/// Registers after OR v.
pub open spec fn or8_regs(r: Registers, v: u8) -> Registers {
    let res = r.spec_a() | v;
    r.with_a(res).with_f(spec_flags_szp(res))
}

/// Registers after XOR v.
pub open spec fn xor8_regs(r: Registers, v: u8) -> Registers {
    let res = r.spec_a() ^ v;
    r.with_a(res).with_f(spec_flags_szp(res))
}

/// Registers after the 8-bit ALU operation with field index `op`
/// (ADD, ADC, SUB, SBC, AND, XOR, OR, CP).
pub open spec fn alu8_regs(r: Registers, op: u8, v: u8) -> Registers {
    if op == 0 {
        add8_regs(r, v)
    } else if op == 1 {
        adc8_regs(r, v)
    } else if op == 2 {
        sub8_regs(r, v)
    } else if op == 3 {
        sbc8_regs(r, v)
    } else if op == 4 {
        and8_regs(r, v)
    } else if op == 5 {
        xor8_regs(r, v)
    } else if op == 6 {
        or8_regs(r, v)
    } else {
        cp8_regs(r, v)
    }
}

/// Memory after pushing `v` with stack pointer `sp`: high byte at sp-1,
/// low byte at sp-2.
pub open spec fn push_mem(m: MemModel, sp: u16, v: u16) -> MemModel {
    m.write(wrap16(sp + 0xFFFF), (v / 256) as u8).write(wrap16(sp + 0xFFFE), (v % 256) as u8)
}

/// The word on top of the stack at `sp`.
pub open spec fn stack_top(m: MemModel, sp: u16) -> u16 {
    (m.read(wrap16(sp + 1)) as u16 * 256 + m.read(sp) as u16) as u16
}

/// Handler address of interrupt source `i`.
pub open spec fn interrupt_vector(i: u8) -> u16 {
    (0x40 + 8 * i) as u16
}

/// Whether source `i` is both requested and enabled.
pub open spec fn pending(req: u8, en: u8, i: u8) -> bool {
    (req >> i) & 1 != 0 && (en >> i) & 1 != 0
}

/// The first source from `i` on (below 5) that is requested and enabled.
pub open spec fn first_pending(req: u8, en: u8, i: u8) -> Option<u8>
    decreases 5 - i,
{
    if i >= 5 {
        None
    } else if pending(req, en, i) {
        Some(i)
    } else {
        first_pending(req, en, (i + 1) as u8)
    }
}

/// A displacement byte read as a signed value.
pub open spec fn sext8(d: u8) -> int {
    if d < 128 {
        d as int
    } else {
        d as int - 256
    }
}

/// The target of a relative jump whose displacement byte `d` is at `pc`.
pub open spec fn rel_target(pc: u16, d: u8) -> u16 {
    wrap16(pc + sext8(d) + 1)
}

/// Whether branch condition `y` (NZ, Z, NC, C, PO, PE, P, M) holds for flags `f`.
pub open spec fn condition(f: u8, y: u8) -> bool {
    if y == 0 {
        f & ZF == 0
    } else if y == 1 {
        f & ZF != 0
    } else if y == 2 {
        f & CF == 0
    } else if y == 3 {
        f & CF != 0
    } else if y == 4 {
        f & PF == 0
    } else if y == 5 {
        f & PF != 0
    } else if y == 6 {
        f & SF == 0
    } else if y == 7 {
        f & SF != 0
    } else {
        false
    }
}

/// Result and flags of the rotate or shift with field index `op` (RLC, RRC,
/// RL, RR, SLA, SRA, SLL, SRL) on `v`, with incoming flags `f`.
pub open spec fn rot_spec(op: u8, v: u8, f: u8) -> (u8, u8) {
    let res: u8 = if op == 0 {
        (v << 1u8) | (v >> 7u8)
    } else if op == 1 {
        (v >> 1u8) | (v << 7u8)
    } else if op == 2 {
        (v << 1u8) | (f & CF)
    } else if op == 3 {
        (v >> 1u8) | ((f & CF) << 7u8)
    } else if op == 4 {
        v << 1u8
    } else if op == 5 {
        (v >> 1u8) | (v & 0x80)
    } else if op == 6 {
        (v << 1u8) | 1
    } else {
        v >> 1u8
    };
    let carry: u8 = if op == 0 || op == 2 || op == 4 || op == 6 {
        (v >> 7u8) & CF
    } else {
        v & CF
    };
    (res, spec_flags_szp(res) | carry)
}

/// Result and flags of the accumulator rotate with field index `op` (RLCA,
/// RRCA, RLA, RRA): S, Z and P/V are kept.
pub open spec fn rot_a_spec(op: u8, a: u8, f: u8) -> (u8, u8) {
    let res: u8 = if op == 0 {
        (a << 1u8) | (a >> 7u8)
    } else if op == 1 {
        (a >> 1u8) | (a << 7u8)
    } else if op == 2 {
        (a << 1u8) | (f & CF)
    } else {
        (a >> 1u8) | ((f & CF) << 7u8)
    };
    let carry: u8 = if op == 0 || op == 2 {
        (a >> 7u8) & CF
    } else {
        a & CF
    };
    (res, carry | (res & (XF | YF)) | (f & (SF | ZF | PF)))
}

/// Flags after BIT with mask `mask` on `v`; Y and X come from `yx`.
pub open spec fn bit_flags(v: u8, mask: u8, f: u8, yx: u8) -> u8 {
    let res = v & mask;
    HF | (f & CF) | (if res == 0 {
        ZF | PF
    } else {
        res & SF
    }) | (yx & (XF | YF))
}

/// `v` plus or minus `d`, wrapping at 8 bits.
pub open spec fn bcd_adjust(v: u8, d: u8, sub: bool) -> u8 {
    if sub {
        ((v + 256 - d) % 256) as u8
    } else {
        ((v + d) % 256) as u8
    }
}

/// Accumulator and flags after DAA.
pub open spec fn daa_spec(a: u8, f: u8) -> (u8, u8) {
    let low = (a & 0xF) > 0x9 || (f & HF) != 0;
    let high = a > 0x99 || (f & CF) != 0;
    let sub = f & NF != 0;
    let v1: u8 = if low {
        bcd_adjust(a, 6, sub)
    } else {
        a
    };
    let v: u8 = if high {
        bcd_adjust(v1, 0x60, sub)
    } else {
        v1
    };
    (v, (f & (CF | NF)) | (if a > 0x99 {
        CF
    } else {
        0
    }) | ((a ^ v) & HF) | spec_flags_szp(v))
}

/// Result and flags of ADD HL,rr (S, Z and P/V kept).
pub open spec fn add16_spec(acc: u16, add: u16, f: u8) -> (u16, u8) {
    let res: u32 = (acc as u32 + add as u32) as u32;
    (
        (res & 0xFFFF) as u16,
        (f & (SF | ZF | VF)) | ((((acc as u32) ^ res ^ (add as u32)) >> 8u32) as u8 & HF) | ((res
            >> 16u32) as u8 & CF) | ((res >> 8u32) as u8 & (YF | XF)),
    )
}

/// Result and flags of ADC HL,rr.
pub open spec fn adc16_spec(acc: u16, add: u16, f: u8) -> (u16, u8) {
    let a = acc as u32;
    let b = add as u32;
    let res: u32 = (a + b + (f & CF) as u32) as u32;
    (
        (res & 0xFFFF) as u16,
        ((((a ^ res ^ b) >> 8u32) & (HF as u32)) | ((res >> 16u32) & (CF as u32)) | ((res >> 8u32)
            & ((SF | XF | YF) as u32)) | (if res & 0xFFFF == 0 {
            ZF as u32
        } else {
            0
        }) | (((b ^ a ^ 0x8000) & (b ^ res) & 0x8000) >> 13u32)) as u8,
    )
}

/// Result and flags of SBC HL,rr.
pub open spec fn sbc16_spec(acc: u16, sub: u16, f: u8) -> (u16, u8) {
    let a = acc as u32;
    let b = sub as u32;
    let res: u32 = wsub32(wsub32(a, b), (f & CF) as u32);
    (
        (res & 0xFFFF) as u16,
        ((NF as u32) | (((a ^ res ^ b) >> 8u32) & (HF as u32)) | ((res >> 16u32) & (CF as u32)) | ((
        res >> 8u32) & ((SF | XF | YF) as u32)) | (if res & 0xFFFF == 0 {
            ZF as u32
        } else {
            0
        }) | (((b ^ a) & (a ^ res) & 0x8000) >> 13u32)) as u8,
    )
}

/// Pointer step of a block instruction: +1, or -1 for the decrementing forms.
pub open spec fn step_of(dec: bool) -> int {
    if dec {
        0xFFFF
    } else {
        1
    }
}

/// Registers after LDI / LDD that copied `val`.
pub open spec fn ldi_regs(r: Registers, val: u8, dec: bool) -> Registers {
    let bc = wrap16(r.reg_bc.word + 0xFFFF);
    let n = ((val + r.spec_a()) % 256) as u8;
    r.with_hl(wrap16(r.reg_hl.word + step_of(dec))).with_de(
        wrap16(r.reg_de.word + step_of(dec)),
    ).with_bc(bc).with_f(
        (r.spec_f() & (SF | ZF | CF)) | (if n & 0x02 != 0 {
            YF
        } else {
            0
        }) | (if n & 0x08 != 0 {
            XF
        } else {
            0
        }) | (if bc > 0 {
            VF
        } else {
            0
        }),
    )
}

/// Flags of CPI / CPD comparing A with `val`, BC already decremented to `bc`.
pub open spec fn cpi_flags(a: u8, val: u8, f: u8, bc: u16) -> u8 {
    let v = ((a + 256 - val) % 256) as u8;
    let f0 = NF | (f & CF) | sz(v) | (if (v & 0xF) > (a & 0xF) {
        HF
    } else {
        0
    }) | (if bc != 0 {
        VF
    } else {
        0
    });
    let v2: u8 = if f0 & HF != 0 {
        ((v + 255) % 256) as u8
    } else {
        v
    };
    f0 | (if v2 & 0x02 != 0 {
        YF
    } else {
        0
    }) | (if v2 & 0x08 != 0 {
        XF
    } else {
        0
    })
}

/// Registers after CPI / CPD that compared with `val`.
pub open spec fn cpi_regs(r: Registers, val: u8, dec: bool) -> Registers {
    let bc = wrap16(r.reg_bc.word + 0xFFFF);
    r.with_wz(wrap16(r.reg_wz.word + step_of(dec))).with_hl(
        wrap16(r.reg_hl.word + step_of(dec)),
    ).with_bc(bc).with_f(cpi_flags(r.spec_a(), val, r.spec_f(), bc))
}

/// Registers of a repeating block instruction that goes round again: the
/// program counter back on the instruction, WZ one past its second byte.
pub open spec fn rewind(r: Registers) -> Registers {
    r.with_pc(wrap16(r.reg_pc.word + 0xFFFE)).with_wz(wrap16(r.reg_pc.word + 1))
}

/// The value every port reads: no device answers.
pub open spec fn port_value() -> u8 {
    1
}

/// Flags after INI / IND moved `val`; `c` is adjusted by `add`.
pub open spec fn ini_ind_flags_spec(b: u8, c: u8, val: u8, add: u8) -> u8 {
    let t: u16 = (((c + add) % 256) + val) as u16;
    (if b != 0 {
        b & SF
    } else {
        ZF
    }) | (if val & SF != 0 {
        NF
    } else {
        0
    }) | (if t & 0x100 != 0 {
        HF | CF
    } else {
        0
    }) | (spec_flags_szp((t & 0x07) as u8 ^ b) & PF)
}

/// Flags after OUTI / OUTD moved `val`.
pub open spec fn outi_outd_flags_spec(b: u8, l: u8, val: u8) -> u8 {
    let t: u16 = (l + val) as u16;
    (if b != 0 {
        b & SF
    } else {
        ZF
    }) | (if val & SF != 0 {
        NF
    } else {
        0
    }) | (if t & 0x100 != 0 {
        HF | CF
    } else {
        0
    }) | (spec_flags_szp((t & 0x07) as u8 ^ b) & PF)
}

/// Registers after INI / IND that read `val` from the port.
pub open spec fn ini_regs(r: Registers, val: u8, dec: bool) -> Registers {
    let b = ((r.spec_b() + 255) % 256) as u8;
    r.with_wz(wrap16(r.reg_bc.word + step_of(dec))).with_b(b).with_hl(
        wrap16(r.reg_hl.word + step_of(dec)),
    ).with_f(
        ini_ind_flags_spec(
            b,
            r.spec_c(),
            val,
            if dec {
                255
            } else {
                1
            },
        ),
    )
}

/// Registers after OUTI / OUTD that sent `val`.
pub open spec fn outi_regs(r: Registers, val: u8, dec: bool) -> Registers {
    let b = ((r.spec_b() + 255) % 256) as u8;
    let hl = wrap16(r.reg_hl.word + step_of(dec));
    let r1 = r.with_hl(hl).with_b(b);
    r1.with_wz(wrap16(r1.reg_bc.word + step_of(dec))).with_f(
        outi_outd_flags_spec(b, hl as u8, val),
    )
}

/// The program counter stepped back over a two-byte instruction.
pub open spec fn rewind_pc(r: Registers) -> Registers {
    r.with_pc(wrap16(r.reg_pc.word + 0xFFFE))
}

/// Cycles of the CB-prefixed instruction `op` (the indexed forms add 4).
pub open spec fn cb_cycles(op: u8, ext: bool) -> int {
    let x = op >> 6u8;
    let z = op & 7;
    (if ext {
        4int
    } else {
        0
    }) + if x == 1 {
        if z == 6 {
            12int
        } else {
            8
        }
    } else if z == 6 || ext {
        15
    } else {
        8
    }
}

/// Outcome of the ED-prefixed instruction `op`, registers `r` and memory `m`
/// as they stand when it is fetched: its cycles, or why it cannot run.
pub open spec fn ed_outcome(op: u8, r: Registers, m: MemModel) -> Result<int, CpuError> {
    let x = op >> 6u8;
    let y = (op >> 3u8) & 7;
    let z = op & 7;
    let b_left = (r.spec_b() + 255) % 256 != 0;
    if x == 2 && y >= 4 && z < 4 {
        if y < 6 {
            Ok(16)
        } else if z == 0 {
            Ok(
                if r.reg_bc.word != 1 {
                    21
                } else {
                    16
                },
            )
        } else if z == 1 {
            Ok(
                if r.reg_bc.word != 1 && r.spec_a() != m.read(r.reg_hl.word) {
                    21
                } else {
                    16
                },
            )
        } else {
            Ok(
                if b_left {
                    21
                } else {
                    16
                },
            )
        }
    } else if x == 1 {
        if z == 0 || z == 1 {
            Ok(12)
        } else if z == 2 {
            Ok(15)
        } else if z == 3 {
            Ok(20)
        } else if z == 4 || z == 6 {
            Ok(8)
        } else if z == 5 {
            if y == 1 {
                Err(CpuError::Unsupported { prefix: 0xED, opcode: op })
            } else {
                Err(CpuError::InvalidInstruction { prefix: 0xED, opcode: op })
            }
        } else if y < 4 {
            Err(CpuError::Unsupported { prefix: 0xED, opcode: op })
        } else if y < 6 {
            Ok(18)
        } else {
            Ok(9)
        }
    } else {
        Err(CpuError::InvalidInstruction { prefix: 0xED, opcode: op })
    }
}

/// Outcome of the instruction `op`, with registers `r` as they stand after
/// its fetch and memory `m`: the cycles it takes, or why it cannot run.
/// Indexed forms (`ext`) take 4 more cycles, and 8 more for a memory operand.
pub open spec fn op_outcome(op: u8, ext: bool, r: Registers, m: MemModel) -> Result<int, CpuError> {
    let x = op >> 6u8;
    let y = (op >> 3u8) & 7;
    let z = op & 7;
    let p = y >> 1u8;
    let q = y & 1;
    let base: int = if ext {
        4
    } else {
        0
    };
    let extc: int = if ext {
        8
    } else {
        0
    };
    let f = r.spec_f();
    if x == 1 {
        Ok(
            base + if y == 6 && z == 6 {
                4int
            } else if y == 6 || z == 6 {
                7 + extc
            } else {
                4
            },
        )
    } else if x == 2 {
        Ok(
            base + if z == 6 {
                7 + extc
            } else {
                4int
            },
        )
    } else if x == 0 {
        Ok(
            base + if z == 0 {
                if y < 2 {
                    4int
                } else if y == 2 {
                    if (r.spec_b() + 255) % 256 != 0 {
                        13
                    } else {
                        8
                    }
                } else if y == 3 || condition(f, (y - 4) as u8) {
                    12
                } else {
                    7
                }
            } else if z == 1 {
                if q == 0 {
                    10
                } else {
                    11
                }
            } else if z == 2 {
                if p == 2 {
                    16
                } else if p == 3 {
                    13
                } else {
                    7
                }
            } else if z == 3 {
                6
            } else if z == 4 || z == 5 {
                if y == 6 {
                    11 + extc
                } else {
                    4
                }
            } else if z == 6 {
                if y == 6 {
                    if ext {
                        15
                    } else {
                        10
                    }
                } else {
                    7
                }
            } else {
                4
            },
        )
    } else if z == 5 && q == 1 && p == 2 {
        match ed_outcome(m.read(r.reg_pc.word), r.with_pc(wrap16(r.reg_pc.word + 1)), m) {
            Ok(c) => Ok(base + c),
            Err(e) => Err(e),
        }
    } else if z == 3 && y == 1 {
        Ok(
            base + cb_cycles(
                m.read(
                    wrap16(
                        r.reg_pc.word + if ext {
                            1int
                        } else {
                            0
                        },
                    ),
                ),
                ext,
            ),
        )
    } else {
        Ok(
            base + if z == 0 {
                if condition(f, y) {
                    11int
                } else {
                    5
                }
            } else if z == 1 {
                if q == 0 || p == 0 {
                    10
                } else if p == 3 {
                    6
                } else {
                    4
                }
            } else if z == 2 {
                10
            } else if z == 3 {
                if y == 0 {
                    10
                } else if y < 4 {
                    11
                } else if y == 4 {
                    19
                } else {
                    4
                }
            } else if z == 4 {
                if condition(f, y) {
                    17
                } else {
                    10
                }
            } else if z == 5 {
                if q == 0 {
                    11
                } else if p == 0 {
                    17
                } else {
                    8
                }
            } else if z == 6 {
                7
            } else {
                11
            },
        )
    }
}

/// Every instruction that runs takes between 4 and 25 cycles.
pub proof fn lemma_cycles_bounded(op: u8, ext: bool, r: Registers, m: MemModel)
    ensures
        op_outcome(op, ext, r, m) is Ok ==> 4 <= op_outcome(op, ext, r, m)->Ok_0 <= 25,
{
    let e = ed_outcome(m.read(r.reg_pc.word), r.with_pc(wrap16(r.reg_pc.word + 1)), m);
    assert(e is Ok ==> 8 <= e->Ok_0 <= 21);
}

/// Flags after INC of `val` (carry kept from `f`).
pub open spec fn inc8_flags(val: u8, f: u8) -> u8 {
    let r = ((val + 1) % 256) as u8;
    sz(r) | (r & (XF | YF)) | ((r ^ val) & HF) | (if r == 0x80 {
        VF
    } else {
        0
    }) | (f & CF)
}

/// Flags after DEC of `val` (carry kept from `f`).
pub open spec fn dec8_flags(val: u8, f: u8) -> u8 {
    let r = ((val + 255) % 256) as u8;
    NF | sz(r) | (r & (XF | YF)) | ((r ^ val) & HF) | (if r == 0x7F {
        VF
    } else {
        0
    }) | (f & CF)
}

/// Registers after the accumulator and flag operation with field index `y`
/// (RLCA, RRCA, RLA, RRA, DAA, CPL, SCF, CCF).
pub open spec fn acc_op_regs(r: Registers, y: u8) -> Registers {
    let a = r.spec_a();
    let f = r.spec_f();
    if y < 4 {
        r.with_f(rot_a_spec(y, a, f).1).with_a(rot_a_spec(y, a, f).0)
    } else if y == 4 {
        r.with_f(daa_spec(a, f).1).with_a(daa_spec(a, f).0)
    } else if y == 5 {
        let na = a ^ 0xFF;
        r.with_f((f & (SF | ZF | PF | CF)) | (HF | NF) | (na & (YF | XF))).with_a(na)
    } else if y == 6 {
        r.with_f((f & (SF | ZF | YF | XF | PF)) | CF | (a & (YF | XF)))
    } else {
        r.with_f(((f & (SF | ZF | YF | XF | PF | CF)) | ((f & CF) << 4u8) | (a & (YF | XF))) ^ CF)
    }
}

/// The address of a memory operand and the processor after fetching it:
/// HL, or for the indexed forms HL plus a fetched signed displacement,
/// also kept in WZ.
pub open spec fn operand_addr(c: CPU, m: MemModel, ext: bool) -> (u16, CPU) {
    if ext {
        let pc = c.registers.reg_pc.word;
        let a = wrap16(c.registers.reg_hl.word + sext8(m.read(pc)) + 0x10000);
        (a, c.with_regs(c.registers.with_pc(wrap16(pc + 1)).with_wz(a)))
    } else {
        (c.registers.reg_hl.word, c)
    }
}

/// Processor and memory after an 8-bit load or ALU instruction `op`
/// (blocks 1 and 2), fetched already.
pub open spec fn load_alu_effect(c: CPU, m: MemModel, op: u8, ext: bool) -> (CPU, MemModel) {
    let x = op >> 6u8;
    let y = (op >> 3u8) & 7;
    let z = op & 7;
    let r = c.registers;
    if x == 1 {
        if y == 6 && z == 6 {
            (
                CPU {
                    halted: true,
                    registers: r.with_pc(wrap16(r.reg_pc.word + 0x10000 - 1)),
                    ..c
                },
                m,
            )
        } else if y == 6 {
            let (a, c1) = operand_addr(c, m, ext);
            (c1, m.write(a, c1.registers.spec_reg8(z)))
        } else if z == 6 {
            let (a, c1) = operand_addr(c, m, ext);
            (c1.with_regs(c1.registers.with_reg8(y, m.read(a))), m)
        } else {
            (c.with_regs(r.with_reg8(y, r.spec_reg8(z))), m)
        }
    } else if z == 6 {
        let (a, c1) = operand_addr(c, m, ext);
        (c1.with_regs(alu8_regs(c1.registers, y, m.read(a))), m)
    } else {
        (c.with_regs(alu8_regs(r, y, r.spec_reg8(z))), m)
    }
}

/// Processor and memory after a relative jump, DJNZ, NOP or EX AF,AF'
/// (block 0, low field 0).
pub open spec fn jump_effect(c: CPU, m: MemModel, y: u8) -> (CPU, MemModel) {
    let r = c.registers;
    let pc = r.reg_pc.word;
    if y == 0 {
        (c, m)
    } else if y == 1 {
        (c.with_regs(Registers { reg_af: r.reg_af_, reg_af_: r.reg_af, ..r }), m)
    } else if y == 2 {
        let b = ((r.spec_b() + 255) % 256) as u8;
        if b != 0 {
            let t = rel_target(pc, m.read(pc));
            (c.with_regs(r.with_b(b).with_wz(t).with_pc(t)), m)
        } else {
            (c.with_regs(r.with_b(b).with_pc(wrap16(pc + 1))), m)
        }
    } else if y == 3 || condition(r.spec_f(), (y - 4) as u8) {
        let t = rel_target(pc, m.read(pc));
        (c.with_regs(r.with_pc(t).with_wz(t)), m)
    } else {
        (c.with_regs(r.with_pc(wrap16(pc + 1))), m)
    }
}

/// Processor after a 16-bit load, ADD HL, INC or DEC of a pair (block 0,
/// low field 1 or 3).
pub open spec fn wide_effect(c: CPU, m: MemModel, y: u8, z: u8) -> (CPU, MemModel) {
    let p = y >> 1u8;
    let q = y & 1;
    let r = c.registers;
    let pc = r.reg_pc.word;
    if z == 1 {
        if q == 0 {
            (c.with_regs(r.with_pc(wrap16(pc + 2)).with_r16sp(p, m.read_word(pc))), m)
        } else {
            let hl = r.spec_r16sp(2);
            let res = add16_spec(hl, r.spec_r16sp(p), r.spec_f());
            (c.with_regs(r.with_wz(wrap16(hl + 1)).with_f(res.1).with_r16sp(2, res.0)), m)
        }
    } else {
        let v = r.spec_r16sp(p);
        (
            c.with_regs(
                r.with_r16sp(
                    p,
                    if q == 0 {
                        wrap16(v + 1)
                    } else {
                        wrap16(v + 0xFFFF)
                    },
                ),
            ),
            m,
        )
    }
}

/// Processor and memory after an indirect load (block 0, low field 2).
pub open spec fn indirect_effect(c: CPU, m: MemModel, y: u8) -> (CPU, MemModel) {
    let p = y >> 1u8;
    let q = y & 1;
    let r = c.registers;
    let pc = r.reg_pc.word;
    let nn = m.read_word(pc);
    let r1 = r.with_pc(wrap16(pc + 2));
    let addr: u16 = if p == 0 {
        r.reg_bc.word
    } else {
        r.reg_de.word
    };
    if q == 0 {
        if p == 2 {
            (c.with_regs(r1.with_wz(wrap16(nn + 1))), m.write_word(nn, r.spec_r16sp(2)))
        } else if p == 3 {
            (c.with_regs(r1.with_wz(wrap16(nn + 1))), m.write(nn, r.spec_a()))
        } else {
            (
                c.with_regs(r.with_wz((r.spec_a() * 256 + wrap16(addr + 1) % 256) as u16)),
                m.write(addr, r.spec_a()),
            )
        }
    } else if p == 2 {
        (c.with_regs(r1.with_r16sp(2, m.read_word(nn)).with_wz(wrap16(nn + 1))), m)
    } else if p == 3 {
        (c.with_regs(r1.with_a(m.read(nn)).with_wz(wrap16(nn + 1))), m)
    } else {
        (c.with_regs(r.with_a(m.read(addr)).with_wz(wrap16(addr + 1))), m)
    }
}

/// Processor and memory after INC or DEC of a byte (block 0, low field 4
/// or 5).
pub open spec fn incdec_effect(c: CPU, m: MemModel, y: u8, z: u8, ext: bool) -> (CPU, MemModel) {
    let r = c.registers;
    if y == 6 {
        let (a, c1) = operand_addr(c, m, ext);
        let v = m.read(a);
        let f = c1.registers.spec_f();
        if z == 4 {
            (c1.with_regs(c1.registers.with_f(inc8_flags(v, f))), m.write(a, ((v + 1) % 256) as u8))
        } else {
            (
                c1.with_regs(c1.registers.with_f(dec8_flags(v, f))),
                m.write(a, ((v + 255) % 256) as u8),
            )
        }
    } else {
        let v = r.spec_reg8(y);
        if z == 4 {
            (c.with_regs(r.with_f(inc8_flags(v, r.spec_f())).with_reg8(y, ((v + 1) % 256) as u8)), m)
        } else {
            (
                c.with_regs(r.with_f(dec8_flags(v, r.spec_f())).with_reg8(y, ((v + 255) % 256) as u8)),
                m,
            )
        }
    }
}

/// Processor and memory after an immediate byte load (block 0, low field 6).
pub open spec fn imm_load_effect(c: CPU, m: MemModel, y: u8, ext: bool) -> (CPU, MemModel) {
    let r = c.registers;
    let pc = r.reg_pc.word;
    if y == 6 {
        let (a, c1) = operand_addr(c, m, ext);
        let pc1 = c1.registers.reg_pc.word;
        (c1.with_regs(c1.registers.with_pc(wrap16(pc1 + 1))), m.write(a, m.read(pc1)))
    } else {
        (c.with_regs(r.with_pc(wrap16(pc + 1)).with_reg8(y, m.read(pc))), m)
    }
}

/// Processor and memory after a block-0 instruction `op`, fetched already.
pub open spec fn misc_effect(c: CPU, m: MemModel, op: u8, ext: bool) -> (CPU, MemModel) {
    let y = (op >> 3u8) & 7;
    let z = op & 7;
    if z == 0 {
        jump_effect(c, m, y)
    } else if z == 1 || z == 3 {
        wide_effect(c, m, y, z)
    } else if z == 2 {
        indirect_effect(c, m, y)
    } else if z == 4 || z == 5 {
        incdec_effect(c, m, y, z, ext)
    } else if z == 6 {
        imm_load_effect(c, m, y, ext)
    } else {
        (c.with_regs(acc_op_regs(c.registers, y)), m)
    }
}

/// Processor and memory after a CB-prefixed instruction whose prefix has
/// been fetched: rotates and shifts, BIT, RES and SET.
pub open spec fn cb_effect(c: CPU, m: MemModel, ext: bool) -> (CPU, MemModel) {
    let pc = c.registers.reg_pc.word;
    let d: u8 = if ext {
        m.read(pc)
    } else {
        0
    };
    let pc1 = if ext {
        wrap16(pc + 1)
    } else {
        pc
    };
    let op = m.read(pc1);
    let r1 = if ext {
        c.registers.with_pc(pc1).with_pc(wrap16(pc1 + 1))
    } else {
        c.registers.with_pc(wrap16(pc1 + 1))
    };
    let x = op >> 6u8;
    let y = (op >> 3u8) & 7;
    let z = op & 7;
    let a: u16 = if ext {
        wrap16(c.registers.reg_hl.word + sext8(d) + 0x10000)
    } else {
        c.registers.reg_hl.word
    };
    let r2 = if ext {
        r1.with_wz(a)
    } else {
        r1
    };
    let f = r1.spec_f();
    if x == 1 {
        if z == 6 {
            (c.with_regs(r2.with_f(bit_flags(m.read(a), 1u8 << y, f, r2.spec_w()))), m)
        } else {
            let v = r1.spec_reg8(z);
            (c.with_regs(r1.with_f(bit_flags(v, 1u8 << y, f, v))), m)
        }
    } else {
        let from_memory = z == 6 || ext;
        let v = if from_memory {
            m.read(a)
        } else {
            r1.spec_reg8(z)
        };
        let w = if x == 0 {
            rot_spec(y, v, f).0
        } else if x == 2 {
            v & !(1u8 << y)
        } else {
            v | (1u8 << y)
        };
        let rb = if from_memory {
            r2
        } else {
            r1
        };
        let r3 = if x == 0 {
            rb.with_f(rot_spec(y, v, f).1)
        } else {
            rb
        };
        if from_memory {
            (
                c.with_regs(
                    if z != 6 {
                        r3.with_reg8(z, w)
                    } else {
                        r3
                    },
                ),
                m.write(a, w),
            )
        } else {
            (c.with_regs(r3.with_reg8(z, w)), m)
        }
    }
}

/// Processor and memory after an ED-prefixed block transfer, compare,
/// input or output (`y` 4 to 7, `z` 0 to 3), processor `c1` as it stands
/// after the fetch.
pub open spec fn ed_block_effect(c1: CPU, m: MemModel, y: u8, z: u8) -> (CPU, MemModel) {
    let r = c1.registers;
    let dec = y == 5 || y == 7;
    let rep = y >= 6;
    let b_left = (r.spec_b() + 255) % 256 != 0;
    if z == 0 {
        let val = m.read(r.reg_hl.word);
        let after = ldi_regs(r, val, dec);
        (
            c1.with_regs(
                if rep && r.reg_bc.word != 1 {
                    rewind(after)
                } else {
                    after
                },
            ),
            m.write(r.reg_de.word, val),
        )
    } else if z == 1 {
        let val = m.read(r.reg_hl.word);
        let after = cpi_regs(r, val, dec);
        (
            c1.with_regs(
                if rep && r.reg_bc.word != 1 && r.spec_a() != val {
                    rewind(after)
                } else {
                    after
                },
            ),
            m,
        )
    } else if z == 2 {
        let after = ini_regs(r, port_value(), dec);
        (
            c1.with_regs(
                if rep && b_left {
                    rewind_pc(after)
                } else {
                    after
                },
            ),
            m.write(r.reg_hl.word, port_value()),
        )
    } else {
        let after = outi_regs(r, m.read(r.reg_hl.word), dec);
        (
            c1.with_regs(
                if rep && b_left {
                    rewind_pc(after)
                } else {
                    after
                },
            ),
            m,
        )
    }
}

/// Processor and memory after an ED-prefixed instruction of block 1,
/// processor `c1` as it stands after the fetch.
pub open spec fn ed_misc_effect(c1: CPU, m: MemModel, y: u8, z: u8) -> (CPU, MemModel) {
    let r = c1.registers;
    let p = y >> 1u8;
    let q = y & 1;
    if z == 0 && y != 6 {
        let v = port_value();
        let r1 = r.with_reg8(y, v);
        (c1.with_regs(r1.with_f(spec_flags_szp(v) | (r1.spec_f() & CF))), m)
    } else if z == 2 {
        let hl = r.reg_hl.word;
        let val = r.spec_r16sp(p);
        let res = if q == 0 {
            sbc16_spec(hl, val, r.spec_f())
        } else {
            adc16_spec(hl, val, r.spec_f())
        };
        (c1.with_regs(r.with_wz(wrap16(hl + 1)).with_f(res.1).with_hl(res.0)), m)
    } else if z == 3 {
        let nn = m.read_word(r.reg_pc.word);
        let r2 = r.with_pc(wrap16(r.reg_pc.word + 2));
        if q == 0 {
            (c1.with_regs(r2.with_wz(wrap16(nn + 1))), m.write_word(nn, r2.spec_r16sp(p)))
        } else {
            (c1.with_regs(r2.with_r16sp(p, m.read_word(nn)).with_wz(wrap16(nn + 1))), m)
        }
    } else if z == 4 {
        (c1.with_regs(sub8_regs(r.with_a(0), r.spec_a())), m)
    } else if z == 7 && (y == 4 || y == 5) {
        let addr = r.reg_hl.word;
        let v = m.read(addr);
        let na = if y == 4 {
            (r.spec_a() & 0xF0) | (v & 0x0F)
        } else {
            (r.spec_a() & 0xF0) | ((v >> 4u8) & 0x0F)
        };
        let nv = if y == 4 {
            (v >> 4u8) | ((r.spec_a() & 0x0F) << 4u8)
        } else {
            (v << 4u8) | (r.spec_a() & 0x0F)
        };
        (
            c1.with_regs(
                r.with_a(na).with_wz(wrap16(addr + 1)).with_f(
                    spec_flags_szp(na) | (r.spec_f() & CF),
                ),
            ),
            m.write(addr, nv),
        )
    } else {
        (c1, m)
    }
}

/// Processor and memory after an ED-prefixed instruction whose prefix has
/// been fetched. One that cannot run only has its byte fetched.
pub open spec fn ed_effect(c: CPU, m: MemModel) -> (CPU, MemModel) {
    let pc = c.registers.reg_pc.word;
    let op = m.read(pc);
    let c1 = c.with_regs(c.registers.with_pc(wrap16(pc + 1)));
    let x = op >> 6u8;
    let y = (op >> 3u8) & 7;
    let z = op & 7;
    if x == 2 && y >= 4 && z < 4 {
        ed_block_effect(c1, m, y, z)
    } else if x == 1 {
        ed_misc_effect(c1, m, y, z)
    } else {
        (c1, m)
    }
}

/// Processor and memory after RET cc, POP, RET, EXX, JP (HL) or LD SP,HL
/// (block 3, low field 0 or 1).
pub open spec fn stack_effect(c: CPU, m: MemModel, y: u8, z: u8) -> (CPU, MemModel) {
    let p = y >> 1u8;
    let q = y & 1;
    let r = c.registers;
    let sp = r.reg_sp.word;
    let t = m.read_word(sp);
    if z == 0 {
        if condition(r.spec_f(), y) {
            (c.with_regs(r.with_wz(t).with_pc(t).with_sp(wrap16(sp + 2))), m)
        } else {
            (c, m)
        }
    } else if q == 0 {
        (c.with_regs(r.with_sp(wrap16(sp + 2)).with_r16af(p, stack_top(m, sp))), m)
    } else if p == 0 {
        (c.with_regs(r.with_wz(t).with_pc(t).with_sp(wrap16(sp + 2))), m)
    } else if p == 1 {
        (
            c.with_regs(
                Registers {
                    reg_bc: r.reg_bc_,
                    reg_bc_: r.reg_bc,
                    reg_de: r.reg_de_,
                    reg_de_: r.reg_de,
                    reg_hl: r.reg_hl_,
                    reg_hl_: r.reg_hl,
                    reg_wz: r.reg_wz_,
                    reg_wz_: r.reg_wz,
                    ..r
                },
            ),
            m,
        )
    } else if p == 2 {
        (c.with_regs(r.with_pc(r.spec_r16sp(2))), m)
    } else {
        (c.with_regs(r.with_sp(r.spec_r16sp(2))), m)
    }
}

/// Processor and memory after JP cc,nn or CALL cc,nn (block 3, low field
/// 2 or 4).
pub open spec fn jump_call_effect(c: CPU, m: MemModel, y: u8, z: u8) -> (CPU, MemModel) {
    let r = c.registers;
    let pc = r.reg_pc.word;
    let nn = m.read_word(pc);
    let taken = condition(r.spec_f(), y);
    if z == 2 {
        let r1 = r.with_pc(wrap16(pc + 2)).with_wz(nn);
        (
            c.with_regs(
                if taken {
                    r1.with_pc(nn)
                } else {
                    r1
                },
            ),
            m,
        )
    } else if taken {
        let nsp = wrap16(r.reg_sp.word + 0xFFFE);
        (
            c.with_regs(r.with_pc(wrap16(pc + 2)).with_sp(nsp).with_wz(nn).with_pc(nn)),
            m.write_word(nsp, wrap16(pc + 2)),
        )
    } else {
        (c.with_regs(r.with_pc(wrap16(pc + 2)).with_wz(nn)), m)
    }
}

/// Processor and memory after JP nn, a CB-prefixed instruction, OUT (n),A,
/// IN A,(n), EX (SP),HL, EX DE,HL, DI or EI (block 3, low field 3).
pub open spec fn misc3_effect(c: CPU, m: MemModel, y: u8, ext: bool) -> (CPU, MemModel) {
    let r = c.registers;
    let pc = r.reg_pc.word;
    let sp = r.reg_sp.word;
    if y == 0 {
        let nn = m.read_word(pc);
        (c.with_regs(r.with_pc(wrap16(pc + 2)).with_wz(nn).with_pc(nn)), m)
    } else if y == 1 {
        cb_effect(c, m, ext)
    } else if y == 2 {
        (c.with_regs(r.with_pc(wrap16(pc + 1))), m)
    } else if y == 3 {
        (c.with_regs(r.with_pc(wrap16(pc + 1)).with_a(port_value())), m)
    } else if y == 4 {
        let v = m.read_word(sp);
        (c.with_regs(r.with_wz(v).with_r16sp(2, v)), m.write_word(sp, r.spec_r16sp(2)))
    } else if y == 5 {
        (c.with_regs(r.with_de(r.reg_hl.word).with_hl(r.reg_de.word)), m)
    } else if y == 6 {
        (CPU { ime: false, ..c }, m)
    } else {
        (CPU { ime: true, ..c }, m)
    }
}

/// Processor and memory after PUSH, CALL nn or a DD, ED or FD prefix
/// (block 3, low field 5).
pub open spec fn push_prefix_effect(c: CPU, m: MemModel, y: u8) -> (CPU, MemModel) {
    let p = y >> 1u8;
    let q = y & 1;
    let r = c.registers;
    let pc = r.reg_pc.word;
    let sp = r.reg_sp.word;
    if q == 0 {
        (c.with_regs(r.with_sp(wrap16(sp + 0xFFFE))), push_mem(m, sp, r.spec_r16af(p)))
    } else if p == 0 {
        let nn = m.read_word(pc);
        let nsp = wrap16(sp + 0xFFFE);
        (
            c.with_regs(r.with_pc(wrap16(pc + 2)).with_sp(nsp).with_wz(nn).with_pc(nn)),
            m.write_word(nsp, wrap16(pc + 2)),
        )
    } else if p == 2 {
        ed_effect(c, m)
    } else {
        (c, m)
    }
}

/// Processor and memory after a block-3 instruction `op`, fetched already.
pub open spec fn control_effect(c: CPU, m: MemModel, op: u8, ext: bool) -> (CPU, MemModel) {
    let y = (op >> 3u8) & 7;
    let z = op & 7;
    let r = c.registers;
    let pc = r.reg_pc.word;
    if z == 0 || z == 1 {
        stack_effect(c, m, y, z)
    } else if z == 2 || z == 4 {
        jump_call_effect(c, m, y, z)
    } else if z == 3 {
        misc3_effect(c, m, y, ext)
    } else if z == 5 {
        push_prefix_effect(c, m, y)
    } else if z == 6 {
        (c.with_regs(alu8_regs(r.with_pc(wrap16(pc + 1)), y, m.read(pc))), m)
    } else {
        let v = (y * 8) as u16;
        (
            c.with_regs(r.with_sp(wrap16(r.reg_sp.word + 0xFFFE)).with_pc(v).with_wz(v)),
            push_mem(m, r.reg_sp.word, pc),
        )
    }
}

/// Processor and memory after instruction `op`, processor `c` as it stands
/// after the fetch.
pub open spec fn op_effect(c: CPU, m: MemModel, op: u8, ext: bool) -> (CPU, MemModel) {
    let x = op >> 6u8;
    if x == 0 {
        misc_effect(c, m, op, ext)
    } else if x == 3 {
        control_effect(c, m, op, ext)
    } else {
        load_alu_effect(c, m, op, ext)
    }
}

/// Processor and memory after one instruction is fetched at the program
/// counter and executed.
pub open spec fn step_effect(c: CPU, m: MemModel, ext: bool) -> (CPU, MemModel) {
    let pc = c.registers.reg_pc.word;
    op_effect(c.with_regs(c.registers.with_pc(wrap16(pc + 1))), m, m.read(pc), ext)
}

/// A cycle count from a group table with the indexed-form surcharge added.
pub open spec fn plus_base(r: Result<i64, CpuError>, ext: bool) -> Result<int, CpuError> {
    match r {
        Ok(c) => Ok(
            c + if ext {
                4int
            } else {
                0
            },
        ),
        Err(e) => Err(e),
    }
}

/// Processor and memory after interrupt dispatch: with the master enable
/// set, the first source in priority order that is both requested and
/// enabled is serviced; otherwise nothing changes.
pub open spec fn dispatch(c: CPU, m: MemModel) -> (CPU, MemModel) {
    let req = m.read(IF);
    let en = m.read(IE);
    if c.ime && first_pending(req, en, 0) is Some {
        let i = first_pending(req, en, 0)->Some_0;
        (c.serviced(i), c.serviced_mem(m, i))
    } else {
        (c, m)
    }
}

/// The processor: register file, timers, and the halt and master
/// interrupt-enable flags.
#[allow(non_camel_case_types)]
pub struct CPU {
    pub registers: Registers,
    pub timers: Timer,
    pub halted: bool,
    /// Interrupt master enable.
    pub ime: bool,
    pub cycles: u64,
}

impl CPU {
    pub open spec fn wf(&self) -> bool {
        self.timers.wf()
    }

    pub open spec fn with_regs(self, r: Registers) -> CPU {
        CPU { registers: r, ..self }
    }

    /// The processor state after servicing interrupt source `i`.
    pub open spec fn serviced(self, i: u8) -> CPU {
        CPU {
            ime: false,
            registers: self.registers.with_sp(wrap16(self.registers.reg_sp.word + 0xFFFE)).with_pc(
                interrupt_vector(i),
            ),
            ..self
        }
    }

    /// Memory after servicing interrupt source `i`: its request bit cleared,
    /// then the program counter pushed.
    pub open spec fn serviced_mem(self, m: MemModel, i: u8) -> MemModel {
        push_mem(
            m.write(IF, m.read(IF) & !(1u8 << i)),
            self.registers.reg_sp.word,
            self.registers.reg_pc.word,
        )
    }

    /// A processor at its power-on state; the hardware registers are set to
    /// their power-on values.
    pub fn new(mem: &mut Memory) -> (r: CPU)
        requires
            old(mem).wf(),
        ensures
            final(mem).wf(),
            final(mem)@ == old(mem)@.powered_on(),
            r.wf(),
            r.registers == Registers::spec_new(),
            r.timers@ == 0,
            !r.halted,
            r.ime,
            r.cycles == 0,
    {
        mem.ram_startup();
        CPU { registers: Registers::new(), timers: Timer::new(), halted: false, ime: true, cycles: 0 }
    }

    /// Back to the power-on registers, not halted, interrupts off.
    pub fn reset(&mut self)
        ensures
            *final(self) == (CPU {
                registers: Registers::spec_new(),
                halted: false,
                ime: false,
                cycles: 0,
                ..*old(self)
            }),
    {
        self.registers = Registers::new();
        self.halted = false;
        self.ime = false;
        self.cycles = 0;
    }

    /// Pushes `reg` onto the stack: high byte first, each after a decrement
    /// of the stack pointer.
    pub fn push_stack(&mut self, mem: &mut Memory, reg: Word)
        requires
            old(mem).wf(),
        ensures
            final(mem).wf(),
            final(mem)@ == push_mem(old(mem)@, old(self).registers.reg_sp.word, reg),
            *final(self) == old(self).with_regs(
                old(self).registers.with_sp(wrap16(old(self).registers.reg_sp.word + 0xFFFE)),
            ),
    {
        self.registers.reg_sp.decriment();
        mem.write_byte(self.registers.reg_sp.word, (reg / 256) as u8);
        self.registers.reg_sp.decriment();
        mem.write_byte(self.registers.reg_sp.word, (reg % 256) as u8);
    }

    /// Pops the word on top of the stack.
    pub fn pop_stack(&mut self, mem: &Memory) -> (r: Word)
        requires
            mem.wf(),
        ensures
            r == stack_top(mem@, old(self).registers.reg_sp.word),
            *final(self) == old(self).with_regs(
                old(self).registers.with_sp(wrap16(old(self).registers.reg_sp.word + 2)),
            ),
    {
        let sp = self.registers.reg_sp.word;
        let hi = mem.read_byte(sp.wrapping_add(1)) as Word;
        let lo = mem.read_byte(sp) as Word;
        self.registers.reg_sp.incriment();
        self.registers.reg_sp.incriment();
        hi * 256 + lo
    }

    /// Services the first source, in priority order, that is both requested
    /// and enabled, when the master enable is set.
    pub fn handle_interrupts(&mut self, mem: &mut Memory)
        requires
            old(mem).wf(),
        ensures
            final(mem).wf(),
            (*final(self), final(mem)@) == dispatch(*old(self), old(mem)@),
    {
        if self.ime {
            let request = mem.read_byte(IF);
            let enabled = mem.read_byte(IE);
            let mut i: u8 = 0;
            while i < 5
                invariant
                    i <= 5,
                    mem.wf(),
                    mem@ == old(mem)@,
                    *self == *old(self),
                    self.ime,
                    request == old(mem)@.read(IF),
                    enabled == old(mem)@.read(IE),
                    first_pending(request, enabled, 0) == first_pending(request, enabled, i),
                decreases 5 - i,
            {
                if (request >> i) & 1 != 0 && (enabled >> i) & 1 != 0 {
                    self.service_interrupt(mem, i);
                    return ;
                }
                i = i + 1;
            }
        }
    }

    /// Clears the request bit of source `interrupt`, disables interrupts,
    /// pushes the program counter and jumps to the source's vector.
    fn service_interrupt(&mut self, mem: &mut Memory, interrupt: Byte)
        requires
            old(mem).wf(),
            interrupt < 5,
        ensures
            final(mem).wf(),
            *final(self) == old(self).serviced(interrupt),
            final(mem)@ == old(self).serviced_mem(old(mem)@, interrupt),
    {
        self.ime = false;
        let request = mem.read_byte(IF) & !(1u8 << interrupt);
        mem.write_byte(IF, request);
        let pc = self.registers.reg_pc.word;
        self.push_stack(mem, pc);
        self.registers.reg_pc.set(0x40 + 8 * interrupt as Word);
    }
    fn displace(pc: Word, d: Byte) -> (r: Word)
        ensures
            r == rel_target(pc, d),
    {
        if d < 128 {
            pc.wrapping_add(d as u16 + 1)
        } else {
            pc.wrapping_sub(255 - d as u16)
        }
    }

    /// Fetches the byte at the program counter and advances it.
    fn step_opcode(&mut self, mem: &Memory) -> (r: Byte)
        requires
            mem.wf(),
        ensures
            r == mem@.read(old(self).registers.reg_pc.word),
            *final(self) == old(self).with_regs(
                old(self).registers.with_pc(wrap16(old(self).registers.reg_pc.word + 1)),
            ),
    {
        let opcode = mem.read_byte_forced(self.registers.reg_pc.word);
        self.registers.reg_pc.incriment();
        opcode
    }

    /// Fetches an 8-bit immediate operand.
    fn imm8(&mut self, mem: &Memory) -> (r: Byte)
        requires
            mem.wf(),
        ensures
            r == mem@.read(old(self).registers.reg_pc.word),
            *final(self) == old(self).with_regs(
                old(self).registers.with_pc(wrap16(old(self).registers.reg_pc.word + 1)),
            ),
    {
        let imm = mem.read_byte(self.registers.reg_pc.word);
        self.registers.inc_pc(1);
        imm
    }

    /// Fetches a displacement byte (the d of IX+d).
    fn d(&mut self, mem: &Memory) -> (r: Byte)
        requires
            mem.wf(),
        ensures
            r == mem@.read(old(self).registers.reg_pc.word),
            *final(self) == old(self).with_regs(
                old(self).registers.with_pc(wrap16(old(self).registers.reg_pc.word + 1)),
            ),
    {
        self.imm8(mem)
    }

    /// Fetches a little-endian 16-bit immediate operand.
    fn imm16(&mut self, mem: &Memory) -> (r: Word)
        requires
            mem.wf(),
        ensures
            r == mem@.read_word(old(self).registers.reg_pc.word),
            *final(self) == old(self).with_regs(
                old(self).registers.with_pc(wrap16(old(self).registers.reg_pc.word + 2)),
            ),
    {
        let pc = self.registers.reg_pc.word;
        let imm = mem.read_word(pc);
        self.registers.inc_pc(2);
        imm
    }

    /// The effective address of a memory operand: HL, or HL plus a fetched
    /// signed displacement for the indexed forms (also kept in WZ).
    fn load_addr(&mut self, mem: &Memory, ext: bool) -> (r: Word)
        requires
            mem.wf(),
        ensures
            (r, *final(self)) == operand_addr(*old(self), mem@, ext),
    {
        if ext {
            let d = self.d(mem);
            let addr = self.addr_d(d, ext);
            addr
        } else {
            self.registers.hl()
        }
    }

    /// HL plus the signed displacement `d` for the indexed forms (also kept
    /// in WZ), else HL.
    fn addr_d(&mut self, d: Byte, ext: bool) -> (r: Word)
        ensures
            ext ==> r == wrap16(old(self).registers.reg_hl.word + sext8(d) + 0x10000)
                && *final(self) == old(self).with_regs(old(self).registers.with_wz(r)),
            !ext ==> r == old(self).registers.reg_hl.word && *final(self) == *old(self),
    {
        if ext {
            let hl = self.registers.hl();
            let addr = if d < 128 {
                hl.wrapping_add(d as u16)
            } else {
                hl.wrapping_sub(256 - d as u16)
            };
            self.registers.set_wz(addr);
            addr
        } else {
            self.registers.hl()
        }
    }

    fn check_condition(&self, y: Byte) -> (r: bool)
        ensures
            r == condition(self.registers.spec_f(), y),
    {
        let f = self.registers.f();
        match y {
            0 => f & ZF == 0,
            1 => f & ZF != 0,
            2 => f & CF == 0,
            3 => f & CF != 0,
            4 => f & PF == 0,
            5 => f & PF != 0,
            6 => f & SF == 0,
            7 => f & SF != 0,
            _ => false,
        }
    }

    /// Halts: sets the flag and steps back so the halt re-executes.
    fn halt(&mut self)
        ensures
            *final(self) == (CPU {
                halted: true,
                registers: old(self).registers.with_pc(
                    wrap16(old(self).registers.reg_pc.word + 0x10000 - 1),
                ),
                ..*old(self)
            }),
    {
        self.halted = true;
        self.registers.dec_pc(1);
    }

    fn alu8(&mut self, alu: Byte, val: Byte)
        ensures
            *final(self) == old(self).with_regs(alu8_regs(old(self).registers, alu, val)),
    {
        match alu {
            0 => self.add8(val),
            1 => self.adc8(val),
            2 => self.sub8(val),
            3 => self.sbc8(val),
            4 => self.and8(val),
            5 => self.xor8(val),
            6 => self.or8(val),
            _ => self.cp8(val),
        }
    }

    /// ADD A,v
    pub fn add8(&mut self, add: Byte)
        ensures
            *final(self) == old(self).with_regs(add8_regs(old(self).registers, add)),
    {
        let acc = self.registers.a();
        let res = acc as u16 + add as u16;
        self.registers.set_f(flags_add(acc, add, res));
        self.registers.set_a(res as u8);
    }

    /// ADC A,v
    pub fn adc8(&mut self, add: Byte)
        ensures
            *final(self) == old(self).with_regs(adc8_regs(old(self).registers, add)),
    {
        let acc = self.registers.a();
        let res = acc as u16 + add as u16 + (self.registers.f() & CF) as u16;
        self.registers.set_f(flags_add(acc, add, res));
        self.registers.set_a(res as u8);
    }

    /// SUB v
    pub fn sub8(&mut self, sub: Byte)
        ensures
            *final(self) == old(self).with_regs(sub8_regs(old(self).registers, sub)),
    {
        let acc = self.registers.a();
        let res = sub16_wrapping(acc as u16, sub as u16);
        self.registers.set_f(flags_sub(acc, sub, res));
        self.registers.set_a(res as u8);
    }

    /// SBC A,v
    pub fn sbc8(&mut self, sub: Byte)
        ensures
            *final(self) == old(self).with_regs(sbc8_regs(old(self).registers, sub)),
    {
        let acc = self.registers.a();
        let c = (self.registers.f() & CF) as u16;
        let res = sub16_wrapping(sub16_wrapping(acc as u16, sub as u16), c);
        self.registers.set_f(flags_sub(acc, sub, res));
        self.registers.set_a(res as u8);
    }

    /// CP v
    pub fn cp8(&mut self, sub: Byte)
        ensures
            *final(self) == old(self).with_regs(cp8_regs(old(self).registers, sub)),
    {
        let acc = self.registers.a();
        let res = sub16_wrapping(acc as u16, sub as u16);
        self.registers.set_f(flags_cp(acc, sub, res));
    }

    /// NEG: A = 0 - A
    pub fn neg8(&mut self)
        ensures
            *final(self) == old(self).with_regs(
                sub8_regs(old(self).registers.with_a(0), old(self).registers.spec_a()),
            ),
    {
        let sub = self.registers.a();
        self.registers.set_a(0);
        self.sub8(sub);
    }

    /// AND v
    pub fn and8(&mut self, val: Byte)
        ensures
            *final(self) == old(self).with_regs(and8_regs(old(self).registers, val)),
    {
        let res = self.registers.a() & val;
        self.registers.set_a(res);
        self.registers.set_f(flags_szp(res) | HF);
    }

    /// OR v
    pub fn or8(&mut self, val: Byte)
        ensures
            *final(self) == old(self).with_regs(or8_regs(old(self).registers, val)),
    {
        let res = self.registers.a() | val;
        self.registers.set_a(res);
        self.registers.set_f(flags_szp(res));
    }

    /// XOR v
    pub fn xor8(&mut self, val: Byte)
        ensures
            *final(self) == old(self).with_regs(xor8_regs(old(self).registers, val)),
    {
        let res = self.registers.a() ^ val;
        self.registers.set_a(res);
        self.registers.set_f(flags_szp(res));
    }

    /// INC on an 8-bit value: returns v + 1 (wrapping) and sets the flags;
    /// carry is kept.
    pub fn inc8(&mut self, val: Byte) -> (r: Byte)
        ensures
            r == (val + 1) % 256,
            *final(self) == old(self).with_regs(
                old(self).registers.with_f(inc8_flags(val, old(self).registers.spec_f())),
            ),
    {
        let res = val.wrapping_add(1);
        let f = (if res == 0 {
            ZF
        } else {
            res & SF
        }) | (res & (XF | YF)) | ((res ^ val) & HF) | (if res == 0x80 {
            VF
        } else {
            0
        }) | (self.registers.f() & CF);
        self.registers.set_f(f);
        res
    }

    /// DEC on an 8-bit value: returns v - 1 (wrapping) and sets the flags;
    /// carry is kept.
    pub fn dec8(&mut self, val: Byte) -> (r: Byte)
        ensures
            r == (val + 255) % 256,
            *final(self) == old(self).with_regs(
                old(self).registers.with_f(dec8_flags(val, old(self).registers.spec_f())),
            ),
    {
        let res = val.wrapping_sub(1);
        let f = NF | (if res == 0 {
            ZF
        } else {
            res & SF
        }) | (res & (XF | YF)) | ((res ^ val) & HF) | (if res == 0x7F {
            VF
        } else {
            0
        }) | (self.registers.f() & CF);
        self.registers.set_f(f);
        res
    }

    /// ADD HL,rr on the given operands; WZ becomes acc + 1.
    pub fn add16(&mut self, acc: Word, add: Word) -> (r: Word)
        ensures
            r == add16_spec(acc, add, old(self).registers.spec_f()).0,
            *final(self) == old(self).with_regs(
                old(self).registers.with_wz(wrap16(acc + 1)).with_f(
                    add16_spec(acc, add, old(self).registers.spec_f()).1,
                ),
            ),
    {
        self.registers.set_wz(acc.wrapping_add(1));
        let res: u32 = acc as u32 + add as u32;
        let f = (self.registers.f() & (SF | ZF | VF)) | ((((acc as u32) ^ res ^ (add as u32)) >> 8)
            as u8 & HF) | ((res >> 16) as u8 & CF) | ((res >> 8) as u8 & (YF | XF));
        self.registers.set_f(f);
        (res & 0xFFFF) as u16
    }

    /// ADC HL,rr on the given operands; WZ becomes acc + 1.
    pub fn adc16(&mut self, acc: Word, add: Word) -> (r: Word)
        ensures
            r == adc16_spec(acc, add, old(self).registers.spec_f()).0,
            *final(self) == old(self).with_regs(
                old(self).registers.with_wz(wrap16(acc + 1)).with_f(
                    adc16_spec(acc, add, old(self).registers.spec_f()).1,
                ),
            ),
    {
        self.registers.set_wz(acc.wrapping_add(1));
        let a = acc as u32;
        let b = add as u32;
        let res: u32 = a + b + (self.registers.f() & CF) as u32;
        let f = ((((a ^ res ^ b) >> 8) & (HF as u32)) | ((res >> 16) & (CF as u32)) | ((res >> 8)
            & ((SF | XF | YF) as u32)) | (if res & 0xFFFF == 0 {
            ZF as u32
        } else {
            0
        }) | (((b ^ a ^ 0x8000) & (b ^ res) & 0x8000) >> 13)) as u8;
        self.registers.set_f(f);
        (res & 0xFFFF) as u16
    }

    /// SBC HL,rr on the given operands; WZ becomes acc + 1.
    pub fn sbc16(&mut self, acc: Word, sub: Word) -> (r: Word)
        ensures
            r == sbc16_spec(acc, sub, old(self).registers.spec_f()).0,
            *final(self) == old(self).with_regs(
                old(self).registers.with_wz(wrap16(acc + 1)).with_f(
                    sbc16_spec(acc, sub, old(self).registers.spec_f()).1,
                ),
            ),
    {
        self.registers.set_wz(acc.wrapping_add(1));
        let a = acc as u32;
        let b = sub as u32;
        let res: u32 = sub32_wrapping(sub32_wrapping(a, b), (self.registers.f() & CF) as u32);
        let f = ((NF as u32) | (((a ^ res ^ b) >> 8) & (HF as u32)) | ((res >> 16) & (CF as u32))
            | ((res >> 8) & ((SF | XF | YF) as u32)) | (if res & 0xFFFF == 0 {
            ZF as u32
        } else {
            0
        }) | (((b ^ a) & (a ^ res) & 0x8000) >> 13)) as u8;
        self.registers.set_f(f);
        (res & 0xFFFF) as u16
    }
    /// RLC: rotate left, bit 7 into bit 0 and carry.
    pub fn rlc8(&mut self, val: Byte) -> (r: Byte)
        ensures
            r == rot_spec(0, val, old(self).registers.spec_f()).0,
            *final(self) == old(self).with_regs(
                old(self).registers.with_f(rot_spec(0, val, old(self).registers.spec_f()).1),
            ),
    {
        let r = (val << 1u8) | (val >> 7u8);
        self.registers.set_f(flags_szp(r) | ((val >> 7u8) & CF));
        r
    }

    /// RRC: rotate right, bit 0 into bit 7 and carry.
    pub fn rrc8(&mut self, val: Byte) -> (r: Byte)
        ensures
            r == rot_spec(1, val, old(self).registers.spec_f()).0,
            *final(self) == old(self).with_regs(
                old(self).registers.with_f(rot_spec(1, val, old(self).registers.spec_f()).1),
            ),
    {
        let r = (val >> 1u8) | (val << 7u8);
        self.registers.set_f(flags_szp(r) | (val & CF));
        r
    }

    /// RL: rotate left through carry.
    pub fn rl8(&mut self, val: Byte) -> (r: Byte)
        ensures
            r == rot_spec(2, val, old(self).registers.spec_f()).0,
            *final(self) == old(self).with_regs(
                old(self).registers.with_f(rot_spec(2, val, old(self).registers.spec_f()).1),
            ),
    {
        let r = (val << 1u8) | (self.registers.f() & CF);
        self.registers.set_f(flags_szp(r) | ((val >> 7u8) & CF));
        r
    }

    /// RR: rotate right through carry.
    pub fn rr8(&mut self, val: Byte) -> (r: Byte)
        ensures
            r == rot_spec(3, val, old(self).registers.spec_f()).0,
            *final(self) == old(self).with_regs(
                old(self).registers.with_f(rot_spec(3, val, old(self).registers.spec_f()).1),
            ),
    {
        let r = (val >> 1u8) | ((self.registers.f() & CF) << 7u8);
        self.registers.set_f(flags_szp(r) | (val & CF));
        r
    }

    /// SLA: shift left, 0 into bit 0.
    pub fn sla8(&mut self, val: Byte) -> (r: Byte)
        ensures
            r == rot_spec(4, val, old(self).registers.spec_f()).0,
            *final(self) == old(self).with_regs(
                old(self).registers.with_f(rot_spec(4, val, old(self).registers.spec_f()).1),
            ),
    {
        let r = val << 1u8;
        self.registers.set_f(flags_szp(r) | ((val >> 7u8) & CF));
        r
    }

    /// SRA: shift right keeping the sign bit.
    pub fn sra8(&mut self, val: Byte) -> (r: Byte)
        ensures
            r == rot_spec(5, val, old(self).registers.spec_f()).0,
            *final(self) == old(self).with_regs(
                old(self).registers.with_f(rot_spec(5, val, old(self).registers.spec_f()).1),
            ),
    {
        let r = (val >> 1u8) | (val & 0x80);
        self.registers.set_f(flags_szp(r) | (val & CF));
        r
    }

    /// SLL (undocumented): shift left, 1 into bit 0.
    pub fn sll8(&mut self, val: Byte) -> (r: Byte)
        ensures
            r == rot_spec(6, val, old(self).registers.spec_f()).0,
            *final(self) == old(self).with_regs(
                old(self).registers.with_f(rot_spec(6, val, old(self).registers.spec_f()).1),
            ),
    {
        let r = (val << 1u8) | 1;
        self.registers.set_f(flags_szp(r) | ((val >> 7u8) & CF));
        r
    }

    /// SRL: shift right, 0 into bit 7.
    pub fn srl8(&mut self, val: Byte) -> (r: Byte)
        ensures
            r == rot_spec(7, val, old(self).registers.spec_f()).0,
            *final(self) == old(self).with_regs(
                old(self).registers.with_f(rot_spec(7, val, old(self).registers.spec_f()).1),
            ),
    {
        let r = val >> 1u8;
        self.registers.set_f(flags_szp(r) | (val & CF));
        r
    }

    /// RLCA
    pub fn rlca8(&mut self)
        ensures
            *final(self) == old(self).with_regs(
                old(self).registers.with_f(
                    rot_a_spec(0, old(self).registers.spec_a(), old(self).registers.spec_f()).1,
                ).with_a(rot_a_spec(0, old(self).registers.spec_a(), old(self).registers.spec_f()).0),
            ),
    {
        let acc = self.registers.a();
        let f = self.registers.f();
        let res = (acc << 1u8) | (acc >> 7u8);
        let carry = (acc >> 7u8) & CF;
        self.registers.set_f(((carry | (res & (XF | YF))) | (f & (SF | ZF | PF))));
        self.registers.set_a(res);
    }

    /// RRCA
    pub fn rrca8(&mut self)
        ensures
            *final(self) == old(self).with_regs(
                old(self).registers.with_f(
                    rot_a_spec(1, old(self).registers.spec_a(), old(self).registers.spec_f()).1,
                ).with_a(rot_a_spec(1, old(self).registers.spec_a(), old(self).registers.spec_f()).0),
            ),
    {
        let acc = self.registers.a();
        let f = self.registers.f();
        let res = (acc >> 1u8) | (acc << 7u8);
        let carry = acc & CF;
        self.registers.set_f(((carry | (res & (XF | YF))) | (f & (SF | ZF | PF))));
        self.registers.set_a(res);
    }

    /// RLA
    pub fn rla8(&mut self)
        ensures
            *final(self) == old(self).with_regs(
                old(self).registers.with_f(
                    rot_a_spec(2, old(self).registers.spec_a(), old(self).registers.spec_f()).1,
                ).with_a(rot_a_spec(2, old(self).registers.spec_a(), old(self).registers.spec_f()).0),
            ),
    {
        let acc = self.registers.a();
        let f = self.registers.f();
        let res = (acc << 1u8) | (f & CF);
        let carry = (acc >> 7u8) & CF;
        self.registers.set_f(((carry | (res & (XF | YF))) | (f & (SF | ZF | PF))));
        self.registers.set_a(res);
    }

    /// RRA
    pub fn rra8(&mut self)
        ensures
            *final(self) == old(self).with_regs(
                old(self).registers.with_f(
                    rot_a_spec(3, old(self).registers.spec_a(), old(self).registers.spec_f()).1,
                ).with_a(rot_a_spec(3, old(self).registers.spec_a(), old(self).registers.spec_f()).0),
            ),
    {
        let acc = self.registers.a();
        let f = self.registers.f();
        let res = (acc >> 1u8) | ((f & CF) << 7u8);
        let carry = acc & CF;
        self.registers.set_f(((carry | (res & (XF | YF))) | (f & (SF | ZF | PF))));
        self.registers.set_a(res);
    }

    /// The rotate or shift with field index `op` on `val`.
    pub fn rot(&mut self, op: Byte, val: Byte) -> (r: Byte)
        ensures
            r == rot_spec(op, val, old(self).registers.spec_f()).0,
            *final(self) == old(self).with_regs(
                old(self).registers.with_f(rot_spec(op, val, old(self).registers.spec_f()).1),
            ),
    {
        match op {
            0 => self.rlc8(val),
            1 => self.rrc8(val),
            2 => self.rl8(val),
            3 => self.rr8(val),
            4 => self.sla8(val),
            5 => self.sra8(val),
            6 => self.sll8(val),
            _ => self.srl8(val),
        }
    }

    /// BIT: tests `val & mask`; Y and X come from `val`.
    pub fn bit(&mut self, val: Byte, mask: Byte)
        ensures
            *final(self) == old(self).with_regs(
                old(self).registers.with_f(
                    bit_flags(val, mask, old(self).registers.spec_f(), val),
                ),
            ),
    {
        let res = val & mask;
        let f = HF | (self.registers.f() & CF) | (if res == 0 {
            ZF | PF
        } else {
            res & SF
        }) | (val & (XF | YF));
        self.registers.set_f(f)
    }

    /// BIT on a memory operand: Y and X come from the high byte of WZ.
    pub fn ibit(&mut self, val: Byte, mask: Byte)
        ensures
            *final(self) == old(self).with_regs(
                old(self).registers.with_f(
                    bit_flags(
                        val,
                        mask,
                        old(self).registers.spec_f(),
                        old(self).registers.spec_w(),
                    ),
                ),
            ),
    {
        let res = val & mask;
        let f = HF | (self.registers.f() & CF) | (if res == 0 {
            ZF | PF
        } else {
            res & SF
        }) | (self.registers.w() & (XF | YF));
        self.registers.set_f(f)
    }

    fn bcd_adjust(v: u8, d: u8, sub: bool) -> (r: u8)
        ensures
            r == bcd_adjust(v, d, sub),
    {
        if sub {
            v.wrapping_sub(d)
        } else {
            v.wrapping_add(d)
        }
    }

    fn daa_value(a: u8, f: u8) -> (r: (u8, u8))
        ensures
            r == daa_spec(a, f),
    {
        let low = (a & 0xF) > 0x9 || (f & HF) != 0;
        let high = a > 0x99 || (f & CF) != 0;
        let sub = f & NF != 0;
        let mut val = a;
        if low {
            val = Self::bcd_adjust(val, 6, sub);
        }
        if high {
            val = Self::bcd_adjust(val, 0x60, sub);
        }
        assert(val == daa_spec(a, f).0);
        let szp = flags_szp(val);
        let nf = (f & (CF | NF)) | (if a > 0x99 {
            CF
        } else {
            0
        }) | ((a ^ val) & HF) | szp;
        (val, nf)
    }

    /// DAA: decimal adjust of the accumulator after a BCD add or subtract.
    pub fn daa(&mut self)
        ensures
            *final(self) == old(self).with_regs(
                old(self).registers.with_f(
                    daa_spec(old(self).registers.spec_a(), old(self).registers.spec_f()).1,
                ).with_a(daa_spec(old(self).registers.spec_a(), old(self).registers.spec_f()).0),
            ),
    {
        let a = self.registers.a();
        let f = self.registers.f();
        let (val, nf) = Self::daa_value(a, f);
        self.registers.set_f(nf);
        self.registers.set_a(val);
    }

    /// CPL: complements the accumulator.
    pub fn cpl(&mut self)
        ensures
            ({
                let a = old(self).registers.spec_a() ^ 0xFF;
                let f = old(self).registers.spec_f();
                *final(self) == old(self).with_regs(
                    old(self).registers.with_f(
                        (f & (SF | ZF | PF | CF)) | (HF | NF) | (a & (YF | XF)),
                    ).with_a(a),
                )
            }),
    {
        let f = self.registers.f();
        let a = self.registers.a() ^ 0xFF;
        self.registers.set_f((f & (SF | ZF | PF | CF)) | (HF | NF) | (a & (YF | XF)));
        self.registers.set_a(a);
    }

    /// SCF: sets the carry flag.
    pub fn scf(&mut self)
        ensures
            ({
                let a = old(self).registers.spec_a();
                let f = old(self).registers.spec_f();
                *final(self) == old(self).with_regs(
                    old(self).registers.with_f(
                        (f & (SF | ZF | YF | XF | PF)) | CF | (a & (YF | XF)),
                    ),
                )
            }),
    {
        let f = self.registers.f();
        let a = self.registers.a();
        self.registers.set_f((f & (SF | ZF | YF | XF | PF)) | CF | (a & (YF | XF)));
    }

    /// CCF: complements the carry flag; the old carry goes to half carry.
    pub fn ccf(&mut self)
        ensures
            ({
                let a = old(self).registers.spec_a();
                let f = old(self).registers.spec_f();
                *final(self) == old(self).with_regs(
                    old(self).registers.with_f(
                        ((f & (SF | ZF | YF | XF | PF | CF)) | ((f & CF) << 4u8) | (a & (YF
                            | XF))) ^ CF,
                    ),
                )
            }),
    {
        let f = self.registers.f();
        let a = self.registers.a();
        self.registers.set_f(
            ((f & (SF | ZF | YF | XF | PF | CF)) | ((f & CF) << 4u8) | (a & (YF | XF))) ^ CF,
        );
    }

    /// RLD: rotates the low nibble of A and the byte at HL left by a nibble.
    pub fn rld(&mut self, mem: &mut Memory)
        requires
            old(mem).wf(),
        ensures
            final(mem).wf(),
            ({
                let r = old(self).registers;
                let addr = r.reg_hl.word;
                let v = old(mem)@.read(addr);
                let a = (r.spec_a() & 0xF0) | ((v >> 4u8) & 0x0F);
                &&& final(mem)@ == old(mem)@.write(addr, (v << 4u8) | (r.spec_a() & 0x0F))
                &&& *final(self) == old(self).with_regs(
                    r.with_a(a).with_wz(wrap16(addr + 1)).with_f(
                        spec_flags_szp(a) | (r.spec_f() & CF),
                    ),
                )
            }),
    {
        let addr = self.registers.hl();
        let v = mem.read_byte(addr);
        let ah = self.registers.a() & 0xF0;
        let al = self.registers.a() & 0x0F;
        let a = ah | ((v >> 4u8) & 0x0F);
        self.registers.set_a(a);
        mem.write_byte(addr, (v << 4u8) | al);
        self.registers.set_wz(addr.wrapping_add(1));
        let f = flags_szp(a) | (self.registers.f() & CF);
        self.registers.set_f(f);
    }

    /// RRD: rotates the low nibble of A and the byte at HL right by a nibble.
    pub fn rrd(&mut self, mem: &mut Memory)
        requires
            old(mem).wf(),
        ensures
            final(mem).wf(),
            ({
                let r = old(self).registers;
                let addr = r.reg_hl.word;
                let v = old(mem)@.read(addr);
                let a = (r.spec_a() & 0xF0) | (v & 0x0F);
                &&& final(mem)@ == old(mem)@.write(addr, (v >> 4u8) | ((r.spec_a() & 0x0F) << 4u8))
                &&& *final(self) == old(self).with_regs(
                    r.with_a(a).with_wz(wrap16(addr + 1)).with_f(
                        spec_flags_szp(a) | (r.spec_f() & CF),
                    ),
                )
            }),
    {
        let addr = self.registers.hl();
        let v = mem.read_byte(addr);
        let ah = self.registers.a() & 0xF0;
        let al = self.registers.a() & 0x0F;
        let a = ah | (v & 0x0F);
        self.registers.set_a(a);
        mem.write_byte(addr, (v >> 4u8) | (al << 4u8));
        self.registers.set_wz(addr.wrapping_add(1));
        let f = flags_szp(a) | (self.registers.f() & CF);
        self.registers.set_f(f);
    }
    /// RET: pops the program counter (also into WZ).
    pub fn ret(&mut self, mem: &Memory) -> (r: i64)
        requires
            mem.wf(),
        ensures
            r == 10,
            ({
                let sp = old(self).registers.reg_sp.word;
                let t = mem@.read_word(sp);
                *final(self) == old(self).with_regs(
                    old(self).registers.with_wz(t).with_pc(t).with_sp(wrap16(sp + 2)),
                )
            }),
    {
        let sp = self.registers.sp();
        let wz = mem.read_word(sp);
        self.registers.set_wz(wz);
        self.registers.set_pc(wz);
        self.registers.set_sp(sp.wrapping_add(2));
        10
    }

    /// CALL nn: pushes the address after the operand and jumps to nn.
    pub fn call(&mut self, mem: &mut Memory) -> (r: i64)
        requires
            old(mem).wf(),
        ensures
            r == 17,
            final(mem).wf(),
            ({
                let regs = old(self).registers;
                let t = old(mem)@.read_word(regs.reg_pc.word);
                let sp = wrap16(regs.reg_sp.word + 0xFFFE);
                &&& final(mem)@ == old(mem)@.write_word(sp, wrap16(regs.reg_pc.word + 2))
                &&& *final(self) == old(self).with_regs(
                    regs.with_pc(wrap16(regs.reg_pc.word + 2)).with_sp(sp).with_wz(t).with_pc(t),
                )
            }),
    {
        let wz = self.imm16(mem);
        let sp = self.registers.sp().wrapping_sub(2);
        let pc = self.registers.pc();
        mem.write_word(sp, pc);
        self.registers.set_sp(sp);
        self.registers.set_wz(wz);
        self.registers.set_pc(wz);
        17
    }

    /// RET cc
    pub fn retcc(&mut self, mem: &Memory, y: Byte) -> (r: i64)
        requires
            mem.wf(),
        ensures
            ({
                let regs = old(self).registers;
                let sp = regs.reg_sp.word;
                let t = mem@.read_word(sp);
                if condition(regs.spec_f(), y) {
                    r == 11 && *final(self) == old(self).with_regs(
                        regs.with_wz(t).with_pc(t).with_sp(wrap16(sp + 2)),
                    )
                } else {
                    r == 5 && *final(self) == *old(self)
                }
            }),
    {
        if self.check_condition(y) {
            self.ret(mem) + 1
        } else {
            5
        }
    }

    /// CALL cc,nn
    pub fn callcc(&mut self, mem: &mut Memory, y: Byte) -> (r: i64)
        requires
            old(mem).wf(),
        ensures
            final(mem).wf(),
            ({
                let regs = old(self).registers;
                let t = old(mem)@.read_word(regs.reg_pc.word);
                let sp = wrap16(regs.reg_sp.word + 0xFFFE);
                if condition(regs.spec_f(), y) {
                    &&& r == 17
                    &&& final(mem)@ == old(mem)@.write_word(sp, wrap16(regs.reg_pc.word + 2))
                    &&& *final(self) == old(self).with_regs(
                        regs.with_pc(wrap16(regs.reg_pc.word + 2)).with_sp(sp).with_wz(t).with_pc(
                            t,
                        ),
                    )
                } else {
                    &&& r == 10
                    &&& final(mem)@ == old(mem)@
                    &&& *final(self) == old(self).with_regs(
                        regs.with_pc(wrap16(regs.reg_pc.word + 2)).with_wz(t),
                    )
                }
            }),
    {
        if self.check_condition(y) {
            self.call(mem)
        } else {
            let wz = self.imm16(mem);
            self.registers.set_wz(wz);
            10
        }
    }

    /// RST: pushes the program counter and jumps to `val`.
    pub fn rst(&mut self, mem: &mut Memory, val: Word)
        requires
            old(mem).wf(),
        ensures
            final(mem).wf(),
            ({
                let regs = old(self).registers;
                &&& final(mem)@ == push_mem(old(mem)@, regs.reg_sp.word, regs.reg_pc.word)
                &&& *final(self) == old(self).with_regs(
                    regs.with_sp(wrap16(regs.reg_sp.word + 0xFFFE)).with_pc(val).with_wz(val),
                )
            }),
    {
        let pc = self.registers.pc();
        self.push_stack(mem, pc);
        self.registers.set_pc(val);
        self.registers.set_wz(val);
    }

    /// DJNZ: decrements B and jumps relative while it is not zero.
    pub fn djnz(&mut self, mem: &Memory) -> (r: i64)
        requires
            mem.wf(),
        ensures
            ({
                let regs = old(self).registers;
                let b = ((regs.spec_b() + 255) % 256) as u8;
                let pc = regs.reg_pc.word;
                if b != 0 {
                    let t = rel_target(pc, mem@.read(pc));
                    r == 13 && *final(self) == old(self).with_regs(
                        regs.with_b(b).with_wz(t).with_pc(t),
                    )
                } else {
                    r == 8 && *final(self) == old(self).with_regs(
                        regs.with_b(b).with_pc(wrap16(pc + 1)),
                    )
                }
            }),
    {
        let b = self.registers.b().wrapping_sub(1);
        self.registers.set_b(b);
        if b > 0 {
            let addr = self.registers.pc();
            let d = mem.read_byte(addr);
            let wz = Self::displace(addr, d);
            self.registers.set_wz(wz);
            self.registers.set_pc(wz);
            13
        } else {
            self.registers.inc_pc(1);
            8
        }
    }

    fn ld_block(&mut self, mem: &mut Memory, dec: bool)
        requires
            old(mem).wf(),
        ensures
            final(mem).wf(),
            ({
                let regs = old(self).registers;
                let val = old(mem)@.read(regs.reg_hl.word);
                &&& final(mem)@ == old(mem)@.write(regs.reg_de.word, val)
                &&& *final(self) == old(self).with_regs(ldi_regs(regs, val, dec))
                &&& (final(self).registers.spec_f() & VF != 0) == (regs.reg_bc.word != 1)
            }),
    {
        let hl = self.registers.hl();
        let de = self.registers.de();
        let val = mem.read_byte(hl);
        mem.write_byte(de, val);
        if dec {
            self.registers.sethl(hl.wrapping_sub(1));
            self.registers.setde(de.wrapping_sub(1));
        } else {
            self.registers.sethl(hl.wrapping_add(1));
            self.registers.setde(de.wrapping_add(1));
        }
        let bc = self.registers.bc().wrapping_sub(1);
        self.registers.setbc(bc);
        let n = val.wrapping_add(self.registers.a());
        let g = self.registers.f();
        let fx = g & (SF | ZF | CF);
        let y: u8 = if (n & 0x02) != 0 {
            YF
        } else {
            0
        };
        let x: u8 = if (n & 0x08) != 0 {
            XF
        } else {
            0
        };
        let v: u8 = if bc > 0 {
            VF
        } else {
            0
        };
        let f = fx | y | x | v;
        assert(f & 4 != 0 <==> v != 0) by (bit_vector)
            requires
                f == fx | y | x | v,
                fx == g & (SF | ZF | CF),
                y == 0 || y == YF,
                x == 0 || x == XF,
                v == 0 || v == VF,
        ;
        self.registers.set_f(f);
    }

    /// LDI: copies (HL) to (DE), increments both, decrements BC.
    pub fn ldi(&mut self, mem: &mut Memory)
        requires
            old(mem).wf(),
        ensures
            final(mem).wf(),
            ({
                let regs = old(self).registers;
                let val = old(mem)@.read(regs.reg_hl.word);
                &&& final(mem)@ == old(mem)@.write(regs.reg_de.word, val)
                &&& *final(self) == old(self).with_regs(ldi_regs(regs, val, false))
            }),
    {
        self.ld_block(mem, false)
    }

    /// LDD: copies (HL) to (DE), decrements both and BC.
    pub fn ldd(&mut self, mem: &mut Memory)
        requires
            old(mem).wf(),
        ensures
            final(mem).wf(),
            ({
                let regs = old(self).registers;
                let val = old(mem)@.read(regs.reg_hl.word);
                &&& final(mem)@ == old(mem)@.write(regs.reg_de.word, val)
                &&& *final(self) == old(self).with_regs(ldi_regs(regs, val, true))
            }),
    {
        self.ld_block(mem, true)
    }

    fn ld_repeat(&mut self, mem: &mut Memory, dec: bool) -> (r: i64)
        requires
            old(mem).wf(),
        ensures
            final(mem).wf(),
            ({
                let regs = old(self).registers;
                let val = old(mem)@.read(regs.reg_hl.word);
                let after = ldi_regs(regs, val, dec);
                &&& final(mem)@ == old(mem)@.write(regs.reg_de.word, val)
                &&& if regs.reg_bc.word != 1 {
                    r == 21 && *final(self) == old(self).with_regs(rewind(after))
                } else {
                    r == 16 && *final(self) == old(self).with_regs(after)
                }
            }),
    {
        self.ld_block(mem, dec);
        if (self.registers.f() & VF) != 0 {
            let pc = self.registers.pc();
            self.registers.dec_pc(2);
            self.registers.set_wz(pc.wrapping_add(1));
            21
        } else {
            16
        }
    }

    /// LDIR: LDI, repeated (by stepping back over the instruction) until BC is 0.
    pub fn ldir(&mut self, mem: &mut Memory) -> (r: i64)
        requires
            old(mem).wf(),
        ensures
            final(mem).wf(),
            ({
                let regs = old(self).registers;
                let val = old(mem)@.read(regs.reg_hl.word);
                let after = ldi_regs(regs, val, false);
                &&& final(mem)@ == old(mem)@.write(regs.reg_de.word, val)
                &&& if regs.reg_bc.word != 1 {
                    r == 21 && *final(self) == old(self).with_regs(rewind(after))
                } else {
                    r == 16 && *final(self) == old(self).with_regs(after)
                }
            }),
    {
        self.ld_repeat(mem, false)
    }

    /// LDDR: LDD, repeated until BC is 0.
    pub fn lddr(&mut self, mem: &mut Memory) -> (r: i64)
        requires
            old(mem).wf(),
        ensures
            final(mem).wf(),
            ({
                let regs = old(self).registers;
                let val = old(mem)@.read(regs.reg_hl.word);
                let after = ldi_regs(regs, val, true);
                &&& final(mem)@ == old(mem)@.write(regs.reg_de.word, val)
                &&& if regs.reg_bc.word != 1 {
                    r == 21 && *final(self) == old(self).with_regs(rewind(after))
                } else {
                    r == 16 && *final(self) == old(self).with_regs(after)
                }
            }),
    {
        self.ld_repeat(mem, true)
    }
    fn cp_block(&mut self, mem: &Memory, dec: bool)
        requires
            mem.wf(),
        ensures
            ({
                let regs = old(self).registers;
                let val = mem@.read(regs.reg_hl.word);
                &&& *final(self) == old(self).with_regs(cpi_regs(regs, val, dec))
                &&& ((final(self).registers.spec_f() & (VF | ZF)) == VF) == (regs.reg_bc.word != 1
                    && regs.spec_a() != val)
            }),
    {
        let wz = self.registers.wz();
        let hl = self.registers.hl();
        if dec {
            self.registers.set_wz(wz.wrapping_sub(1));
            self.registers.sethl(hl.wrapping_sub(1));
        } else {
            self.registers.set_wz(wz.wrapping_add(1));
            self.registers.sethl(hl.wrapping_add(1));
        }
        let bc = self.registers.bc().wrapping_sub(1);
        self.registers.setbc(bc);
        let a = self.registers.a();
        let val = mem.read_byte(hl);
        let mut v = a.wrapping_sub(val);
        let g = self.registers.f();
        let z: u8 = if v == 0 {
            ZF
        } else {
            v & SF
        };
        let h: u8 = if (v & 0xF) > (a & 0xF) {
            HF
        } else {
            0
        };
        let o: u8 = if bc != 0 {
            VF
        } else {
            0
        };
        let mut f = NF | (g & CF) | z | h | o;
        if (f & HF) != 0 {
            v = v.wrapping_sub(1);
        }
        let y: u8 = if (v & 0x02) != 0 {
            YF
        } else {
            0
        };
        let x: u8 = if (v & 0x08) != 0 {
            XF
        } else {
            0
        };
        let f0 = f;
        f = f0 | y | x;
        let d = a.wrapping_sub(val);
        assert((f & (VF | ZF)) == VF <==> (o != 0 && d != 0)) by (bit_vector)
            requires
                f == f0 | y | x,
                f0 == NF | (g & CF) | z | h | o,
                z == (if d == 0 {
                    ZF
                } else {
                    d & SF
                }),
                h == 0 || h == HF,
                o == 0 || o == VF,
                y == 0 || y == YF,
                x == 0 || x == XF,
        ;
        self.registers.set_f(f);
    }

    fn cp_repeat(&mut self, mem: &Memory, dec: bool) -> (r: i64)
        requires
            mem.wf(),
        ensures
            ({
                let regs = old(self).registers;
                let val = mem@.read(regs.reg_hl.word);
                let after = cpi_regs(regs, val, dec);
                if regs.reg_bc.word != 1 && regs.spec_a() != val {
                    r == 21 && *final(self) == old(self).with_regs(rewind(after))
                } else {
                    r == 16 && *final(self) == old(self).with_regs(after)
                }
            }),
    {
        self.cp_block(mem, dec);
        if (self.registers.f() & (VF | ZF)) == VF {
            let pc = self.registers.pc();
            self.registers.dec_pc(2);
            self.registers.set_wz(pc.wrapping_add(1));
            21
        } else {
            16
        }
    }

    /// CPI: compares A with (HL), increments HL, decrements BC.
    pub fn cpi(&mut self, mem: &Memory)
        requires
            mem.wf(),
        ensures
            *final(self) == old(self).with_regs(
                cpi_regs(old(self).registers, mem@.read(old(self).registers.reg_hl.word), false),
            ),
    {
        self.cp_block(mem, false)
    }

    /// CPD: compares A with (HL), decrements HL and BC.
    pub fn cpd(&mut self, mem: &Memory)
        requires
            mem.wf(),
        ensures
            *final(self) == old(self).with_regs(
                cpi_regs(old(self).registers, mem@.read(old(self).registers.reg_hl.word), true),
            ),
    {
        self.cp_block(mem, true)
    }

    /// CPIR: CPI, repeated until BC is 0 or a match.
    pub fn cpir(&mut self, mem: &Memory) -> (r: i64)
        requires
            mem.wf(),
        ensures
            ({
                let regs = old(self).registers;
                let val = mem@.read(regs.reg_hl.word);
                let after = cpi_regs(regs, val, false);
                if regs.reg_bc.word != 1 && regs.spec_a() != val {
                    r == 21 && *final(self) == old(self).with_regs(rewind(after))
                } else {
                    r == 16 && *final(self) == old(self).with_regs(after)
                }
            }),
    {
        self.cp_repeat(mem, false)
    }

    /// CPDR: CPD, repeated until BC is 0 or a match.
    pub fn cpdr(&mut self, mem: &Memory) -> (r: i64)
        requires
            mem.wf(),
        ensures
            ({
                let regs = old(self).registers;
                let val = mem@.read(regs.reg_hl.word);
                let after = cpi_regs(regs, val, true);
                if regs.reg_bc.word != 1 && regs.spec_a() != val {
                    r == 21 && *final(self) == old(self).with_regs(rewind(after))
                } else {
                    r == 16 && *final(self) == old(self).with_regs(after)
                }
            }),
    {
        self.cp_repeat(mem, true)
    }
    /// Sends a byte to an output port; no device is attached.
    pub fn outp(&mut self, _port: Word, _val: Byte)
        ensures
            *final(self) == *old(self),
    {
    }

    /// Reads an input port; no device is attached, so every port reads 1.
    pub fn inp(&mut self, _port: Word) -> (r: Byte)
        ensures
            r == port_value(),
            *final(self) == *old(self),
    {
        1
    }

    #[verifier::rlimit(30)]
    fn ini_ind_flags(&self, val: Byte, add: Byte) -> (r: Byte)
        ensures
            r == ini_ind_flags_spec(self.registers.spec_b(), self.registers.spec_c(), val, add),
    {
        let b = self.registers.b();
        let c = self.registers.c();
        let t: u16 = c.wrapping_add(add) as u16 + val as u16;
        (if b != 0 {
            b & SF
        } else {
            ZF
        }) | (if (val & SF) != 0 {
            NF
        } else {
            0
        }) | (if (t & 0x100) != 0 {
            HF | CF
        } else {
            0
        }) | (flags_szp((t & 0x07) as u8 ^ b) & PF)
    }

    #[verifier::rlimit(30)]
    fn outi_outd_flags(&self, val: Byte) -> (r: Byte)
        ensures
            r == outi_outd_flags_spec(self.registers.spec_b(), self.registers.spec_l(), val),
    {
        let b = self.registers.b();
        let l = self.registers.l();
        let t: u16 = l as u16 + val as u16;
        (if b != 0 {
            b & SF
        } else {
            ZF
        }) | (if (val & SF) != 0 {
            NF
        } else {
            0
        }) | (if (t & 0x100) != 0 {
            HF | CF
        } else {
            0
        }) | (flags_szp((t & 0x07) as u8 ^ b) & PF)
    }

    fn in_block(&mut self, mem: &mut Memory, dec: bool)
        requires
            old(mem).wf(),
        ensures
            final(self).registers.spec_b() == ((old(self).registers.spec_b() + 255) % 256) as u8,
            final(mem).wf(),
            final(mem)@ == old(mem)@.write(old(self).registers.reg_hl.word, port_value()),
            *final(self) == old(self).with_regs(ini_regs(old(self).registers, port_value(), dec)),
    {
        let bc = self.registers.bc();
        let io_val = self.inp(bc);
        if dec {
            self.registers.set_wz(bc.wrapping_sub(1));
        } else {
            self.registers.set_wz(bc.wrapping_add(1));
        }
        let b = self.registers.b().wrapping_sub(1);
        self.registers.set_b(b);
        let hl = self.registers.hl();
        mem.write_byte(hl, io_val);
        if dec {
            self.registers.sethl(hl.wrapping_sub(1));
        } else {
            self.registers.sethl(hl.wrapping_add(1));
        }
        let f = self.ini_ind_flags(
            io_val,
            if dec {
                255
            } else {
                1
            },
        );
        self.registers.set_f(f);
    }

    /// INI: reads port BC into (HL), increments HL, decrements B.
    pub fn ini(&mut self, mem: &mut Memory)
        requires
            old(mem).wf(),
        ensures
            final(self).registers.spec_b() == ((old(self).registers.spec_b() + 255) % 256) as u8,
            final(mem).wf(),
            final(mem)@ == old(mem)@.write(old(self).registers.reg_hl.word, port_value()),
            *final(self) == old(self).with_regs(ini_regs(old(self).registers, port_value(), false)),
    {
        self.in_block(mem, false)
    }

    /// IND: reads port BC into (HL), decrements HL and B.
    pub fn ind(&mut self, mem: &mut Memory)
        requires
            old(mem).wf(),
        ensures
            final(self).registers.spec_b() == ((old(self).registers.spec_b() + 255) % 256) as u8,
            final(mem).wf(),
            final(mem)@ == old(mem)@.write(old(self).registers.reg_hl.word, port_value()),
            *final(self) == old(self).with_regs(ini_regs(old(self).registers, port_value(), true)),
    {
        self.in_block(mem, true)
    }

    fn out_block(&mut self, mem: &Memory, dec: bool)
        requires
            mem.wf(),
        ensures
            final(self).registers.spec_b() == ((old(self).registers.spec_b() + 255) % 256) as u8,
            *final(self) == old(self).with_regs(
                outi_regs(old(self).registers, mem@.read(old(self).registers.reg_hl.word), dec),
            ),
    {
        let hl = self.registers.hl();
        let io_val = mem.read_byte(hl);
        if dec {
            self.registers.sethl(hl.wrapping_sub(1));
        } else {
            self.registers.sethl(hl.wrapping_add(1));
        }
        let b = self.registers.b().wrapping_sub(1);
        self.registers.set_b(b);
        let bc = self.registers.bc();
        self.outp(bc, io_val);
        if dec {
            self.registers.set_wz(bc.wrapping_sub(1));
        } else {
            self.registers.set_wz(bc.wrapping_add(1));
        }
        let f = self.outi_outd_flags(io_val);
        self.registers.set_f(f);
    }

    /// OUTI: sends (HL) to port BC, increments HL, decrements B.
    pub fn outi(&mut self, mem: &Memory)
        requires
            mem.wf(),
        ensures
            final(self).registers.spec_b() == ((old(self).registers.spec_b() + 255) % 256) as u8,
            *final(self) == old(self).with_regs(
                outi_regs(old(self).registers, mem@.read(old(self).registers.reg_hl.word), false),
            ),
    {
        self.out_block(mem, false)
    }

    /// OUTD: sends (HL) to port BC, decrements HL and B.
    pub fn outd(&mut self, mem: &Memory)
        requires
            mem.wf(),
        ensures
            final(self).registers.spec_b() == ((old(self).registers.spec_b() + 255) % 256) as u8,
            *final(self) == old(self).with_regs(
                outi_regs(old(self).registers, mem@.read(old(self).registers.reg_hl.word), true),
            ),
    {
        self.out_block(mem, true)
    }

    /// INIR: INI, repeated until B is 0.
    pub fn inir(&mut self, mem: &mut Memory) -> (r: i64)
        requires
            old(mem).wf(),
        ensures
            final(mem).wf(),
            ({
                let regs = old(self).registers;
                let after = ini_regs(regs, port_value(), false);
                &&& final(mem)@ == old(mem)@.write(regs.reg_hl.word, port_value())
                &&& if (regs.spec_b() + 255) % 256 != 0 {
                    r == 21 && *final(self) == old(self).with_regs(rewind_pc(after))
                } else {
                    r == 16 && *final(self) == old(self).with_regs(after)
                }
            }),
    {
        self.ini(mem);
        if self.registers.b() != 0 {
            self.registers.dec_pc(2);
            21
        } else {
            16
        }
    }

    /// INDR: IND, repeated until B is 0.
    pub fn indr(&mut self, mem: &mut Memory) -> (r: i64)
        requires
            old(mem).wf(),
        ensures
            final(mem).wf(),
            ({
                let regs = old(self).registers;
                let after = ini_regs(regs, port_value(), true);
                &&& final(mem)@ == old(mem)@.write(regs.reg_hl.word, port_value())
                &&& if (regs.spec_b() + 255) % 256 != 0 {
                    r == 21 && *final(self) == old(self).with_regs(rewind_pc(after))
                } else {
                    r == 16 && *final(self) == old(self).with_regs(after)
                }
            }),
    {
        self.ind(mem);
        if self.registers.b() != 0 {
            self.registers.dec_pc(2);
            21
        } else {
            16
        }
    }

    /// OTIR: OUTI, repeated until B is 0.
    pub fn otir(&mut self, mem: &mut Memory) -> (r: i64)
        requires
            old(mem).wf(),
        ensures
            final(mem).wf(),
            ({
                let regs = old(self).registers;
                let after = outi_regs(regs, old(mem)@.read(regs.reg_hl.word), false);
                &&& final(mem)@ == old(mem)@
                &&& if (regs.spec_b() + 255) % 256 != 0 {
                    r == 21 && *final(self) == old(self).with_regs(rewind_pc(after))
                } else {
                    r == 16 && *final(self) == old(self).with_regs(after)
                }
            }),
    {
        self.outi(mem);
        if self.registers.b() != 0 {
            self.registers.dec_pc(2);
            21
        } else {
            16
        }
    }

    /// OTDR: OUTD, repeated until B is 0.
    pub fn otdr(&mut self, mem: &mut Memory) -> (r: i64)
        requires
            old(mem).wf(),
        ensures
            final(mem).wf(),
            ({
                let regs = old(self).registers;
                let after = outi_regs(regs, old(mem)@.read(regs.reg_hl.word), true);
                &&& final(mem)@ == old(mem)@
                &&& if (regs.spec_b() + 255) % 256 != 0 {
                    r == 21 && *final(self) == old(self).with_regs(rewind_pc(after))
                } else {
                    r == 16 && *final(self) == old(self).with_regs(after)
                }
            }),
    {
        self.outd(mem);
        if self.registers.b() != 0 {
            self.registers.dec_pc(2);
            21
        } else {
            16
        }
    }
    /// Block 1 (8-bit loads, HALT) and block 2 (8-bit ALU).
    fn exec_load_alu(&mut self, mem: &mut Memory, op: Byte, ext: bool) -> (r: Result<i64, CpuError>)
        requires
            old(mem).wf(),
            old(self).wf(),
            op >> 6u8 == 1 || op >> 6u8 == 2,
        ensures
            final(mem).wf(),
            final(self).wf(),
            (*final(self), final(mem)@) == load_alu_effect(*old(self), old(mem)@, op, ext),
            plus_base(r, ext) == op_outcome(op, ext, old(self).registers, old(mem)@),
    {
        let extc: i64 = if ext {
            8
        } else {
            0
        };
        let x = op >> 6u8;
        let y = (op >> 3u8) & 7;
        let z = op & 7;
        assert(y < 8 && z < 8) by (bit_vector)
            requires
                y == (op >> 3u8) & 7,
                z == op & 7,
        ;
        if x == 1 {
            if y == 6 && z == 6 {
                self.halt();
                Ok(4)
            } else if y == 6 {
                // LD (HL),r
                let a = self.load_addr(mem, ext);
                let v = self.registers.get_reg8_by_index(z);
                mem.write_byte(a, v);
                Ok(7 + extc)
            } else if z == 6 {
                // LD r,(HL)
                let a = self.load_addr(mem, ext);
                let v = mem.read_byte(a);
                self.registers.set_reg8_by_index(y, v);
                Ok(7 + extc)
            } else {
                // LD r,s
                let v = self.registers.get_reg8_by_index(z);
                self.registers.set_reg8_by_index(y, v);
                Ok(4)
            }
        } else if z == 6 {
            // ALU (HL)
            let a = self.load_addr(mem, ext);
            let val = mem.read_byte(a);
            self.alu8(y, val);
            Ok(7 + extc)
        } else {
            // ALU r
            let val = self.registers.get_reg8_by_index(z);
            self.alu8(y, val);
            Ok(4)
        }
    }

    /// Block 0: relative jumps, 16-bit loads and arithmetic, indirect
    /// loads, INC/DEC, immediate loads and the accumulator operations.
    fn exec_misc(&mut self, mem: &mut Memory, op: Byte, ext: bool) -> (r: Result<i64, CpuError>)
        requires
            old(mem).wf(),
            old(self).wf(),
            op >> 6u8 == 0,
        ensures
            final(mem).wf(),
            final(self).wf(),
            (*final(self), final(mem)@) == misc_effect(*old(self), old(mem)@, op, ext),
            plus_base(r, ext) == op_outcome(op, ext, old(self).registers, old(mem)@),
    {
        let z = op & 7;
        assert(z < 8) by (bit_vector)
            requires
                z == op & 7,
        ;
        if z == 0 {
            self.exec_jump(mem, op, ext)
        } else if z == 1 || z == 3 {
            self.exec_wide(mem, op, ext)
        } else if z == 2 {
            self.exec_indirect(mem, op, ext)
        } else if z == 4 || z == 5 {
            self.exec_incdec(mem, op, ext)
        } else if z == 6 {
            self.exec_imm_load(mem, op, ext)
        } else {
            self.exec_acc_op(mem, op, ext)
        }
    }

    /// Block 0, low field 0: NOP, EX AF,AF', DJNZ and relative jumps.
    fn exec_jump(&mut self, mem: &mut Memory, op: Byte, ext: bool) -> (r: Result<i64, CpuError>)
        requires
            old(mem).wf(),
            old(self).wf(),
            op >> 6u8 == 0,
            op & 7 == 0,
        ensures
            final(mem).wf(),
            final(self).wf(),
            (*final(self), final(mem)@) == jump_effect(*old(self), old(mem)@, (op >> 3u8) & 7),
            plus_base(r, ext) == op_outcome(op, ext, old(self).registers, old(mem)@),
    {
        let y = (op >> 3u8) & 7;
        assert(y < 8) by (bit_vector)
            requires
                y == (op >> 3u8) & 7,
        ;
        if y == 0 {
            // NOP
            Ok(4)
        } else if y == 1 {
            self.registers.ex_af();
            Ok(4)
        } else if y == 2 {
            Ok(self.djnz(mem))
        } else if y == 3 || self.check_condition(y - 4) {
            // JR d; JR cc,d
            let pc = self.registers.pc();
            let d = mem.read_byte(pc);
            let wz = Self::displace(pc, d);
            self.registers.set_pc(wz);
            self.registers.set_wz(wz);
            Ok(12)
        } else {
            self.registers.inc_pc(1);
            Ok(7)
        }
    }

    /// Block 0, low fields 1 and 3: 16-bit loads, ADD HL, INC and DEC of pairs.
    fn exec_wide(&mut self, mem: &mut Memory, op: Byte, ext: bool) -> (r: Result<i64, CpuError>)
        requires
            old(mem).wf(),
            old(self).wf(),
            op >> 6u8 == 0,
            op & 7 == 1 || op & 7 == 3,
        ensures
            final(mem).wf(),
            final(self).wf(),
            (*final(self), final(mem)@) == wide_effect(*old(self), old(mem)@, (op >> 3u8) & 7, op & 7),
            plus_base(r, ext) == op_outcome(op, ext, old(self).registers, old(mem)@),
    {
        let y = (op >> 3u8) & 7;
        let z = op & 7;
        let p = y >> 1u8;
        let q = y & 1;
        assert(y < 8 && z < 8 && p < 4 && q < 2 && (q == 0 ==> y == 2 * p) && (q == 1 ==> y == 2
            * p + 1)) by (bit_vector)
            requires
                y == (op >> 3u8) & 7,
                z == op & 7,
                p == y >> 1u8,
                q == y & 1,
        ;
        if z == 1 {
            if q == 0 {
                // LD rr,nn
                let val = self.imm16(mem);
                self.registers.set_r16sp(p, val);
                Ok(10)
            } else {
                // ADD HL,rr
                let acc = self.registers.r16sp(2);
                let val = self.registers.r16sp(p);
                let res = self.add16(acc, val);
                self.registers.set_r16sp(2, res);
                Ok(11)
            }
        } else {
            // INC rr; DEC rr
            let v = self.registers.r16sp(p);
            let val = if q == 0 {
                v.wrapping_add(1)
            } else {
                v.wrapping_sub(1)
            };
            self.registers.set_r16sp(p, val);
            Ok(6)
        }
    }

    /// Block 0, low field 2: indirect loads.
    #[verifier::rlimit(60)]
    fn exec_indirect(&mut self, mem: &mut Memory, op: Byte, ext: bool) -> (r: Result<i64, CpuError>)
        requires
            old(mem).wf(),
            old(self).wf(),
            op >> 6u8 == 0,
            op & 7 == 2,
        ensures
            final(mem).wf(),
            final(self).wf(),
            (*final(self), final(mem)@) == indirect_effect(*old(self), old(mem)@, (op >> 3u8) & 7),
            plus_base(r, ext) == op_outcome(op, ext, old(self).registers, old(mem)@),
    {
        let y = (op >> 3u8) & 7;
        let z = op & 7;
        let p = y >> 1u8;
        let q = y & 1;
        assert(y < 8 && z < 8 && p < 4 && q < 2 && (q == 0 ==> y == 2 * p) && (q == 1 ==> y == 2
            * p + 1)) by (bit_vector)
            requires
                y == (op >> 3u8) & 7,
                z == op & 7,
                p == y >> 1u8,
                q == y & 1,
        ;
        if q == 0 {
            if p == 2 {
                // LD (nn),HL
                let addr = self.imm16(mem);
                let v = self.registers.r16sp(2);
                mem.write_word(addr, v);
                self.registers.set_wz(addr.wrapping_add(1));
                Ok(16)
            } else if p == 3 {
                // LD (nn),A
                let addr = self.imm16(mem);
                let a = self.registers.a();
                mem.write_byte(addr, a);
                self.registers.set_wz(addr.wrapping_add(1));
                Ok(13)
            } else {
                // LD (BC),A; LD (DE),A
                let addr = if p == 0 {
                    self.registers.bc()
                } else {
                    self.registers.de()
                };
                let a = self.registers.a();
                mem.write_byte(addr, a);
                self.registers.set_wz((a as Word) * 256 + addr.wrapping_add(1) % 256);
                Ok(7)
            }
        } else if p == 2 {
            // LD HL,(nn)
            let addr = self.imm16(mem);
            let val = mem.read_word(addr);
            self.registers.set_r16sp(2, val);
            self.registers.set_wz(addr.wrapping_add(1));
            Ok(16)
        } else if p == 3 {
            // LD A,(nn)
            let addr = self.imm16(mem);
            let val = mem.read_byte(addr);
            self.registers.set_a(val);
            self.registers.set_wz(addr.wrapping_add(1));
            Ok(13)
        } else {
            // LD A,(BC); LD A,(DE)
            let addr = if p == 0 {
                self.registers.bc()
            } else {
                self.registers.de()
            };
            let val = mem.read_byte(addr);
            self.registers.set_a(val);
            self.registers.set_wz(addr.wrapping_add(1));
            Ok(7)
        }
    }

    /// Block 0, low fields 4 and 5: INC and DEC of a byte.
    fn exec_incdec(&mut self, mem: &mut Memory, op: Byte, ext: bool) -> (r: Result<i64, CpuError>)
        requires
            old(mem).wf(),
            old(self).wf(),
            op >> 6u8 == 0,
            op & 7 == 4 || op & 7 == 5,
        ensures
            final(mem).wf(),
            final(self).wf(),
            (*final(self), final(mem)@) == incdec_effect(*old(self), old(mem)@, (op >> 3u8) & 7, op & 7, ext),
            plus_base(r, ext) == op_outcome(op, ext, old(self).registers, old(mem)@),
    {
        let extc: i64 = if ext {
            8
        } else {
            0
        };
        let y = (op >> 3u8) & 7;
        let z = op & 7;
        assert(y < 8 && z < 8) by (bit_vector)
            requires
                y == (op >> 3u8) & 7,
                z == op & 7,
        ;
        if y == 6 {
            // INC (HL); DEC (HL)
            let addr = self.load_addr(mem, ext);
            let v = mem.read_byte(addr);
            let w = if z == 4 {
                self.inc8(v)
            } else {
                self.dec8(v)
            };
            mem.write_byte(addr, w);
            Ok(11 + extc)
        } else {
            // INC r; DEC r
            let v = self.registers.get_reg8_by_index(y);
            let w = if z == 4 {
                self.inc8(v)
            } else {
                self.dec8(v)
            };
            self.registers.set_reg8_by_index(y, w);
            Ok(4)
        }
    }

    /// Block 0, low field 6: immediate byte loads.
    fn exec_imm_load(&mut self, mem: &mut Memory, op: Byte, ext: bool) -> (r: Result<i64, CpuError>)
        requires
            old(mem).wf(),
            old(self).wf(),
            op >> 6u8 == 0,
            op & 7 == 6,
        ensures
            final(mem).wf(),
            final(self).wf(),
            (*final(self), final(mem)@) == imm_load_effect(*old(self), old(mem)@, (op >> 3u8) & 7, ext),
            plus_base(r, ext) == op_outcome(op, ext, old(self).registers, old(mem)@),
    {
        let y = (op >> 3u8) & 7;
        assert(y < 8) by (bit_vector)
            requires
                y == (op >> 3u8) & 7,
        ;
        if y == 6 {
            // LD (HL),n
            let addr = self.load_addr(mem, ext);
            let v = self.imm8(mem);
            mem.write_byte(addr, v);
            Ok(
                if ext {
                    15
                } else {
                    10
                },
            )
        } else {
            // LD r,n
            let v = self.imm8(mem);
            self.registers.set_reg8_by_index(y, v);
            Ok(7)
        }
    }

    /// Block 0, low field 7: accumulator and flag operations.
    fn exec_acc_op(&mut self, mem: &mut Memory, op: Byte, ext: bool) -> (r: Result<i64, CpuError>)
        requires
            old(mem).wf(),
            old(self).wf(),
            op >> 6u8 == 0,
            op & 7 == 7,
        ensures
            final(mem).wf(),
            final(self).wf(),
            (*final(self), final(mem)@) == (old(self).with_regs(acc_op_regs(old(self).registers, (op >> 3u8) & 7)), old(mem)@),
            plus_base(r, ext) == op_outcome(op, ext, old(self).registers, old(mem)@),
    {
        let y = (op >> 3u8) & 7;
        assert(y < 8) by (bit_vector)
            requires
                y == (op >> 3u8) & 7,
        ;
            if y == 0 {
                self.rlca8();
            } else if y == 1 {
                self.rrca8();
            } else if y == 2 {
                self.rla8();
            } else if y == 3 {
                self.rra8();
            } else if y == 4 {
                self.daa();
            } else if y == 5 {
                self.cpl();
            } else if y == 6 {
                self.scf();
            } else {
                self.ccf();
            }
            Ok(4)
    }

    /// Block 3: returns, pops and pushes, jumps and calls, the prefixes,
    /// immediate ALU operations and restarts.
    #[verifier::rlimit(60)]
    fn exec_control(&mut self, mem: &mut Memory, op: Byte, ext: bool) -> (r: Result<
        i64,
        CpuError,
    >)
        requires
            old(mem).wf(),
            old(self).wf(),
            op >> 6u8 == 3,
        ensures
            final(mem).wf(),
            final(self).wf(),
            (*final(self), final(mem)@) == control_effect(*old(self), old(mem)@, op, ext),
            plus_base(r, ext) == op_outcome(op, ext, old(self).registers, old(mem)@),
    {
        let y = (op >> 3u8) & 7;
        let z = op & 7;
        let p = y >> 1u8;
        let q = y & 1;
        assert(y < 8 && z < 8 && p < 4 && q < 2) by (bit_vector)
            requires
                y == (op >> 3u8) & 7,
                z == op & 7,
                p == y >> 1u8,
                q == y & 1,
        ;
        if z == 0 {
            Ok(self.retcc(mem, y))
        } else if z == 1 {
            if q == 0 {
                // POP rr
                let val = self.pop_stack(mem);
                self.registers.set_r16af(p, val);
                Ok(10)
            } else if p == 0 {
                Ok(self.ret(mem))
            } else if p == 1 {
                self.registers.exx();
                Ok(4)
            } else if p == 2 {
                // JP (HL)
                let v = self.registers.r16sp(2);
                self.registers.set_pc(v);
                Ok(4)
            } else {
                // LD SP,HL
                let v = self.registers.r16sp(2);
                self.registers.set_sp(v);
                Ok(6)
            }
        } else if z == 2 {
            // JP cc,nn
            let nn = self.imm16(mem);
            self.registers.set_wz(nn);
            if self.check_condition(y) {
                self.registers.set_pc(nn);
            }
            Ok(10)
        } else if z == 3 {
            if y == 0 {
                // JP nn
                let nn = self.imm16(mem);
                self.registers.set_wz(nn);
                self.registers.set_pc(nn);
                Ok(10)
            } else if y == 1 {
                Ok(self.do_cb_op(mem, ext))
            } else if y == 2 {
                // OUT (n),A
                let a = self.registers.a();
                let port = (a as Word) * 256 + self.imm8(mem) as Word;
                self.outp(port, a);
                Ok(11)
            } else if y == 3 {
                // IN A,(n)
                let port = (self.registers.a() as Word) * 256 + self.imm8(mem) as Word;
                let v = self.inp(port);
                self.registers.set_a(v);
                Ok(11)
            } else if y == 4 {
                // EX (SP),HL
                let sp = self.registers.sp();
                let v_reg = self.registers.r16sp(2);
                let v_mem = mem.read_word(sp);
                mem.write_word(sp, v_reg);
                self.registers.set_wz(v_mem);
                self.registers.set_r16sp(2, v_mem);
                Ok(19)
            } else if y == 5 {
                self.registers.ex_de_hl();
                Ok(4)
            } else if y == 6 {
                // DI
                self.ime = false;
                Ok(4)
            } else {
                // EI, with no delay
                self.ime = true;
                Ok(4)
            }
        } else if z == 4 {
            Ok(self.callcc(mem, y))
        } else if z == 5 {
            if q == 0 {
                // PUSH rr
                let v = self.registers.r16af(p);
                self.push_stack(mem, v);
                Ok(11)
            } else if p == 0 {
                Ok(self.call(mem))
            } else if p == 2 {
                self.do_ed_op(mem)
            } else {
                // DD and FD: the index registers are not modelled, the
                // prefix takes its cycles and nothing else
                Ok(8)
            }
        } else if z == 6 {
            // ALU n
            let val = self.imm8(mem);
            self.alu8(y, val);
            Ok(7)
        } else {
            self.rst(mem, (y as Word) * 8);
            Ok(11)
        }
    }

    /// Fetches and executes a CB-prefixed instruction: rotates and shifts,
    /// BIT, RES and SET. The indexed forms read the displacement first and
    /// also store a rotated or changed byte in the register named by the
    /// low field.
    #[verifier::rlimit(60)]
    fn do_cb_op(&mut self, mem: &mut Memory, ext: bool) -> (r: i64)
        requires
            old(mem).wf(),
            old(self).wf(),
        ensures
            final(mem).wf(),
            final(self).wf(),
            (*final(self), final(mem)@) == cb_effect(*old(self), old(mem)@, ext),
            r == cb_cycles(
                old(mem)@.read(
                    wrap16(
                        old(self).registers.reg_pc.word + if ext {
                            1int
                        } else {
                            0
                        },
                    ),
                ),
                ext,
            ),
    {
        let d = if ext {
            self.d(mem)
        } else {
            0
        };
        let op = self.step_opcode(mem);
        let cyc: i64 = if ext {
            4
        } else {
            0
        };
        let x = op >> 6u8;
        let y = (op >> 3u8) & 7;
        let z = op & 7;
        assert(x < 4 && y < 8 && z < 8) by (bit_vector)
            requires
                x == op >> 6u8,
                y == (op >> 3u8) & 7,
                z == op & 7,
        ;
        if x == 1 {
            // BIT n
            if z == 6 {
                let a = self.addr_d(d, ext);
                let v = mem.read_byte(a);
                self.ibit(v, 1u8 << y);
                cyc + 12
            } else {
                let v = self.registers.get_reg8_by_index(z);
                self.bit(v, 1u8 << y);
                cyc + 8
            }
        } else if z == 6 || ext {
            // ROT, RES or SET on (HL) or (IX+d)
            let a = self.addr_d(d, ext);
            let v = mem.read_byte(a);
            let w = if x == 0 {
                self.rot(y, v)
            } else if x == 2 {
                v & !(1u8 << y)
            } else {
                v | (1u8 << y)
            };
            if z != 6 {
                self.registers.set_reg8_by_index(z, w);
            }
            mem.write_byte(a, w);
            cyc + 15
        } else {
            // ROT, RES or SET on a register
            let v = self.registers.get_reg8_by_index(z);
            let w = if x == 0 {
                self.rot(y, v)
            } else if x == 2 {
                v & !(1u8 << y)
            } else {
                v | (1u8 << y)
            };
            self.registers.set_reg8_by_index(z, w);
            cyc + 8
        }
    }

    /// Fetches and executes an ED-prefixed instruction.
    fn do_ed_op(&mut self, mem: &mut Memory) -> (r: Result<i64, CpuError>)
        requires
            old(mem).wf(),
            old(self).wf(),
        ensures
            final(mem).wf(),
            final(self).wf(),
            (*final(self), final(mem)@) == ed_effect(*old(self), old(mem)@),
            plus_base(r, false) == ed_outcome(
                old(mem)@.read(old(self).registers.reg_pc.word),
                old(self).registers.with_pc(wrap16(old(self).registers.reg_pc.word + 1)),
                old(mem)@,
            ),
    {
        let op = self.step_opcode(mem);
        let x = op >> 6u8;
        let y = (op >> 3u8) & 7;
        let z = op & 7;
        assert(x < 4 && y < 8 && z < 8) by (bit_vector)
            requires
                x == op >> 6u8,
                y == (op >> 3u8) & 7,
                z == op & 7,
        ;
        if x == 2 && y >= 4 && z < 4 {
            self.ed_block(mem, op)
        } else if x == 1 {
            self.ed_misc(mem, op)
        } else {
            Err(CpuError::InvalidInstruction { prefix: 0xED, opcode: op })
        }
    }

    /// ED-prefixed block transfer, compare, input and output.
    #[verifier::rlimit(60)]
    fn ed_block(&mut self, mem: &mut Memory, op: Byte) -> (r: Result<i64, CpuError>)
        requires
            old(mem).wf(),
            old(self).wf(),
            op >> 6u8 == 2,
            (op >> 3u8) & 7 >= 4,
            op & 7 < 4,
        ensures
            final(mem).wf(),
            final(self).wf(),
            (*final(self), final(mem)@) == ed_block_effect(
                *old(self),
                old(mem)@,
                (op >> 3u8) & 7,
                op & 7,
            ),
            plus_base(r, false) == ed_outcome(op, old(self).registers, old(mem)@),
    {
        let y = (op >> 3u8) & 7;
        let z = op & 7;
        assert(y < 8 && z < 8) by (bit_vector)
            requires
                y == (op >> 3u8) & 7,
                z == op & 7,
        ;
        {
            // block transfer, compare, input and output
            if z == 0 {
                if y == 4 {
                    self.ldi(mem);
                    Ok(16)
                } else if y == 5 {
                    self.ldd(mem);
                    Ok(16)
                } else if y == 6 {
                    Ok(self.ldir(mem))
                } else {
                    Ok(self.lddr(mem))
                }
            } else if z == 1 {
                if y == 4 {
                    self.cpi(mem);
                    Ok(16)
                } else if y == 5 {
                    self.cpd(mem);
                    Ok(16)
                } else if y == 6 {
                    Ok(self.cpir(mem))
                } else {
                    Ok(self.cpdr(mem))
                }
            } else if z == 2 {
                if y == 4 {
                    self.ini(mem);
                    Ok(16)
                } else if y == 5 {
                    self.ind(mem);
                    Ok(16)
                } else if y == 6 {
                    Ok(self.inir(mem))
                } else {
                    Ok(self.indr(mem))
                }
            } else {
                if y == 4 {
                    self.outi(mem);
                    Ok(16)
                } else if y == 5 {
                    self.outd(mem);
                    Ok(16)
                } else if y == 6 {
                    Ok(self.otir(mem))
                } else {
                    Ok(self.otdr(mem))
                }
            }
        }
    }

    /// ED-prefixed instructions of block 1: port input and output, 16-bit
    /// add and subtract with carry, 16-bit loads, NEG, RRD and RLD.
    #[verifier::rlimit(60)]
    fn ed_misc(&mut self, mem: &mut Memory, op: Byte) -> (r: Result<i64, CpuError>)
        requires
            old(mem).wf(),
            old(self).wf(),
            op >> 6u8 == 1,
        ensures
            final(mem).wf(),
            final(self).wf(),
            (*final(self), final(mem)@) == ed_misc_effect(
                *old(self),
                old(mem)@,
                (op >> 3u8) & 7,
                op & 7,
            ),
            plus_base(r, false) == ed_outcome(op, old(self).registers, old(mem)@),
    {
        let x = op >> 6u8;
        let y = (op >> 3u8) & 7;
        let z = op & 7;
        let p = y >> 1u8;
        let q = y & 1;
        assert(x < 4 && y < 8 && z < 8 && p < 4 && q < 2) by (bit_vector)
            requires
                x == op >> 6u8,
                y == (op >> 3u8) & 7,
                z == op & 7,
                p == y >> 1u8,
                q == y & 1,
        ;
        {
            if z == 0 {
                if y != 6 {
                    // IN r,(C)
                    let bc = self.registers.bc();
                    let v = self.inp(bc);
                    self.registers.set_reg8_by_index(y, v);
                    let f = flags_szp(v) | (self.registers.f() & CF);
                    self.registers.set_f(f);
                }
                Ok(12)
            } else if z == 1 {
                // OUT (C),r; the undocumented form with field 6 sends 0
                let bc = self.registers.bc();
                let v = if y == 6 {
                    0
                } else {
                    self.registers.get_reg8_by_index(y)
                };
                self.outp(bc, v);
                Ok(12)
            } else if z == 2 {
                // SBC HL,rr; ADC HL,rr
                let acc = self.registers.hl();
                let val = self.registers.r16sp(p);
                let res = if q == 0 {
                    self.sbc16(acc, val)
                } else {
                    self.adc16(acc, val)
                };
                self.registers.sethl(res);
                Ok(15)
            } else if z == 3 {
                // LD (nn),rr; LD rr,(nn)
                let nn = self.imm16(mem);
                if q == 0 {
                    let val = self.registers.r16sp(p);
                    mem.write_word(nn, val);
                } else {
                    let val = mem.read_word(nn);
                    self.registers.set_r16sp(p, val);
                }
                self.registers.set_wz(nn.wrapping_add(1));
                Ok(20)
            } else if z == 4 {
                self.neg8();
                Ok(8)
            } else if z == 5 {
                if y == 1 {
                    Err(CpuError::Unsupported { prefix: 0xED, opcode: op })
                } else {
                    Err(CpuError::InvalidInstruction { prefix: 0xED, opcode: op })
                }
            } else if z == 6 {
                // IM 0/1/2: one interrupt mode is modelled, nothing changes
                Ok(8)
            } else if y < 4 {
                // LD I,A; LD R,A; LD A,I; LD A,R: no I or R register
                Err(CpuError::Unsupported { prefix: 0xED, opcode: op })
            } else if y == 4 {
                self.rrd(mem);
                Ok(18)
            } else if y == 5 {
                self.rld(mem);
                Ok(18)
            } else {
                Ok(9)
            }
        }
    }

    /// Fetches, decodes and executes one instruction and returns the cycles
    /// it took. `extention` marks the indexed forms, which cost 4 more
    /// cycles (8 more with a memory operand).
    pub fn execute_next_opcode(&mut self, mem: &mut Memory, extention: bool) -> (r: Result<
        i64,
        CpuError,
    >)
        requires
            old(mem).wf(),
            old(self).wf(),
        ensures
            final(mem).wf(),
            final(self).wf(),
            (*final(self), final(mem)@) == step_effect(*old(self), old(mem)@, extention),
            plus_base(r, false) == op_outcome(
                old(mem)@.read(old(self).registers.reg_pc.word),
                extention,
                old(self).registers.with_pc(wrap16(old(self).registers.reg_pc.word + 1)),
                old(mem)@,
            ),
    {
        let cycle: i64 = if extention {
            4
        } else {
            0
        };
        let operation = self.step_opcode(mem);
        let x = operation >> 6u8;
        assert(x < 4) by (bit_vector)
            requires
                x == operation >> 6u8,
        ;
        let res = if x == 0 {
            self.exec_misc(mem, operation, extention)
        } else if x == 3 {
            self.exec_control(mem, operation, extention)
        } else {
            self.exec_load_alu(mem, operation, extention)
        };
        match res {
            Ok(c) => Ok(cycle + c),
            Err(e) => Err(e),
        }
    }

    /// Fetches and executes one instruction (no index prefix in force).
    pub fn step(&mut self, mem: &mut Memory) -> (r: Result<i64, CpuError>)
        requires
            old(mem).wf(),
            old(self).wf(),
        ensures
            final(mem).wf(),
            final(self).wf(),
            (*final(self), final(mem)@) == step_effect(*old(self), old(mem)@, false),
            plus_base(r, false) == op_outcome(
                old(mem)@.read(old(self).registers.reg_pc.word),
                false,
                old(self).registers.with_pc(wrap16(old(self).registers.reg_pc.word + 1)),
                old(mem)@,
            ),
    {
        self.execute_next_opcode(mem, false)
    }
}

} // verus!
