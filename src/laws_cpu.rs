use crate::cpu::{first_pending, stack_top, CPU};
use crate::laws_mem::stores_written_byte;
use crate::mem::MemModel;
use crate::registers::wrap16;
use crate::types::{IE, IF};
use vstd::prelude::*;

verus! {

/// With vblank (source 0) and timer (source 2) both requested and enabled,
/// vblank is serviced first: the processor jumps to 0x40 and the timer's
/// request bit is still set afterwards.
pub proof fn lemma_vblank_before_timer(cpu: CPU, m: MemModel)
    requires
        m.wf(),
        m.read(IF) & 5 == 5,
        m.read(IE) & 5 == 5,
        stores_written_byte(wrap16(cpu.registers.reg_sp.word + 0xFFFF)),
        stores_written_byte(wrap16(cpu.registers.reg_sp.word + 0xFFFE)),
        wrap16(cpu.registers.reg_sp.word + 0xFFFF) != IF,
        wrap16(cpu.registers.reg_sp.word + 0xFFFE) != IF,
    ensures
        first_pending(m.read(IF), m.read(IE), 0) == Some(0u8),
        cpu.serviced(0).registers.reg_pc.word == 0x40,
        cpu.serviced_mem(m, 0).read(IF) & 4 == 4,
{
    let req = m.read(IF);
    let en = m.read(IE);
    assert((req >> 0u8) & 1 != 0 && (en >> 0u8) & 1 != 0) by (bit_vector)
        requires
            req & 5 == 5,
            en & 5 == 5,
    ;
    assert((req & !(1u8 << 0u8)) & 4 == 4) by (bit_vector)
        requires
            req & 5 == 5,
    ;
    let m1 = m.write(IF, req & !(1u8 << 0u8));
    assert(m1.read(IF) & 4 == 4);
}

/// Servicing the serial interrupt (source 3) from PC 0x100 leaves 0x0100
/// on top of the stack, jumps to 0x58 and clears the master enable.
pub proof fn lemma_serial_service(cpu: CPU, m: MemModel)
    requires
        m.wf(),
        cpu.registers.reg_pc.word == 0x100,
        stores_written_byte(wrap16(cpu.registers.reg_sp.word + 0xFFFF)),
        stores_written_byte(wrap16(cpu.registers.reg_sp.word + 0xFFFE)),
    ensures
        stack_top(cpu.serviced_mem(m, 3), cpu.serviced(3).registers.reg_sp.word) == 0x0100,
        cpu.serviced(3).registers.reg_pc.word == 0x58,
        !cpu.serviced(3).ime,
{
    let sp = cpu.registers.reg_sp.word;
    let s1 = wrap16(sp + 0xFFFF);
    let s2 = wrap16(sp + 0xFFFE);
    assert(wrap16(s2 + 1) == s1);
    let m1 = m.write(IF, m.read(IF) & !(1u8 << 3u8));
    let m2 = m1.write(s1, 1);
    let m3 = m2.write(s2, 0);
    assert(m2.read(s1) == 1);
    assert(m3.read(s2) == 0);
    assert(m3.read(s1) == 1);
}

} // verus!
