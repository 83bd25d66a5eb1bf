use crate::mem::{timer_period, MemModel, Memory};
use crate::types::{DIVIDER_REGISTER, TIMA, TMA, TMC};
use vstd::prelude::*;

verus! {

/// Cycles per divider tick.
pub const DIVIDER_PERIOD: u32 = 255;

/// The divider register after `cycles` more cycles with accumulator
/// `counter`: it ticks once, wrapping at 8 bits, when the accumulator
/// reaches the period.
pub open spec fn divider_advance(counter: u32, m: MemModel, cycles: i32) -> MemModel {
    if counter + cycles >= DIVIDER_PERIOD {
        m.with_mem(
            m.mem.update(
                DIVIDER_REGISTER as int,
                ((m.mem[DIVIDER_REGISTER as int] + 1) % 256) as u8,
            ),
        )
    } else {
        m
    }
}

/// The divider accumulator after `cycles` more cycles.
pub open spec fn divider_counter_after(counter: u32, cycles: i32) -> u32 {
    if counter + cycles >= DIVIDER_PERIOD {
        0
    } else {
        (counter + cycles) as u32
    }
}

/// The programmable counter after `cycles` more cycles: while enabled
/// (bit 2 of TMC) the countdown drops by `cycles`; when it reaches zero it
/// is reloaded from the frequency code and TIMA ticks; from 255 TIMA is
/// loaded from TMA instead and the timer interrupt (source 2) is requested.
pub open spec fn counter_advance(m: MemModel, cycles: i32) -> MemModel {
    if m.mem[TMC as int] & 4 != 0 {
        let t = m.timer_counter - cycles;
        if t <= 0 {
            let m2 = MemModel { timer_counter: timer_period(m.clock_freq()), ..m };
            if m.mem[TIMA as int] == 255 {
                m2.with_mem(m2.mem.update(TIMA as int, m2.mem[TMA as int])).request(2)
            } else {
                m2.with_mem(m2.mem.update(TIMA as int, (m2.mem[TIMA as int] + 1) as u8))
            }
        } else {
            MemModel { timer_counter: t as i32, ..m }
        }
    } else {
        m
    }
}

/// The free-running divider and the programmable counter.
pub struct Timer {
    divider_counter: u32,
}

impl View for Timer {
    type V = u32;

    /// The divider accumulator.
    closed spec fn view(&self) -> u32 {
        self.divider_counter
    }
}

impl Timer {
    /// The timer whose divider accumulator is `c`.
    pub closed spec fn from_view(c: u32) -> Timer {
        Timer { divider_counter: c }
    }

    /// A timer is its divider accumulator.
    pub proof fn lemma_from_view(t: Timer, c: u32)
        ensures
            Timer::from_view(t@) == t,
            Timer::from_view(c)@ == c,
    {
    }

    pub open spec fn wf(&self) -> bool {
        self@ < DIVIDER_PERIOD
    }

    pub fn new() -> (r: Timer)
        ensures
            r@ == 0,
            r.wf(),
    {
        Timer { divider_counter: 0 }
    }

    /// Advances the divider, then the programmable counter, by `cycles`.
    pub fn update_timers(&mut self, mem: &mut Memory, cycles: i32)
        requires
            old(self).wf(),
            old(mem).wf(),
            cycles >= 0,
        ensures
            final(self).wf(),
            final(mem).wf(),
            final(self)@ == divider_counter_after(old(self)@, cycles),
            final(mem)@ == counter_advance(divider_advance(old(self)@, old(mem)@, cycles), cycles),
    {
        self.do_divider_registers(mem, cycles);
        if Self::is_clock_enabled(mem) {
            let t: i64 = mem.timer_counter() as i64 - cycles as i64;
            if t <= 0 {
                mem.set_clock_frequency();
                if mem.read_byte(TIMA) == 255 {
                    let tma_val = mem.read_byte(TMA);
                    mem.write_byte(TIMA, tma_val);
                    mem.request_interrupt(2);
                } else {
                    let tima_val = mem.read_byte(TIMA) + 1;
                    mem.write_byte(TIMA, tima_val);
                }
            } else {
                mem.set_timer_counter(t as i32);
            }
        }
    }

    fn do_divider_registers(&mut self, mem: &mut Memory, cycles: i32)
        requires
            old(self).wf(),
            old(mem).wf(),
            cycles >= 0,
        ensures
            final(self).wf(),
            final(mem).wf(),
            final(self)@ == divider_counter_after(old(self)@, cycles),
            final(mem)@ == divider_advance(old(self)@, old(mem)@, cycles),
    {
        self.divider_counter = self.divider_counter + cycles as u32;
        if self.divider_counter >= DIVIDER_PERIOD {
            self.divider_counter = 0;
            let divider_register = mem.read_byte_forced(DIVIDER_REGISTER).wrapping_add(1);
            mem.write_byte_forced(DIVIDER_REGISTER, divider_register);
        }
    }

    /// Bit 2 of TMC: whether the programmable counter runs.
    fn is_clock_enabled(mem: &Memory) -> (r: bool)
        requires
            mem.wf(),
        ensures
            r == (mem@.mem[TMC as int] & 4 != 0),
    {
        mem.read_byte(TMC) & 0x4 != 0
    }
}

/// With the programmable counter enabled and TIMA at 255, an advance that
/// runs the countdown out loads TIMA from TMA (not 0) and requests the timer
/// interrupt (bit 2 of IF), whatever the divider does.
pub proof fn lemma_counter_overflow(counter: u32, m: MemModel, cycles: i32)
    requires
        m.wf(),
        m.mem[TMC as int] & 4 != 0,
        m.mem[TIMA as int] == 255,
        m.timer_counter - cycles <= 0,
    ensures
        counter_advance(divider_advance(counter, m, cycles), cycles).mem[TIMA as int]
            == m.mem[TMA as int],
        counter_advance(divider_advance(counter, m, cycles), cycles).mem[0xFF0F] & 4 == 4,
{
    let r = m.mem[0xFF0F];
    assert((r | (1u8 << 2u8)) & 4 == 4) by (bit_vector);
}

/// Advancing by the divider's full period from a fresh accumulator raises
/// the divider register by exactly one and empties the accumulator.
pub proof fn lemma_divider_period(m: MemModel)
    requires
        m.wf(),
    ensures
        counter_advance(divider_advance(0, m, 255), 255).mem[DIVIDER_REGISTER as int] == (
        (m.mem[DIVIDER_REGISTER as int] + 1) % 256) as u8,
        divider_counter_after(0, 255) == 0,
{
}

/// Advances that leave the accumulator short of the period leave the
/// divider register alone.
pub proof fn lemma_divider_waits(counter: u32, m: MemModel, cycles: i32)
    requires
        m.wf(),
        cycles >= 0,
        counter + cycles < DIVIDER_PERIOD,
    ensures
        counter_advance(divider_advance(counter, m, cycles), cycles).mem[DIVIDER_REGISTER as int]
            == m.mem[DIVIDER_REGISTER as int],
        divider_counter_after(counter, cycles) == counter + cycles,
{
}

} // verus!
