use crate::cpu::{dispatch, lemma_cycles_bounded, op_outcome, plus_base, step_effect, CPU};
use crate::graphics::{screen_advance, Screen};
use crate::joypad::Joypad;
use crate::mem::{MemModel, Memory};
use crate::registers::{wrap16, Registers};
use crate::timer::{counter_advance, divider_advance, divider_counter_after, Timer};
use crate::types::{CpuError, GameInput, KeyState, LCD_SIZE, MAXCYCLES, SCANLINE_CYCLES};
use vstd::prelude::*;

verus! {

/// The state the frame loop acts on: processor, picture generator
/// (scanline counter and framebuffer) and address space.
pub struct SystemState {
    pub cpu: CPU,
    pub counter: i32,
    pub pixels: Seq<u8>,
    pub mem: MemModel,
}

/// The state after one instruction and the cycles it took: the processor
/// executes it, the timers and the picture generator consume its cycles,
/// then interrupts are dispatched.
pub open spec fn advance_spec(s: SystemState) -> Result<(SystemState, int), CpuError> {
    let pc = s.cpu.registers.reg_pc.word;
    let (c1, m1) = step_effect(s.cpu, s.mem, false);
    match op_outcome(s.mem.read(pc), false, s.cpu.registers.with_pc(wrap16(pc + 1)), s.mem) {
        Ok(cycles) => {
            let m2 = counter_advance(divider_advance(c1.timers@, m1, cycles as i32), cycles as i32);
            let (counter, pixels, m3) = screen_advance(s.counter, s.pixels, m2, cycles as i32);
            let c2 = CPU {
                timers: Timer::from_view(divider_counter_after(c1.timers@, cycles as i32)),
                ..c1
            };
            let (c4, m4) = dispatch(c2, m3);
            Ok((SystemState { cpu: c4, counter, pixels, mem: m4 }, cycles))
        },
        Err(e) => Err(e),
    }
}

/// Instructions run by `advance_spec`, from `done` cycles on, until the
/// frame's cycles have passed (at most `fuel` of them).
pub open spec fn run_spec(s: SystemState, done: int, fuel: nat) -> Result<(SystemState, int), CpuError>
    decreases fuel,
{
    if done >= MAXCYCLES || fuel == 0 {
        Ok((s, done))
    } else {
        match advance_spec(s) {
            Ok((s2, c)) => run_spec(s2, done + c, (fuel - 1) as nat),
            Err(e) => Err(e),
        }
    }
}

/// The whole console: processor, picture generator, joypad and the address
/// space they share.
pub struct Emulator {
    screen: Screen,
    cpu: CPU,
    joypad: Joypad,
    memory: Memory,
    paused: bool,
}

impl Emulator {
    pub closed spec fn is_paused_spec(&self) -> bool {
        self.paused
    }

    /// The state the frame loop acts on.
    pub closed spec fn system(&self) -> SystemState {
        SystemState {
            cpu: self.cpu,
            counter: self.screen.counter(),
            pixels: self.screen.pixels(),
            mem: self.memory@,
        }
    }

    /// The buttons' state.
    pub closed spec fn joypad_state(&self) -> Joypad {
        self.joypad
    }

    /// The processor's state.
    pub closed spec fn cpu_state(&self) -> CPU {
        self.cpu
    }

    /// The picture generator's scanline counter.
    pub closed spec fn screen_counter(&self) -> i32 {
        self.screen.counter()
    }

    /// The framebuffer contents.
    pub closed spec fn display(&self) -> Seq<u8> {
        self.screen.pixels()
    }

    /// The address space's state.
    pub closed spec fn mem_model(&self) -> MemModel {
        self.memory@
    }

    pub closed spec fn wf(&self) -> bool {
        &&& self.memory.wf()
        &&& self.cpu.wf()
        &&& self.screen.wf()
    }

    /// A powered-on console with no cartridge, paused.
    pub fn new() -> (r: Emulator)
        ensures
            r.wf(),
            r.is_paused_spec(),
            r.mem_model() == Memory::spec_new().powered_on().powered_on(),
            r.cpu_state().registers == Registers::spec_new(),
            r.cpu_state().timers@ == 0,
            r.cpu_state().ime,
            !r.cpu_state().halted,
            r.screen_counter() == SCANLINE_CYCLES,
            r.display() == Seq::new(LCD_SIZE as nat, |i: int| 0u8),
    {
        let mut memory = Memory::new();
        memory.ram_startup();
        let cpu = CPU::new(&mut memory);
        Emulator { screen: Screen::new(), cpu, joypad: Joypad::new(), memory, paused: true }
    }

    /// Advances the whole system by one instruction: the processor executes
    /// it, then the timers and the picture generator each consume its
    /// cycles, then pending interrupts are dispatched. Returns the cycles,
    /// or the error of an instruction that cannot run (only fetched then).
    pub fn advance(&mut self) -> (r: Result<i64, CpuError>)
        requires
            old(self).wf(),
        ensures
            final(self).wf(),
            final(self).is_paused_spec() == old(self).is_paused_spec(),
            final(self).joypad_state() == old(self).joypad_state(),
            match r {
                Ok(cycles) => advance_spec(old(self).system()) == Ok::<(SystemState, int), CpuError>(
                    (final(self).system(), cycles as int),
                ),
                Err(e) => advance_spec(old(self).system()) == Err::<(SystemState, int), CpuError>(e),
            },
            ({
                let c0 = old(self).cpu_state();
                let m0 = old(self).mem_model();
                let (c1, m1) = step_effect(c0, m0, false);
                &&& plus_base(r, false) == op_outcome(
                    m0.read(c0.registers.reg_pc.word),
                    false,
                    c0.registers.with_pc(wrap16(c0.registers.reg_pc.word + 1)),
                    m0,
                )
                &&& match r {
                    Ok(cycles) => {
                        let m2 = counter_advance(
                            divider_advance(c1.timers@, m1, cycles as i32),
                            cycles as i32,
                        );
                        let (counter, pixels, m3) = screen_advance(
                            old(self).screen_counter(),
                            old(self).display(),
                            m2,
                            cycles as i32,
                        );
                        let (c4, m4) = dispatch(c1, m3);
                        &&& 4 <= cycles <= 25
                        &&& final(self).cpu_state().timers@ == divider_counter_after(
                            c1.timers@,
                            cycles as i32,
                        )
                        &&& final(self).cpu_state() == (CPU {
                            timers: final(self).cpu_state().timers,
                            ..c4
                        })
                        &&& final(self).mem_model() == m4
                        &&& final(self).screen_counter() == counter
                        &&& final(self).display() == pixels
                    },
                    Err(_) => {
                        &&& final(self).cpu_state() == c1
                        &&& final(self).mem_model() == m1
                        &&& final(self).screen_counter() == old(self).screen_counter()
                        &&& final(self).display() == old(self).display()
                    },
                }
            }),
    {
        proof {
            lemma_cycles_bounded(
                self.memory@.read(self.cpu.registers.reg_pc.word),
                false,
                self.cpu.registers.with_pc(wrap16(self.cpu.registers.reg_pc.word + 1)),
                self.memory@,
            );
        }
        let cycles = match self.cpu.execute_next_opcode(&mut self.memory, false) {
            Ok(c) => c,
            Err(e) => {
                return Err(e);
            },
        };
        self.cpu.timers.update_timers(&mut self.memory, cycles as i32);
        proof {
            Timer::lemma_from_view(self.cpu.timers, 0);
        }
        self.screen.update_screen(&mut self.memory, cycles as i32);
        self.cpu.handle_interrupts(&mut self.memory);
        Ok(cycles)
    }

    /// Runs one frame: `advance` until at least one frame's cycles have
    /// passed. Returns the cycles run (0 while paused), or the
    /// error of an instruction that cannot run.
    pub fn update(&mut self) -> (r: Result<u32, CpuError>)
        requires
            old(self).wf(),
        ensures
            final(self).wf(),
            final(self).is_paused_spec() == old(self).is_paused_spec(),
            old(self).is_paused_spec() ==> r == Ok::<u32, CpuError>(0),
            !old(self).is_paused_spec() && r is Ok ==> MAXCYCLES <= r->Ok_0 < MAXCYCLES + 25,
            !old(self).is_paused_spec() ==> match r {
                Ok(n) => run_spec(old(self).system(), 0, MAXCYCLES as nat) == Ok::<
                    (SystemState, int),
                    CpuError,
                >((final(self).system(), n as int)),
                Err(e) => run_spec(old(self).system(), 0, MAXCYCLES as nat) is Err,
            },
    {
        if self.paused {
            return Ok(0);
        }
        let mut num_cycles: u32 = 0;
        let ghost mut steps: nat = 0;
        while num_cycles < MAXCYCLES
            invariant
                self.wf(),
                !self.paused,
                !old(self).paused,
                num_cycles < MAXCYCLES + 25,
                4 * steps <= num_cycles,
                run_spec(old(self).system(), 0, MAXCYCLES as nat) == run_spec(
                    self.system(),
                    num_cycles as int,
                    (MAXCYCLES - steps) as nat,
                ),
            decreases MAXCYCLES + 25 - num_cycles,
        {
            let cycles = match self.advance() {
                Ok(c) => c,
                Err(e) => {
                    return Err(e);
                },
            };
            num_cycles = num_cycles + cycles as u32;
            proof {
                steps = steps + 1;
            }
        }
        Ok(num_cycles)
    }

    pub fn toggle_pause(&mut self)
        ensures
            final(self).is_paused_spec() == !old(self).is_paused_spec(),
            old(self).wf() ==> final(self).wf(),
    {
        self.paused = !self.paused;
    }

    pub fn is_paused(&self) -> (r: bool)
        ensures
            r == self.is_paused_spec(),
    {
        self.paused
    }

    /// Loads a cartridge image, resets the hardware registers and the
    /// processor, and starts running.
    pub fn load_rom_data(&mut self, data: &[u8])
        requires
            old(self).wf(),
        ensures
            final(self).wf(),
            !final(self).is_paused_spec(),
            final(self).mem_model() == old(self).mem_model().loaded(data@).powered_on(),
            final(self).cpu_state() == (CPU {
                registers: Registers::spec_new(),
                halted: false,
                ime: false,
                cycles: 0,
                ..old(self).cpu_state()
            }),
            final(self).display() == old(self).display(),
    {
        self.memory.load_rom_data(data);
        self.memory.ram_startup();
        self.cpu.reset();
        self.paused = false;
    }

    /// Passes a button change to the joypad.
    pub fn game_input(&mut self, input: GameInput, val: KeyState)
        requires
            old(self).wf(),
        ensures
            final(self).wf(),
            final(self).is_paused_spec() == old(self).is_paused_spec(),
            final(self).joypad_state() == old(self).joypad_state().with_input(input, val),
            final(self).mem_model() == final(self).joypad_state().latched(old(self).mem_model()),
    {
        self.joypad.log_input(&mut self.memory, input, val)
    }

    /// The RGB framebuffer, 160 by 144 pixels, 3 bytes each.
    pub fn get_display_buffer(&self) -> (r: &Vec<u8>)
        ensures
            r@ == self.display(),
    {
        self.screen.buffer()
    }

    /// The address space.
    pub fn memory(&self) -> (r: &Memory)
        ensures
            r@ == self.mem_model(),
            self.wf() ==> r.wf(),
    {
        &self.memory
    }
}

} // verus!
