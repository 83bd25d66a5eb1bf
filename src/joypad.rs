use crate::mem::{MemModel, Memory};
use crate::types::{GameInput, KeyState};
use vstd::prelude::*;

verus! {

/// The state of the eight buttons.
#[derive(Clone, Copy, Debug, PartialEq, Eq, Structural)]
pub struct Joypad {
    // buttons group
    pub a: KeyState,
    pub b: KeyState,
    pub start: KeyState,
    pub select: KeyState,
    // directions group
    pub right: KeyState,
    pub left: KeyState,
    pub up: KeyState,
    pub down: KeyState,
}

impl Joypad {
    /// The buttons latch: A, B, Select, Start in bits 0 to 3, clear when pressed.
    pub open spec fn buttons_bits(self) -> u8 {
        (self.a.spec_bit() + 2 * self.b.spec_bit() + 4 * self.select.spec_bit() + 8
            * self.start.spec_bit()) as u8
    }

    /// The directions latch: Right, Left, Up, Down in bits 0 to 3, clear when pressed.
    pub open spec fn directions_bits(self) -> u8 {
        (self.right.spec_bit() + 2 * self.left.spec_bit() + 4 * self.up.spec_bit() + 8
            * self.down.spec_bit()) as u8
    }

    /// The joypad with `input` set to `val`; an unknown input changes nothing.
    pub open spec fn with_input(self, input: GameInput, val: KeyState) -> Joypad {
        match input {
            GameInput::A => Joypad { a: val, ..self },
            GameInput::B => Joypad { b: val, ..self },
            GameInput::Start => Joypad { start: val, ..self },
            GameInput::Select => Joypad { select: val, ..self },
            GameInput::Up => Joypad { up: val, ..self },
            GameInput::Down => Joypad { down: val, ..self },
            GameInput::Left => Joypad { left: val, ..self },
            GameInput::Right => Joypad { right: val, ..self },
            GameInput::Unknown => self,
        }
    }

    /// The address space after the latches are loaded from this joypad.
    pub open spec fn latched(self, m: MemModel) -> MemModel {
        (MemModel {
            buttons: self.buttons_bits() & 0x0F,
            directions: self.directions_bits() & 0x0F,
            ..m
        }).recompute_joypad()
    }

    /// All buttons released.
    pub fn new() -> (r: Joypad)
        ensures
            r.a == KeyState::Released && r.b == KeyState::Released && r.start == KeyState::Released
                && r.select == KeyState::Released && r.right == KeyState::Released && r.left
                == KeyState::Released && r.up == KeyState::Released && r.down == KeyState::Released,
    {
        Joypad {
            a: KeyState::Released,
            b: KeyState::Released,
            start: KeyState::Released,
            select: KeyState::Released,
            right: KeyState::Released,
            left: KeyState::Released,
            up: KeyState::Released,
            down: KeyState::Released,
        }
    }

    /// Records a button change and recomputes the input register.
    pub fn log_input(&mut self, mem: &mut Memory, input: GameInput, val: KeyState)
        requires
            old(mem).wf(),
        ensures
            final(mem).wf(),
            *final(self) == old(self).with_input(input, val),
            final(mem)@ == final(self).latched(old(mem)@),
    {
        match input {
            GameInput::A => self.a = val,
            GameInput::B => self.b = val,
            GameInput::Start => self.start = val,
            GameInput::Select => self.select = val,
            GameInput::Up => self.up = val,
            GameInput::Down => self.down = val,
            GameInput::Left => self.left = val,
            GameInput::Right => self.right = val,
            GameInput::Unknown => {},
        }
        self.write_input_to_mem(mem);
    }

    /// Loads both latches from the button states.
    fn write_input_to_mem(&self, mem: &mut Memory)
        requires
            old(mem).wf(),
        ensures
            final(mem).wf(),
            final(mem)@ == self.latched(old(mem)@),
    {
        let buttons = self.a.bit() + 2 * self.b.bit() + 4 * self.select.bit() + 8
            * self.start.bit();
        let directions = self.right.bit() + 2 * self.left.bit() + 4 * self.up.bit() + 8
            * self.down.bit();
        mem.update_joypad_state(buttons, directions);
    }
}

} // verus!
