use crate::console::components::input_controller::flags::InputControllerFlags;
use crate::console::input::ConsoleInput;
use crate::console::types::address::Address;
use crate::console::types::byte::Byte;
use vstd::prelude::*;

pub mod flags;

verus! {

/// The memory-mapped key/touch latch: touch coordinates and a flag byte.
#[derive(Debug, Clone, Copy, PartialEq, Eq, Structural)]
pub struct InputController {
    pub touch_input_x: Byte,
    pub touch_input_y: Byte,
    pub flags: InputControllerFlags,
}

impl Default for InputController {
    fn default() -> (r: Self)
        ensures
            r.touch_input_x@ == 0,
            r.touch_input_y@ == 0,
            r.flags.bits == 0,
    {
        InputController {
            touch_input_x: Byte { val: 0 },
            touch_input_y: Byte { val: 0 },
            flags: InputControllerFlags { bits: 0 },
        }
    }
}

/// The latch mask raised by an input event.
pub open spec fn spec_input_mask(input: ConsoleInput) -> u8 {
    match input {
        ConsoleInput::Up => flags::KEY_UP,
        ConsoleInput::Down => flags::KEY_DOWN,
        ConsoleInput::Left => flags::KEY_LEFT,
        ConsoleInput::Right => flags::KEY_RIGHT,
        ConsoleInput::A => flags::KEY_A,
        ConsoleInput::B => flags::KEY_B,
        ConsoleInput::Start => flags::KEY_START,
        ConsoleInput::Touch(_, _) => flags::TOUCH,
    }
}

/// The controller state after an input event: the matching flag bit is
/// latched, and a touch additionally stores its coordinates.
pub open spec fn spec_input(ic: InputController, input: ConsoleInput) -> InputController {
    let latched = InputController {
        flags: InputControllerFlags { bits: ic.flags.bits | spec_input_mask(input) },
        ..ic
    };
    match input {
        ConsoleInput::Touch(x, y) => InputController {
            touch_input_x: Byte { val: x },
            touch_input_y: Byte { val: y },
            ..latched
        },
        _ => latched,
    }
}

/// The byte the controller yields for a rebased address: 0 = touch x,
/// 1 = touch y, 2 = flags.
pub open spec fn spec_ic_read(ic: InputController, addr: u16) -> u8 {
    if addr == 0 {
        ic.touch_input_x@
    } else if addr == 1 {
        ic.touch_input_y@
    } else if addr == 2 {
        ic.flags.bits
    } else {
        0
    }
}

/// The controller state after a write to a rebased address.
pub open spec fn spec_ic_write(ic: InputController, addr: u16, value: u8) -> InputController {
    if addr == 0 {
        InputController { touch_input_x: Byte { val: value }, ..ic }
    } else if addr == 1 {
        InputController { touch_input_y: Byte { val: value }, ..ic }
    } else if addr == 2 {
        InputController { flags: InputControllerFlags { bits: value }, ..ic }
    } else {
        ic
    }
}

impl InputController {
    /// Latches an input event.
    pub fn input(&mut self, input: ConsoleInput)
        ensures
            *final(self) == spec_input(*old(self), input),
    {
        match input {
            ConsoleInput::Up => self.flags.insert(flags::KEY_UP),
            ConsoleInput::Down => self.flags.insert(flags::KEY_DOWN),
            ConsoleInput::Left => self.flags.insert(flags::KEY_LEFT),
            ConsoleInput::Right => self.flags.insert(flags::KEY_RIGHT),
            ConsoleInput::A => self.flags.insert(flags::KEY_A),
            ConsoleInput::B => self.flags.insert(flags::KEY_B),
            ConsoleInput::Start => self.flags.insert(flags::KEY_START),
            ConsoleInput::Touch(x, y) => {
                self.flags.insert(flags::TOUCH);
                self.touch_input_x = Byte { val: x };
                self.touch_input_y = Byte { val: y };
            },
        }
    }

    /// Reads one of the three mapped bytes; the address is rebased to the
    /// controller's window.
    pub fn read(&self, addr: Address) -> (r: Byte)
        ensures
            r@ == spec_ic_read(*self, addr@),
    {
        let a = addr.word.value();
        if a == 0 {
            self.touch_input_x
        } else if a == 1 {
            self.touch_input_y
        } else if a == 2 {
            Byte { val: self.flags.bits }
        } else {
            Byte { val: 0 }
        }
    }

    /// Writes one of the three mapped bytes; the address is rebased to the
    /// controller's window.
    pub fn write(&mut self, addr: Address, value: Byte)
        ensures
            *final(self) == spec_ic_write(*old(self), addr@, value@),
    {
        let a = addr.word.value();
        if a == 0 {
            self.touch_input_x = value;
        } else if a == 1 {
            self.touch_input_y = value;
        } else if a == 2 {
            self.flags.set_bits(value.value());
        }
    }
}

} // verus!
