//! The LED resource: a trivial synchronous driver.  Each operation is a
//! single command syscall; this module only builds the commands.

use vstd::prelude::*;

use crate::syscalls::{KernelOp, LED_DRIVER};

verus! {

/// Command that reports how many LEDs the board has.
pub const LED_NUM_LEDS_COMMAND: usize = 0;

/// Command that turns one LED on.
pub const LED_ON_COMMAND: usize = 1;

/// Command that turns one LED off.
pub const LED_OFF_COMMAND: usize = 2;

/// Command that toggles one LED.
pub const LED_TOGGLE_COMMAND: usize = 3;

/// The LED resource.  It keeps no state: every operation is fire-and-forget.
pub struct Led;

impl Led {
    pub fn new() -> Led {
        Led
    }

    /// The syscall that asks how many LEDs the board has; the command's
    /// non-negative result is the count.
    pub fn num_leds_op(&self) -> (r: KernelOp)
        ensures
            r == (KernelOp::Command {
                driver: LED_DRIVER,
                command_num: LED_NUM_LEDS_COMMAND,
                arg1: 0,
                arg2: 0,
            }),
    {
        KernelOp::Command { driver: LED_DRIVER, command_num: LED_NUM_LEDS_COMMAND, arg1: 0, arg2: 0 }
    }

    /// The syscall that turns `led_num` on.
    pub fn on_op(&self, led_num: usize) -> (r: KernelOp)
        ensures
            r == (KernelOp::Command {
                driver: LED_DRIVER,
                command_num: LED_ON_COMMAND,
                arg1: led_num,
                arg2: 0,
            }),
    {
        KernelOp::Command { driver: LED_DRIVER, command_num: LED_ON_COMMAND, arg1: led_num, arg2: 0 }
    }

    /// The syscall that turns `led_num` off.
    pub fn off_op(&self, led_num: usize) -> (r: KernelOp)
        ensures
            r == (KernelOp::Command {
                driver: LED_DRIVER,
                command_num: LED_OFF_COMMAND,
                arg1: led_num,
                arg2: 0,
            }),
    {
        KernelOp::Command { driver: LED_DRIVER, command_num: LED_OFF_COMMAND, arg1: led_num, arg2: 0 }
    }

    /// The syscall that toggles `led_num`.
    pub fn toggle_op(&self, led_num: usize) -> (r: KernelOp)
        ensures
            r == (KernelOp::Command {
                driver: LED_DRIVER,
                command_num: LED_TOGGLE_COMMAND,
                arg1: led_num,
                arg2: 0,
            }),
    {
        KernelOp::Command {
            driver: LED_DRIVER,
            command_num: LED_TOGGLE_COMMAND,
            arg1: led_num,
            arg2: 0,
        }
    }
}

} // verus!
