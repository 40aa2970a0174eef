//! The button resource: an unbounded sequence of discrete press/release
//! events rather than a byte-counted transfer.
//!
//! The kernel delivers one event per callback; `poll_next` drains at most
//! one queued event per resumption and otherwise stores a wake handle.
//! There is no end of sequence — interest is closed by disabling the
//! interrupt, not by the state machine.

use vstd::prelude::*;

use crate::callback::CallbackCell;
use crate::combinators::Poll;
use crate::executor::WakeHandle;
use crate::syscalls::{CallbackData, KernelOp, BUTTON_DRIVER};

verus! {

/// Event class of the button callback.
pub const BUTTON_SUBSCRIBE_NUM: usize = 0;

/// Command that reports how many buttons the board has.
pub const BUTTON_NUM_BUTTONS_COMMAND: usize = 0;

/// Command that enables the interrupt for one button.
pub const BUTTON_ENABLE_INTERRUPT_COMMAND: usize = 1;

/// Command that disables the interrupt for one button.
pub const BUTTON_DISABLE_INTERRUPT_COMMAND: usize = 2;

/// Command that queries one button's current state.  The driver numbers it
/// the same as the disable command; the two differ in how the result is
/// read.
pub const BUTTON_CURRENT_STATE_COMMAND: usize = 2;

/// Whether a button is pressed or released.
#[derive(Clone, Copy, PartialEq, Eq, Structural, Debug)]
pub enum ButtonState {
    Released,
    Pressed,
}

impl ButtonState {
    /// Decodes the binary state word a callback or a state-query command
    /// reports: zero is released, anything else pressed.
    pub fn from_word(word: usize) -> (r: ButtonState)
        ensures
            r == (if word == 0 {
                ButtonState::Released
            } else {
                ButtonState::Pressed
            }),
    {
        if word == 0 {
            ButtonState::Released
        } else {
            ButtonState::Pressed
        }
    }
}

/// One button event: which button, and its new state.
#[derive(Clone, Copy, PartialEq, Eq, Structural, Debug)]
pub struct ButtonEventData {
    pub num: usize,
    pub state: ButtonState,
}

impl ButtonEventData {
    pub fn new(num: usize, state: ButtonState) -> (r: ButtonEventData)
        ensures
            r.num == num,
            r.state == state,
    {
        ButtonEventData { num, state }
    }

    pub fn get_num(&self) -> (r: usize)
        ensures
            r == self.num,
    {
        self.num
    }

    pub fn get_state(&self) -> (r: ButtonState)
        ensures
            r == self.state,
    {
        self.state
    }
}

/// The event a callback payload describes: its first word is the button
/// number, its second the binary state.
pub open spec fn event_of_payload(cb: CallbackData) -> ButtonEventData {
    ButtonEventData {
        num: cb.arg0,
        state: if cb.arg1 == 0 {
            ButtonState::Released
        } else {
            ButtonState::Pressed
        },
    }
}

/// The button resource: just its callback cell.
pub struct Button {
    cell: CallbackCell,
}

impl Button {
    /// The undelivered callback payload, if any.
    pub closed spec fn cell_data_spec(&self) -> Option<CallbackData> {
        self.cell.data_spec()
    }

    /// The stored wake handle, if any.
    pub closed spec fn cell_waker_spec(&self) -> Option<WakeHandle> {
        self.cell.waker_spec()
    }

    /// What the next resumption will report, given what the cell holds.
    pub open spec fn poll_event(&self) -> Poll<ButtonEventData> {
        match self.cell_data_spec() {
            None => Poll::Pending,
            Some(cb) => Poll::Ready(event_of_payload(cb)),
        }
    }

    /// A fresh resource with an empty cell.
    pub fn new() -> (r: Button)
        ensures
            r.cell_data_spec() is None,
            r.cell_waker_spec() is None,
    {
        Button { cell: CallbackCell::new() }
    }

    /// The syscall that registers the button interrupt handler.
    pub fn initialize_op(&self) -> (r: KernelOp)
        ensures
            r == (KernelOp::Subscribe {
                driver: BUTTON_DRIVER,
                subscribe_num: BUTTON_SUBSCRIBE_NUM,
            }),
    {
        KernelOp::Subscribe { driver: BUTTON_DRIVER, subscribe_num: BUTTON_SUBSCRIBE_NUM }
    }

    /// The syscall that asks how many buttons the board has; the command's
    /// non-negative result is the count.
    pub fn num_buttons_op(&self) -> (r: KernelOp)
        ensures
            r == (KernelOp::Command {
                driver: BUTTON_DRIVER,
                command_num: BUTTON_NUM_BUTTONS_COMMAND,
                arg1: 0,
                arg2: 0,
            }),
    {
        KernelOp::Command {
            driver: BUTTON_DRIVER,
            command_num: BUTTON_NUM_BUTTONS_COMMAND,
            arg1: 0,
            arg2: 0,
        }
    }

    /// The syscall that enables the interrupt for `button_num`.
    pub fn enable_interrupt_op(&self, button_num: usize) -> (r: KernelOp)
        ensures
            r == (KernelOp::Command {
                driver: BUTTON_DRIVER,
                command_num: BUTTON_ENABLE_INTERRUPT_COMMAND,
                arg1: button_num,
                arg2: 0,
            }),
    {
        KernelOp::Command {
            driver: BUTTON_DRIVER,
            command_num: BUTTON_ENABLE_INTERRUPT_COMMAND,
            arg1: button_num,
            arg2: 0,
        }
    }

    /// The syscall that disables the interrupt for `button_num`, closing
    /// interest in the event sequence.
    pub fn disable_interrupt_op(&self, button_num: usize) -> (r: KernelOp)
        ensures
            r == (KernelOp::Command {
                driver: BUTTON_DRIVER,
                command_num: BUTTON_DISABLE_INTERRUPT_COMMAND,
                arg1: button_num,
                arg2: 0,
            }),
    {
        KernelOp::Command {
            driver: BUTTON_DRIVER,
            command_num: BUTTON_DISABLE_INTERRUPT_COMMAND,
            arg1: button_num,
            arg2: 0,
        }
    }

    /// The syscall that queries `button_num`'s current state; decode the
    /// command's non-negative result with [`ButtonState::from_word`].
    pub fn current_state_op(&self, button_num: usize) -> (r: KernelOp)
        ensures
            r == (KernelOp::Command {
                driver: BUTTON_DRIVER,
                command_num: BUTTON_CURRENT_STATE_COMMAND,
                arg1: button_num,
                arg2: 0,
            }),
    {
        KernelOp::Command {
            driver: BUTTON_DRIVER,
            command_num: BUTTON_CURRENT_STATE_COMMAND,
            arg1: button_num,
            arg2: 0,
        }
    }

    /// Records a kernel callback payload, as the interrupt handler does,
    /// overwriting any undelivered one.  Returns the stored wake handle so
    /// the caller notifies the executor synchronously.
    pub fn deliver(&mut self, payload: CallbackData) -> (notify: Option<WakeHandle>)
        ensures
            final(self).cell_data_spec() == Some(payload),
            final(self).cell_waker_spec() == old(self).cell_waker_spec(),
            notify == old(self).cell_waker_spec(),
    {
        self.cell.record(payload)
    }

    /// Drains at most one queued event per resumption.  Stores the wake
    /// handle either way, so the next event's recording notifies the
    /// executor.
    pub fn poll_next(&mut self, handle: WakeHandle) -> (out: Poll<ButtonEventData>)
        ensures
            final(self).cell_data_spec() is None,
            final(self).cell_waker_spec() is Some,
            old(self).cell_data_spec() matches Some(cb) ==> out == Poll::Ready(
                event_of_payload(cb),
            ),
            old(self).cell_data_spec() is None ==> out is Pending,
    {
        match self.cell.take() {
            Some(cb) => {
                self.cell.ensure_waker(handle);
                let num = cb.get_arg0();
                let state = ButtonState::from_word(cb.get_arg1());
                Poll::Ready(ButtonEventData::new(num, state))
            },
            None => {
                self.cell.ensure_waker(handle);
                Poll::Pending
            },
        }
    }
}

} // verus!
