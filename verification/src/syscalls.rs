//! The syscall boundary, at the interface level.
//!
//! Four privileged operations (`subscribe`, `command`, `allow`, `yield`) are
//! the only channel to the kernel.  The library does not issue them: it builds
//! [`KernelOp`] plans that the surrounding process performs, and it decodes
//! the kernel's negative-result convention and callback payloads.

use vstd::prelude::*;

use crate::result::{error_code, Error};

verus! {

/// Driver number of the console resource.
pub const CONSOLE_DRIVER: usize = 1;

/// Driver number of the LED resource.
pub const LED_DRIVER: usize = 2;

/// Driver number of the button resource.
pub const BUTTON_DRIVER: usize = 3;

/// One syscall for the surrounding process to issue, in the order given.
/// `subscribe` registers the resource's interrupt handler, `command` issues a
/// control operation, and `allow` shares the resource's fixed buffer with the
/// kernel for the length of one operation.
#[derive(Clone, Copy, PartialEq, Eq, Structural, Debug)]
pub enum KernelOp {
    Subscribe { driver: usize, subscribe_num: usize },
    Command { driver: usize, command_num: usize, arg1: usize, arg2: usize },
    Allow { driver: usize, allow_num: usize, len: usize },
}

/// Splits a raw syscall result by the negative-result convention:
/// non-negative is the success value, `-1` to `-13` is an error code.
/// Any other negative value is a protocol violation, which the caller must
/// treat as fatal before decoding.
pub fn decode_syscall_result(res: isize) -> (r: Result<usize, Error>)
    requires
        res as int >= -13,
    ensures
        res as int >= 0 ==> (r matches Ok(v) && v as int == res as int),
        (res as int) < 0 ==> (r matches Err(e) && error_code(e) == res as int),
{
    if res >= 0 {
        Ok(res as usize)
    } else {
        match Error::from_code(res) {
            Some(e) => Err(e),
            None => {
                proof {
                    assert(false);
                }
                Err(Error::FAIL)
            },
        }
    }
}

/// The four unsigned words a kernel callback delivers: three event arguments
/// and the user-supplied tag passed at `subscribe` time.  Produced by the
/// interrupt handler and consumed exactly once by the owning state machine.
#[derive(Clone, Copy, PartialEq, Eq, Structural, Debug)]
pub struct CallbackData {
    pub arg0: usize,
    pub arg1: usize,
    pub arg2: usize,
    pub userdata: usize,
}

impl CallbackData {
    pub fn new(arg0: usize, arg1: usize, arg2: usize, userdata: usize) -> (r: CallbackData)
        ensures
            r.arg0 == arg0,
            r.arg1 == arg1,
            r.arg2 == arg2,
            r.userdata == userdata,
    {
        CallbackData { arg0, arg1, arg2, userdata }
    }

    pub fn get_arg0(&self) -> (r: usize)
        ensures
            r == self.arg0,
    {
        self.arg0
    }

    pub fn get_arg1(&self) -> (r: usize)
        ensures
            r == self.arg1,
    {
        self.arg1
    }

    pub fn get_arg2(&self) -> (r: usize)
        ensures
            r == self.arg2,
    {
        self.arg2
    }

    pub fn get_userdata(&self) -> (r: usize)
        ensures
            r == self.userdata,
    {
        self.userdata
    }
}

} // verus!
