//! The wake protocol and the executor's parking decision.
//!
//! A wake handle identifies the single root computation.  Waking marks the
//! root runnable; waking twice before the executor consumes the wake is
//! idempotent, with no queued count.  The executor resumes the root
//! unconditionally once after start, and after every resumption that reports
//! "not yet ready" it parks the hardware thread (yields to the kernel) only
//! if no wake arrived meanwhile.  The loop that actually resumes the root and
//! issues the yield syscall lives with the surrounding process; this module
//! holds the decision state it consults.

use vstd::prelude::*;

verus! {

/// A notification target naming the single root computation.  Constructible
/// from anywhere a callback cell needs one; all handles are interchangeable
/// because there is exactly one root task.
#[derive(Clone, Copy, PartialEq, Eq, Structural, Debug)]
pub struct WakeHandle;

impl WakeHandle {
    pub fn new() -> WakeHandle {
        WakeHandle
    }
}

/// The executor's wake flag.  `true` means the root computation should be
/// resumed before the hardware thread parks again.
pub struct Executor {
    woken: bool,
}

impl Executor {
    /// Whether a wake is pending.
    pub closed spec fn woken_spec(&self) -> bool {
        self.woken
    }

    /// A fresh executor.  The flag starts raised so the root computation is
    /// resumed unconditionally once after start.
    pub fn new() -> (r: Executor)
        ensures
            r.woken_spec(),
    {
        Executor { woken: true }
    }

    /// Marks the root computation runnable.  Idempotent: a second
    /// notification before the wake is consumed changes nothing.
    pub fn notify(&mut self, _handle: WakeHandle)
        ensures
            final(self).woken_spec(),
    {
        self.woken = true;
    }

    /// Consumes the wake flag after the root reported "not yet ready".
    /// Returns `true` when the hardware thread should park (yield to the
    /// kernel) before the next resumption, which is exactly when no wake was
    /// pending.
    pub fn should_park(&mut self) -> (park: bool)
        ensures
            park == !old(self).woken_spec(),
            !final(self).woken_spec(),
    {
        let was_woken = self.woken;
        self.woken = false;
        !was_woken
    }
}

/// What a completed root computation reports to the process exit path.
pub trait Termination {
    fn report(self) -> i32;
}

impl Termination for () {
    fn report(self) -> (r: i32) {
        0
    }
}

} // verus!
