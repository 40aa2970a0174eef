//! The console read resource.
//!
//! One read may be outstanding at a time.  `read` validates the request,
//! moves the state machine to `Ongoing` and hands back the syscall plan that
//! shares the read buffer, subscribes the callback and starts the read; the
//! surrounding process issues those syscalls and routes the resulting
//! callbacks into [`ConsoleRead::deliver`].  `poll` consumes the callback
//! cell and drives the transfer across possibly several partial callbacks —
//! line-buffered input may arrive a few bytes at a time.

use vstd::prelude::*;

use crate::callback::CallbackCell;
use crate::executor::WakeHandle;
use crate::result::{word_error, Error, UsizeError};
use crate::syscalls::{CallbackData, KernelOp, CONSOLE_DRIVER};
use crate::transfer::{
    state_wf, step_abort, step_callback, step_start, zero_pending, ResourceState, TransferPoll,
    CONSOLE_BUF_LEN,
};

verus! {

/// Buffer id under which the read buffer is shared with the kernel.
pub const READ_ALLOW_NUM: usize = 2;

/// Event class of the read-completion callback.
pub const READ_SUBSCRIBE_NUM: usize = 2;

/// Command that starts a read of a given length.
pub const READ_COMMAND_NUM: usize = 2;

/// Command that requests cancellation of the outstanding read.
pub const READ_ABORT_COMMAND_NUM: usize = 3;

/// The console read resource: its state machine, its callback cell, and the
/// image of the fixed buffer the kernel fills.
pub struct ConsoleRead {
    state: ResourceState,
    cell: CallbackCell,
    buf: Vec<u8>,
}

/// The syscall plan `read` hands back for a request of `len` bytes: share
/// the buffer, subscribe the callback, start the read.
pub open spec fn read_plan(len: usize) -> Seq<KernelOp> {
    seq![
        KernelOp::Allow { driver: CONSOLE_DRIVER, allow_num: READ_ALLOW_NUM, len: len },
        KernelOp::Subscribe { driver: CONSOLE_DRIVER, subscribe_num: READ_SUBSCRIBE_NUM },
        KernelOp::Command {
            driver: CONSOLE_DRIVER,
            command_num: READ_COMMAND_NUM,
            arg1: len,
            arg2: 0,
        },
    ]
}

/// The syscall that requests cancellation of the outstanding read.
pub open spec fn abort_op() -> KernelOp {
    KernelOp::Command {
        driver: CONSOLE_DRIVER,
        command_num: READ_ABORT_COMMAND_NUM,
        arg1: 0,
        arg2: 0,
    }
}

impl ConsoleRead {
    /// The transfer state machine.
    pub closed spec fn state_spec(&self) -> ResourceState {
        self.state
    }

    /// The image of the kernel-shared read buffer.
    pub closed spec fn buf_spec(&self) -> Seq<u8> {
        self.buf@
    }

    /// The undelivered callback payload, if any.
    pub closed spec fn cell_data_spec(&self) -> Option<CallbackData> {
        self.cell.data_spec()
    }

    /// The stored wake handle, if any.
    pub closed spec fn cell_waker_spec(&self) -> Option<WakeHandle> {
        self.cell.waker_spec()
    }

    /// Byte accounting within capacity, and the buffer at its fixed size.
    pub open spec fn wf(&self) -> bool {
        state_wf(self.state_spec()) && self.buf_spec().len() == CONSOLE_BUF_LEN
    }

    /// What the next resumption will report, given what the cell holds.  A
    /// zero-length request completes immediately, with zero bytes; anything
    /// else waits for a callback.
    pub open spec fn poll_outcome(&self) -> TransferPoll {
        if zero_pending(self.state_spec()) {
            TransferPoll::Done { bytes: self.state_spec()->Ongoing_completed }
        } else {
            match self.cell_data_spec() {
                None => TransferPoll::Pending,
                Some(cb) => step_callback(self.state_spec(), word_error(cb.arg0), cb.arg1).1,
            }
        }
    }

    /// A fresh resource: idle, empty cell, zeroed buffer.
    pub fn new() -> (r: ConsoleRead)
        ensures
            r.wf(),
            r.state_spec() is Idle,
            r.cell_data_spec() is None,
            r.cell_waker_spec() is None,
            r.buf_spec() == Seq::new(CONSOLE_BUF_LEN as nat, |i: int| 0u8),
    {
        ConsoleRead { state: ResourceState::Idle, cell: CallbackCell::new(), buf: vec![0u8; CONSOLE_BUF_LEN] }
    }

    /// Starts a read of `len` bytes.  Fails with `EBUSY` while an operation
    /// is `Ongoing` or `Aborting` and with `EINVAL` when `len` exceeds the
    /// buffer, leaving everything untouched.  Otherwise the previous read is
    /// cleared from the buffer, the state goes `Ongoing`, and the syscall
    /// plan to issue is returned; should the kernel refuse any of it, call
    /// [`ConsoleRead::start_failed`].
    pub fn read(&mut self, len: usize) -> (r: Result<Vec<KernelOp>, Error>)
        requires
            old(self).wf(),
        ensures
            final(self).wf(),
            final(self).cell_data_spec() == old(self).cell_data_spec(),
            final(self).cell_waker_spec() == old(self).cell_waker_spec(),
            final(self).state_spec() == step_start(old(self).state_spec(), len).0,
            r matches Err(e) ==> (
                Some(e) == step_start(old(self).state_spec(), len).1
                && *final(self) == *old(self)
            ),
            r matches Ok(ops) ==> (
                step_start(old(self).state_spec(), len).1 is None
                && ops@ == read_plan(len)
                && final(self).buf_spec() == Seq::new(CONSOLE_BUF_LEN as nat, |i: int| 0u8)
            ),
    {
        match self.state.do_start(len) {
            Err(e) => Err(e),
            Ok(()) => {
                self.buf = vec![0u8; CONSOLE_BUF_LEN];
                let mut ops: Vec<KernelOp> = Vec::new();
                ops.push(
                    KernelOp::Allow {
                        driver: CONSOLE_DRIVER,
                        allow_num: READ_ALLOW_NUM,
                        len,
                    },
                );
                ops.push(
                    KernelOp::Subscribe {
                        driver: CONSOLE_DRIVER,
                        subscribe_num: READ_SUBSCRIBE_NUM,
                    },
                );
                ops.push(
                    KernelOp::Command {
                        driver: CONSOLE_DRIVER,
                        command_num: READ_COMMAND_NUM,
                        arg1: len,
                        arg2: 0,
                    },
                );
                proof {
                    assert(ops@ =~= read_plan(len));
                }
                Ok(ops)
            },
        }
    }

    /// Rolls the bookkeeping back to `Idle` after the kernel refused part of
    /// a just-returned start plan.  Nothing has been transferred yet, so
    /// nothing is lost.
    pub fn start_failed(&mut self)
        ensures
            final(self).state_spec() is Idle,
            final(self).buf_spec() == old(self).buf_spec(),
            final(self).cell_data_spec() == old(self).cell_data_spec(),
            final(self).cell_waker_spec() == old(self).cell_waker_spec(),
    {
        self.state = ResourceState::Idle;
    }

    /// Checks whether cancellation may be requested and, if so, returns the
    /// cancel syscall to issue.  `EBUSY` when already `Aborting`, `EINVAL`
    /// when `Idle`.  Nothing changes here: once the kernel has accepted the
    /// cancel command, commit the transition with
    /// [`ConsoleRead::abort_started`].
    pub fn abort(&self) -> (r: Result<KernelOp, Error>)
        ensures
            self.state_spec() is Ongoing ==> r == Ok::<KernelOp, Error>(abort_op()),
            !(self.state_spec() is Ongoing) ==> (
                r matches Err(e) && Some(e) == step_abort(self.state_spec()).1
            ),
    {
        match self.state {
            ResourceState::Ongoing { .. } => Ok(
                KernelOp::Command {
                    driver: CONSOLE_DRIVER,
                    command_num: READ_ABORT_COMMAND_NUM,
                    arg1: 0,
                    arg2: 0,
                },
            ),
            ResourceState::Aborting { .. } => Err(Error::EBUSY),
            ResourceState::Idle => Err(Error::EINVAL),
        }
    }

    /// Commits the `Ongoing` to `Aborting` transition after the kernel has
    /// accepted the cancel command.  The next callback finalizes the
    /// operation whatever its byte count.
    pub fn abort_started(&mut self)
        requires
            old(self).state_spec() is Ongoing,
        ensures
            final(self).state_spec() == step_abort(old(self).state_spec()).0,
            final(self).buf_spec() == old(self).buf_spec(),
            final(self).cell_data_spec() == old(self).cell_data_spec(),
            final(self).cell_waker_spec() == old(self).cell_waker_spec(),
    {
        let _ = self.state.do_abort();
    }

    /// Records a kernel callback payload, as the interrupt handler does,
    /// overwriting any undelivered one.  Returns the stored wake handle so
    /// the caller notifies the executor synchronously.
    pub fn deliver(&mut self, payload: CallbackData) -> (notify: Option<WakeHandle>)
        ensures
            final(self).cell_data_spec() == Some(payload),
            final(self).cell_waker_spec() == old(self).cell_waker_spec(),
            notify == old(self).cell_waker_spec(),
            final(self).state_spec() == old(self).state_spec(),
            final(self).buf_spec() == old(self).buf_spec(),
    {
        self.cell.record(payload)
    }

    /// Models the kernel filling the shared buffer with received bytes
    /// before it reports them through a callback.
    pub fn deliver_input(&mut self, at: usize, data: &[u8])
        requires
            old(self).wf(),
            at + data@.len() <= CONSOLE_BUF_LEN,
        ensures
            final(self).wf(),
            final(self).buf_spec().len() == CONSOLE_BUF_LEN,
            forall|i: int|
                0 <= i < CONSOLE_BUF_LEN && !(at <= i < at + data@.len())
                    ==> final(self).buf_spec()[i] == old(self).buf_spec()[i],
            forall|i: int|
                0 <= i < data@.len() ==> final(self).buf_spec()[at + i] == data@[i],
            final(self).state_spec() == old(self).state_spec(),
            final(self).cell_data_spec() == old(self).cell_data_spec(),
            final(self).cell_waker_spec() == old(self).cell_waker_spec(),
    {
        let mut i: usize = 0;
        while i < data.len()
            invariant
                0 <= i <= data@.len(),
                at + data@.len() <= CONSOLE_BUF_LEN,
                self.buf@.len() == CONSOLE_BUF_LEN,
                self.state == old(self).state,
                self.cell.data_spec() == old(self).cell.data_spec(),
                self.cell.waker_spec() == old(self).cell.waker_spec(),
                forall|j: int|
                    0 <= j < CONSOLE_BUF_LEN && !(at <= j < at + i)
                        ==> self.buf@[j] == old(self).buf@[j],
                forall|j: int| 0 <= j < i ==> self.buf@[at + j] == data@[j],
            decreases data@.len() - i,
        {
            self.buf[at + i] = data[i];
            i = i + 1;
        }
    }

    /// Resumes the suspended read.  A zero-length request completes
    /// immediately with zero bytes, touching neither the cell nor its
    /// waker.  Otherwise, with no payload pending, stores the wake handle
    /// and reports `Pending`; with one, consumes it and steps the state
    /// machine, reading the payload's first word as a possible error code
    /// and its second as the byte count of this partial completion.
    pub fn poll(&mut self, handle: WakeHandle) -> (out: TransferPoll)
        requires
            old(self).wf(),
        ensures
            final(self).wf(),
            final(self).buf_spec() == old(self).buf_spec(),
            out == old(self).poll_outcome(),
            zero_pending(old(self).state_spec()) ==> (
                final(self).state_spec() is Idle
                && final(self).cell_data_spec() == old(self).cell_data_spec()
                && final(self).cell_waker_spec() == old(self).cell_waker_spec()
            ),
            !zero_pending(old(self).state_spec()) ==> (
                final(self).cell_data_spec() is None
                && (old(self).cell_data_spec() is None ==> final(self).state_spec() == old(
                    self,
                ).state_spec())
                && (old(self).cell_data_spec() matches Some(cb) ==> (
                    final(self).state_spec(),
                    out,
                ) == step_callback(old(self).state_spec(), word_error(cb.arg0), cb.arg1))
                && (out is Pending ==> final(self).cell_waker_spec() is Some)
                && (!(out is Pending) ==> final(self).cell_waker_spec() == old(
                    self,
                ).cell_waker_spec())
            ),
    {
        if let ResourceState::Ongoing { pending, completed } = self.state {
            if pending == 0 {
                self.state = ResourceState::Idle;
                return TransferPoll::Done { bytes: completed };
            }
        }
        match self.cell.take() {
            None => {
                self.cell.ensure_waker(handle);
                TransferPoll::Pending
            },
            Some(cb) => {
                let err = UsizeError::from_word(cb.get_arg0());
                let out = self.state.do_callback(err.0, cb.get_arg1());
                if let TransferPoll::Pending = out {
                    self.cell.ensure_waker(handle);
                }
                out
            },
        }
    }

    /// Copies the first `len` bytes out of the read buffer, as the caller
    /// does after a completed read.
    pub fn read_buffer(&self, len: usize) -> (r: Vec<u8>)
        requires
            self.wf(),
            len <= CONSOLE_BUF_LEN,
        ensures
            r@ == self.buf_spec().subrange(0, len as int),
    {
        let mut out: Vec<u8> = Vec::new();
        let mut i: usize = 0;
        while i < len
            invariant
                0 <= i <= len,
                len <= self.buf@.len(),
                out@ =~= self.buf@.subrange(0, i as int),
            decreases len - i,
        {
            out.push(self.buf[i]);
            i = i + 1;
        }
        proof {
            assert(out@ =~= self.buf_spec().subrange(0, len as int));
        }
        out
    }
}

} // verus!
