//! The console write resource.
//!
//! One write may be outstanding at a time.  `write` validates the request,
//! copies the bytes into the image of the kernel-shared buffer, moves the
//! state machine to `Ongoing` and hands back the syscall plan; the
//! surrounding process issues it and routes callbacks into
//! [`ConsoleWrite::deliver`].  The kernel may acknowledge a write across
//! several partial callbacks; `poll` keeps the exact byte accounting.  This
//! resource has no cancel command, so it is never `Aborting`.

use vstd::prelude::*;

use crate::callback::CallbackCell;
use crate::executor::WakeHandle;
use crate::result::{word_error, Error, UsizeError};
use crate::syscalls::{CallbackData, KernelOp, CONSOLE_DRIVER};
use crate::transfer::{
    state_wf, step_callback, step_start, zero_pending, ResourceState, TransferPoll,
    CONSOLE_BUF_LEN,
};

verus! {

/// Buffer id under which the write buffer is shared with the kernel.
pub const WRITE_ALLOW_NUM: usize = 1;

/// Event class of the write-completion callback.
pub const WRITE_SUBSCRIBE_NUM: usize = 1;

/// Command that starts a write of a given length.
pub const WRITE_COMMAND_NUM: usize = 1;

/// The contents of the shared buffer after `s` was copied in: `s` first,
/// zeroes up to the fixed capacity.
pub open spec fn staged_buf(s: Seq<u8>) -> Seq<u8> {
    Seq::new(
        CONSOLE_BUF_LEN as nat,
        |i: int| if i < s.len() { s[i] } else { 0u8 },
    )
}

/// The syscall plan `write` hands back for `len` staged bytes: share the
/// buffer, subscribe the callback, start the write.
pub open spec fn write_plan(len: usize) -> Seq<KernelOp> {
    seq![
        KernelOp::Allow { driver: CONSOLE_DRIVER, allow_num: WRITE_ALLOW_NUM, len: len },
        KernelOp::Subscribe { driver: CONSOLE_DRIVER, subscribe_num: WRITE_SUBSCRIBE_NUM },
        KernelOp::Command {
            driver: CONSOLE_DRIVER,
            command_num: WRITE_COMMAND_NUM,
            arg1: len,
            arg2: 0,
        },
    ]
}

/// The console write resource: its state machine, its callback cell, and
/// the image of the fixed buffer shared with the kernel.
pub struct ConsoleWrite {
    state: ResourceState,
    cell: CallbackCell,
    buf: Vec<u8>,
}

impl ConsoleWrite {
    /// The transfer state machine.
    pub closed spec fn state_spec(&self) -> ResourceState {
        self.state
    }

    /// The image of the kernel-shared write buffer.
    pub closed spec fn buf_spec(&self) -> Seq<u8> {
        self.buf@
    }

    /// The undelivered callback payload, if any.
    pub closed spec fn cell_data_spec(&self) -> Option<CallbackData> {
        self.cell.data_spec()
    }

    /// The stored wake handle, if any.
    pub closed spec fn cell_waker_spec(&self) -> Option<WakeHandle> {
        self.cell.waker_spec()
    }

    /// Byte accounting within capacity, the buffer at its fixed size, and —
    /// since writes cannot be cancelled — never `Aborting`.
    pub open spec fn wf(&self) -> bool {
        &&& state_wf(self.state_spec())
        &&& !(self.state_spec() is Aborting)
        &&& self.buf_spec().len() == CONSOLE_BUF_LEN
    }

    /// What the next resumption will report, given what the cell holds.  A
    /// zero-length request completes immediately, with zero bytes; anything
    /// else waits for a callback.
    pub open spec fn poll_outcome(&self) -> TransferPoll {
        if zero_pending(self.state_spec()) {
            TransferPoll::Done { bytes: self.state_spec()->Ongoing_completed }
        } else {
            match self.cell_data_spec() {
                None => TransferPoll::Pending,
                Some(cb) => step_callback(self.state_spec(), word_error(cb.arg0), cb.arg0).1,
            }
        }
    }

    /// A fresh resource: idle, empty cell, zeroed buffer.
    pub fn new() -> (r: ConsoleWrite)
        ensures
            r.wf(),
            r.state_spec() is Idle,
            r.cell_data_spec() is None,
            r.cell_waker_spec() is None,
            r.buf_spec() == staged_buf(Seq::<u8>::empty()),
    {
        let r = ConsoleWrite {
            state: ResourceState::Idle,
            cell: CallbackCell::new(),
            buf: vec![0u8; CONSOLE_BUF_LEN],
        };
        proof {
            assert(r.buf@ =~= staged_buf(Seq::<u8>::empty()));
        }
        r
    }

    /// Starts a write of the bytes in `s`.  Fails with `EBUSY` while a write
    /// is `Ongoing` and with `EINVAL` when `s` exceeds the buffer, leaving
    /// everything untouched — a busy failure never corrupts the staged
    /// buffer.  Otherwise `s` is copied into the cleared buffer, the state
    /// goes `Ongoing`, and the syscall plan to issue is returned; should the
    /// kernel refuse any of it, call [`ConsoleWrite::start_failed`].
    pub fn write(&mut self, s: &[u8]) -> (r: Result<Vec<KernelOp>, Error>)
        requires
            old(self).wf(),
        ensures
            final(self).wf(),
            final(self).cell_data_spec() == old(self).cell_data_spec(),
            final(self).cell_waker_spec() == old(self).cell_waker_spec(),
            final(self).state_spec() == step_start(old(self).state_spec(), s@.len() as usize).0,
            r matches Err(e) ==> (
                Some(e) == step_start(old(self).state_spec(), s@.len() as usize).1
                && *final(self) == *old(self)
            ),
            r matches Ok(ops) ==> (
                step_start(old(self).state_spec(), s@.len() as usize).1 is None
                && ops@ == write_plan(s@.len() as usize)
                && final(self).buf_spec() == staged_buf(s@)
            ),
    {
        let len = s.len();
        match self.state.do_start(len) {
            Err(e) => Err(e),
            Ok(()) => {
                self.buf = vec![0u8; CONSOLE_BUF_LEN];
                let mut i: usize = 0;
                while i < len
                    invariant
                        0 <= i <= len,
                        len == s@.len(),
                        len <= CONSOLE_BUF_LEN,
                        self.buf@.len() == CONSOLE_BUF_LEN,
                        self.state == step_start(old(self).state_spec(), len).0,
                        self.cell.data_spec() == old(self).cell.data_spec(),
                        self.cell.waker_spec() == old(self).cell.waker_spec(),
                        forall|j: int| 0 <= j < i ==> self.buf@[j] == s@[j],
                        forall|j: int| i <= j < CONSOLE_BUF_LEN ==> self.buf@[j] == 0u8,
                    decreases len - i,
                {
                    self.buf[i] = s[i];
                    i = i + 1;
                }
                proof {
                    assert(self.buf@ =~= staged_buf(s@));
                }
                let mut ops: Vec<KernelOp> = Vec::new();
                ops.push(
                    KernelOp::Allow {
                        driver: CONSOLE_DRIVER,
                        allow_num: WRITE_ALLOW_NUM,
                        len,
                    },
                );
                ops.push(
                    KernelOp::Subscribe {
                        driver: CONSOLE_DRIVER,
                        subscribe_num: WRITE_SUBSCRIBE_NUM,
                    },
                );
                ops.push(
                    KernelOp::Command {
                        driver: CONSOLE_DRIVER,
                        command_num: WRITE_COMMAND_NUM,
                        arg1: len,
                        arg2: 0,
                    },
                );
                proof {
                    assert(ops@ =~= write_plan(len));
                }
                Ok(ops)
            },
        }
    }

    /// Rolls the bookkeeping back to `Idle` and clears the staged buffer
    /// after the kernel refused part of a just-returned write plan, so no
    /// stale data lingers in the shared region.
    pub fn start_failed(&mut self)
        requires
            old(self).wf(),
        ensures
            final(self).wf(),
            final(self).state_spec() is Idle,
            final(self).buf_spec() == staged_buf(Seq::<u8>::empty()),
            final(self).cell_data_spec() == old(self).cell_data_spec(),
            final(self).cell_waker_spec() == old(self).cell_waker_spec(),
    {
        self.state = ResourceState::Idle;
        self.buf = vec![0u8; CONSOLE_BUF_LEN];
        proof {
            assert(self.buf@ =~= staged_buf(Seq::<u8>::empty()));
        }
    }

    /// Records a kernel callback payload, as the interrupt handler does,
    /// overwriting any undelivered one.  Returns the stored wake handle so
    /// the caller notifies the executor synchronously.
    pub fn deliver(&mut self, payload: CallbackData) -> (notify: Option<WakeHandle>)
        ensures
            final(self).cell_data_spec() == Some(payload),
            final(self).cell_waker_spec() == old(self).cell_waker_spec(),
            notify == old(self).cell_waker_spec(),
            final(self).state_spec() == old(self).state_spec(),
            final(self).buf_spec() == old(self).buf_spec(),
    {
        self.cell.record(payload)
    }

    /// Resumes the suspended write.  A zero-length request completes
    /// immediately with zero bytes, touching neither the cell nor its
    /// waker.  Otherwise, with no payload pending, stores the wake handle
    /// and reports `Pending`; with one, consumes it and steps the state
    /// machine.  The write driver reports both the error code and the
    /// completed-byte delta through the payload's first word: a word
    /// recognizable as a negative code fails the write, any other counts
    /// bytes.
    pub fn poll(&mut self, handle: WakeHandle) -> (out: TransferPoll)
        requires
            old(self).wf(),
        ensures
            final(self).wf(),
            final(self).buf_spec() == old(self).buf_spec(),
            out == old(self).poll_outcome(),
            zero_pending(old(self).state_spec()) ==> (
                final(self).state_spec() is Idle
                && final(self).cell_data_spec() == old(self).cell_data_spec()
                && final(self).cell_waker_spec() == old(self).cell_waker_spec()
            ),
            !zero_pending(old(self).state_spec()) ==> (
                final(self).cell_data_spec() is None
                && (old(self).cell_data_spec() is None ==> final(self).state_spec() == old(
                    self,
                ).state_spec())
                && (old(self).cell_data_spec() matches Some(cb) ==> (
                    final(self).state_spec(),
                    out,
                ) == step_callback(old(self).state_spec(), word_error(cb.arg0), cb.arg0))
                && (out is Pending ==> final(self).cell_waker_spec() is Some)
                && (!(out is Pending) ==> final(self).cell_waker_spec() == old(
                    self,
                ).cell_waker_spec())
            ),
    {
        if let ResourceState::Ongoing { pending, completed } = self.state {
            if pending == 0 {
                self.state = ResourceState::Idle;
                return TransferPoll::Done { bytes: completed };
            }
        }
        match self.cell.take() {
            None => {
                self.cell.ensure_waker(handle);
                TransferPoll::Pending
            },
            Some(cb) => {
                let err = UsizeError::from_word(cb.get_arg0());
                let out = self.state.do_callback(err.0, cb.get_arg0());
                if let TransferPoll::Pending = out {
                    self.cell.ensure_waker(handle);
                }
                out
            },
        }
    }
}

impl ConsoleWrite {
    /// Copies the first `len` bytes of the staged buffer out, as the kernel
    /// would see them.
    pub fn staged_buffer(&self, len: usize) -> (r: Vec<u8>)
        requires
            self.wf(),
            len <= CONSOLE_BUF_LEN,
        ensures
            r@ == self.buf_spec().subrange(0, len as int),
    {
        let mut out: Vec<u8> = Vec::new();
        let mut i: usize = 0;
        while i < len
            invariant
                0 <= i <= len,
                len <= self.buf@.len(),
                out@ =~= self.buf@.subrange(0, i as int),
            decreases len - i,
        {
            out.push(self.buf[i]);
            i = i + 1;
        }
        proof {
            assert(out@ =~= self.buf_spec().subrange(0, len as int));
        }
        out
    }
}

/// Formats text into a caller-owned buffer ahead of a console write,
/// tracking how many bytes have been placed so far.
pub struct ConsoleWriteStr {
    buf: Vec<u8>,
    offset: usize,
}

impl ConsoleWriteStr {
    /// The buffer being filled.
    pub closed spec fn buf_spec(&self) -> Seq<u8> {
        self.buf@
    }

    /// Bytes placed so far.
    pub closed spec fn offset_spec(&self) -> usize {
        self.offset
    }

    /// The placed bytes never outrun the buffer.
    pub open spec fn wf(&self) -> bool {
        self.offset_spec() <= self.buf_spec().len()
    }

    /// Wraps a buffer, starting at its beginning.
    pub fn new(buf: Vec<u8>) -> (r: ConsoleWriteStr)
        ensures
            r.wf(),
            r.buf_spec() == buf@,
            r.offset_spec() == 0,
    {
        ConsoleWriteStr { buf, offset: 0 }
    }

    /// How many bytes have been placed so far.
    pub fn get_offset(&self) -> (r: usize)
        ensures
            r == self.offset_spec(),
    {
        self.offset
    }

    /// Appends `s` at the current offset.  When the remaining space is too
    /// small, fails with `ESIZE` and changes nothing rather than truncating.
    pub fn write_str(&mut self, s: &[u8]) -> (r: Result<(), Error>)
        requires
            old(self).wf(),
        ensures
            final(self).wf(),
            old(self).offset_spec() + s@.len() > old(self).buf_spec().len() ==> (
                r == Err::<(), Error>(Error::ESIZE) && *final(self) == *old(self)
            ),
            old(self).offset_spec() + s@.len() <= old(self).buf_spec().len() ==> (
                r == Ok::<(), Error>(())
                && final(self).offset_spec() == old(self).offset_spec() + s@.len()
                && final(self).buf_spec().len() == old(self).buf_spec().len()
                && (forall|j: int|
                    0 <= j < s@.len()
                        ==> final(self).buf_spec()[old(self).offset_spec() + j] == s@[j])
                && (forall|j: int|
                    0 <= j < old(self).buf_spec().len()
                        && !(old(self).offset_spec() <= j < old(self).offset_spec() + s@.len())
                        ==> final(self).buf_spec()[j] == old(self).buf_spec()[j])
            ),
    {
        let len = s.len();
        if self.buf.len() - self.offset < len {
            return Err(Error::ESIZE);
        }
        let at = self.offset;
        let cap = self.buf.len();
        let mut i: usize = 0;
        while i < len
            invariant
                0 <= i <= len,
                len == s@.len(),
                at == old(self).offset,
                cap == self.buf@.len(),
                at + len <= cap,
                self.offset == old(self).offset,
                self.buf@.len() == old(self).buf@.len(),
                forall|j: int| 0 <= j < i ==> self.buf@[at + j] == s@[j],
                forall|j: int|
                    0 <= j < self.buf@.len() && !(at <= j < at + i)
                        ==> self.buf@[j] == old(self).buf@[j],
            decreases len - i,
        {
            self.buf[at + i] = s[i];
            i = i + 1;
        }
        self.offset = at + len;
        Ok(())
    }

    /// Hands the filled buffer back, consuming the formatter.
    pub fn into_buffer(self) -> (r: Vec<u8>)
        ensures
            r@ == self.buf_spec(),
    {
        self.buf
    }
}

} // verus!
