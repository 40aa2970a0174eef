//! The byte-counted resource state machine shared by the console read and
//! write paths.
//!
//! A resource is `Idle` when no operation is outstanding, `Ongoing` while an
//! operation is in flight (`pending` bytes still expected, `completed` bytes
//! accounted so far), and `Aborting` after a cancellation was requested, in
//! which case the next callback finalizes the operation regardless of byte
//! count.  The transitions are pure functions here; the console modules drive
//! them from their callback cells.

use vstd::prelude::*;

use crate::result::Error;

verus! {

/// Bytes a console buffer can hold; requests beyond it are rejected.
pub const CONSOLE_BUF_LEN: usize = 64;

/// Whether an operation is outstanding on a resource, with its byte
/// accounting.
#[derive(Clone, Copy, PartialEq, Eq, Structural, Debug)]
pub enum ResourceState {
    /// No outstanding operation.
    Idle,
    /// An operation is in flight: `pending` bytes still expected, `completed`
    /// bytes accounted so far.
    Ongoing { pending: usize, completed: usize },
    /// A cancellation was requested; the next callback finalizes the
    /// operation with whatever byte count has accumulated.
    Aborting { completed: usize },
}

/// What one resumption of a suspended transfer reports.
#[derive(Clone, Copy, PartialEq, Eq, Structural, Debug)]
pub enum TransferPoll {
    /// Not yet ready: a wake handle was stored and the operation continues.
    Pending,
    /// The operation finished; `bytes` were accounted in total.
    Done { bytes: usize },
    /// The kernel reported an error through the callback.
    Failed { error: Error },
    /// A callback arrived that the protocol rules out (consumed while `Idle`,
    /// or reporting more bytes than remain pending).  State is inconsistent
    /// and the caller should abort the process.
    Violation,
}

/// Byte accounting stays within the fixed buffer capacity while an operation
/// is in flight.
pub open spec fn state_wf(s: ResourceState) -> bool {
    match s {
        ResourceState::Idle => true,
        ResourceState::Ongoing { pending, completed } => pending + completed
            <= CONSOLE_BUF_LEN,
        ResourceState::Aborting { completed } => completed <= CONSOLE_BUF_LEN,
    }
}

/// An operation with nothing left pending: only a zero-length request
/// starts this way, and it completes at its first resumption without
/// waiting for a callback.
pub open spec fn zero_pending(s: ResourceState) -> bool {
    s matches ResourceState::Ongoing { pending: 0usize, .. }
}

/// Issuing a new operation: `Idle` becomes `Ongoing` with the whole request
/// pending; a busy resource or an oversized request is rejected unchanged.
pub open spec fn step_start(s: ResourceState, len: usize) -> (ResourceState, Option<Error>) {
    if !(s is Idle) {
        (s, Some(Error::EBUSY))
    } else if len > CONSOLE_BUF_LEN {
        (s, Some(Error::EINVAL))
    } else {
        (ResourceState::Ongoing { pending: len, completed: 0 }, None)
    }
}

/// Requesting cancellation: `Ongoing` becomes `Aborting`, keeping the bytes
/// accounted so far; aborting twice is `EBUSY`, aborting an idle resource is
/// `EINVAL`.
pub open spec fn step_abort(s: ResourceState) -> (ResourceState, Option<Error>) {
    match s {
        ResourceState::Ongoing { pending: _, completed } => (
            ResourceState::Aborting { completed },
            None,
        ),
        ResourceState::Aborting { .. } => (s, Some(Error::EBUSY)),
        ResourceState::Idle => (s, Some(Error::EINVAL)),
    }
}

/// Consuming one kernel callback.  `err` is the error the payload carried, if
/// any; `count` is the byte count it reported.  On an error the operation
/// fails and the resource returns to `Idle`.  On success while `Ongoing` the
/// count moves from `pending` to `completed`, finishing the operation when
/// nothing remains pending; a count above `pending` is a protocol violation
/// and leaves the state untouched.  A zero count while bytes remain pending
/// changes no accounting and reports `Pending`: a kernel that keeps sending
/// zero-length partial completions makes no progress, which the caller can
/// bound with its own timeout.  While `Aborting` any successful callback
/// finalizes to `Idle`, reporting the accumulated count (saturated should the
/// kernel overstate it).  A successful callback while `Idle` is a protocol
/// violation.
pub open spec fn step_callback(s: ResourceState, err: Option<Error>, count: usize) -> (
    ResourceState,
    TransferPoll,
) {
    match err {
        Some(e) => (ResourceState::Idle, TransferPoll::Failed { error: e }),
        None => match s {
            ResourceState::Ongoing { pending, completed } => if count > pending {
                (s, TransferPoll::Violation)
            } else if pending == count {
                (
                    ResourceState::Idle,
                    TransferPoll::Done { bytes: (completed + count) as usize },
                )
            } else {
                (
                    ResourceState::Ongoing {
                        pending: (pending - count) as usize,
                        completed: (completed + count) as usize,
                    },
                    TransferPoll::Pending,
                )
            },
            ResourceState::Aborting { completed } => if completed + count <= usize::MAX {
                (ResourceState::Idle, TransferPoll::Done { bytes: (completed + count) as usize })
            } else {
                (ResourceState::Idle, TransferPoll::Done { bytes: usize::MAX })
            },
            ResourceState::Idle => (s, TransferPoll::Violation),
        },
    }
}

/// Starting an operation while one is already `Ongoing` or `Aborting` fails
/// with `EBUSY` and never silently overwrites the in-flight state.
pub proof fn lemma_start_while_busy_fails(s: ResourceState, len: usize)
    requires
        !(s is Idle),
    ensures
        step_start(s, len) == (s, Some(Error::EBUSY)),
{
}

/// Requesting an abort and then consuming exactly one more callback always
/// returns the resource to `Idle`, regardless of how many bytes had been
/// transferred and of what the final callback carries.
pub proof fn lemma_abort_then_callback_idle(
    s: ResourceState,
    err: Option<Error>,
    count: usize,
)
    requires
        s is Ongoing,
    ensures
        step_abort(s).1 is None,
        step_callback(step_abort(s).0, err, count).0 is Idle,
{
}

/// Feeds successful callbacks to the machine in order, stopping at the first
/// resumption that does not report `Pending`.  Returns the state reached and
/// that final report (`Pending` if the sequence ran out first).
pub open spec fn drive(s: ResourceState, counts: Seq<usize>) -> (ResourceState, TransferPoll)
    decreases counts.len(),
{
    if counts.len() == 0 {
        (s, TransferPoll::Pending)
    } else {
        let (s1, out) = step_callback(s, None, counts[0]);
        if out is Pending {
            drive(s1, counts.subrange(1, counts.len() as int))
        } else {
            (s1, out)
        }
    }
}

/// Exact byte accounting: however the kernel splits an operation across
/// partial callbacks, if the machine reports completion then the total it
/// reports equals the bytes still pending plus the bytes already accounted
/// when the run began — for a fresh operation, exactly the requested length —
/// and the resource ends `Idle`.  Since `completed` accumulates precisely the
/// counts the callbacks delivered, the sum accepted across all callbacks
/// until completion equals the requested length.
pub proof fn lemma_completion_accounts_all_bytes(
    pending: usize,
    completed: usize,
    counts: Seq<usize>,
)
    requires
        pending + completed <= CONSOLE_BUF_LEN,
        drive(ResourceState::Ongoing { pending, completed }, counts).1 is Done,
    ensures
        drive(ResourceState::Ongoing { pending, completed }, counts).1 matches
            TransferPoll::Done { bytes } && bytes == pending + completed,
        drive(ResourceState::Ongoing { pending, completed }, counts).0 is Idle,
    decreases counts.len(),
{
    let s = ResourceState::Ongoing { pending, completed };
    if counts.len() == 0 {
    } else {
        let (s1, out) = step_callback(s, None, counts[0]);
        if out is Pending {
            lemma_completion_accounts_all_bytes(
                (pending - counts[0]) as usize,
                (completed + counts[0]) as usize,
                counts.subrange(1, counts.len() as int),
            );
        }
    }
}

/// The total of a sequence of byte counts.
pub open spec fn count_total(counts: Seq<usize>) -> int
    decreases counts.len(),
{
    if counts.len() == 0 {
        0
    } else {
        counts[0] + count_total(counts.subrange(1, counts.len() as int))
    }
}

/// How many callbacks the machine consumed before it left `Ongoing`.
pub open spec fn drive_used(s: ResourceState, counts: Seq<usize>) -> int
    decreases counts.len(),
{
    if counts.len() == 0 {
        0
    } else {
        let (s1, out) = step_callback(s, None, counts[0]);
        if out is Pending {
            1 + drive_used(s1, counts.subrange(1, counts.len() as int))
        } else {
            1
        }
    }
}

/// The sum of the byte counts accepted across all callbacks until
/// completion equals the bytes that were pending when the run began — for a
/// fresh operation, exactly the requested length.
pub proof fn lemma_completion_sums_callbacks(
    pending: usize,
    completed: usize,
    counts: Seq<usize>,
)
    requires
        pending + completed <= CONSOLE_BUF_LEN,
        drive(ResourceState::Ongoing { pending, completed }, counts).1 is Done,
    ensures
        1 <= drive_used(ResourceState::Ongoing { pending, completed }, counts) <= counts.len(),
        count_total(
            counts.take(drive_used(ResourceState::Ongoing { pending, completed }, counts)),
        ) == pending,
    decreases counts.len(),
{
    let s = ResourceState::Ongoing { pending, completed };
    let rest = counts.subrange(1, counts.len() as int);
    let (s1, out) = step_callback(s, None, counts[0]);
    if out is Pending {
        lemma_completion_sums_callbacks(
            (pending - counts[0]) as usize,
            (completed + counts[0]) as usize,
            rest,
        );
        let used1 = drive_used(s1, rest);
        let used = drive_used(s, counts);
        assert(used == 1 + used1);
        assert(counts.take(used)[0] == counts[0]);
        assert(counts.take(used).subrange(1, used) =~= rest.take(used1));
        assert(count_total(counts.take(used)) == counts[0] + count_total(rest.take(used1)));
    } else {
        assert(counts.take(1).len() == 1);
        assert(counts.take(1)[0] == counts[0]);
        assert(counts.take(1).subrange(1, 1) =~= Seq::<usize>::empty());
        assert(count_total(counts.take(1).subrange(1, 1)) == 0);
    }
}

/// The resource returns to `Idle` exactly once per operation: once it is
/// `Idle`, no further successful callback can report completion — it is a
/// protocol violation instead.
pub proof fn lemma_idle_never_completes_again(count: usize)
    ensures
        step_callback(ResourceState::Idle, None, count) == (
            ResourceState::Idle,
            TransferPoll::Violation,
        ),
{
}

/// Exec mirror of the state machine, used by the console resources.
impl ResourceState {
    /// Exec transition for issuing a new operation.
    pub fn do_start(&mut self, len: usize) -> (r: Result<(), Error>)
        ensures
            (*final(self), match r {
                Ok(()) => None,
                Err(e) => Some(e),
            }) == step_start(*old(self), len),
    {
        match *self {
            ResourceState::Idle => {
                if len > CONSOLE_BUF_LEN {
                    Err(Error::EINVAL)
                } else {
                    *self = ResourceState::Ongoing { pending: len, completed: 0 };
                    Ok(())
                }
            },
            _ => Err(Error::EBUSY),
        }
    }

    /// Exec transition for requesting cancellation.
    pub fn do_abort(&mut self) -> (r: Result<(), Error>)
        ensures
            (*final(self), match r {
                Ok(()) => None,
                Err(e) => Some(e),
            }) == step_abort(*old(self)),
    {
        match *self {
            ResourceState::Ongoing { pending: _, completed } => {
                *self = ResourceState::Aborting { completed };
                Ok(())
            },
            ResourceState::Aborting { .. } => Err(Error::EBUSY),
            ResourceState::Idle => Err(Error::EINVAL),
        }
    }

    /// Exec transition for consuming one kernel callback.
    pub fn do_callback(&mut self, err: Option<Error>, count: usize) -> (out: TransferPoll)
        requires
            state_wf(*old(self)),
        ensures
            (*final(self), out) == step_callback(*old(self), err, count),
    {
        match err {
            Some(e) => {
                *self = ResourceState::Idle;
                TransferPoll::Failed { error: e }
            },
            None => match *self {
                ResourceState::Ongoing { pending, completed } => {
                    if count > pending {
                        TransferPoll::Violation
                    } else if pending == count {
                        let bytes = completed + count;
                        *self = ResourceState::Idle;
                        TransferPoll::Done { bytes }
                    } else {
                        *self = ResourceState::Ongoing {
                            pending: pending - count,
                            completed: completed + count,
                        };
                        TransferPoll::Pending
                    }
                },
                ResourceState::Aborting { completed } => {
                    *self = ResourceState::Idle;
                    if completed <= usize::MAX - count {
                        TransferPoll::Done { bytes: completed + count }
                    } else {
                        TransferPoll::Done { bytes: usize::MAX }
                    }
                },
                ResourceState::Idle => TransferPoll::Violation,
            },
        }
    }
}

} // verus!
