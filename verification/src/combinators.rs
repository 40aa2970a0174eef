//! Combinators over suspended computations: first-to-complete (`race`) and
//! all-complete (`join`), without allocation.
//!
//! A suspended computation is modelled as what one resumption reports: a
//! [`Poll`].  `race` resumes its first constituent first and returns its
//! outcome as soon as it completes, leaving the second untouched — the
//! tie-break is by declaration order, never by iteration order.  `join`
//! buffers whichever result arrives first and produces both together only
//! once each constituent has reported completion at least once.

use vstd::prelude::*;

use crate::button::{Button, ButtonEventData};
use crate::console_read::ConsoleRead;
use crate::executor::WakeHandle;
use crate::transfer::TransferPoll;

verus! {

/// What one resumption of a suspended computation reports.
#[derive(PartialEq, Eq, Debug)]
pub enum Poll<T> {
    /// Not yet ready; resume again after a wake.
    Pending,
    /// Completed with this outcome.
    Ready(T),
}

/// Which constituent of a race completed, with its outcome.
#[derive(PartialEq, Eq, Debug)]
pub enum RaceWinner<A, B> {
    /// The first constituent completed (it also wins ties).
    First(A),
    /// The second constituent completed while the first was still pending.
    Second(B),
}

/// Arbitrates one resumption of a race.  The first constituent's report
/// wins whenever it is ready; the second is considered only while the first
/// is pending.
pub fn race_step<A, B>(a: Poll<A>, b: Poll<B>) -> (r: Poll<RaceWinner<A, B>>)
    ensures
        a matches Poll::Ready(x) ==> r == Poll::Ready(RaceWinner::<A, B>::First(x)),
        a is Pending ==> (b matches Poll::Ready(y) ==> r == Poll::Ready(
            RaceWinner::<A, B>::Second(y),
        )),
        a is Pending && b is Pending ==> r is Pending,
{
    match a {
        Poll::Ready(x) => Poll::Ready(RaceWinner::First(x)),
        Poll::Pending => match b {
            Poll::Ready(y) => Poll::Ready(RaceWinner::Second(y)),
            Poll::Pending => Poll::Pending,
        },
    }
}

/// The buffered pair a join carries between resumptions.
pub struct Join<A, B> {
    first: Option<A>,
    second: Option<B>,
}

/// The effective result a join side holds after one resumption: what was
/// already buffered, else what just arrived.
pub open spec fn join_side<T>(buffered: Option<T>, input: Poll<T>) -> Option<T> {
    match buffered {
        Some(x) => Some(x),
        None => match input {
            Poll::Ready(x) => Some(x),
            Poll::Pending => None,
        },
    }
}

/// The buffers a join carries after one resumption: both sides emptied when
/// it produced its pair, else whatever has arrived so far.
pub open spec fn join_state_after<A, B>(
    st: (Option<A>, Option<B>),
    a: Poll<A>,
    b: Poll<B>,
) -> (Option<A>, Option<B>) {
    let fst = join_side(st.0, a);
    let snd = join_side(st.1, b);
    if fst is Some && snd is Some {
        (None, None)
    } else {
        (fst, snd)
    }
}

/// What one resumption of a join reports: the pair, once both sides have
/// completed at least once, else nothing yet.
pub open spec fn join_output<A, B>(st: (Option<A>, Option<B>), a: Poll<A>, b: Poll<B>) -> Poll<
    (A, B),
> {
    let fst = join_side(st.0, a);
    let snd = join_side(st.1, b);
    match (fst, snd) {
        (Some(x), Some(y)) => Poll::Ready((x, y)),
        _ => Poll::Pending,
    }
}

impl<A, B> Join<A, B> {
    /// The buffered results.
    pub closed spec fn buffers(&self) -> (Option<A>, Option<B>) {
        (self.first, self.second)
    }

    /// A fresh join: nothing buffered, nothing reported yet.
    pub fn new() -> (r: Join<A, B>)
        ensures
            r.buffers() == (None::<A>, None::<B>),
    {
        Join { first: None, second: None }
    }

    /// Feeds one resumption's reports from both constituents.  A report that
    /// arrives while the other side is still pending is buffered; once both
    /// sides have completed, the pair is produced and the buffers empty, with
    /// no residual suspension.  A side that already completed is expected not
    /// to be resumed again: a fresh report for it is ignored in favour of the
    /// buffered one.
    pub fn step(&mut self, a: Poll<A>, b: Poll<B>) -> (r: Poll<(A, B)>)
        ensures
            final(self).buffers() == join_state_after(old(self).buffers(), a, b),
            r == join_output(old(self).buffers(), a, b),
    {
        if self.first.is_none() {
            if let Poll::Ready(x) = a {
                self.first = Some(x);
            }
        }
        if self.second.is_none() {
            if let Poll::Ready(y) = b {
                self.second = Some(y);
            }
        }
        if self.first.is_some() && self.second.is_some() {
            let x = self.first.take().unwrap();
            let y = self.second.take().unwrap();
            Poll::Ready((x, y))
        } else {
            Poll::Pending
        }
    }

    /// Whether the first side's result is already buffered.
    pub fn first_is_buffered(&self) -> (r: bool)
        ensures
            r == (self.buffers().0 is Some),
    {
        self.first.is_some()
    }

    /// Whether the second side's result is already buffered.
    pub fn second_is_buffered(&self) -> (r: bool)
        ensures
            r == (self.buffers().1 is Some),
    {
        self.second.is_some()
    }
}

/// The buffers a fresh join carries after feeding a whole sequence of
/// resumption reports, in order.
pub open spec fn join_run<A, B>(inputs: Seq<(Poll<A>, Poll<B>)>) -> (Option<A>, Option<B>)
    decreases inputs.len(),
{
    if inputs.len() == 0 {
        (None, None)
    } else {
        let st = join_run(inputs.drop_last());
        join_state_after(st, inputs.last().0, inputs.last().1)
    }
}

/// A buffered first-side result can only come from a first-side completion
/// somewhere in the run.
proof fn lemma_join_first_buffer_source<A, B>(inputs: Seq<(Poll<A>, Poll<B>)>)
    requires
        join_run(inputs).0 is Some,
    ensures
        exists|i: int| 0 <= i < inputs.len() && #[trigger] inputs[i].0 is Ready,
    decreases inputs.len(),
{
    let st = join_run(inputs.drop_last());
    if inputs.last().0 is Ready {
        assert(inputs[inputs.len() - 1].0 is Ready);
    } else {
        lemma_join_first_buffer_source(inputs.drop_last());
        let i = choose|i: int|
            0 <= i < inputs.drop_last().len() && #[trigger] inputs.drop_last()[i].0 is Ready;
        assert(inputs[i].0 is Ready);
    }
}

/// A buffered second-side result can only come from a second-side completion
/// somewhere in the run.
proof fn lemma_join_second_buffer_source<A, B>(inputs: Seq<(Poll<A>, Poll<B>)>)
    requires
        join_run(inputs).1 is Some,
    ensures
        exists|j: int| 0 <= j < inputs.len() && #[trigger] inputs[j].1 is Ready,
    decreases inputs.len(),
{
    let st = join_run(inputs.drop_last());
    if inputs.last().1 is Ready {
        assert(inputs[inputs.len() - 1].1 is Ready);
    } else {
        lemma_join_second_buffer_source(inputs.drop_last());
        let j = choose|j: int|
            0 <= j < inputs.drop_last().len() && #[trigger] inputs.drop_last()[j].1 is Ready;
        assert(inputs[j].1 is Ready);
    }
}

/// A join produces its pair only after both constituents have independently
/// reported completion at least once, in either arrival order: if the
/// resumption at position `k` of a run from a fresh join produces the pair,
/// then each side reported `Ready` at some position up to `k`.
pub proof fn lemma_join_needs_both_completions<A, B>(inputs: Seq<(Poll<A>, Poll<B>)>, k: int)
    requires
        0 <= k < inputs.len(),
        join_output(join_run(inputs.take(k)), inputs[k].0, inputs[k].1) is Ready,
    ensures
        exists|i: int| 0 <= i <= k && #[trigger] inputs[i].0 is Ready,
        exists|j: int| 0 <= j <= k && #[trigger] inputs[j].1 is Ready,
{
    let st = join_run(inputs.take(k));
    if inputs[k].0 is Ready {
        assert(inputs[k].0 is Ready);
    } else {
        assert(st.0 is Some);
        lemma_join_first_buffer_source(inputs.take(k));
        let i = choose|i: int|
            0 <= i < inputs.take(k).len() && #[trigger] inputs.take(k)[i].0 is Ready;
        assert(inputs[i].0 is Ready);
    }
    if inputs[k].1 is Ready {
        assert(inputs[k].1 is Ready);
    } else {
        assert(st.1 is Some);
        lemma_join_second_buffer_source(inputs.take(k));
        let j = choose|j: int|
            0 <= j < inputs.take(k).len() && #[trigger] inputs.take(k)[j].1 is Ready;
        assert(inputs[j].1 is Ready);
    }
}

/// Races the console read against the button stream, the read first.  When
/// the read's resumption completes, its outcome wins and the button is not
/// touched at all: a button event that arrived in the same cycle stays
/// queued in its cell, resumable with nothing lost.  Only while the read is
/// pending is the button resumed.
pub fn race_read_button(r: &mut ConsoleRead, b: &mut Button, handle: WakeHandle) -> (out: Poll<
    RaceWinner<TransferPoll, ButtonEventData>,
>)
    requires
        old(r).wf(),
    ensures
        final(r).wf(),
        !(old(r).poll_outcome() is Pending) ==> (
            out == Poll::Ready(RaceWinner::<TransferPoll, ButtonEventData>::First(
                old(r).poll_outcome(),
            ))
            && *final(b) == *old(b)
        ),
        old(r).poll_outcome() is Pending ==> (old(b).poll_event() matches Poll::Ready(ev)
            ==> out == Poll::Ready(RaceWinner::<TransferPoll, ButtonEventData>::Second(ev))),
        old(r).poll_outcome() is Pending && old(b).poll_event() is Pending ==> out is Pending,
{
    let first = r.poll(handle);
    match first {
        TransferPoll::Pending => {
            match b.poll_next(handle) {
                Poll::Ready(ev) => Poll::Ready(RaceWinner::Second(ev)),
                Poll::Pending => Poll::Pending,
            }
        },
        _ => Poll::Ready(RaceWinner::First(first)),
    }
}

/// Joins the console read with the button stream: resumes each side that
/// has not yet completed, buffers whichever result arrives first, and
/// produces both together once each has reported completion at least once.
pub fn join_read_button(
    j: &mut Join<TransferPoll, ButtonEventData>,
    r: &mut ConsoleRead,
    b: &mut Button,
    handle: WakeHandle,
) -> (out: Poll<(TransferPoll, ButtonEventData)>)
    requires
        old(r).wf(),
    ensures
        final(r).wf(),
        ({
            let a_in: Poll<TransferPoll> = if old(j).buffers().0 is Some {
                Poll::Pending
            } else {
                match old(r).poll_outcome() {
                    TransferPoll::Pending => Poll::Pending,
                    o => Poll::Ready(o),
                }
            };
            let b_in: Poll<ButtonEventData> = if old(j).buffers().1 is Some {
                Poll::Pending
            } else {
                old(b).poll_event()
            };
            final(j).buffers() == join_state_after(old(j).buffers(), a_in, b_in) && out
                == join_output(old(j).buffers(), a_in, b_in)
        }),
        old(j).buffers().0 is Some ==> *final(r) == *old(r),
        old(j).buffers().1 is Some ==> *final(b) == *old(b),
{
    let a_in: Poll<TransferPoll> = if j.first_is_buffered() {
        Poll::Pending
    } else {
        match r.poll(handle) {
            TransferPoll::Pending => Poll::Pending,
            o => Poll::Ready(o),
        }
    };
    let b_in: Poll<ButtonEventData> = if j.second_is_buffered() {
        Poll::Pending
    } else {
        b.poll_next(handle)
    };
    j.step(a_in, b_in)
}

} // verus!
