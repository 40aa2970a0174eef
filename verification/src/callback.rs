//! Per-resource callback cells.
//!
//! Each hardware resource owns one cell.  The interrupt handler records the
//! most recent undelivered payload into it; the resource's state machine
//! consumes the payload when it is next resumed.  At most one payload is kept,
//! since the protocol guarantees at most one operation outstanding per
//! resource.  The cell also holds the single stored wake handle: recording a
//! payload hands that handle back so the executor can be notified.

use vstd::prelude::*;

use crate::executor::WakeHandle;
use crate::syscalls::CallbackData;

verus! {

/// Holds the most recent undelivered kernel callback payload for one
/// resource, together with the stored wake handle, if any.
pub struct CallbackCell {
    data: Option<CallbackData>,
    waker: Option<WakeHandle>,
}

impl CallbackCell {
    /// The undelivered payload, if one is pending.
    pub closed spec fn data_spec(&self) -> Option<CallbackData> {
        self.data
    }

    /// The stored wake handle, if one is stored.
    pub closed spec fn waker_spec(&self) -> Option<WakeHandle> {
        self.waker
    }

    /// An empty cell: no payload pending, no waiter stored.
    pub fn new() -> (r: CallbackCell)
        ensures
            r.data_spec() is None,
            r.waker_spec() is None,
    {
        CallbackCell { data: None, waker: None }
    }

    /// Records a freshly delivered payload, overwriting any undelivered one.
    /// Returns the stored wake handle so the caller can notify the executor:
    /// the wake fires synchronously with the recording, which guarantees a
    /// wake always precedes the condition it signals.
    pub fn record(&mut self, payload: CallbackData) -> (notify: Option<WakeHandle>)
        ensures
            final(self).data_spec() == Some(payload),
            final(self).waker_spec() == old(self).waker_spec(),
            notify == old(self).waker_spec(),
    {
        self.data = Some(payload);
        self.waker
    }

    /// Consumes and clears the pending payload; `None` if none is pending.
    pub fn take(&mut self) -> (r: Option<CallbackData>)
        ensures
            r == old(self).data_spec(),
            final(self).data_spec() is None,
            final(self).waker_spec() == old(self).waker_spec(),
    {
        self.data.take()
    }

    /// Stores a wake handle if none is stored; a second store while one is
    /// pending is a no-op, matching the single-root-task model.
    pub fn ensure_waker(&mut self, handle: WakeHandle)
        ensures
            final(self).data_spec() == old(self).data_spec(),
            old(self).waker_spec() is None ==> final(self).waker_spec() == Some(handle),
            old(self).waker_spec() is Some ==> final(self).waker_spec() == old(
                self,
            ).waker_spec(),
    {
        if self.waker.is_none() {
            self.waker = Some(handle);
        }
    }
}

} // verus!
