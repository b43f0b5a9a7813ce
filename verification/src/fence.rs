//! The frame fence: a monotonically increasing 64-bit counter, a
//! GPU-signaled fence object, and a waitable OS event.
//!
//! `next_value` is the value the next signal will carry; `completed_value`
//! is the greatest fence value the CPU has observed the GPU to have
//! reached.  The GPU only ever advances its side, so `completed_value` is
//! non-decreasing and always trails `next_value`.  The drain protocol
//! itself lives with the context in [`crate::device`], because a completed
//! drain also refreshes the presentation surface's current index.

use vstd::prelude::*;

use crate::error::GraphicsError;

verus! {

/// Tracked state of the fence counter pair.
#[derive(Clone, Copy, Debug, PartialEq, Eq, Structural)]
pub struct FrameFence {
    pub next_value: u64,
    pub completed_value: u64,
}

impl FrameFence {
    /// Well-formedness: the next signal value is ahead of everything ever
    /// observed complete.
    pub open spec fn wf(self) -> bool {
        &&& 1 <= self.next_value
        &&& self.completed_value < self.next_value
    }

    /// Create the fence object at value 0 and its waitable event.
    /// `created_ok` is whether both platform creation calls succeeded.
    /// The first signal will carry value 1; the context performs one
    /// drain immediately afterwards to establish a synchronized baseline.
    pub fn create(created_ok: bool) -> (r: Result<FrameFence, GraphicsError>)
        ensures
            created_ok ==> r == Ok::<FrameFence, GraphicsError>(
                FrameFence { next_value: 1, completed_value: 0 },
            ),
            !created_ok ==> r == Err::<FrameFence, GraphicsError>(
                GraphicsError::FenceCreationFailed,
            ),
            r.is_ok() ==> r.unwrap().wf(),
    {
        if created_ok {
            Ok(FrameFence { next_value: 1, completed_value: 0 })
        } else {
            Err(GraphicsError::FenceCreationFailed)
        }
    }

    /// The value the next drain will signal and wait for.
    pub fn signal_value(&self) -> (r: u64)
        ensures
            r == self.next_value,
    {
        self.next_value
    }
}

} // verus!
