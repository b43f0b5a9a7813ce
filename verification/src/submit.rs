//! The command submission unit: one direct queue, one allocator, one list.
//!
//! Recorded work is submitted as a single batch per frame.  The one
//! invariant that matters is the allocator's: it must never be reset while
//! a command list built from it may still be executing on the GPU.  The
//! model tracks that danger in [`CommandSubmission::work_in_flight`], which
//! a submission raises and only a completed fence drain clears, and
//! [`CommandSubmission::reset_and_begin`] demands it be clear.

use vstd::prelude::*;

use crate::error::GraphicsError;

verus! {

/// Tracked state of the queue / allocator / list triple.
///
/// `list_open` is true while the list records commands; `work_in_flight`
/// is true from a submission until a fence drain observes the GPU past
/// it.  `viewport_width` and `viewport_height` are the last viewport and
/// scissor extent recorded into the list.
#[derive(Clone, Copy, Debug, PartialEq, Eq, Structural)]
pub struct CommandSubmission {
    pub list_open: bool,
    pub work_in_flight: bool,
    pub viewport_width: u32,
    pub viewport_height: u32,
}

impl CommandSubmission {
    /// Create the queue, the allocator, and the list bound to the
    /// allocator.  The list is created recording and immediately closed,
    /// since the frame loop begins by resetting it.  `created_ok` is
    /// whether all three platform creation calls succeeded.
    pub fn create(created_ok: bool) -> (r: Result<CommandSubmission, GraphicsError>)
        ensures
            created_ok ==> r == Ok::<CommandSubmission, GraphicsError>(
                CommandSubmission {
                    list_open: false,
                    work_in_flight: false,
                    viewport_width: 0,
                    viewport_height: 0,
                },
            ),
            !created_ok ==> r == Err::<CommandSubmission, GraphicsError>(
                GraphicsError::CommandObjectCreationFailed,
            ),
    {
        if created_ok {
            Ok(
                CommandSubmission {
                    list_open: false,
                    work_in_flight: false,
                    viewport_width: 0,
                    viewport_height: 0,
                },
            )
        } else {
            Err(GraphicsError::CommandObjectCreationFailed)
        }
    }

    /// Reset the allocator, then reopen the list for recording.
    ///
    /// Requires that no earlier submission may still execute: the frame
    /// cycle guarantees this by draining the GPU before every reset.
    /// `reset_ok` is whether both platform reset calls succeeded.
    pub fn reset_and_begin(&mut self, reset_ok: bool) -> (r: Result<(), GraphicsError>)
        requires
            !old(self).list_open,
            !old(self).work_in_flight,
        ensures
            reset_ok ==> r == Ok::<(), GraphicsError>(()) && *final(self) == (CommandSubmission {
                list_open: true,
                ..*old(self)
            }),
            !reset_ok ==> r == Err::<(), GraphicsError>(GraphicsError::ResetFailed) && *final(self)
                == *old(self),
    {
        if reset_ok {
            self.list_open = true;
            Ok(())
        } else {
            Err(GraphicsError::ResetFailed)
        }
    }

    /// Close the list and submit it to the queue as a one-element batch.
    ///
    /// `submit_ok` is whether the platform close call succeeded; the list
    /// counts as closed either way, and work is in flight only after a
    /// successful submission.
    pub fn close_and_submit(&mut self, submit_ok: bool) -> (r: Result<(), GraphicsError>)
        requires
            old(self).list_open,
        ensures
            submit_ok ==> r == Ok::<(), GraphicsError>(()) && *final(self) == (CommandSubmission {
                list_open: false,
                work_in_flight: true,
                ..*old(self)
            }),
            !submit_ok ==> r == Err::<(), GraphicsError>(GraphicsError::SubmitFailed)
                && *final(self) == (CommandSubmission { list_open: false, ..*old(self) }),
    {
        self.list_open = false;
        if submit_ok {
            self.work_in_flight = true;
            Ok(())
        } else {
            Err(GraphicsError::SubmitFailed)
        }
    }
}

} // verus!
