//! The rendering context and the per-frame cycle.
//!
//! [`GpuContext`] owns the tracked state of every GPU object: the adapter
//! selection, the command submission unit, the presentation surface and
//! the frame fence.  Construction order is fixed — selector, command
//! objects, swapchain, fence — and [`GpuContext::shutdown`] is the single
//! teardown path.
//!
//! The frame cycle is: reset the allocator and reopen the list, move the
//! current back buffer to render target, record the frame, move it back to
//! presentable, close and submit the batch, present, and drain the GPU to
//! a full barrier.  Draining before the next reset is what makes reusing
//! the one command allocator safe: no list built from it can still be
//! executing.  The cycle deliberately keeps a single frame in flight,
//! trading pipeline depth for this simple invariant.
//!
//! Platform outcomes — whether a creation or reset call succeeded, the
//! fence value the GPU reports, whether the blocking wait returned — enter
//! as [`InitEvents`] and [`FrameEvents`], so every path the cycle can take
//! is verified for every outcome the platform can produce.

use vstd::prelude::*;

use crate::error::GraphicsError;
use crate::fence::FrameFence;
use crate::selector::{select_and_create_device, select_spec, AdapterInfo, DeviceSelection};
use crate::submit::CommandSubmission;
use crate::surface::{other_slot, BufferState, PresentationSurface, FRAME_COUNT};

verus! {

/// Platform outcomes consumed by [`initialize_d3d12`].
#[derive(Clone, Copy, Debug, PartialEq, Eq, Structural)]
pub struct InitEvents {
    /// The debug/validation layer could be enabled before device creation.
    pub debug_layer_available: bool,
    /// Queue, allocator and list creation all succeeded.
    pub command_objects_ok: bool,
    /// Swapchain and RTV-heap creation succeeded.
    pub swapchain_ok: bool,
    /// The adapter factory reports tearing-allowed presents.
    pub tearing_supported: bool,
    /// Base CPU descriptor handle of the RTV heap.
    pub heap_base: usize,
    /// Stride between consecutive RTV descriptors.
    pub descriptor_size: u32,
    /// Back-buffer index the fresh swapchain reports.
    pub initial_index: u32,
    /// Fence and fence-event creation succeeded.
    pub fence_ok: bool,
}

/// Platform outcomes consumed by one frame cycle.
#[derive(Clone, Copy, Debug, PartialEq, Eq, Structural)]
pub struct FrameEvents {
    /// Allocator reset and list reopen succeeded.
    pub reset_ok: bool,
    /// Closing and submitting the recorded list succeeded.
    pub submit_ok: bool,
    /// The present call succeeded.
    pub present_ok: bool,
    /// The fence value `GetCompletedValue` reports when the drain starts.
    pub observed_completed: u64,
    /// The blocking wait on the fence event returned normally.
    pub wait_ok: bool,
}

/// Tracked state of the whole rendering core.
#[derive(Clone, Copy, Debug, PartialEq, Eq, Structural)]
pub struct GpuContext {
    pub selection: DeviceSelection,
    /// A diagnostics interface was cached: device creation and the debug
    /// layer both succeeded.
    pub diagnostics_cached: bool,
    pub submission: CommandSubmission,
    pub surface: PresentationSurface,
    pub fence: FrameFence,
    /// The waitable fence event has been released by [`GpuContext::shutdown`].
    pub fence_event_released: bool,
}

/// The fence value a drain of `c` signals and then waits for.
pub open spec fn drain_target(c: GpuContext) -> u64 {
    c.fence.next_value
}

/// A drain returns having observed its target reached: either the fence
/// was already there, or the blocking wait returned normally.
pub open spec fn drain_succeeds(c: GpuContext, observed: u64, wait_ok: bool) -> bool {
    observed >= drain_target(c) || wait_ok
}

/// The context a drain leaves behind: the counter advanced past the
/// signaled target, the completed value raised to the target (or to
/// whatever was observed, if the wait failed), in-flight work cleared
/// once the target is known reached, and the tracked back-buffer index
/// refreshed from the presentation engine.
pub open spec fn drain_result(c: GpuContext, observed: u64, wait_ok: bool) -> GpuContext {
    let ok = drain_succeeds(c, observed, wait_ok);
    GpuContext {
        fence: FrameFence {
            next_value: (drain_target(c) + 1) as u64,
            completed_value: if ok {
                drain_target(c)
            } else {
                observed
            },
        },
        surface: PresentationSurface { current_index: c.surface.engine_index, ..c.surface },
        submission: CommandSubmission {
            work_in_flight: c.submission.work_in_flight && !ok,
            ..c.submission
        },
        ..c
    }
}

/// The context a successful initialization hands back.
pub open spec fn initial_context(
    window: usize,
    width: u32,
    height: u32,
    adapters: Seq<AdapterInfo>,
    ev: InitEvents,
) -> GpuContext {
    GpuContext {
        selection: select_spec(adapters).unwrap(),
        diagnostics_cached: ev.debug_layer_available,
        submission: CommandSubmission {
            list_open: false,
            work_in_flight: false,
            viewport_width: 0,
            viewport_height: 0,
        },
        surface: PresentationSurface {
            window,
            width,
            height,
            tearing_supported: ev.tearing_supported,
            heap_base: ev.heap_base,
            descriptor_size: ev.descriptor_size,
            current_index: ev.initial_index,
            engine_index: ev.initial_index,
            buffer_state_0: BufferState::Present,
            buffer_state_1: BufferState::Present,
        },
        fence: FrameFence { next_value: 2, completed_value: 1 },
        fence_event_released: false,
    }
}

/// Every stage of initialization succeeded.
pub open spec fn init_ok(adapters: Seq<AdapterInfo>, ev: InitEvents) -> bool {
    &&& select_spec(adapters).is_ok()
    &&& ev.command_objects_ok
    &&& ev.swapchain_ok
    &&& ev.fence_ok
}

impl GpuContext {
    /// Well-formedness of the tracked state.
    pub open spec fn wf(self) -> bool {
        &&& self.surface.wf()
        &&& self.fence.wf()
    }

    /// The context stands at a frame boundary: the list is closed, no
    /// submitted work can still be executing, every back buffer is
    /// presentable, the tracked back-buffer index is fresh, and the fence
    /// event is still held.
    pub open spec fn frame_ready(self) -> bool {
        &&& self.wf()
        &&& !self.submission.list_open
        &&& !self.submission.work_in_flight
        &&& self.surface.all_present()
        &&& self.surface.current_index == self.surface.engine_index
        &&& !self.fence_event_released
    }

    /// Drain the GPU to a full CPU/GPU barrier.
    ///
    /// Records the target, enqueues a signal-to-target on the queue,
    /// advances the counter, and — unless the observed completed value
    /// already reached the target — registers the event and blocks on it
    /// with no timeout.  Afterwards the tracked back-buffer index is
    /// refreshed from the presentation engine, so it is never stale.
    ///
    /// `observed_completed` is what `GetCompletedValue` reported when the
    /// drain started (it can never exceed the highest value ever
    /// signaled); `wait_ok` is whether the blocking wait returned
    /// normally.
    pub fn wait_for_gpu(&mut self, observed_completed: u64, wait_ok: bool) -> (r: Result<
        (),
        GraphicsError,
    >)
        requires
            old(self).wf(),
            old(self).fence.next_value < u64::MAX,
            old(self).fence.completed_value <= observed_completed <= old(self).fence.next_value,
        ensures
            *final(self) == drain_result(*old(self), observed_completed, wait_ok),
            r == Ok::<(), GraphicsError>(()) <==> drain_succeeds(
                *old(self),
                observed_completed,
                wait_ok,
            ),
            !drain_succeeds(*old(self), observed_completed, wait_ok) ==> r == Err::<
                (),
                GraphicsError,
            >(GraphicsError::WaitFailed),
            r.is_ok() ==> final(self).fence.completed_value >= drain_target(*old(self))
                && !final(self).submission.work_in_flight,
            final(self).surface.current_index == final(self).surface.engine_index,
            final(self).surface.engine_index == old(self).surface.engine_index,
            final(self).wf(),
    {
        let target = self.fence.next_value;
        // the shell enqueues Signal(fence, target) on the queue here
        self.fence.next_value = target + 1;
        let mut r: Result<(), GraphicsError> = Ok(());
        if observed_completed < target {
            // the shell registers the event at `target` and blocks on it
            if wait_ok {
                self.fence.completed_value = target;
            } else {
                self.fence.completed_value = observed_completed;
                r = Err(GraphicsError::WaitFailed);
            }
        } else {
            self.fence.completed_value = target;
        }
        if r.is_ok() {
            self.submission.work_in_flight = false;
        }
        // refresh the tracked index from the presentation engine
        self.surface.current_index = self.surface.engine_index;
        r
    }

    /// Record and submit one frame: reset the allocator and reopen the
    /// list, move the current back buffer to render target, bind it with
    /// a viewport and scissor of the requested extent, leave the list
    /// open and correctly targeted for the caller-supplied draw commands,
    /// move the buffer back to presentable, then close and submit the
    /// batch.
    ///
    /// On failure the cycle is abandoned for this frame: a failed reset
    /// leaves the context untouched, and a failed submit leaves no work
    /// in flight.  Either way every back buffer ends presentable.
    pub fn render(&mut self, width: u32, height: u32, reset_ok: bool, submit_ok: bool) -> (r:
        Result<(), GraphicsError>)
        requires
            old(self).frame_ready(),
        ensures
            final(self).wf(),
            final(self).surface.all_present(),
            !reset_ok ==> r == Err::<(), GraphicsError>(GraphicsError::ResetFailed) && *final(self)
                == *old(self),
            reset_ok ==> *final(self) == (GpuContext {
                submission: CommandSubmission {
                    list_open: false,
                    work_in_flight: submit_ok,
                    viewport_width: width,
                    viewport_height: height,
                },
                ..*old(self)
            }),
            reset_ok && submit_ok ==> r == Ok::<(), GraphicsError>(()),
            reset_ok && !submit_ok ==> r == Err::<(), GraphicsError>(GraphicsError::SubmitFailed)
                && final(self).frame_ready(),
    {
        if let Err(e) = self.submission.reset_and_begin(reset_ok) {
            return Err(e);
        }
        // barrier: presentable -> render target, on the current buffer
        let _slot = self.surface.record_barrier_to_render_target();
        // the shell binds the RTV, clears it, and sets pipeline state and
        // root signature; the model tracks the viewport/scissor extent
        self.submission.viewport_width = width;
        self.submission.viewport_height = height;
        // caller-supplied draw commands are recorded here
        // barrier: render target -> presentable, on the same buffer
        let _slot = self.surface.record_barrier_to_present();
        self.submission.close_and_submit(submit_ok)
    }

    /// Present the current back buffer, with the tearing-allowed bit set
    /// when the surface detected support for it.  A completed present
    /// moves the presentation engine to the other ring slot; the tracked
    /// index follows only at the next drain.
    pub fn present(&mut self, present_ok: bool) -> (r: Result<(), GraphicsError>)
        requires
            old(self).wf(),
            old(self).surface.all_present(),
        ensures
            final(self).wf(),
            final(self).surface.all_present(),
            present_ok ==> r == Ok::<(), GraphicsError>(()) && *final(self) == (GpuContext {
                surface: PresentationSurface {
                    engine_index: other_slot(old(self).surface.engine_index),
                    ..old(self).surface
                },
                ..*old(self)
            }),
            !present_ok ==> r == Err::<(), GraphicsError>(GraphicsError::PresentFailed)
                && *final(self) == *old(self),
    {
        if present_ok {
            self.surface.engine_index = if self.surface.engine_index == 0 {
                1
            } else {
                0
            };
            Ok(())
        } else {
            Err(GraphicsError::PresentFailed)
        }
    }

    /// Drain the diagnostics sink: when a diagnostics interface was
    /// cached at initialization, every message the device queued since
    /// the last call is fetched, printed and freed by the shell, and the
    /// stored list is cleared; without the interface nothing is read.
    /// Returns how many messages were drained, given how many the device
    /// reports stored.
    pub fn update(&self, reported_messages: u64) -> (drained: u64)
        ensures
            drained == (if self.diagnostics_cached {
                reported_messages
            } else {
                0u64
            }),
    {
        if self.diagnostics_cached {
            reported_messages
        } else {
            0
        }
    }

    /// Tear down: drain the GPU once more, so no in-flight work can
    /// reference freed resources, then release the waitable event.  A
    /// second call finds the event already released and does nothing.
    pub fn shutdown(&mut self)
        requires
            old(self).wf(),
            old(self).fence_event_released || old(self).fence.next_value < u64::MAX,
        ensures
            old(self).fence_event_released ==> *final(self) == *old(self),
            !old(self).fence_event_released ==> *final(self) == (GpuContext {
                fence_event_released: true,
                ..drain_result(*old(self), old(self).fence.completed_value, true)
            }),
            final(self).fence_event_released,
            final(self).wf(),
    {
        if !self.fence_event_released {
            let target = self.fence.next_value;
            // the shell signals `target` and blocks until the GPU reaches it
            self.fence.next_value = target + 1;
            self.fence.completed_value = target;
            self.submission.work_in_flight = false;
            self.surface.current_index = self.surface.engine_index;
            // the shell closes the event handle here
            self.fence_event_released = true;
        }
    }
    /// Execute one whole frame cycle: record and submit ([`GpuContext::render`]),
    /// present, and drain to a full barrier so the next frame may reset
    /// the allocator.
    ///
    /// A failed reset or submit abandons the frame before any present; a
    /// failed present still drains, so the next frame can proceed.  Only
    /// a failed wait leaves work possibly in flight, and the context then
    /// refuses the next frame until a drain succeeds.  Every back buffer
    /// is presentable when the call starts and when it returns, on every
    /// path.
    pub fn run_frame(&mut self, width: u32, height: u32, ev: FrameEvents) -> (r: Result<
        (),
        GraphicsError,
    >)
        requires
            old(self).frame_ready(),
            old(self).fence.next_value < u64::MAX,
            old(self).fence.completed_value <= ev.observed_completed
                <= old(self).fence.next_value,
        ensures
            final(self).wf(),
            final(self).surface.all_present(),
            final(self).frame_ready() <==> (!ev.reset_ok || !ev.submit_ok || drain_succeeds(
                *old(self),
                ev.observed_completed,
                ev.wait_ok,
            )),
            !ev.reset_ok ==> r == Err::<(), GraphicsError>(GraphicsError::ResetFailed)
                && *final(self) == *old(self),
            ev.reset_ok && !ev.submit_ok ==> r == Err::<(), GraphicsError>(
                GraphicsError::SubmitFailed,
            ) && *final(self) == (GpuContext {
                submission: CommandSubmission {
                    list_open: false,
                    work_in_flight: false,
                    viewport_width: width,
                    viewport_height: height,
                },
                ..*old(self)
            }),
            ev.reset_ok && ev.submit_ok ==> *final(self) == drain_result(
                GpuContext {
                    submission: CommandSubmission {
                        list_open: false,
                        work_in_flight: true,
                        viewport_width: width,
                        viewport_height: height,
                    },
                    surface: if ev.present_ok {
                        PresentationSurface {
                            engine_index: other_slot(old(self).surface.engine_index),
                            ..old(self).surface
                        }
                    } else {
                        old(self).surface
                    },
                    ..*old(self)
                },
                ev.observed_completed,
                ev.wait_ok,
            ),
            ev.reset_ok && ev.submit_ok && !ev.present_ok ==> r == Err::<(), GraphicsError>(
                GraphicsError::PresentFailed,
            ),
            ev.reset_ok && ev.submit_ok && ev.present_ok && !drain_succeeds(
                *old(self),
                ev.observed_completed,
                ev.wait_ok,
            ) ==> r == Err::<(), GraphicsError>(GraphicsError::WaitFailed),
            (ev.reset_ok && ev.submit_ok && ev.present_ok && drain_succeeds(
                *old(self),
                ev.observed_completed,
                ev.wait_ok,
            )) <==> r == Ok::<(), GraphicsError>(()),
    {
        if let Err(e) = self.render(width, height, ev.reset_ok, ev.submit_ok) {
            return Err(e);
        }
        let presented = self.present(ev.present_ok);
        let drained = self.wait_for_gpu(ev.observed_completed, ev.wait_ok);
        if let Err(e) = presented {
            return Err(e);
        }
        drained
    }

}

/// Run device selection and every creation stage in fixed order:
/// selector, command objects, swapchain and RTV heap, fence.  The first
/// failing stage aborts initialization and is reported; afterwards one
/// drain establishes a synchronized baseline before any frame runs.
pub fn initialize_d3d12(
    window: usize,
    width: u32,
    height: u32,
    adapters: &Vec<AdapterInfo>,
    ev: InitEvents,
) -> (r: Result<GpuContext, GraphicsError>)
    requires
        ev.initial_index < FRAME_COUNT,
        ev.heap_base + (FRAME_COUNT - 1) * ev.descriptor_size <= usize::MAX,
    ensures
        r.is_ok() <==> init_ok(adapters@, ev),
        r.is_ok() ==> r.unwrap() == initial_context(window, width, height, adapters@, ev)
            && r.unwrap().frame_ready(),
        select_spec(adapters@).is_err() ==> r == Err::<GpuContext, GraphicsError>(
            select_spec(adapters@).unwrap_err(),
        ),
        select_spec(adapters@).is_ok() && !ev.command_objects_ok ==> r == Err::<
            GpuContext,
            GraphicsError,
        >(GraphicsError::CommandObjectCreationFailed),
        select_spec(adapters@).is_ok() && ev.command_objects_ok && !ev.swapchain_ok ==> r == Err::<
            GpuContext,
            GraphicsError,
        >(GraphicsError::SwapChainCreationFailed),
        select_spec(adapters@).is_ok() && ev.command_objects_ok && ev.swapchain_ok && !ev.fence_ok
            ==> r == Err::<GpuContext, GraphicsError>(GraphicsError::FenceCreationFailed),
{
    let selection = match select_and_create_device(adapters) {
        Ok(s) => s,
        Err(e) => {
            return Err(e);
        },
    };
    let submission = match CommandSubmission::create(ev.command_objects_ok) {
        Ok(s) => s,
        Err(e) => {
            return Err(e);
        },
    };
    let surface = match PresentationSurface::create(
        window,
        width,
        height,
        ev.swapchain_ok,
        ev.tearing_supported,
        ev.heap_base,
        ev.descriptor_size,
        ev.initial_index,
    ) {
        Ok(s) => s,
        Err(e) => {
            return Err(e);
        },
    };
    let fence = match FrameFence::create(ev.fence_ok) {
        Ok(f) => f,
        Err(e) => {
            return Err(e);
        },
    };
    let mut ctx = GpuContext {
        selection,
        diagnostics_cached: ev.debug_layer_available,
        submission,
        surface,
        fence,
        fence_event_released: false,
    };
    // establish a known synchronized baseline before any frame runs
    let _ = ctx.wait_for_gpu(0, true);
    Ok(ctx)
}


/// Two drains in a row with no intervening submission or present both
/// return having observed their target reached, and the second leaves the
/// tracked back-buffer index exactly where the first put it.
pub proof fn lemma_drain_idempotent(c: GpuContext, o1: u64, o2: u64)
    requires
        c.wf(),
        c.fence.next_value < u64::MAX,
        c.fence.completed_value <= o1 <= c.fence.next_value,
        c.fence.next_value <= o2 <= c.fence.next_value + 1,
    ensures
        ({
            let c1 = drain_result(c, o1, true);
            let c2 = drain_result(c1, o2, true);
            &&& c1.fence.completed_value >= drain_target(c)
            &&& c2.fence.completed_value >= drain_target(c1)
            &&& c2.surface.current_index == c1.surface.current_index
            &&& c2.surface.engine_index == c1.surface.engine_index
        }),
{
}

} // verus!
