//! The presentation surface: the swapchain, its two back buffers, and the
//! render-target-view descriptor heap that describes them.
//!
//! The swapchain is a flip-model ring of exactly [`FRAME_COUNT`] back
//! buffers in a fixed 8-bit-per-channel color format.  Each back buffer is
//! at every instant in exactly one of two states, presentable or render
//! target, and the frame cycle is the sole mutator of that state.  The
//! descriptor heap holds one render-target view per buffer at a constant
//! stride, so the view for buffer `i` lives at `heap_base +
//! i * descriptor_size`.
//!
//! `current_index` is the buffer the presentation engine last reported as
//! acquirable; it is refreshed only after a completed drain, and every
//! accessor is indexed by it, never by a caller-supplied index.

use vstd::prelude::*;

use crate::error::GraphicsError;

verus! {

/// Number of back buffers in the swapchain ring.  A design constant, not
/// a parameter.
pub const FRAME_COUNT: u32 = 2;

/// Numeric value of the fixed back-buffer pixel format,
/// `DXGI_FORMAT_R8G8B8A8_UNORM`.
pub const BACK_BUFFER_FORMAT: u32 = 28;

/// The access state a back buffer is in: ready to be presented, or bound
/// as a render target.
#[derive(Clone, Copy, Debug, PartialEq, Eq, Structural)]
pub enum BufferState {
    Present,
    RenderTarget,
}

/// Tracked state of the swapchain, its back buffers and the RTV heap.
///
/// `heap_base` and `descriptor_size` describe the descriptor heap;
/// `engine_index` is the buffer the presentation engine itself holds
/// acquirable (it advances when a present completes), while
/// `current_index` is the value of it the frame cycle last observed.
#[derive(Clone, Copy, Debug, PartialEq, Eq, Structural)]
pub struct PresentationSurface {
    pub window: usize,
    pub width: u32,
    pub height: u32,
    pub tearing_supported: bool,
    pub heap_base: usize,
    pub descriptor_size: u32,
    pub current_index: u32,
    pub engine_index: u32,
    pub buffer_state_0: BufferState,
    pub buffer_state_1: BufferState,
}

/// The ring slot a completed present moves the engine to.
pub open spec fn other_slot(i: u32) -> u32 {
    if i == 0 {
        1
    } else {
        0
    }
}

impl PresentationSurface {
    /// The tracked state of back buffer `i`.
    pub open spec fn buffer_state(self, i: int) -> BufferState {
        if i == 0 {
            self.buffer_state_0
        } else {
            self.buffer_state_1
        }
    }

    /// Every back buffer is presentable.
    pub open spec fn all_present(self) -> bool {
        &&& self.buffer_state_0 == BufferState::Present
        &&& self.buffer_state_1 == BufferState::Present
    }

    /// Well-formedness: both indices address a ring slot, and the RTV of
    /// the last slot is addressable without overflow.
    pub open spec fn wf(self) -> bool {
        &&& self.current_index < FRAME_COUNT
        &&& self.engine_index < FRAME_COUNT
        &&& self.heap_base + (FRAME_COUNT - 1) * self.descriptor_size <= usize::MAX
    }

    /// The descriptor handle of back buffer `i`'s render-target view.
    pub open spec fn rtv_spec(self, i: int) -> int {
        self.heap_base + i * self.descriptor_size
    }

    /// This surface with the tracked state of the current buffer replaced.
    pub open spec fn with_current_state(self, s: BufferState) -> PresentationSurface {
        if self.current_index == 0 {
            PresentationSurface { buffer_state_0: s, ..self }
        } else {
            PresentationSurface { buffer_state_1: s, ..self }
        }
    }

    /// Create the swapchain, associate it with the window, create the RTV
    /// heap and build one render-target view per back buffer.
    ///
    /// The platform supplies whether creation succeeded (`swapchain_ok`
    /// covers the swapchain and the heap), whether tearing-allowed
    /// presents are supported, the heap's base handle and stride, and the
    /// back-buffer index the new swapchain reports.  Both buffers of a
    /// fresh swapchain are presentable.
    pub fn create(
        window: usize,
        width: u32,
        height: u32,
        swapchain_ok: bool,
        tearing_supported: bool,
        heap_base: usize,
        descriptor_size: u32,
        initial_index: u32,
    ) -> (r: Result<PresentationSurface, GraphicsError>)
        requires
            initial_index < FRAME_COUNT,
            heap_base + (FRAME_COUNT - 1) * descriptor_size <= usize::MAX,
        ensures
            swapchain_ok ==> r == Ok::<PresentationSurface, GraphicsError>(
                PresentationSurface {
                    window,
                    width,
                    height,
                    tearing_supported,
                    heap_base,
                    descriptor_size,
                    current_index: initial_index,
                    engine_index: initial_index,
                    buffer_state_0: BufferState::Present,
                    buffer_state_1: BufferState::Present,
                },
            ),
            !swapchain_ok ==> r == Err::<PresentationSurface, GraphicsError>(
                GraphicsError::SwapChainCreationFailed,
            ),
            r.is_ok() ==> r.unwrap().wf() && r.unwrap().all_present(),
    {
        if swapchain_ok {
            Ok(
                PresentationSurface {
                    window,
                    width,
                    height,
                    tearing_supported,
                    heap_base,
                    descriptor_size,
                    current_index: initial_index,
                    engine_index: initial_index,
                    buffer_state_0: BufferState::Present,
                    buffer_state_1: BufferState::Present,
                },
            )
        } else {
            Err(GraphicsError::SwapChainCreationFailed)
        }
    }

    /// The descriptor handle of back buffer `index`'s render-target view:
    /// the heap's base handle offset by `index` strides.
    pub fn rtv_handle(&self, index: u32) -> (r: usize)
        requires
            self.wf(),
            index < FRAME_COUNT,
        ensures
            r == self.rtv_spec(index as int),
    {
        if index == 0 {
            self.heap_base
        } else {
            self.heap_base + self.descriptor_size as usize
        }
    }

    /// The render-target-view handle of the current back buffer.  Indexed
    /// by the tracked `current_index`, never by a caller-supplied value.
    pub fn get_back_buffer_rtv(&self) -> (r: usize)
        requires
            self.wf(),
        ensures
            r == self.rtv_spec(self.current_index as int),
    {
        self.rtv_handle(self.current_index)
    }

    /// The ring slot whose resource is the current back buffer.  The model
    /// stands for each swapchain resource by its slot.
    pub fn get_back_buffer_resource(&self) -> (r: u32)
        ensures
            r == self.current_index,
    {
        self.current_index
    }

    /// Record a transition barrier moving the current back buffer from
    /// presentable to render target.
    pub fn record_barrier_to_render_target(&mut self) -> (r: u32)
        requires
            old(self).wf(),
            old(self).buffer_state(old(self).current_index as int) == BufferState::Present,
        ensures
            *final(self) == old(self).with_current_state(BufferState::RenderTarget),
            r == old(self).current_index,
    {
        if self.current_index == 0 {
            self.buffer_state_0 = BufferState::RenderTarget;
        } else {
            self.buffer_state_1 = BufferState::RenderTarget;
        }
        self.current_index
    }

    /// Record a transition barrier moving the current back buffer from
    /// render target back to presentable.
    pub fn record_barrier_to_present(&mut self) -> (r: u32)
        requires
            old(self).wf(),
            old(self).buffer_state(old(self).current_index as int) == BufferState::RenderTarget,
        ensures
            *final(self) == old(self).with_current_state(BufferState::Present),
            r == old(self).current_index,
    {
        if self.current_index == 0 {
            self.buffer_state_0 = BufferState::Present;
        } else {
            self.buffer_state_1 = BufferState::Present;
        }
        self.current_index
    }
}

/// The fixed back-buffer pixel format.
pub fn get_back_buffer_format() -> (r: u32)
    ensures
        r == BACK_BUFFER_FORMAT,
{
    BACK_BUFFER_FORMAT
}

} // verus!
