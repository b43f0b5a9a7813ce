//! A verified model of a double-buffered Direct3D 12 rendering core.
//!
//! The library captures the correctness-critical logic of a minimal D3D12
//! renderer: choosing a hardware adapter at the highest reachable feature
//! level, the lifecycle of the command queue / allocator / list, the
//! swapchain with its two back buffers and render-target-view heap, the
//! CPU/GPU fence protocol, and the per-frame record / submit / present /
//! drain cycle.  Outcomes that only the platform can decide (whether a
//! creation call succeeded, the fence value the GPU has reached) enter as
//! plain values, so every decision the library makes is verified for every
//! outcome the platform can produce.

pub mod device;
pub mod error;
pub mod fence;
pub mod selector;
pub mod submit;
pub mod surface;
pub mod text;
