//! Error kinds reported by device initialization and the frame cycle.

use vstd::prelude::*;

verus! {

/// Every way the rendering core can fail.
///
/// The creation-stage kinds are fatal: initialization stops at the first
/// failing stage and reports it.  The per-frame kinds abandon the current
/// frame only.
#[derive(Clone, Copy, Debug, PartialEq, Eq, Structural)]
pub enum GraphicsError {
    /// No adapter other than software adapters was enumerated.
    AdapterNotFound,
    /// Hardware adapters exist, but none accepted device creation at any
    /// supported feature level.
    DeviceCreationFailed,
    /// The command queue, allocator or list could not be created.
    CommandObjectCreationFailed,
    /// The swapchain or its render-target-view heap could not be created.
    SwapChainCreationFailed,
    /// The fence or its waitable event could not be created.
    FenceCreationFailed,
    /// Resetting the allocator or reopening the list failed.
    ResetFailed,
    /// Closing or submitting the recorded list failed.
    SubmitFailed,
    /// Presenting the back buffer failed.
    PresentFailed,
    /// Waiting on the fence event failed.
    WaitFailed,
}

} // verus!
