//! Adapter enumeration and device creation at the highest reachable
//! feature level.
//!
//! The selector walks the feature levels from newest to oldest; within one
//! level it walks the enumerated adapters in order, skips every adapter the
//! platform flags as software, and commits to the first adapter on which
//! device creation succeeds.  The search is greedy on the level: a success
//! at a newer level is always preferred to any success at an older one.
//!
//! What only the platform knows — the software flag of each adapter and
//! whether device creation succeeds on it at a given level — enters as an
//! [`AdapterInfo`] record per adapter, so the decision itself is verified
//! for every outcome the platform can report.

use vstd::prelude::*;

use crate::error::GraphicsError;

verus! {

/// The Direct3D feature levels the selector attempts, newest first.
#[derive(Clone, Copy, Debug, PartialEq, Eq, Structural)]
pub enum FeatureLevel {
    Level12_0,
    Level12_1,
    Level12_2,
}

impl FeatureLevel {
    /// Numeric rank of a level: greater means newer.
    pub open spec fn rank(self) -> int {
        match self {
            FeatureLevel::Level12_0 => 0,
            FeatureLevel::Level12_1 => 1,
            FeatureLevel::Level12_2 => 2,
        }
    }
}

/// What enumeration and probing report of one adapter: whether the
/// platform flags it as a software adapter, and at which feature levels
/// device creation on it succeeds.
#[derive(Clone, Copy, Debug, PartialEq, Eq, Structural)]
pub struct AdapterInfo {
    pub software: bool,
    pub supports_12_0: bool,
    pub supports_12_1: bool,
    pub supports_12_2: bool,
}

impl AdapterInfo {
    /// Device creation on this adapter succeeds at `level`.
    pub open spec fn supports(self, level: FeatureLevel) -> bool {
        match level {
            FeatureLevel::Level12_0 => self.supports_12_0,
            FeatureLevel::Level12_1 => self.supports_12_1,
            FeatureLevel::Level12_2 => self.supports_12_2,
        }
    }

    /// The selector may pick this adapter at `level`: it is not a software
    /// adapter, and device creation succeeds there.
    pub open spec fn usable_at(self, level: FeatureLevel) -> bool {
        !self.software && self.supports(level)
    }

    /// Executable mirror of [`AdapterInfo::supports`].
    pub fn supports_level(&self, level: FeatureLevel) -> (b: bool)
        ensures
            b == self.supports(level),
    {
        match level {
            FeatureLevel::Level12_0 => self.supports_12_0,
            FeatureLevel::Level12_1 => self.supports_12_1,
            FeatureLevel::Level12_2 => self.supports_12_2,
        }
    }
}

/// The selector's choice: which adapter, and at which feature level the
/// device was created.
#[derive(Clone, Copy, Debug, PartialEq, Eq, Structural)]
pub struct DeviceSelection {
    pub adapter_index: usize,
    pub level: FeatureLevel,
}

/// Index of the first adapter at or after `start` that is usable at
/// `level`, in enumeration order.
pub open spec fn first_usable_from(
    adapters: Seq<AdapterInfo>,
    level: FeatureLevel,
    start: int,
) -> Option<int>
    decreases adapters.len() - start,
{
    if start < 0 || start >= adapters.len() {
        None
    } else if adapters[start].usable_at(level) {
        Some(start)
    } else {
        first_usable_from(adapters, level, start + 1)
    }
}

/// At least one enumerated adapter is not flagged software.
pub open spec fn has_hardware_adapter(adapters: Seq<AdapterInfo>) -> bool {
    exists|i: int| 0 <= i < adapters.len() && !adapters[i].software
}

/// The outcome of the whole search: the first usable adapter at the newest
/// level that has one; `DeviceCreationFailed` when hardware adapters exist
/// but none accepts creation; `AdapterNotFound` when only software
/// adapters (or none at all) were enumerated.
pub open spec fn select_spec(adapters: Seq<AdapterInfo>) -> Result<DeviceSelection, GraphicsError> {
    if first_usable_from(adapters, FeatureLevel::Level12_2, 0).is_some() {
        Ok(DeviceSelection {
            adapter_index: first_usable_from(adapters, FeatureLevel::Level12_2, 0).unwrap() as usize,
            level: FeatureLevel::Level12_2,
        })
    } else if first_usable_from(adapters, FeatureLevel::Level12_1, 0).is_some() {
        Ok(DeviceSelection {
            adapter_index: first_usable_from(adapters, FeatureLevel::Level12_1, 0).unwrap() as usize,
            level: FeatureLevel::Level12_1,
        })
    } else if first_usable_from(adapters, FeatureLevel::Level12_0, 0).is_some() {
        Ok(DeviceSelection {
            adapter_index: first_usable_from(adapters, FeatureLevel::Level12_0, 0).unwrap() as usize,
            level: FeatureLevel::Level12_0,
        })
    } else if has_hardware_adapter(adapters) {
        Err(GraphicsError::DeviceCreationFailed)
    } else {
        Err(GraphicsError::AdapterNotFound)
    }
}

/// Scan the adapters in enumeration order for the first usable at `level`.
fn find_usable(adapters: &Vec<AdapterInfo>, level: FeatureLevel) -> (r: Option<usize>)
    ensures
        match r {
            Some(i) => first_usable_from(adapters@, level, 0) == Some(i as int),
            None => first_usable_from(adapters@, level, 0).is_none(),
        },
{
    let mut i: usize = 0;
    while i < adapters.len()
        invariant
            i <= adapters.len(),
            first_usable_from(adapters@, level, 0) == first_usable_from(adapters@, level, i as int),
        decreases adapters.len() - i,
    {
        let a = adapters[i];
        if !a.software && a.supports_level(level) {
            return Some(i);
        }
        i = i + 1;
    }
    None
}

/// Is any enumerated adapter not flagged software?
fn any_hardware(adapters: &Vec<AdapterInfo>) -> (b: bool)
    ensures
        b == has_hardware_adapter(adapters@),
{
    let mut i: usize = 0;
    while i < adapters.len()
        invariant
            i <= adapters.len(),
            forall|j: int| 0 <= j < i ==> adapters@[j].software,
        decreases adapters.len() - i,
    {
        if !adapters[i].software {
            return true;
        }
        i = i + 1;
    }
    false
}

/// Pick the adapter and feature level for device creation.
///
/// Tries the feature levels from newest to oldest; within each level, the
/// adapters in enumeration order, skipping software adapters.  The first
/// adapter on which creation succeeds wins, and the outer search stops
/// with it, so a newer level is never given up while any adapter still
/// reaches it.
pub fn select_and_create_device(adapters: &Vec<AdapterInfo>) -> (r: Result<
    DeviceSelection,
    GraphicsError,
>)
    ensures
        r == select_spec(adapters@),
{
    if let Some(i) = find_usable(adapters, FeatureLevel::Level12_2) {
        return Ok(DeviceSelection { adapter_index: i, level: FeatureLevel::Level12_2 });
    }
    if let Some(i) = find_usable(adapters, FeatureLevel::Level12_1) {
        return Ok(DeviceSelection { adapter_index: i, level: FeatureLevel::Level12_1 });
    }
    if let Some(i) = find_usable(adapters, FeatureLevel::Level12_0) {
        return Ok(DeviceSelection { adapter_index: i, level: FeatureLevel::Level12_0 });
    }
    if any_hardware(adapters) {
        Err(GraphicsError::DeviceCreationFailed)
    } else {
        Err(GraphicsError::AdapterNotFound)
    }
}

/// If some adapter at or after `start` is usable at `level`, the scan from
/// `start` finds one.
proof fn lemma_usable_is_found(adapters: Seq<AdapterInfo>, level: FeatureLevel, start: int, w: int)
    requires
        0 <= start <= w < adapters.len(),
        adapters[w].usable_at(level),
    ensures
        first_usable_from(adapters, level, start).is_some(),
    decreases w - start,
{
    if start < w && !adapters[start].usable_at(level) {
        lemma_usable_is_found(adapters, level, start + 1, w);
    }
}

/// Whatever the scan from `start` returns is in range, usable at `level`,
/// and preceded by no usable adapter.
proof fn lemma_found_is_usable(adapters: Seq<AdapterInfo>, level: FeatureLevel, start: int, f: int)
    requires
        0 <= start,
        first_usable_from(adapters, level, start) == Some(f),
    ensures
        start <= f < adapters.len(),
        adapters[f].usable_at(level),
        forall|j: int| start <= j < f ==> !adapters[j].usable_at(level),
    decreases adapters.len() - start,
{
    if start < adapters.len() && !adapters[start].usable_at(level) {
        lemma_found_is_usable(adapters, level, start + 1, f);
    }
}

/// The selector is greedy on the feature level: if device creation
/// succeeds at `level` on some non-software adapter, selection succeeds,
/// and never settles for a level older than `level`.
pub proof fn lemma_selector_greedy_highest_first(
    adapters: Seq<AdapterInfo>,
    level: FeatureLevel,
    w: int,
)
    requires
        0 <= w < adapters.len(),
        adapters[w].usable_at(level),
    ensures
        select_spec(adapters).is_ok(),
        select_spec(adapters).unwrap().level.rank() >= level.rank(),
{
    lemma_usable_is_found(adapters, level, 0, w);
}

/// Within the feature level it settles on, the selector picks the first
/// usable adapter in enumeration order.
pub proof fn lemma_selector_picks_first_at_level(adapters: Seq<AdapterInfo>)
    requires
        adapters.len() <= usize::MAX,
    ensures
        select_spec(adapters).is_ok() ==> {
            let sel = select_spec(adapters).unwrap();
            forall|j: int|
                0 <= j < sel.adapter_index ==> !adapters[j].usable_at(sel.level)
        },
{
    if first_usable_from(adapters, FeatureLevel::Level12_2, 0).is_some() {
        lemma_found_is_usable(
            adapters,
            FeatureLevel::Level12_2,
            0,
            first_usable_from(adapters, FeatureLevel::Level12_2, 0).unwrap(),
        );
    } else if first_usable_from(adapters, FeatureLevel::Level12_1, 0).is_some() {
        lemma_found_is_usable(
            adapters,
            FeatureLevel::Level12_1,
            0,
            first_usable_from(adapters, FeatureLevel::Level12_1, 0).unwrap(),
        );
    } else if first_usable_from(adapters, FeatureLevel::Level12_0, 0).is_some() {
        lemma_found_is_usable(
            adapters,
            FeatureLevel::Level12_0,
            0,
            first_usable_from(adapters, FeatureLevel::Level12_0, 0).unwrap(),
        );
    }
}

/// The selector never picks an adapter flagged software, and where only
/// software adapters (or none) exist it reports `AdapterNotFound`.
pub proof fn lemma_selector_rejects_software(adapters: Seq<AdapterInfo>)
    requires
        adapters.len() <= usize::MAX,
    ensures
        select_spec(adapters).is_ok() ==> {
            let sel = select_spec(adapters).unwrap();
            &&& sel.adapter_index < adapters.len()
            &&& !adapters[sel.adapter_index as int].software
            &&& adapters[sel.adapter_index as int].supports(sel.level)
        },
        (forall|i: int| 0 <= i < adapters.len() ==> adapters[i].software) ==> select_spec(adapters)
            == Err::<DeviceSelection, GraphicsError>(GraphicsError::AdapterNotFound),
{
    if first_usable_from(adapters, FeatureLevel::Level12_2, 0).is_some() {
        lemma_found_is_usable(
            adapters,
            FeatureLevel::Level12_2,
            0,
            first_usable_from(adapters, FeatureLevel::Level12_2, 0).unwrap(),
        );
    } else if first_usable_from(adapters, FeatureLevel::Level12_1, 0).is_some() {
        lemma_found_is_usable(
            adapters,
            FeatureLevel::Level12_1,
            0,
            first_usable_from(adapters, FeatureLevel::Level12_1, 0).unwrap(),
        );
    } else if first_usable_from(adapters, FeatureLevel::Level12_0, 0).is_some() {
        lemma_found_is_usable(
            adapters,
            FeatureLevel::Level12_0,
            0,
            first_usable_from(adapters, FeatureLevel::Level12_0, 0).unwrap(),
        );
    }
}

} // verus!
