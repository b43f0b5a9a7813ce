use d3d12_core::error::GraphicsError;
use d3d12_core::selector::{select_and_create_device, AdapterInfo, DeviceSelection, FeatureLevel};

fn hardware(l0: bool, l1: bool, l2: bool) -> AdapterInfo {
    AdapterInfo { software: false, supports_12_0: l0, supports_12_1: l1, supports_12_2: l2 }
}

fn software_adapter() -> AdapterInfo {
    AdapterInfo { software: true, supports_12_0: true, supports_12_1: true, supports_12_2: true }
}

#[test]
fn picks_newest_level_first() {
    // the second adapter reaches 12_2, so no older level may win
    let adapters = vec![hardware(true, true, false), hardware(true, true, true)];
    let r = select_and_create_device(&adapters);
    assert_eq!(
        r,
        Ok(DeviceSelection { adapter_index: 1, level: FeatureLevel::Level12_2 })
    );
}

#[test]
fn falls_back_one_level_per_step() {
    let adapters = vec![hardware(true, true, false)];
    let r = select_and_create_device(&adapters);
    assert_eq!(
        r,
        Ok(DeviceSelection { adapter_index: 0, level: FeatureLevel::Level12_1 })
    );
}

#[test]
fn prefers_first_adapter_within_a_level() {
    let adapters = vec![hardware(true, false, false), hardware(true, false, false)];
    let r = select_and_create_device(&adapters);
    assert_eq!(
        r,
        Ok(DeviceSelection { adapter_index: 0, level: FeatureLevel::Level12_0 })
    );
}

#[test]
fn skips_software_even_when_it_is_first() {
    let adapters = vec![software_adapter(), hardware(true, false, false)];
    let r = select_and_create_device(&adapters);
    assert_eq!(
        r,
        Ok(DeviceSelection { adapter_index: 1, level: FeatureLevel::Level12_0 })
    );
}

#[test]
fn software_only_reports_adapter_not_found() {
    let adapters = vec![software_adapter(), software_adapter()];
    let r = select_and_create_device(&adapters);
    assert_eq!(r, Err(GraphicsError::AdapterNotFound));
}

#[test]
fn empty_enumeration_reports_adapter_not_found() {
    let adapters: Vec<AdapterInfo> = Vec::new();
    let r = select_and_create_device(&adapters);
    assert_eq!(r, Err(GraphicsError::AdapterNotFound));
}

#[test]
fn hardware_without_any_level_reports_device_creation_failed() {
    let adapters = vec![software_adapter(), hardware(false, false, false)];
    let r = select_and_create_device(&adapters);
    assert_eq!(r, Err(GraphicsError::DeviceCreationFailed));
}
