//! The model's fixed numbers must agree with the driver API's binary
//! contract, as the real bindings state it.

use ash::vk;

use ash_layer::DeviceChainRecord;
use ash_layer::InstanceChainRecord;
use ash_layer::LOADER_DEVICE_CREATE_INFO;
use ash_layer::LOADER_INSTANCE_CREATE_INFO;
use ash_layer::ERROR_INITIALIZATION_FAILED;
use ash_layer::LayerState;
use ash_layer::SUCCESS;

#[test]
fn structure_type_tags_match_the_bindings() {
    assert_eq!(
        LOADER_INSTANCE_CREATE_INFO,
        vk::StructureType::LOADER_INSTANCE_CREATE_INFO.as_raw()
    );
    assert_eq!(
        LOADER_DEVICE_CREATE_INFO,
        vk::StructureType::LOADER_DEVICE_CREATE_INFO.as_raw()
    );
}

#[test]
fn result_codes_match_the_bindings() {
    assert_eq!(SUCCESS, vk::Result::SUCCESS.as_raw());
    assert_eq!(
        ERROR_INITIALIZATION_FAILED,
        vk::Result::ERROR_INITIALIZATION_FAILED.as_raw()
    );
}

#[test]
fn default_records_are_empty_link_info_records() {
    let i = InstanceChainRecord::default();
    assert_eq!(i.s_type, LOADER_INSTANCE_CREATE_INFO);
    assert_eq!(i.function.as_raw(), 0);
    assert!(i.links.is_empty());
    let d = DeviceChainRecord::default();
    assert_eq!(d.s_type, LOADER_DEVICE_CREATE_INFO);
    assert_eq!(d.function.as_raw(), 0);
    assert!(d.links.is_empty());
}

#[test]
fn reregistered_phys_device_follows_the_last_writer() {
    // Two instances may report the same physical device; the
    // back-reference follows the most recent registration, and an
    // unconditional removal takes it out.
    let mut state = LayerState::new();
    assert_eq!(state.register_instance(1, vec![50], 11, 12), SUCCESS);
    assert_eq!(state.register_instance(2, vec![50], 21, 22), SUCCESS);
    assert_eq!(state.phys_device_owner(50), Some(2));
    assert_eq!(state.destroy_instance(1), Some(11));
    // Instance 1's snapshot held 50, so its destruction removed the entry.
    assert!(state.phys_device_owner(50).is_none());
    assert!(state.has_instance(2));
    assert_eq!(state.destroy_instance(2), Some(21));
}

#[test]
fn extreme_handles_are_ordinary_keys() {
    let mut state = LayerState::new();
    assert_eq!(
        state.register_instance(u64::MAX, vec![0, u64::MAX - 1], 1, 2),
        SUCCESS
    );
    assert_eq!(state.phys_device_owner(0), Some(u64::MAX));
    assert_eq!(state.phys_device_owner(u64::MAX - 1), Some(u64::MAX));
    assert_eq!(state.destroy_instance(u64::MAX), Some(1));
    assert!(state.phys_device_owner(0).is_none());
}
