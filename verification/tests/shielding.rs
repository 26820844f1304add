use ash_layer::Interceptor;
use ash_layer::LayerState;
use ash_layer::Resolution;
use ash_layer::resolve_next_instance;
use ash_layer::resolve_phys_device;

#[test]
fn shielding_resolver_hides_global_enumeration_names() {
    // Even with an upstream resolver captured — the real driver may well
    // implement these — the three global enumeration entry points resolve
    // to nothing through this path.
    let mut captured = LayerState::new();
    captured.capture_instance_resolver(100);
    let bare = LayerState::new();
    for name in [
        "vkEnumerateInstanceExtensionProperties",
        "vkEnumerateInstanceLayerProperties",
        "vkEnumerateInstanceVersion",
    ] {
        let name = String::from(name);
        assert!(resolve_next_instance(&captured, &name) == Resolution::Unavailable);
        assert!(resolve_next_instance(&bare, &name) == Resolution::Unavailable);
    }
}

#[test]
fn shielding_resolver_reexposes_the_two_dispatchers() {
    let state = LayerState::new();
    let gipa = String::from("vkGetInstanceProcAddr");
    assert!(
        resolve_next_instance(&state, &gipa)
            == Resolution::Intercepted(Interceptor::NextInstanceProcAddr)
    );
    let gdpa = String::from("vkGetDeviceProcAddr");
    assert!(
        resolve_next_instance(&state, &gdpa)
            == Resolution::Intercepted(Interceptor::NextDeviceProcAddr)
    );
}

#[test]
fn shielding_resolver_forwards_other_names_upstream() {
    let mut state = LayerState::new();
    state.capture_instance_resolver(100);
    let name = String::from("vkEnumeratePhysicalDevices");
    assert!(resolve_next_instance(&state, &name) == Resolution::Forward(100));
    let bare = LayerState::new();
    assert!(resolve_next_instance(&bare, &name) == Resolution::Unavailable);
}

#[test]
fn phys_device_resolver_intercepts_create_device_only() {
    let mut state = LayerState::new();
    state.capture_phys_device_resolver(200);
    let create_device = String::from("vkCreateDevice");
    assert!(
        resolve_phys_device(&state, &create_device)
            == Resolution::Intercepted(Interceptor::CreateDevice)
    );
    let other = String::from("vkGetPhysicalDeviceFeatures");
    assert!(resolve_phys_device(&state, &other) == Resolution::Forward(200));
    let bare = LayerState::new();
    assert!(resolve_phys_device(&bare, &other) == Resolution::Unavailable);
}
