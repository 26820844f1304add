use ash_layer::ERROR_INITIALIZATION_FAILED;
use ash_layer::InstanceChainRecord;
use ash_layer::InstanceLink;
use ash_layer::Interceptor;
use ash_layer::LOADER_INSTANCE_CREATE_INFO;
use ash_layer::LayerFunction;
use ash_layer::LayerState;
use ash_layer::NegotiateInterface;
use ash_layer::NegotiateLayerStructType;
use ash_layer::Resolution;
use ash_layer::SUCCESS;
use ash_layer::create_instance_begin;
use ash_layer::negotiate_loader_layer_interface;
use ash_layer::resolve_instance;

fn linked_chain(gipa: u64, gphypa: u64) -> Vec<InstanceChainRecord> {
    vec![
        InstanceChainRecord {
            s_type: LOADER_INSTANCE_CREATE_INFO,
            function: LayerFunction::from_raw(0),
            links: vec![
                InstanceLink {
                    next_get_instance_proc_addr: gipa,
                    next_get_physical_device_proc_addr: gphypa,
                },
            ],
        },
    ]
}

#[test]
fn instance_creation_registers_every_enumerated_phys_device() {
    // Negotiate first, as the loader would.
    let mut record = NegotiateInterface {
        s_type: NegotiateLayerStructType::interface_struct(),
        loader_layer_interface_version: 1,
        get_instance_proc_addr: None,
        get_device_proc_addr: None,
        get_physical_device_proc_addr: None,
    };
    assert_eq!(negotiate_loader_layer_interface(&mut record), SUCCESS);

    let mut state = LayerState::new();
    let mut chain = linked_chain(100, 200);
    let link = create_instance_begin(&mut state, &mut chain).unwrap();
    assert_eq!(link.next_get_instance_proc_addr, 100);

    // The forwarded call succeeded with a new instance handle and the
    // enumeration reported two physical devices.
    let h1: u64 = 1001;
    let (p1, p2): (u64, u64) = (51, 52);
    state.capture_instance_resolver(link.next_get_instance_proc_addr);
    assert_eq!(state.register_instance(h1, vec![p1, p2], 901, 902), SUCCESS);

    assert!(state.has_instance(h1));
    assert_eq!(state.phys_device_owner(p1), Some(h1));
    assert_eq!(state.phys_device_owner(p2), Some(h1));

    // Destruction removes the record and both back-references, and hands
    // back the captured destroy entry point to forward to.
    assert_eq!(state.destroy_instance(h1), Some(901));
    assert!(!state.has_instance(h1));
    assert!(state.phys_device_owner(p1).is_none());
    assert!(state.phys_device_owner(p2).is_none());
}

#[test]
fn failed_chain_lookup_leaves_no_partial_state() {
    let mut state = LayerState::new();
    // A chain whose only record is not a link-info record.
    let mut chain = vec![
        InstanceChainRecord {
            s_type: LOADER_INSTANCE_CREATE_INFO,
            function: LayerFunction::from_raw(3),
            links: vec![],
        },
    ];
    let r = create_instance_begin(&mut state, &mut chain);
    assert_eq!(r.unwrap_err(), ERROR_INITIALIZATION_FAILED);
    // No singleton write happened: an unknown name still resolves to
    // nothing instead of forwarding.
    let name = String::from("vkQueueSubmit");
    assert!(resolve_instance(&state, &name) == Resolution::Unavailable);
    assert!(!state.has_instance(1001));
}

#[test]
fn empty_link_list_fails_creation_too() {
    let mut state = LayerState::new();
    let mut chain = vec![
        InstanceChainRecord {
            s_type: LOADER_INSTANCE_CREATE_INFO,
            function: LayerFunction::from_raw(0),
            links: vec![],
        },
    ];
    let r = create_instance_begin(&mut state, &mut chain);
    assert_eq!(r.unwrap_err(), ERROR_INITIALIZATION_FAILED);
}

#[test]
fn destroy_instance_is_idempotent() {
    let mut state = LayerState::new();
    assert_eq!(state.register_instance(7, vec![70], 71, 72), SUCCESS);
    assert_eq!(state.destroy_instance(7), Some(71));
    // The second destruction, and one for a handle never seen, are no-ops.
    assert!(state.destroy_instance(7).is_none());
    assert!(state.destroy_instance(4242).is_none());
    assert!(!state.has_instance(7));
}

#[test]
fn phys_device_resolver_capture_is_first_write_wins() {
    let mut state = LayerState::new();
    let mut first = linked_chain(1, 111);
    let mut second = linked_chain(2, 222);
    create_instance_begin(&mut state, &mut first).unwrap();
    create_instance_begin(&mut state, &mut second).unwrap();
    // The physical-device dispatch forwards unknown names to the first
    // captured resolver.
    let name = String::from("vkGetPhysicalDeviceFeatures");
    assert!(ash_layer::resolve_phys_device(&state, &name) == Resolution::Forward(111));
}

#[test]
fn instance_resolver_capture_is_first_write_wins() {
    let mut state = LayerState::new();
    state.capture_instance_resolver(100);
    state.capture_instance_resolver(300);
    let name = String::from("vkQueueSubmit");
    assert!(resolve_instance(&state, &name) == Resolution::Forward(100));
}

#[test]
fn creation_pops_this_layer_off_the_chain() {
    let mut state = LayerState::new();
    let mut chain = vec![
        InstanceChainRecord {
            s_type: LOADER_INSTANCE_CREATE_INFO,
            function: LayerFunction::from_raw(0),
            links: vec![
                InstanceLink {
                    next_get_instance_proc_addr: 10,
                    next_get_physical_device_proc_addr: 11,
                },
                InstanceLink {
                    next_get_instance_proc_addr: 20,
                    next_get_physical_device_proc_addr: 21,
                },
            ],
        },
    ];
    let link = create_instance_begin(&mut state, &mut chain).unwrap();
    assert_eq!(link.next_get_instance_proc_addr, 10);
    // Downstream sees the shortened chain headed by the next layer's link.
    assert_eq!(chain[0].links.len(), 1);
    assert_eq!(chain[0].links[0].next_get_instance_proc_addr, 20);
}

#[test]
fn intercepted_instance_names_resolve_to_interceptors() {
    let state = LayerState::new();
    let cases: [(&str, Interceptor); 7] = [
        ("vkGetInstanceProcAddr", Interceptor::GetInstanceProcAddr),
        ("vkCreateInstance", Interceptor::CreateInstance),
        ("vkDestroyInstance", Interceptor::DestroyInstance),
        ("vkGetDeviceProcAddr", Interceptor::GetDeviceProcAddr),
        ("vkCreateDevice", Interceptor::CreateDevice),
        ("vkDestroyDevice", Interceptor::DestroyDevice),
        (
            "vk_layerGetPhysicalDeviceProcAddr",
            Interceptor::GetPhysicalDeviceProcAddr,
        ),
    ];
    for (name, expected) in cases {
        let name = String::from(name);
        assert!(resolve_instance(&state, &name) == Resolution::Intercepted(expected));
    }
}
