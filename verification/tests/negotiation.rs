use ash_layer::Interceptor;
use ash_layer::NegotiateInterface;
use ash_layer::NegotiateLayerStructType;
use ash_layer::SUCCESS;
use ash_layer::negotiate_loader_layer_interface;

fn fresh_record(requested_version: u32) -> NegotiateInterface {
    NegotiateInterface {
        s_type: NegotiateLayerStructType::interface_struct(),
        loader_layer_interface_version: requested_version,
        get_instance_proc_addr: None,
        get_device_proc_addr: None,
        get_physical_device_proc_addr: None,
    }
}

#[test]
fn negotiation_reports_version_2_and_fixed_entry_points() {
    // Whatever version the loader asked for, the outcome is the same.
    for requested in [0u32, 1, 2, 3, 7, u32::MAX] {
        let mut record = fresh_record(requested);
        let result = negotiate_loader_layer_interface(&mut record);
        assert_eq!(result, SUCCESS);
        assert_eq!(record.loader_layer_interface_version, 2);
        assert!(record.get_instance_proc_addr == Some(Interceptor::GetInstanceProcAddr));
        assert!(record.get_device_proc_addr == Some(Interceptor::GetDeviceProcAddr));
        assert!(
            record.get_physical_device_proc_addr
                == Some(Interceptor::GetPhysicalDeviceProcAddr)
        );
    }
}

#[test]
fn negotiation_keeps_the_record_tag() {
    let mut record = fresh_record(1);
    negotiate_loader_layer_interface(&mut record);
    assert_eq!(record.s_type.as_raw(), 1);
}

#[test]
fn tag_newtypes_round_trip() {
    assert_eq!(NegotiateLayerStructType::from_raw(5).as_raw(), 5);
    assert_eq!(NegotiateLayerStructType::uninitialized().as_raw(), 0);
    assert_eq!(NegotiateLayerStructType::interface_struct().as_raw(), 1);
    assert_eq!(ash_layer::LayerFunction::from_raw(-7).as_raw(), -7);
    assert_eq!(ash_layer::LayerFunction::layer_link_info().as_raw(), 0);
    assert_eq!(ash_layer::LayerFunction::loader_data_callback().as_raw(), 1);
    assert_eq!(
        ash_layer::LayerFunction::loader_layer_create_device_callback().as_raw(),
        2
    );
    assert_eq!(ash_layer::LayerFunction::loader_features().as_raw(), 3);
    assert_eq!(ash_layer::ChainType::from_raw(9).as_raw(), 9);
    assert_eq!(ash_layer::ChainType::unknown().as_raw(), 0);
    assert_eq!(
        ash_layer::ChainType::enumerate_instance_extension_properties().as_raw(),
        1
    );
    assert_eq!(
        ash_layer::ChainType::enumerate_instance_layer_properties().as_raw(),
        2
    );
    assert_eq!(ash_layer::ChainType::enumerate_instance_version().as_raw(), 3);
}

#[test]
fn chain_header_carries_its_fields() {
    let header = ash_layer::ChainHeader::new(ash_layer::ChainType::from_raw(2), 4, 32);
    assert_eq!(header.ty.as_raw(), 2);
    assert_eq!(header.version, 4);
    assert_eq!(header.size, 32);
}
