//! The proc-address tables: each dispatch point is a finite lookup keyed by
//! entry-point name, consulted top-down.  A name resolves to one of the
//! layer's own interceptors, to a forward target captured from the next
//! layer down, or to nothing — resolution is a pure lookup and mutates no
//! registry.

use vstd::prelude::*;

use crate::registry::LayerState;
use crate::registry::StateModel;

verus! {

broadcast use vstd::std_specs::hash::group_hash_axioms;

/// The layer's own entry points, as a resolver hands them out.
#[derive(Clone, Copy, PartialEq, Eq, Structural)]
pub enum Interceptor {
    GetInstanceProcAddr,
    GetDeviceProcAddr,
    GetPhysicalDeviceProcAddr,
    CreateInstance,
    DestroyInstance,
    CreateDevice,
    DestroyDevice,
    /// The downstream-shielding instance-level resolver the layer hands to
    /// the next layer down.
    NextInstanceProcAddr,
    /// The downstream-shielding device-level resolver.
    NextDeviceProcAddr,
}

/// What a name resolves to: one of this layer's interceptors, a captured
/// next-layer entry point to call with the same arguments, or no function.
#[derive(Clone, Copy, PartialEq, Eq, Structural)]
pub enum Resolution {
    Intercepted(Interceptor),
    Forward(u64),
    Unavailable,
}

/// Whether an entry-point name equals an expected literal.
fn name_is(name: &String, expected: &str) -> (r: bool)
    ensures
        r == (name@ == expected@),
{
    let e: String = expected.to_owned();
    *name == e
}

/// The instance-level dispatch table: the layer's seven instance-scope
/// names are intercepted; every other name forwards to the captured
/// upstream instance resolver, and fails while none is captured.
pub open spec fn spec_resolve_instance(m: StateModel, name: Seq<char>) -> Resolution {
    if name == "vkGetInstanceProcAddr"@ {
        Resolution::Intercepted(Interceptor::GetInstanceProcAddr)
    } else if name == "vkCreateInstance"@ {
        Resolution::Intercepted(Interceptor::CreateInstance)
    } else if name == "vkDestroyInstance"@ {
        Resolution::Intercepted(Interceptor::DestroyInstance)
    } else if name == "vkGetDeviceProcAddr"@ {
        Resolution::Intercepted(Interceptor::GetDeviceProcAddr)
    } else if name == "vkCreateDevice"@ {
        Resolution::Intercepted(Interceptor::CreateDevice)
    } else if name == "vkDestroyDevice"@ {
        Resolution::Intercepted(Interceptor::DestroyDevice)
    } else if name == "vk_layerGetPhysicalDeviceProcAddr"@ {
        Resolution::Intercepted(Interceptor::GetPhysicalDeviceProcAddr)
    } else {
        match m.gipa {
            Some(pfn) => Resolution::Forward(pfn),
            None => Resolution::Unavailable,
        }
    }
}

/// Resolves a name at the instance-level dispatch point.
pub fn resolve_instance(state: &LayerState, name: &String) -> (r: Resolution)
    ensures
        r == spec_resolve_instance(state@, name@),
{
    if name_is(name, "vkGetInstanceProcAddr") {
        Resolution::Intercepted(Interceptor::GetInstanceProcAddr)
    } else if name_is(name, "vkCreateInstance") {
        Resolution::Intercepted(Interceptor::CreateInstance)
    } else if name_is(name, "vkDestroyInstance") {
        Resolution::Intercepted(Interceptor::DestroyInstance)
    } else if name_is(name, "vkGetDeviceProcAddr") {
        Resolution::Intercepted(Interceptor::GetDeviceProcAddr)
    } else if name_is(name, "vkCreateDevice") {
        Resolution::Intercepted(Interceptor::CreateDevice)
    } else if name_is(name, "vkDestroyDevice") {
        Resolution::Intercepted(Interceptor::DestroyDevice)
    } else if name_is(name, "vk_layerGetPhysicalDeviceProcAddr") {
        Resolution::Intercepted(Interceptor::GetPhysicalDeviceProcAddr)
    } else {
        match state.next_instance_proc_addr {
            Some(pfn) => Resolution::Forward(pfn),
            None => Resolution::Unavailable,
        }
    }
}

/// The device-level dispatch table: three names are intercepted; every
/// other name forwards to the next-layer resolver captured for that very
/// device, and fails for a device the layer never saw.
pub open spec fn spec_resolve_device(m: StateModel, device: u64, name: Seq<char>) -> Resolution {
    if name == "vkGetDeviceProcAddr"@ {
        Resolution::Intercepted(Interceptor::GetDeviceProcAddr)
    } else if name == "vkCreateDevice"@ {
        Resolution::Intercepted(Interceptor::CreateDevice)
    } else if name == "vkDestroyDevice"@ {
        Resolution::Intercepted(Interceptor::DestroyDevice)
    } else if m.device_gdpa.contains_key(device) {
        Resolution::Forward(m.device_gdpa[device])
    } else {
        Resolution::Unavailable
    }
}

/// Resolves a name at the device-level dispatch point.
pub fn resolve_device(state: &LayerState, device: u64, name: &String) -> (r: Resolution)
    ensures
        r == spec_resolve_device(state@, device, name@),
{
    if name_is(name, "vkGetDeviceProcAddr") {
        Resolution::Intercepted(Interceptor::GetDeviceProcAddr)
    } else if name_is(name, "vkCreateDevice") {
        Resolution::Intercepted(Interceptor::CreateDevice)
    } else if name_is(name, "vkDestroyDevice") {
        Resolution::Intercepted(Interceptor::DestroyDevice)
    } else {
        match state.device_proc_addr.get(&device) {
            Some(pfn) => Resolution::Forward(*pfn),
            None => Resolution::Unavailable,
        }
    }
}

/// The physical-device dispatch table: create-device alone is intercepted;
/// all else forwards to the captured upstream physical-device resolver.
pub open spec fn spec_resolve_phys_device(m: StateModel, name: Seq<char>) -> Resolution {
    if name == "vkCreateDevice"@ {
        Resolution::Intercepted(Interceptor::CreateDevice)
    } else {
        match m.gphypa {
            Some(pfn) => Resolution::Forward(pfn),
            None => Resolution::Unavailable,
        }
    }
}

/// Resolves a name at the physical-device dispatch point.
pub fn resolve_phys_device(state: &LayerState, name: &String) -> (r: Resolution)
    ensures
        r == spec_resolve_phys_device(state@, name@),
{
    if name_is(name, "vkCreateDevice") {
        Resolution::Intercepted(Interceptor::CreateDevice)
    } else {
        match state.next_phys_device_proc_addr {
            Some(pfn) => Resolution::Forward(pfn),
            None => Resolution::Unavailable,
        }
    }
}

/// The downstream-shielding instance resolver, handed to the next layer
/// down when it resolves further names: it re-exposes the two shielding
/// resolvers and deliberately reports the three global enumeration entry
/// points as absent — querying them through this path crashes a commonly
/// installed downstream layer.
pub open spec fn spec_resolve_next_instance(m: StateModel, name: Seq<char>) -> Resolution {
    if name == "vkGetInstanceProcAddr"@ {
        Resolution::Intercepted(Interceptor::NextInstanceProcAddr)
    } else if name == "vkGetDeviceProcAddr"@ {
        Resolution::Intercepted(Interceptor::NextDeviceProcAddr)
    } else if name == "vkEnumerateInstanceExtensionProperties"@ {
        Resolution::Unavailable
    } else if name == "vkEnumerateInstanceLayerProperties"@ {
        Resolution::Unavailable
    } else if name == "vkEnumerateInstanceVersion"@ {
        Resolution::Unavailable
    } else {
        match m.gipa {
            Some(pfn) => Resolution::Forward(pfn),
            None => Resolution::Unavailable,
        }
    }
}

/// Resolves a name at the downstream-shielding instance dispatch point.
pub fn resolve_next_instance(state: &LayerState, name: &String) -> (r: Resolution)
    ensures
        r == spec_resolve_next_instance(state@, name@),
{
    if name_is(name, "vkGetInstanceProcAddr") {
        Resolution::Intercepted(Interceptor::NextInstanceProcAddr)
    } else if name_is(name, "vkGetDeviceProcAddr") {
        Resolution::Intercepted(Interceptor::NextDeviceProcAddr)
    } else if name_is(name, "vkEnumerateInstanceExtensionProperties") {
        Resolution::Unavailable
    } else if name_is(name, "vkEnumerateInstanceLayerProperties") {
        Resolution::Unavailable
    } else if name_is(name, "vkEnumerateInstanceVersion") {
        Resolution::Unavailable
    } else {
        match state.next_instance_proc_addr {
            Some(pfn) => Resolution::Forward(pfn),
            None => Resolution::Unavailable,
        }
    }
}

/// The downstream-shielding device resolver.
pub open spec fn spec_resolve_next_device(m: StateModel, device: u64, name: Seq<char>) -> Resolution {
    if name == "vkGetDeviceProcAddr"@ {
        Resolution::Intercepted(Interceptor::NextDeviceProcAddr)
    } else if m.device_gdpa.contains_key(device) {
        Resolution::Forward(m.device_gdpa[device])
    } else {
        Resolution::Unavailable
    }
}

/// Resolves a name at the downstream-shielding device dispatch point.
pub fn resolve_next_device(state: &LayerState, device: u64, name: &String) -> (r: Resolution)
    ensures
        r == spec_resolve_next_device(state@, device, name@),
{
    if name_is(name, "vkGetDeviceProcAddr") {
        Resolution::Intercepted(Interceptor::NextDeviceProcAddr)
    } else {
        match state.device_proc_addr.get(&device) {
            Some(pfn) => Resolution::Forward(*pfn),
            None => Resolution::Unavailable,
        }
    }
}

/// Law: the downstream-shielding resolver reports the three global
/// enumeration entry points as absent whatever the state holds — even when
/// the real driver implements them.
pub proof fn lemma_shielding_hides_enumeration(m: StateModel, name: Seq<char>)
    requires
        name == "vkEnumerateInstanceExtensionProperties"@ || name
            == "vkEnumerateInstanceLayerProperties"@ || name == "vkEnumerateInstanceVersion"@,
    ensures
        spec_resolve_next_instance(m, name) == Resolution::Unavailable,
{
    reveal_strlit("vkGetInstanceProcAddr");
    reveal_strlit("vkGetDeviceProcAddr");
    reveal_strlit("vkEnumerateInstanceExtensionProperties");
    reveal_strlit("vkEnumerateInstanceLayerProperties");
    reveal_strlit("vkEnumerateInstanceVersion");
    assert("vkEnumerateInstanceExtensionProperties"@.len() == 38);
    assert("vkGetInstanceProcAddr"@.len() == 21);
    assert("vkGetDeviceProcAddr"@.len() == 19);
    assert("vkEnumerateInstanceLayerProperties"@.len() == 34);
    assert("vkEnumerateInstanceVersion"@.len() == 26);
}

/// Law: once a device's next-layer resolver is captured, the device-level
/// dispatch point intercepts exactly its three fixed names and forwards
/// every other name to the resolver captured for that very device.
pub proof fn lemma_device_resolution_after_capture(
    m: StateModel,
    device: u64,
    pfn: u64,
    name: Seq<char>,
)
    ensures
        ({
            let captured = StateModel { device_gdpa: m.device_gdpa.insert(device, pfn), ..m };
            &&& name == "vkGetDeviceProcAddr"@ ==> spec_resolve_device(captured, device, name)
                == Resolution::Intercepted(Interceptor::GetDeviceProcAddr)
            &&& name == "vkCreateDevice"@ ==> spec_resolve_device(captured, device, name)
                == Resolution::Intercepted(Interceptor::CreateDevice)
            &&& name == "vkDestroyDevice"@ ==> spec_resolve_device(captured, device, name)
                == Resolution::Intercepted(Interceptor::DestroyDevice)
            &&& (name != "vkGetDeviceProcAddr"@ && name != "vkCreateDevice"@ && name
                != "vkDestroyDevice"@) ==> spec_resolve_device(captured, device, name)
                == Resolution::Forward(pfn)
        }),
{
    reveal_strlit("vkGetDeviceProcAddr");
    reveal_strlit("vkCreateDevice");
    reveal_strlit("vkDestroyDevice");
    assert("vkGetDeviceProcAddr"@.len() == 19);
    assert("vkCreateDevice"@.len() == 14);
    assert("vkDestroyDevice"@.len() == 15);
}

} // verus!
