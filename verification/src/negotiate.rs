//! Version negotiation: the one entry point the loader calls first.  The
//! layer sets the agreed interface version to the highest it supports and
//! hands back its three dispatch entry points, whatever version the loader
//! asked for.

use vstd::prelude::*;

use crate::resolve::Interceptor;
use crate::sys::NegotiateLayerStructType;
use crate::sys::SUCCESS;

verus! {

/// The highest loader-layer interface version this layer supports.
pub const NEGOTIATED_INTERFACE_VERSION: u32 = 2;

/// The negotiation record the loader hands in: its tag, the version the
/// loader requested (overwritten with the agreed one), and the three
/// resolver slots the layer fills.  The slots name the layer's own
/// interceptors; the shell around the library turns them into the exported
/// function pointers.
pub struct NegotiateInterface {
    pub s_type: NegotiateLayerStructType,
    pub loader_layer_interface_version: u32,
    pub get_instance_proc_addr: Option<Interceptor>,
    pub get_device_proc_addr: Option<Interceptor>,
    pub get_physical_device_proc_addr: Option<Interceptor>,
}

/// Performs the negotiation.  Law: whatever version the loader requested,
/// the record leaves with version 2 and the three fixed entry points, and
/// the call reports success — the protocol defines no failure for this
/// step.
pub fn negotiate_loader_layer_interface(version_struct: &mut NegotiateInterface) -> (r: i32)
    ensures
        r == SUCCESS,
        final(version_struct).loader_layer_interface_version == NEGOTIATED_INTERFACE_VERSION,
        final(version_struct).get_instance_proc_addr == Some(Interceptor::GetInstanceProcAddr),
        final(version_struct).get_device_proc_addr == Some(Interceptor::GetDeviceProcAddr),
        final(version_struct).get_physical_device_proc_addr == Some(
            Interceptor::GetPhysicalDeviceProcAddr,
        ),
        final(version_struct).s_type == old(version_struct).s_type,
{
    version_struct.loader_layer_interface_version = NEGOTIATED_INTERFACE_VERSION;
    version_struct.get_instance_proc_addr = Some(Interceptor::GetInstanceProcAddr);
    version_struct.get_device_proc_addr = Some(Interceptor::GetDeviceProcAddr);
    version_struct.get_physical_device_proc_addr = Some(Interceptor::GetPhysicalDeviceProcAddr);
    SUCCESS
}

} // verus!
