//! The create protocols' chain handling: before forwarding a create call,
//! the layer must find its link-info record in the create-info extension
//! chain, pop its own link so the next layer down sees the remainder, and
//! capture the next layer's resolvers.  A chain without the record aborts
//! the creation with initialization-failed and leaves every registry and
//! set-once cell untouched.

use vstd::prelude::*;

use crate::chain::DeviceChainRecord;
use crate::chain::DeviceLink;
use crate::chain::InstanceChainRecord;
use crate::chain::InstanceLink;
use crate::chain::device_chain_find;
use crate::chain::get_device_chain_info;
use crate::chain::get_instance_chain_info;
use crate::chain::instance_chain_find;
use crate::chain::pop_device_link;
use crate::chain::pop_instance_link;
use crate::registry::LayerState;
use crate::registry::StateModel;
use crate::registry::set_once;
use crate::sys::ERROR_INITIALIZATION_FAILED;
use crate::sys::LayerFunction;

verus! {

/// Whether an instance create-info chain carries a usable link-info record:
/// one is present and still holds a link for this layer to consume.
pub open spec fn instance_link_available(chain: Seq<InstanceChainRecord>) -> bool {
    match instance_chain_find(chain, LayerFunction(0)) {
        Some(i) => chain[i].links.len() > 0,
        None => false,
    }
}

/// Whether a device create-info chain carries a usable link-info record.
pub open spec fn device_link_available(chain: Seq<DeviceChainRecord>) -> bool {
    match device_chain_find(chain, LayerFunction(0)) {
        Some(i) => chain[i].links.len() > 0,
        None => false,
    }
}

/// What create-device learned before forwarding: the owning instance, its
/// create-device entry point to forward through, and the popped link with
/// the next layer's resolvers.
#[derive(Debug)]
pub struct DeviceBegin {
    pub owning_instance: u64,
    pub create_device_pfn: u64,
    pub link: DeviceLink,
}

/// The first steps of create-instance: walk the chain for the link-info
/// record, pop this layer's link, and capture the next layer's
/// physical-device resolver (first write wins).  Fails with
/// initialization-failed when the chain has no usable record — and then
/// changes nothing: no registry entry and no set-once write.
pub fn create_instance_begin(
    state: &mut LayerState,
    chain: &mut Vec<InstanceChainRecord>,
) -> (r: Result<InstanceLink, i32>)
    ensures
        match r {
            Ok(link) => {
                let i = instance_chain_find(old(chain)@, LayerFunction(0)).unwrap();
                &&& instance_link_available(old(chain)@)
                &&& link == old(chain)@[i].links@[0]
                &&& final(chain)@.len() == old(chain)@.len()
                &&& final(chain)@[i].s_type == old(chain)@[i].s_type
                &&& final(chain)@[i].function == old(chain)@[i].function
                &&& final(chain)@[i].links@ == old(chain)@[i].links@.drop_first()
                &&& forall|j: int|
                    0 <= j < old(chain)@.len() && j != i ==> final(chain)@[j] == old(chain)@[j]
                &&& final(state)@ =~= (StateModel {
                    gphypa: set_once(
                        old(state)@.gphypa,
                        link.next_get_physical_device_proc_addr,
                    ),
                    ..old(state)@
                })
            },
            Err(code) => {
                &&& !instance_link_available(old(chain)@)
                &&& code == ERROR_INITIALIZATION_FAILED
                &&& final(chain)@ == old(chain)@
                &&& final(state)@ =~= old(state)@
            },
        },
{
    let function = LayerFunction::from_raw(0);
    match get_instance_chain_info(chain, function) {
        Some(i) => {
            if chain[i].links.len() > 0 {
                let link = pop_instance_link(chain, i);
                state.capture_phys_device_resolver(link.next_get_physical_device_proc_addr);
                Ok(link)
            } else {
                Err(ERROR_INITIALIZATION_FAILED)
            }
        },
        None => Err(ERROR_INITIALIZATION_FAILED),
    }
}

/// The first steps of create-device: resolve the owning instance through
/// the physical-device back-reference, walk the device chain for the
/// link-info record, and pop this layer's link.  The physical device must
/// have been registered by a successful create-instance — creating a device
/// against an unknown handle is a caller error the driver contract rules
/// out.  Fails with initialization-failed when the chain has no usable
/// record, and then changes nothing.
pub fn create_device_begin(
    state: &LayerState,
    phys_device: u64,
    chain: &mut Vec<DeviceChainRecord>,
) -> (r: Result<DeviceBegin, i32>)
    requires
        state@.phys_to_instance.contains_key(phys_device),
        state@.instances.contains_key(state@.phys_to_instance[phys_device]),
    ensures
        match r {
            Ok(begin) => {
                let i = device_chain_find(old(chain)@, LayerFunction(0)).unwrap();
                &&& device_link_available(old(chain)@)
                &&& begin.owning_instance == state@.phys_to_instance[phys_device]
                &&& ({
                    let owner = state@.phys_to_instance[phys_device];
                    begin.create_device_pfn == state@.instances[owner].create_device_pfn
                })
                &&& begin.link == old(chain)@[i].links@[0]
                &&& final(chain)@.len() == old(chain)@.len()
                &&& final(chain)@[i].s_type == old(chain)@[i].s_type
                &&& final(chain)@[i].function == old(chain)@[i].function
                &&& final(chain)@[i].links@ == old(chain)@[i].links@.drop_first()
                &&& forall|j: int|
                    0 <= j < old(chain)@.len() && j != i ==> final(chain)@[j] == old(chain)@[j]
            },
            Err(code) => {
                &&& !device_link_available(old(chain)@)
                &&& code == ERROR_INITIALIZATION_FAILED
                &&& final(chain)@ == old(chain)@
            },
        },
{
    let owning_instance = match state.phys_device_owner(phys_device) {
        Some(h) => h,
        None => {
            proof {
                assert(false);
            }
            return Err(ERROR_INITIALIZATION_FAILED);
        },
    };
    let create_device_pfn = match state.instance_create_device_pfn(owning_instance) {
        Some(pfn) => pfn,
        None => {
            proof {
                assert(false);
            }
            return Err(ERROR_INITIALIZATION_FAILED);
        },
    };
    let function = LayerFunction::from_raw(0);
    match get_device_chain_info(chain, function) {
        Some(i) => {
            if chain[i].links.len() > 0 {
                let link = pop_device_link(chain, i);
                Ok(DeviceBegin { owning_instance, create_device_pfn, link })
            } else {
                Err(ERROR_INITIALIZATION_FAILED)
            }
        },
        None => Err(ERROR_INITIALIZATION_FAILED),
    }
}

} // verus!
