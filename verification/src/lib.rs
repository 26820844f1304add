//! A verified core for a graphics-API intercept layer.
//!
//! The layer sits between a loader/application and the next layer or driver.
//! This crate holds the layer's decision logic over plain values: walking the
//! create-info extension chain, negotiating the loader protocol version,
//! resolving entry-point names to interceptors or forward targets, and the
//! bookkeeping that maps opaque handles to per-object state.  The thin
//! foreign-function shell that turns raw structures into these plain values
//! lives outside the verified library.

mod chain;
mod layer;
mod negotiate;
mod registry;
mod resolve;
mod sys;

pub use chain::DeviceChainRecord;
pub use chain::DeviceLink;
pub use chain::InstanceChainRecord;
pub use chain::InstanceLink;
pub use chain::LOADER_DEVICE_CREATE_INFO;
pub use chain::LOADER_INSTANCE_CREATE_INFO;
pub use chain::device_chain_find;
pub use chain::device_record_matches;
pub use chain::get_device_chain_info;
pub use chain::get_instance_chain_info;
pub use chain::instance_chain_find;
pub use chain::instance_record_matches;
pub use chain::lemma_device_chain_find_absent;
pub use chain::lemma_device_chain_find_characterizes;
pub use chain::lemma_device_chain_find_unique;
pub use chain::lemma_instance_chain_find_absent;
pub use chain::lemma_instance_chain_find_characterizes;
pub use chain::lemma_instance_chain_find_unique;
pub use chain::pop_device_link;
pub use chain::pop_instance_link;
pub use layer::DeviceBegin;
pub use layer::create_device_begin;
pub use layer::create_instance_begin;
pub use layer::device_link_available;
pub use layer::instance_link_available;
pub use negotiate::NEGOTIATED_INTERFACE_VERSION;
pub use negotiate::NegotiateInterface;
pub use negotiate::negotiate_loader_layer_interface;
pub use registry::DeviceRecord;
pub use registry::InstanceRecord;
pub use registry::InstanceRecordModel;
pub use registry::LayerState;
pub use registry::StateModel;
pub use registry::backrefs_within_snapshot;
pub use registry::insert_all;
pub use registry::lemma_consistency_preserved_by_creation;
pub use registry::lemma_consistency_preserved_by_destroy_device;
pub use registry::lemma_consistency_preserved_by_destroy_instance;
pub use registry::lemma_destroy_device_idempotent;
pub use registry::lemma_destroy_instance_idempotent;
pub use registry::lemma_phys_device_backrefs;
pub use registry::lemma_set_once_first_write_wins;
pub use registry::registries_consistent;
pub use registry::remove_all;
pub use registry::set_once;
pub use registry::spec_destroy_device;
pub use registry::spec_destroy_instance;
pub use registry::spec_register_device;
pub use registry::spec_register_instance;
pub use resolve::Interceptor;
pub use resolve::Resolution;
pub use resolve::lemma_device_resolution_after_capture;
pub use resolve::lemma_shielding_hides_enumeration;
pub use resolve::resolve_device;
pub use resolve::resolve_instance;
pub use resolve::resolve_next_device;
pub use resolve::resolve_next_instance;
pub use resolve::resolve_phys_device;
pub use resolve::spec_resolve_device;
pub use resolve::spec_resolve_instance;
pub use resolve::spec_resolve_next_device;
pub use resolve::spec_resolve_next_instance;
pub use resolve::spec_resolve_phys_device;
pub use sys::ChainHeader;
pub use sys::ChainType;
pub use sys::ERROR_INITIALIZATION_FAILED;
pub use sys::LayerFunction;
pub use sys::NegotiateLayerStructType;
pub use sys::SUCCESS;
