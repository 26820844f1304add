//! Plain carriers for the fixed external protocol: the tag newtypes used by
//! the loader's negotiation record, the chain-link "function" selector, and
//! the pre-instance call-chain header.

use vstd::prelude::*;

verus! {

/// The driver API's success result code, relayed unchanged.
pub const SUCCESS: i32 = 0;

/// The driver API's initialization-failed result code, reported when an
/// expected chain link is missing.
pub const ERROR_INITIALIZATION_FAILED: i32 = -3;

/// Discriminates the loader's version-negotiation record.
#[derive(Clone, Copy, PartialEq, Eq, Structural)]
pub struct NegotiateLayerStructType(pub i32);

impl NegotiateLayerStructType {
    /// The zero value: a record not yet filled in.
    pub fn uninitialized() -> (r: Self)
        ensures
            r.0 == 0,
    {
        NegotiateLayerStructType(0)
    }

    /// The tag the loader sets on a live negotiation record.
    pub fn interface_struct() -> (r: Self)
        ensures
            r.0 == 1,
    {
        NegotiateLayerStructType(1)
    }

    pub fn from_raw(x: i32) -> (r: Self)
        ensures
            r.0 == x,
    {
        NegotiateLayerStructType(x)
    }

    pub fn as_raw(self) -> (r: i32)
        ensures
            r == self.0,
    {
        self.0
    }
}

/// Selects which payload a chain record of the create-info extension list
/// carries; the layer looks for the link-info payload.
#[derive(Clone, Copy, PartialEq, Eq, Structural)]
pub struct LayerFunction(pub i32);

impl LayerFunction {
    /// The record holding the next layer's resolver pointers.
    pub fn layer_link_info() -> (r: Self)
        ensures
            r.0 == 0,
    {
        LayerFunction(0)
    }

    /// The record holding the loader's set-loader-data callback.
    pub fn loader_data_callback() -> (r: Self)
        ensures
            r.0 == 1,
    {
        LayerFunction(1)
    }

    /// The record holding the loader's create-device callback.
    pub fn loader_layer_create_device_callback() -> (r: Self)
        ensures
            r.0 == 2,
    {
        LayerFunction(2)
    }

    /// The record holding the loader's feature flags.
    pub fn loader_features() -> (r: Self)
        ensures
            r.0 == 3,
    {
        LayerFunction(3)
    }

    pub fn from_raw(x: i32) -> (r: Self)
        ensures
            r.0 == x,
    {
        LayerFunction(x)
    }

    pub fn as_raw(self) -> (r: i32)
        ensures
            r == self.0,
    {
        self.0
    }
}

/// Discriminates the pre-instance call chains the loader can hand down.
#[derive(Clone, Copy, PartialEq, Eq, Structural)]
pub struct ChainType(pub i32);

impl ChainType {
    pub fn unknown() -> (r: Self)
        ensures
            r.0 == 0,
    {
        ChainType(0)
    }

    pub fn enumerate_instance_extension_properties() -> (r: Self)
        ensures
            r.0 == 1,
    {
        ChainType(1)
    }

    pub fn enumerate_instance_layer_properties() -> (r: Self)
        ensures
            r.0 == 2,
    {
        ChainType(2)
    }

    pub fn enumerate_instance_version() -> (r: Self)
        ensures
            r.0 == 3,
    {
        ChainType(3)
    }

    pub fn from_raw(x: i32) -> (r: Self)
        ensures
            r.0 == x,
    {
        ChainType(x)
    }

    pub fn as_raw(self) -> (r: i32)
        ensures
            r == self.0,
    {
        self.0
    }
}

/// The fixed header every pre-instance call-chain element starts with.
#[derive(Clone, Copy, PartialEq, Eq, Structural)]
pub struct ChainHeader {
    pub ty: ChainType,
    pub version: u32,
    pub size: u32,
}

impl ChainHeader {
    pub fn new(ty: ChainType, version: u32, size: u32) -> (r: Self)
        ensures
            r.ty == ty,
            r.version == version,
            r.size == size,
    {
        ChainHeader { ty, version, size }
    }
}

} // verus!
