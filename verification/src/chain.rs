//! The chain walker: the create-info structures carry a linked list of typed
//! extension records, and the layer must find the record that carries the
//! next layer's resolver pointers, then pop its own link so the next layer
//! down sees the shortened chain.
//!
//! The list is modelled as a vector of records; a raw in-memory chain and
//! this vector correspond element for element.  Opaque function pointers are
//! carried as machine words.

use vstd::prelude::*;

use crate::sys::LayerFunction;

verus! {

/// Structure-type tag of an instance-level chain record.
pub const LOADER_INSTANCE_CREATE_INFO: i32 = 47;

/// Structure-type tag of a device-level chain record.
pub const LOADER_DEVICE_CREATE_INFO: i32 = 48;

/// One link of the instance-level layer chain: the next layer's two
/// resolvers, carried as opaque pointer words.
#[derive(Clone, Copy, PartialEq, Eq, Structural, Debug)]
pub struct InstanceLink {
    pub next_get_instance_proc_addr: u64,
    pub next_get_physical_device_proc_addr: u64,
}

/// One link of the device-level layer chain.
#[derive(Clone, Copy, PartialEq, Eq, Structural, Debug)]
pub struct DeviceLink {
    pub next_get_instance_proc_addr: u64,
    pub next_get_device_proc_addr: u64,
}

/// One record of an instance create-info extension chain: the structure-type
/// tag, the "function" selector, and — for link-info records — the remaining
/// layer links.
pub struct InstanceChainRecord {
    pub s_type: i32,
    pub function: LayerFunction,
    pub links: Vec<InstanceLink>,
}

/// One record of a device create-info extension chain.
pub struct DeviceChainRecord {
    pub s_type: i32,
    pub function: LayerFunction,
    pub links: Vec<DeviceLink>,
}

impl Default for InstanceChainRecord {
    /// A fresh link-info record with no links yet.
    fn default() -> (r: Self)
        ensures
            r.s_type == LOADER_INSTANCE_CREATE_INFO,
            r.function == LayerFunction(0),
            r.links@ == Seq::<InstanceLink>::empty(),
    {
        InstanceChainRecord {
            s_type: LOADER_INSTANCE_CREATE_INFO,
            function: LayerFunction::from_raw(0),
            links: Vec::new(),
        }
    }
}

impl Default for DeviceChainRecord {
    /// A fresh link-info record with no links yet.
    fn default() -> (r: Self)
        ensures
            r.s_type == LOADER_DEVICE_CREATE_INFO,
            r.function == LayerFunction(0),
            r.links@ == Seq::<DeviceLink>::empty(),
    {
        DeviceChainRecord {
            s_type: LOADER_DEVICE_CREATE_INFO,
            function: LayerFunction::from_raw(0),
            links: Vec::new(),
        }
    }
}

/// Whether an instance chain record carries the requested function's payload.
pub open spec fn instance_record_matches(r: InstanceChainRecord, function: LayerFunction) -> bool {
    r.s_type == LOADER_INSTANCE_CREATE_INFO && r.function == function
}

/// Whether a device chain record carries the requested function's payload.
pub open spec fn device_record_matches(r: DeviceChainRecord, function: LayerFunction) -> bool {
    r.s_type == LOADER_DEVICE_CREATE_INFO && r.function == function
}

/// Index of the first matching record of an instance chain, walking from the
/// head, or `None` when the chain holds no match.
pub open spec fn instance_chain_find(chain: Seq<InstanceChainRecord>, function: LayerFunction) -> Option<int>
    decreases chain.len(),
{
    if chain.len() == 0 {
        None
    } else if instance_record_matches(chain[0], function) {
        Some(0)
    } else {
        match instance_chain_find(chain.drop_first(), function) {
            Some(i) => Some(i + 1),
            None => None,
        }
    }
}

/// Index of the first matching record of a device chain.
pub open spec fn device_chain_find(chain: Seq<DeviceChainRecord>, function: LayerFunction) -> Option<int>
    decreases chain.len(),
{
    if chain.len() == 0 {
        None
    } else if device_record_matches(chain[0], function) {
        Some(0)
    } else {
        match device_chain_find(chain.drop_first(), function) {
            Some(i) => Some(i + 1),
            None => None,
        }
    }
}

/// The walk returns exactly the first match: a found index matches, nothing
/// before it matches, and an absent result means nothing matches at all.
pub proof fn lemma_instance_chain_find_characterizes(chain: Seq<InstanceChainRecord>, function: LayerFunction)
    ensures
        match instance_chain_find(chain, function) {
            Some(i) => {
                &&& 0 <= i < chain.len()
                &&& instance_record_matches(chain[i], function)
                &&& forall|j: int| 0 <= j < i ==> !instance_record_matches(chain[j], function)
            },
            None => forall|j: int|
                0 <= j < chain.len() ==> !instance_record_matches(chain[j], function),
        },
    decreases chain.len(),
{
    if chain.len() > 0 && !instance_record_matches(chain[0], function) {
        let rest = chain.drop_first();
        lemma_instance_chain_find_characterizes(rest, function);
        match instance_chain_find(rest, function) {
            Some(i) => {
                assert(rest[i] == chain[i + 1]);
                assert forall|j: int| 0 <= j < i + 1 implies !instance_record_matches(
                    chain[j],
                    function,
                ) by {
                    if j > 0 {
                        assert(rest[j - 1] == chain[j]);
                    }
                }
            },
            None => {
                assert forall|j: int| 0 <= j < chain.len() implies !instance_record_matches(
                    chain[j],
                    function,
                ) by {
                    if j > 0 {
                        assert(rest[j - 1] == chain[j]);
                    }
                }
            },
        }
    }
}

pub proof fn lemma_device_chain_find_characterizes(chain: Seq<DeviceChainRecord>, function: LayerFunction)
    ensures
        match device_chain_find(chain, function) {
            Some(i) => {
                &&& 0 <= i < chain.len()
                &&& device_record_matches(chain[i], function)
                &&& forall|j: int| 0 <= j < i ==> !device_record_matches(chain[j], function)
            },
            None => forall|j: int|
                0 <= j < chain.len() ==> !device_record_matches(chain[j], function),
        },
    decreases chain.len(),
{
    if chain.len() > 0 && !device_record_matches(chain[0], function) {
        let rest = chain.drop_first();
        lemma_device_chain_find_characterizes(rest, function);
        match device_chain_find(rest, function) {
            Some(i) => {
                assert(rest[i] == chain[i + 1]);
                assert forall|j: int| 0 <= j < i + 1 implies !device_record_matches(
                    chain[j],
                    function,
                ) by {
                    if j > 0 {
                        assert(rest[j - 1] == chain[j]);
                    }
                }
            },
            None => {
                assert forall|j: int| 0 <= j < chain.len() implies !device_record_matches(
                    chain[j],
                    function,
                ) by {
                    if j > 0 {
                        assert(rest[j - 1] == chain[j]);
                    }
                }
            },
        }
    }
}

/// A first-match characterization pins the walk's result down.
pub proof fn lemma_instance_chain_find_from_witness(
    chain: Seq<InstanceChainRecord>,
    function: LayerFunction,
    i: int,
)
    requires
        0 <= i < chain.len(),
        instance_record_matches(chain[i], function),
        forall|j: int| 0 <= j < i ==> !instance_record_matches(chain[j], function),
    ensures
        instance_chain_find(chain, function) == Some(i),
    decreases i,
{
    if i > 0 {
        lemma_instance_chain_find_from_witness(chain.drop_first(), function, i - 1);
    }
}

pub proof fn lemma_device_chain_find_from_witness(
    chain: Seq<DeviceChainRecord>,
    function: LayerFunction,
    i: int,
)
    requires
        0 <= i < chain.len(),
        device_record_matches(chain[i], function),
        forall|j: int| 0 <= j < i ==> !device_record_matches(chain[j], function),
    ensures
        device_chain_find(chain, function) == Some(i),
    decreases i,
{
    if i > 0 {
        lemma_device_chain_find_from_witness(chain.drop_first(), function, i - 1);
    }
}

/// When exactly one record of the chain matches, the walk finds that record:
/// however many non-matching records stand around it, the unique match is
/// what comes back, and a chain without a match comes back absent.
pub proof fn lemma_instance_chain_find_unique(
    chain: Seq<InstanceChainRecord>,
    function: LayerFunction,
    i: int,
)
    requires
        0 <= i < chain.len(),
        instance_record_matches(chain[i], function),
        forall|j: int|
            0 <= j < chain.len() && j != i ==> !instance_record_matches(chain[j], function),
    ensures
        instance_chain_find(chain, function) == Some(i),
{
    lemma_instance_chain_find_from_witness(chain, function, i);
}

pub proof fn lemma_device_chain_find_unique(
    chain: Seq<DeviceChainRecord>,
    function: LayerFunction,
    i: int,
)
    requires
        0 <= i < chain.len(),
        device_record_matches(chain[i], function),
        forall|j: int|
            0 <= j < chain.len() && j != i ==> !device_record_matches(chain[j], function),
    ensures
        device_chain_find(chain, function) == Some(i),
{
    lemma_device_chain_find_from_witness(chain, function, i);
}

/// Law: a chain without a matching record — of any length — comes back
/// absent.
pub proof fn lemma_instance_chain_find_absent(
    chain: Seq<InstanceChainRecord>,
    function: LayerFunction,
)
    requires
        forall|j: int| 0 <= j < chain.len() ==> !instance_record_matches(chain[j], function),
    ensures
        instance_chain_find(chain, function) is None,
{
    lemma_instance_chain_find_characterizes(chain, function);
}

pub proof fn lemma_device_chain_find_absent(chain: Seq<DeviceChainRecord>, function: LayerFunction)
    requires
        forall|j: int| 0 <= j < chain.len() ==> !device_record_matches(chain[j], function),
    ensures
        device_chain_find(chain, function) is None,
{
    lemma_device_chain_find_characterizes(chain, function);
}

/// Walks an instance create-info chain for the first record carrying the
/// requested function's payload.
pub fn get_instance_chain_info(
    chain: &Vec<InstanceChainRecord>,
    function: LayerFunction,
) -> (r: Option<usize>)
    ensures
        match r {
            Some(i) => {
                &&& i < chain.len()
                &&& instance_record_matches(chain@[i as int], function)
                &&& instance_chain_find(chain@, function) == Some(i as int)
            },
            None => instance_chain_find(chain@, function) is None,
        },
{
    let mut k: usize = 0;
    while k < chain.len()
        invariant
            0 <= k <= chain.len(),
            forall|j: int| 0 <= j < k ==> !instance_record_matches(chain@[j], function),
        decreases chain.len() - k,
    {
        if chain[k].s_type == LOADER_INSTANCE_CREATE_INFO && chain[k].function.0 == function.0 {
            proof {
                lemma_instance_chain_find_from_witness(chain@, function, k as int);
            }
            return Some(k);
        }
        k = k + 1;
    }
    proof {
        lemma_instance_chain_find_characterizes(chain@, function);
    }
    None
}

/// Walks a device create-info chain for the first record carrying the
/// requested function's payload.
pub fn get_device_chain_info(
    chain: &Vec<DeviceChainRecord>,
    function: LayerFunction,
) -> (r: Option<usize>)
    ensures
        match r {
            Some(i) => {
                &&& i < chain.len()
                &&& device_record_matches(chain@[i as int], function)
                &&& device_chain_find(chain@, function) == Some(i as int)
            },
            None => device_chain_find(chain@, function) is None,
        },
{
    let mut k: usize = 0;
    while k < chain.len()
        invariant
            0 <= k <= chain.len(),
            forall|j: int| 0 <= j < k ==> !device_record_matches(chain@[j], function),
        decreases chain.len() - k,
    {
        if chain[k].s_type == LOADER_DEVICE_CREATE_INFO && chain[k].function.0 == function.0 {
            proof {
                lemma_device_chain_find_from_witness(chain@, function, k as int);
            }
            return Some(k);
        }
        k = k + 1;
    }
    proof {
        lemma_device_chain_find_characterizes(chain@, function);
    }
    None
}

/// Pops the head link of the matched instance chain record, handing back that
/// link and leaving the record pointing at the remainder of the layer chain,
/// with every other record untouched.
pub fn pop_instance_link(chain: &mut Vec<InstanceChainRecord>, i: usize) -> (r: InstanceLink)
    requires
        i < old(chain).len(),
        old(chain)[i as int].links.len() > 0,
    ensures
        r == old(chain)[i as int].links[0],
        final(chain).len() == old(chain).len(),
        final(chain)[i as int].s_type == old(chain)[i as int].s_type,
        final(chain)[i as int].function == old(chain)[i as int].function,
        final(chain)[i as int].links@ == old(chain)[i as int].links@.drop_first(),
        forall|j: int| 0 <= j < old(chain).len() && j != i ==> final(chain)[j] == old(chain)[j],
{
    let mut rec = chain.remove(i);
    let link = rec.links.remove(0);
    chain.insert(i, rec);
    proof {
        assert(chain@ =~= old(chain)@.update(i as int, chain@[i as int]));
        assert(chain@[i as int].links@ =~= old(chain)@[i as int].links@.drop_first());
    }
    link
}

/// Pops the head link of the matched device chain record.
pub fn pop_device_link(chain: &mut Vec<DeviceChainRecord>, i: usize) -> (r: DeviceLink)
    requires
        i < old(chain).len(),
        old(chain)[i as int].links.len() > 0,
    ensures
        r == old(chain)[i as int].links[0],
        final(chain).len() == old(chain).len(),
        final(chain)[i as int].s_type == old(chain)[i as int].s_type,
        final(chain)[i as int].function == old(chain)[i as int].function,
        final(chain)[i as int].links@ == old(chain)[i as int].links@.drop_first(),
        forall|j: int| 0 <= j < old(chain).len() && j != i ==> final(chain)[j] == old(chain)[j],
{
    let mut rec = chain.remove(i);
    let link = rec.links.remove(0);
    chain.insert(i, rec);
    proof {
        assert(chain@ =~= old(chain)@.update(i as int, chain@[i as int]));
        assert(chain@[i as int].links@ =~= old(chain)@[i as int].links@.drop_first());
    }
    link
}

} // verus!
