//! Handle bookkeeping: the registries that map opaque driver handles to the
//! per-object state the layer needs to forward correctly and to tear down
//! without leaks, and the two process-wide set-once resolver cells.
//!
//! Handles and function pointers are opaque words owned by the driver; the
//! layer only stores and compares them.  The callers serialise access (one
//! mutable borrow per operation); the surrounding shell is free to put the
//! whole state behind a lock.

use vstd::prelude::*;

use std::collections::HashMap;

verus! {

broadcast use vstd::std_specs::hash::group_hash_axioms;

/// Per-instance layer state: the physical devices the instance enumerated at
/// creation, and the entry points of the next layer down that this layer
/// itself must call later.
pub struct InstanceRecord {
    /// The handles the forwarded enumeration reported, registered as
    /// back-references while this record lives.
    pub phys_devices: Vec<u64>,
    /// The next layer's destroy-instance entry point, from the instance's
    /// loaded table.
    pub destroy_instance_pfn: u64,
    /// The next layer's create-device entry point, from the instance's
    /// loaded table.
    pub create_device_pfn: u64,
}

/// Mathematical image of an [`InstanceRecord`].
#[verifier::ext_equal]
pub ghost struct InstanceRecordModel {
    pub phys_devices: Seq<u64>,
    pub destroy_instance_pfn: u64,
    pub create_device_pfn: u64,
}

impl View for InstanceRecord {
    type V = InstanceRecordModel;

    open spec fn view(&self) -> InstanceRecordModel {
        InstanceRecordModel {
            phys_devices: self.phys_devices@,
            destroy_instance_pfn: self.destroy_instance_pfn,
            create_device_pfn: self.create_device_pfn,
        }
    }
}

/// Per-device layer state: the owning instance and the next layer's
/// destroy-device entry point.
#[derive(Clone, Copy, PartialEq, Eq, Structural)]
pub struct DeviceRecord {
    pub owning_instance: u64,
    pub destroy_device_pfn: u64,
}

/// Mathematical image of the whole registry state.
#[verifier::ext_equal]
pub ghost struct StateModel {
    /// The next layer's instance-level resolver, captured once.
    pub gipa: Option<u64>,
    /// The next layer's physical-device resolver, captured once.
    pub gphypa: Option<u64>,
    pub instances: Map<u64, InstanceRecordModel>,
    pub phys_to_instance: Map<u64, u64>,
    /// Device handle to the next layer's device-level resolver, captured
    /// before the device's own table is built.
    pub device_gdpa: Map<u64, u64>,
    pub devices: Map<u64, DeviceRecord>,
}

/// The registries and set-once cells of one loaded copy of the layer.
pub struct LayerState {
    pub next_instance_proc_addr: Option<u64>,
    pub next_phys_device_proc_addr: Option<u64>,
    pub instances: HashMap<u64, InstanceRecord>,
    pub phys_to_instance: HashMap<u64, u64>,
    pub device_proc_addr: HashMap<u64, u64>,
    pub devices: HashMap<u64, DeviceRecord>,
}

impl View for LayerState {
    type V = StateModel;

    open spec fn view(&self) -> StateModel {
        StateModel {
            gipa: self.next_instance_proc_addr,
            gphypa: self.next_phys_device_proc_addr,
            instances: self.instances@.map_values(|r: InstanceRecord| r@),
            phys_to_instance: self.phys_to_instance@,
            device_gdpa: self.device_proc_addr@,
            devices: self.devices@,
        }
    }
}

/// First-write-wins update of a set-once cell.
pub open spec fn set_once(cur: Option<u64>, pfn: u64) -> Option<u64> {
    if cur is Some {
        cur
    } else {
        Some(pfn)
    }
}

/// A set-once cell keeps the first value written: once some write has won,
/// later writes change nothing, and every read observes the winner.
pub proof fn lemma_set_once_first_write_wins(cur: Option<u64>, first: u64, later: u64)
    ensures
        cur is None ==> set_once(cur, first) == Some(first),
        set_once(set_once(cur, first), later) == set_once(cur, first),
{
}

impl LayerState {
    /// A fresh layer: nothing captured, nothing registered.
    pub fn new() -> (r: LayerState)
        ensures
            r@.gipa is None,
            r@.gphypa is None,
            r@.instances =~= Map::<u64, InstanceRecordModel>::empty(),
            r@.phys_to_instance =~= Map::<u64, u64>::empty(),
            r@.device_gdpa =~= Map::<u64, u64>::empty(),
            r@.devices =~= Map::<u64, DeviceRecord>::empty(),
    {
        let r = LayerState {
            next_instance_proc_addr: None,
            next_phys_device_proc_addr: None,
            instances: HashMap::new(),
            phys_to_instance: HashMap::new(),
            device_proc_addr: HashMap::new(),
            devices: HashMap::new(),
        };
        proof {
            assert(r@.instances =~= Map::<u64, InstanceRecordModel>::empty());
        }
        r
    }

    /// Captures the next layer's instance-level resolver, first write wins.
    pub fn capture_instance_resolver(&mut self, pfn: u64)
        ensures
            final(self)@ =~= (StateModel { gipa: set_once(old(self)@.gipa, pfn), ..old(self)@ }),
    {
        if self.next_instance_proc_addr.is_none() {
            self.next_instance_proc_addr = Some(pfn);
        }
    }

    /// Captures the next layer's physical-device resolver, first write wins.
    pub fn capture_phys_device_resolver(&mut self, pfn: u64)
        ensures
            final(self)@ =~= (StateModel { gphypa: set_once(old(self)@.gphypa, pfn), ..old(self)@ }),
    {
        if self.next_phys_device_proc_addr.is_none() {
            self.next_phys_device_proc_addr = Some(pfn);
        }
    }

    /// Records the device-level resolver the next layer supplied for a new
    /// device; later device-level resolution for that handle forwards here.
    pub fn capture_device_resolver(&mut self, device: u64, pfn: u64)
        ensures
            final(self)@ =~= (StateModel {
                device_gdpa: old(self)@.device_gdpa.insert(device, pfn),
                ..old(self)@
            }),
    {
        self.device_proc_addr.insert(device, pfn);
    }

    /// Looks an enumerated physical device's owning instance up.
    pub fn phys_device_owner(&self, phys_device: u64) -> (r: Option<u64>)
        ensures
            match r {
                Some(h) => self@.phys_to_instance.contains_key(phys_device)
                    && self@.phys_to_instance[phys_device] == h,
                None => !self@.phys_to_instance.contains_key(phys_device),
            },
    {
        match self.phys_to_instance.get(&phys_device) {
            Some(v) => Some(*v),
            None => None,
        }
    }

    /// Whether an instance handle is currently registered.
    pub fn has_instance(&self, instance: u64) -> (r: bool)
        ensures
            r == self@.instances.contains_key(instance),
    {
        self.instances.contains_key(&instance)
    }

    /// Whether a device handle is currently registered.
    pub fn has_device(&self, device: u64) -> (r: bool)
        ensures
            r == self@.devices.contains_key(device),
    {
        self.devices.contains_key(&device)
    }

    /// Looks a registered device's owning instance up.
    pub fn device_owner(&self, device: u64) -> (r: Option<u64>)
        ensures
            match r {
                Some(h) => self@.devices.contains_key(device) && self@.devices[
                    device
                ].owning_instance == h,
                None => !self@.devices.contains_key(device),
            },
    {
        match self.devices.get(&device) {
            Some(rec) => Some(rec.owning_instance),
            None => None,
        }
    }

    /// The registered instance's create-device entry point, used when a
    /// device is created against one of its physical devices.
    pub fn instance_create_device_pfn(&self, instance: u64) -> (r: Option<u64>)
        ensures
            match r {
                Some(pfn) => self@.instances.contains_key(instance)
                    && self@.instances[instance].create_device_pfn == pfn,
                None => !self@.instances.contains_key(instance),
            },
    {
        match self.instances.get(&instance) {
            Some(rec) => Some(rec.create_device_pfn),
            None => None,
        }
    }

    /// Registers a freshly created instance: every enumerated physical
    /// device gains a back-reference to the new handle, and the instance
    /// record is inserted.  Returns the result code handed to the caller.
    pub fn register_instance(
        &mut self,
        instance: u64,
        phys_devices: Vec<u64>,
        destroy_instance_pfn: u64,
        create_device_pfn: u64,
    ) -> (r: i32)
        ensures
            r == crate::sys::SUCCESS,
            final(self)@ =~= spec_register_instance(
                old(self)@,
                instance,
                phys_devices@,
                destroy_instance_pfn,
                create_device_pfn,
            ),
    {
        let ghost ps: Seq<u64> = phys_devices@;
        let mut k: usize = 0;
        while k < phys_devices.len()
            invariant
                0 <= k <= phys_devices.len(),
                phys_devices@ == ps,
                self.phys_to_instance@ =~= insert_all(
                    old(self)@.phys_to_instance,
                    ps.take(k as int),
                    instance,
                ),
                self.next_instance_proc_addr == old(self).next_instance_proc_addr,
                self.next_phys_device_proc_addr == old(self).next_phys_device_proc_addr,
                self.instances@ == old(self).instances@,
                self.device_proc_addr@ == old(self).device_proc_addr@,
                self.devices@ == old(self).devices@,
            decreases phys_devices.len() - k,
        {
            let p = phys_devices[k];
            self.phys_to_instance.insert(p, instance);
            proof {
                lemma_insert_all_step(old(self)@.phys_to_instance, ps, k as int, instance);
            }
            k = k + 1;
        }
        proof {
            assert(ps.take(ps.len() as int) =~= ps);
        }
        let record = InstanceRecord { phys_devices, destroy_instance_pfn, create_device_pfn };
        self.instances.insert(instance, record);
        proof {
            assert(self@.instances =~= old(self)@.instances.insert(instance, record@));
        }
        crate::sys::SUCCESS
    }

    /// Registers a freshly created device under its owning instance.
    /// Returns the result code handed to the caller.
    pub fn register_device(
        &mut self,
        device: u64,
        owning_instance: u64,
        destroy_device_pfn: u64,
    ) -> (r: i32)
        ensures
            r == crate::sys::SUCCESS,
            final(self)@ =~= spec_register_device(
                old(self)@,
                device,
                owning_instance,
                destroy_device_pfn,
            ),
    {
        self.devices.insert(device, DeviceRecord { owning_instance, destroy_device_pfn });
        crate::sys::SUCCESS
    }

    /// Removes an instance record with its physical-device back-references
    /// and hands back the entry point to forward the destruction to; absent
    /// handles are a no-op, so double destruction has no second effect.
    pub fn destroy_instance(&mut self, instance: u64) -> (r: Option<u64>)
        ensures
            final(self)@ =~= spec_destroy_instance(old(self)@, instance).0,
            r == spec_destroy_instance(old(self)@, instance).1,
    {
        match self.instances.remove(&instance) {
            Some(record) => {
                let ghost ps: Seq<u64> = record.phys_devices@;
                let mut k: usize = 0;
                while k < record.phys_devices.len()
                    invariant
                        0 <= k <= record.phys_devices.len(),
                        record.phys_devices@ == ps,
                        self.phys_to_instance@ =~= remove_all(
                            old(self)@.phys_to_instance,
                            ps.take(k as int),
                        ),
                        self.next_instance_proc_addr == old(self).next_instance_proc_addr,
                        self.next_phys_device_proc_addr == old(
                            self,
                        ).next_phys_device_proc_addr,
                        self.instances@ == old(self).instances@.remove(instance),
                        self.device_proc_addr@ == old(self).device_proc_addr@,
                        self.devices@ == old(self).devices@,
                    decreases record.phys_devices.len() - k,
                {
                    let p = record.phys_devices[k];
                    self.phys_to_instance.remove(&p);
                    proof {
                        lemma_remove_all_step(old(self)@.phys_to_instance, ps, k as int);
                    }
                    k = k + 1;
                }
                proof {
                    assert(ps.take(ps.len() as int) =~= ps);
                    assert(self@.instances =~= old(self)@.instances.remove(instance));
                }
                Some(record.destroy_instance_pfn)
            },
            None => {
                proof {
                    assert(self@.instances =~= old(self)@.instances);
                }
                None
            },
        }
    }

    /// Removes a device's next-resolver mapping and its record and hands
    /// back the entry point to forward the destruction to; absent handles
    /// are a no-op, so double destruction has no second effect.
    pub fn destroy_device(&mut self, device: u64) -> (r: Option<u64>)
        ensures
            final(self)@ =~= spec_destroy_device(old(self)@, device).0,
            r == spec_destroy_device(old(self)@, device).1,
    {
        self.device_proc_addr.remove(&device);
        match self.devices.remove(&device) {
            Some(record) => Some(record.destroy_device_pfn),
            None => None,
        }
    }
}

/// The map after registering every handle of `ps` as owned by `h`.
pub open spec fn insert_all(m: Map<u64, u64>, ps: Seq<u64>, h: u64) -> Map<u64, u64> {
    Map::new(
        |k: u64| m.contains_key(k) || ps.contains(k),
        |k: u64| if ps.contains(k) { h } else { m[k] },
    )
}

/// The map after removing every handle of `ps`.
pub open spec fn remove_all(m: Map<u64, u64>, ps: Seq<u64>) -> Map<u64, u64> {
    Map::new(|k: u64| m.contains_key(k) && !ps.contains(k), |k: u64| m[k])
}

/// Registering the handles one by one builds `insert_all`.
pub proof fn lemma_insert_all_step(m: Map<u64, u64>, ps: Seq<u64>, k: int, h: u64)
    requires
        0 <= k < ps.len(),
    ensures
        insert_all(m, ps.take(k), h).insert(ps[k], h) =~= insert_all(m, ps.take(k + 1), h),
{
    let lhs = insert_all(m, ps.take(k), h).insert(ps[k], h);
    let rhs = insert_all(m, ps.take(k + 1), h);
    assert forall|q: u64| lhs.contains_key(q) implies rhs.contains_key(q) by {
        if ps.take(k).contains(q) {
            let i = choose|i: int| 0 <= i < k && #[trigger] ps.take(k)[i] == q;
            assert(ps.take(k + 1)[i] == q);
        } else if q == ps[k] {
            assert(ps.take(k + 1)[k] == q);
        }
    }
    assert forall|q: u64| rhs.contains_key(q) implies lhs.contains_key(q) by {
        if ps.take(k + 1).contains(q) {
            let i = choose|i: int| 0 <= i < k + 1 && #[trigger] ps.take(k + 1)[i] == q;
            if i < k {
                assert(ps.take(k)[i] == q);
            }
        }
    }
    assert forall|q: u64| lhs.contains_key(q) implies lhs[q] == rhs[q] by {
        if q == ps[k] {
            assert(ps.take(k + 1)[k] == q);
        } else if ps.take(k).contains(q) {
            let i = choose|i: int| 0 <= i < k && #[trigger] ps.take(k)[i] == q;
            assert(ps.take(k + 1)[i] == q);
        } else {
            assert(!ps.take(k + 1).contains(q)) by {
                if ps.take(k + 1).contains(q) {
                    let i = choose|i: int| 0 <= i < k + 1 && #[trigger] ps.take(k + 1)[i] == q;
                    if i < k {
                        assert(ps.take(k)[i] == q);
                    }
                }
            }
        }
    }
}

/// Removing the handles one by one builds `remove_all`.
pub proof fn lemma_remove_all_step(m: Map<u64, u64>, ps: Seq<u64>, k: int)
    requires
        0 <= k < ps.len(),
    ensures
        remove_all(m, ps.take(k)).remove(ps[k]) =~= remove_all(m, ps.take(k + 1)),
{
    let lhs = remove_all(m, ps.take(k)).remove(ps[k]);
    let rhs = remove_all(m, ps.take(k + 1));
    assert forall|q: u64| rhs.contains_key(q) implies lhs.contains_key(q) by {
        assert(!ps.take(k + 1).contains(q));
        assert(!ps.take(k).contains(q)) by {
            if ps.take(k).contains(q) {
                let i = choose|i: int| 0 <= i < k && #[trigger] ps.take(k)[i] == q;
                assert(ps.take(k + 1)[i] == q);
            }
        }
        assert(q != ps[k]) by {
            if q == ps[k] {
                assert(ps.take(k + 1)[k] == q);
            }
        }
    }
    assert forall|q: u64| lhs.contains_key(q) implies rhs.contains_key(q) by {
        assert(!ps.take(k).contains(q) && q != ps[k]);
        assert(!ps.take(k + 1).contains(q)) by {
            if ps.take(k + 1).contains(q) {
                let i = choose|i: int| 0 <= i < k + 1 && #[trigger] ps.take(k + 1)[i] == q;
                if i < k {
                    assert(ps.take(k)[i] == q);
                }
            }
        }
    }
}

/// The whole-state transition of a successful create-instance's bookkeeping.
pub open spec fn spec_register_instance(
    m: StateModel,
    instance: u64,
    phys_devices: Seq<u64>,
    destroy_instance_pfn: u64,
    create_device_pfn: u64,
) -> StateModel {
    StateModel {
        phys_to_instance: insert_all(m.phys_to_instance, phys_devices, instance),
        instances: m.instances.insert(
            instance,
            InstanceRecordModel { phys_devices, destroy_instance_pfn, create_device_pfn },
        ),
        ..m
    }
}

/// The whole-state transition of a successful create-device's bookkeeping.
pub open spec fn spec_register_device(
    m: StateModel,
    device: u64,
    owning_instance: u64,
    destroy_device_pfn: u64,
) -> StateModel {
    StateModel {
        devices: m.devices.insert(device, DeviceRecord { owning_instance, destroy_device_pfn }),
        ..m
    }
}

/// The whole-state transition of destroy-instance, with the entry point the
/// destruction is forwarded to, or `None` for an unknown handle.
pub open spec fn spec_destroy_instance(m: StateModel, instance: u64) -> (StateModel, Option<
    u64,
>) {
    if m.instances.contains_key(instance) {
        (
            StateModel {
                instances: m.instances.remove(instance),
                phys_to_instance: remove_all(
                    m.phys_to_instance,
                    m.instances[instance].phys_devices,
                ),
                ..m
            },
            Some(m.instances[instance].destroy_instance_pfn),
        )
    } else {
        (m, None)
    }
}

/// Law: after a successful create-instance's bookkeeping, every physical
/// device the forwarded enumeration reported has a back-reference resolving
/// to the new instance; after the matching destroy-instance, none of those
/// back-references remain, and neither does the instance record.
pub proof fn lemma_phys_device_backrefs(
    m: StateModel,
    instance: u64,
    phys_devices: Seq<u64>,
    destroy_instance_pfn: u64,
    create_device_pfn: u64,
)
    ensures
        ({
            let created = spec_register_instance(
                m,
                instance,
                phys_devices,
                destroy_instance_pfn,
                create_device_pfn,
            );
            let destroyed = spec_destroy_instance(created, instance).0;
            &&& created.instances.contains_key(instance)
            &&& forall|i: int|
                0 <= i < phys_devices.len() ==> created.phys_to_instance.contains_key(
                    #[trigger] phys_devices[i],
                ) && created.phys_to_instance[phys_devices[i]] == instance
            &&& forall|i: int|
                0 <= i < phys_devices.len() ==> !destroyed.phys_to_instance.contains_key(
                    #[trigger] phys_devices[i],
                )
            &&& !destroyed.instances.contains_key(instance)
        }),
{
    let created = spec_register_instance(
        m,
        instance,
        phys_devices,
        destroy_instance_pfn,
        create_device_pfn,
    );
    assert forall|i: int| 0 <= i < phys_devices.len() implies phys_devices.contains(
        #[trigger] phys_devices[i],
    ) by {
    }
}

/// The cross-registry invariant: every physical-device back-reference names
/// an instance currently registered, and every device record's owner is
/// registered too, for as long as the records exist.
pub open spec fn registries_consistent(m: StateModel) -> bool {
    &&& forall|p: u64|
        #[trigger] m.phys_to_instance.contains_key(p) ==> m.instances.contains_key(
            m.phys_to_instance[p],
        )
    &&& forall|d: u64|
        #[trigger] m.devices.contains_key(d) ==> m.instances.contains_key(
            m.devices[d].owning_instance,
        )
}

/// Whether every back-reference naming an instance stands in that
/// instance's own enumeration snapshot — true of every state built by the
/// create protocol, which registers a record and its back-references
/// together.
pub open spec fn backrefs_within_snapshot(m: StateModel, instance: u64) -> bool {
    forall|p: u64|
        #[trigger] m.phys_to_instance.contains_key(p) && m.phys_to_instance[p] == instance
            ==> m.instances.contains_key(instance) && m.instances[instance].phys_devices.contains(
            p,
        )
}

/// Law: the create-side transitions keep the registries consistent — a new
/// instance arrives together with its back-references, and a new device
/// names an instance that is present.
pub proof fn lemma_consistency_preserved_by_creation(
    m: StateModel,
    instance: u64,
    phys_devices: Seq<u64>,
    destroy_instance_pfn: u64,
    create_device_pfn: u64,
    device: u64,
    owner: u64,
    destroy_device_pfn: u64,
)
    requires
        registries_consistent(m),
    ensures
        registries_consistent(
            spec_register_instance(
                m,
                instance,
                phys_devices,
                destroy_instance_pfn,
                create_device_pfn,
            ),
        ),
        m.instances.contains_key(owner) ==> registries_consistent(
            spec_register_device(m, device, owner, destroy_device_pfn),
        ),
{
    let created = spec_register_instance(
        m,
        instance,
        phys_devices,
        destroy_instance_pfn,
        create_device_pfn,
    );
    assert forall|p: u64| #[trigger]
        created.phys_to_instance.contains_key(p) implies created.instances.contains_key(
        created.phys_to_instance[p],
    ) by {
        if !phys_devices.contains(p) {
            assert(m.phys_to_instance.contains_key(p));
        }
    }
}

/// Law: destroy-instance keeps the registries consistent wherever the
/// destroyed instance's back-references all lie in its own snapshot and no
/// device of that instance is still alive — the order the driver contract
/// imposes on callers.
pub proof fn lemma_consistency_preserved_by_destroy_instance(m: StateModel, instance: u64)
    requires
        registries_consistent(m),
        backrefs_within_snapshot(m, instance),
        forall|d: u64|
            #[trigger] m.devices.contains_key(d) ==> m.devices[d].owning_instance != instance,
    ensures
        registries_consistent(spec_destroy_instance(m, instance).0),
{
    if m.instances.contains_key(instance) {
        let destroyed = spec_destroy_instance(m, instance).0;
        assert forall|p: u64| #[trigger]
            destroyed.phys_to_instance.contains_key(p) implies destroyed.instances.contains_key(
            destroyed.phys_to_instance[p],
        ) by {
            assert(m.phys_to_instance.contains_key(p));
            assert(m.phys_to_instance[p] != instance);
        }
    }
}

/// Law: destroy-device keeps the registries consistent.
pub proof fn lemma_consistency_preserved_by_destroy_device(m: StateModel, device: u64)
    requires
        registries_consistent(m),
    ensures
        registries_consistent(spec_destroy_device(m, device).0),
{
}

/// Law: destroy-instance is idempotent.  Destroying a handle that was never
/// registered is a no-op, and a second destruction of the same handle
/// changes nothing further and forwards nowhere.
pub proof fn lemma_destroy_instance_idempotent(m: StateModel, instance: u64)
    ensures
        !m.instances.contains_key(instance) ==> spec_destroy_instance(m, instance).0 =~= m
            && spec_destroy_instance(m, instance).1 is None,
        spec_destroy_instance(spec_destroy_instance(m, instance).0, instance).0
            =~= spec_destroy_instance(m, instance).0,
        spec_destroy_instance(spec_destroy_instance(m, instance).0, instance).1 is None,
{
}

/// Law: destroy-device is idempotent.  Destroying a handle that was never
/// registered changes no registry entry, and a second destruction of the
/// same handle changes nothing further and forwards nowhere.
pub proof fn lemma_destroy_device_idempotent(m: StateModel, device: u64)
    ensures
        !m.devices.contains_key(device) && !m.device_gdpa.contains_key(device)
            ==> spec_destroy_device(m, device).0 =~= m && spec_destroy_device(m, device).1 is None,
        spec_destroy_device(spec_destroy_device(m, device).0, device).0 =~= spec_destroy_device(
            m,
            device,
        ).0,
        spec_destroy_device(spec_destroy_device(m, device).0, device).1 is None,
{
}

/// The whole-state transition of destroy-device.
pub open spec fn spec_destroy_device(m: StateModel, device: u64) -> (StateModel, Option<u64>) {
    let cleared = StateModel { device_gdpa: m.device_gdpa.remove(device), ..m };
    if m.devices.contains_key(device) {
        (
            StateModel { devices: m.devices.remove(device), ..cleared },
            Some(m.devices[device].destroy_device_pfn),
        )
    } else {
        (cleared, None)
    }
}

} // verus!
