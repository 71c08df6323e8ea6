//! One-time provisioning of the proxy classes and the version-gated
//! registration of their native entry points.
//!
//! The proxy classes live in a fixed block of precompiled managed bytecode
//! that is loaded through a class loader once per process; the loaded class
//! then has one native entry point registered per callback method, plus one
//! for the finalizer.  Which entry points are registered depends on the
//! runtime's reported platform version: a method whose platform feature is
//! unavailable below a version threshold is omitted rather than registered
//! and left unreachable.

use vstd::prelude::*;

verus! {

/// The platform version from which the bytecode can be handed to the class
/// loader in memory; below it, the bytecode goes through a cache file.
pub const IN_MEMORY_DEX_MIN_API: i32 = 26;

/// Decides how the embedded bytecode reaches the class loader.
pub fn load_dex_in_memory(api_level: i32) -> (r: bool)
    ensures
        r == (api_level >= IN_MEMORY_DEX_MIN_API),
{
    api_level >= IN_MEMORY_DEX_MIN_API
}

/// One native entry point of a proxy class: the callback method it serves
/// and the platform version the method first exists on.
#[derive(Clone, Copy, Debug, PartialEq, Eq, Structural)]
pub struct Registration<M> {
    pub method: M,
    pub min_api: i32,
}

/// The callback methods of the scan proxy class.
#[derive(Clone, Copy, Debug, PartialEq, Eq, Structural)]
pub enum ScanCallbackMethod {
    /// A scan produced a result.
    OnScanResult,
    /// The scan failed to start.
    OnScanFailed,
    /// The proxy instance is finalized.
    Finalize,
}

/// The callback methods of the connection-event proxy class.
#[derive(Clone, Copy, Debug, PartialEq, Eq, Structural)]
pub enum GattCallbackMethod {
    CharacteristicChanged,
    CharacteristicRead,
    CharacteristicWrite,
    ConnectionStateChange,
    DescriptorRead,
    DescriptorWrite,
    ReadRemoteRssi,
    ReliableWriteCompleted,
    ServicesDiscovered,
    Finalize,
    MtuChanged,
    PhyRead,
    PhyUpdate,
    ServiceChanged,
    CharacteristicChangedWithValue,
    CharacteristicReadWithValue,
    DescriptorReadWithValue,
}

/// The scan proxy's registration table: every method exists on every
/// supported platform version.
pub open spec fn spec_scan_registration_table() -> Seq<Registration<ScanCallbackMethod>> {
    seq![
        Registration { method: ScanCallbackMethod::OnScanResult, min_api: 1 },
        Registration { method: ScanCallbackMethod::OnScanFailed, min_api: 1 },
        Registration { method: ScanCallbackMethod::Finalize, min_api: 1 },
    ]
}

/// The connection-event proxy's registration table, in registration order:
/// the always-present methods first, then the ones gated on a minimum
/// platform version.
pub open spec fn spec_gatt_registration_table() -> Seq<Registration<GattCallbackMethod>> {
    seq![
        Registration { method: GattCallbackMethod::CharacteristicChanged, min_api: 1 },
        Registration { method: GattCallbackMethod::CharacteristicRead, min_api: 1 },
        Registration { method: GattCallbackMethod::CharacteristicWrite, min_api: 1 },
        Registration { method: GattCallbackMethod::ConnectionStateChange, min_api: 1 },
        Registration { method: GattCallbackMethod::DescriptorRead, min_api: 1 },
        Registration { method: GattCallbackMethod::DescriptorWrite, min_api: 1 },
        Registration { method: GattCallbackMethod::ReadRemoteRssi, min_api: 1 },
        Registration { method: GattCallbackMethod::ReliableWriteCompleted, min_api: 1 },
        Registration { method: GattCallbackMethod::ServicesDiscovered, min_api: 1 },
        Registration { method: GattCallbackMethod::Finalize, min_api: 1 },
        Registration { method: GattCallbackMethod::MtuChanged, min_api: 21 },
        Registration { method: GattCallbackMethod::PhyRead, min_api: 26 },
        Registration { method: GattCallbackMethod::PhyUpdate, min_api: 26 },
        Registration { method: GattCallbackMethod::ServiceChanged, min_api: 31 },
        Registration { method: GattCallbackMethod::CharacteristicChangedWithValue, min_api: 33 },
        Registration { method: GattCallbackMethod::CharacteristicReadWithValue, min_api: 33 },
        Registration { method: GattCallbackMethod::DescriptorReadWithValue, min_api: 33 },
    ]
}

/// Builds the scan proxy's registration table.
pub fn scan_registration_table() -> (r: Vec<Registration<ScanCallbackMethod>>)
    ensures
        r@ == spec_scan_registration_table(),
{
    let mut r: Vec<Registration<ScanCallbackMethod>> = Vec::new();
    r.push(Registration { method: ScanCallbackMethod::OnScanResult, min_api: 1 });
    r.push(Registration { method: ScanCallbackMethod::OnScanFailed, min_api: 1 });
    r.push(Registration { method: ScanCallbackMethod::Finalize, min_api: 1 });
    proof {
        assert(r@ =~= spec_scan_registration_table());
    }
    r
}

/// Builds the connection-event proxy's registration table.
pub fn gatt_registration_table() -> (r: Vec<Registration<GattCallbackMethod>>)
    ensures
        r@ == spec_gatt_registration_table(),
{
    let mut r: Vec<Registration<GattCallbackMethod>> = Vec::new();
    r.push(Registration { method: GattCallbackMethod::CharacteristicChanged, min_api: 1 });
    r.push(Registration { method: GattCallbackMethod::CharacteristicRead, min_api: 1 });
    r.push(Registration { method: GattCallbackMethod::CharacteristicWrite, min_api: 1 });
    r.push(Registration { method: GattCallbackMethod::ConnectionStateChange, min_api: 1 });
    r.push(Registration { method: GattCallbackMethod::DescriptorRead, min_api: 1 });
    r.push(Registration { method: GattCallbackMethod::DescriptorWrite, min_api: 1 });
    r.push(Registration { method: GattCallbackMethod::ReadRemoteRssi, min_api: 1 });
    r.push(Registration { method: GattCallbackMethod::ReliableWriteCompleted, min_api: 1 });
    r.push(Registration { method: GattCallbackMethod::ServicesDiscovered, min_api: 1 });
    r.push(Registration { method: GattCallbackMethod::Finalize, min_api: 1 });
    r.push(Registration { method: GattCallbackMethod::MtuChanged, min_api: 21 });
    r.push(Registration { method: GattCallbackMethod::PhyRead, min_api: 26 });
    r.push(Registration { method: GattCallbackMethod::PhyUpdate, min_api: 26 });
    r.push(Registration { method: GattCallbackMethod::ServiceChanged, min_api: 31 });
    r.push(Registration { method: GattCallbackMethod::CharacteristicChangedWithValue, min_api: 33 });
    r.push(Registration { method: GattCallbackMethod::CharacteristicReadWithValue, min_api: 33 });
    r.push(Registration { method: GattCallbackMethod::DescriptorReadWithValue, min_api: 33 });
    proof {
        assert(r@ =~= spec_gatt_registration_table());
    }
    r
}

/// The entry points of a table that the reported platform version
/// supports, in table order.
pub open spec fn supported_registrations<M>(api_level: i32, table: Seq<Registration<M>>) -> Seq<
    Registration<M>,
> {
    table.filter(|e: Registration<M>| e.min_api <= api_level)
}

/// Filters a registration table down to the entry points the running
/// platform version supports, keeping the table's order: an entry point is
/// registered exactly when its minimum version is not above the reported
/// one.
pub fn registrations_for<M: Copy>(api_level: i32, table: &Vec<Registration<M>>) -> (r: Vec<
    Registration<M>,
>)
    ensures
        r@ == supported_registrations(api_level, table@),
{
    let ghost cl = |e: Registration<M>| e.min_api <= api_level;
    let mut r: Vec<Registration<M>> = Vec::new();
    let mut i: usize = 0;
    while i < table.len()
        invariant
            i <= table.len(),
            forall|x: Registration<M>| #[trigger] cl(x) == (x.min_api <= api_level),
            r@ == table@.take(i as int).filter(cl),
        decreases table.len() - i,
    {
        let e = table[i];
        proof {
            reveal_with_fuel(Seq::filter, 2);
            assert(table@.take(i as int + 1) =~= table@.take(i as int) + seq![table@[i as int]]);
            Seq::filter_distributes_over_add(table@.take(i as int), seq![table@[i as int]], cl);
            assert(seq![table@[i as int]].drop_last() =~= Seq::<Registration<M>>::empty());
            assert(Seq::<Registration<M>>::empty().filter(cl) =~= Seq::<Registration<M>>::empty());
            if cl(table@[i as int]) {
                assert(seq![table@[i as int]].filter(cl) =~= seq![table@[i as int]]);
            } else {
                assert(seq![table@[i as int]].filter(cl) =~= Seq::<Registration<M>>::empty());
            }
        }
        if e.min_api <= api_level {
            r.push(e);
            assert(r@ =~= table@.take(i as int).filter(cl) + seq![table@[i as int]]);
        } else {
            assert(r@ =~= table@.take(i as int).filter(cl) + Seq::<Registration<M>>::empty());
        }
        i = i + 1;
    }
    proof {
        assert(table@.take(table@.len() as int) =~= table@);
    }
    r
}

/// Registered entry points are exactly the supported ones: every registered
/// entry point comes from the table and is supported on the reported
/// version, and every supported table entry is registered.
pub proof fn lemma_registrations_gated<M>(api_level: i32, table: Seq<Registration<M>>)
    ensures
        forall|i: int|
            0 <= i < supported_registrations(api_level, table).len()
                ==> (#[trigger] supported_registrations(api_level, table)[i]).min_api <= api_level,
        forall|i: int|
            0 <= i < table.len() && (#[trigger] table[i]).min_api <= api_level
                ==> supported_registrations(api_level, table).contains(table[i]),
{
    let cl = |e: Registration<M>| e.min_api <= api_level;
    table.filter_lemma(cl);
}

/// The process-wide cell holding the one loaded proxy class for a callback
/// contract, as an opaque class token, together with how many loads have
/// been performed.
pub struct ProvisionCell {
    /// The loaded class, once provisioned.
    pub class_handle: Option<u64>,
    /// How many times the load-and-register step has run.
    pub loads: Ghost<int>,
}

impl ProvisionCell {
    /// The load ran exactly once if and only if the cell is provisioned.
    pub open spec fn wf(self) -> bool {
        self.loads@ == (if self.class_handle is Some { 1int } else { 0int })
    }

    /// An empty cell: nothing loaded yet.
    pub fn new() -> (c: ProvisionCell)
        ensures
            c.wf(),
            c.class_handle is None,
            c.loads@ == 0,
    {
        ProvisionCell { class_handle: None, loads: Ghost(0) }
    }

    /// One provisioning request, linearized: the first request stores the
    /// class the caller loaded and registered; every later request observes
    /// the stored class and performs no load.  The one-time-initialization
    /// cell of the runtime serializes concurrent first requests so that a
    /// single winner runs the load; this is that serialized step.
    pub fn get_or_init(&mut self, candidate: u64) -> (h: u64)
        requires
            old(self).wf(),
        ensures
            final(self).wf(),
            old(self).class_handle is None ==> final(self).class_handle == Some(candidate)
                && h == candidate && final(self).loads@ == old(self).loads@ + 1,
            old(self).class_handle matches Some(existing) ==> *final(self) == *old(self)
                && h == existing,
    {
        match self.class_handle {
            None => {
                self.class_handle = Some(candidate);
                proof {
                    self.loads@ = self.loads@ + 1;
                }
                candidate
            },
            Some(existing) => existing,
        }
    }
}

/// One provisioning request for a proxy class: the serialized step the
/// one-time cell runs.  The winning request hands in the class it loaded
/// and receives the entry points to register on it — the table filtered by
/// the reported platform version; every later request receives the stored
/// class and nothing to register.  Registration therefore happens exactly
/// once per callback contract per process.
pub fn provision_proxy_class<M: Copy>(
    cell: &mut ProvisionCell,
    api_level: i32,
    loaded_class: u64,
    table: &Vec<Registration<M>>,
) -> (r: (u64, Option<Vec<Registration<M>>>))
    requires
        old(cell).wf(),
    ensures
        final(cell).wf(),
        old(cell).class_handle is None ==> r.0 == loaded_class
            && (r.1 matches Some(regs) && regs@ == supported_registrations(api_level, table@))
            && final(cell).class_handle == Some(loaded_class)
            && final(cell).loads@ == old(cell).loads@ + 1,
        old(cell).class_handle matches Some(h) ==> r.0 == h && r.1 is None
            && *final(cell) == *old(cell),
{
    let already_provisioned = cell.class_handle.is_some();
    let class = cell.get_or_init(loaded_class);
    if already_provisioned {
        (class, None)
    } else {
        (class, Some(registrations_for(api_level, table)))
    }
}

/// The state and load count of a cell after a sequence of provisioning
/// requests, each bringing the class its thread would load.
pub open spec fn cell_run(candidates: Seq<u64>) -> (Option<u64>, int)
    decreases candidates.len(),
{
    if candidates.len() == 0 {
        (None::<u64>, 0int)
    } else {
        let (st, n) = cell_run(candidates.drop_last());
        match st {
            None => (Some(candidates.last()), n + 1),
            Some(h) => (Some(h), n),
        }
    }
}

/// What the request at position `i` of the sequence returns.
pub open spec fn cell_result(candidates: Seq<u64>, i: int) -> u64 {
    match cell_run(candidates.take(i)).0 {
        None => candidates[i],
        Some(h) => h,
    }
}

/// Idempotent provisioning: any number of requests, in any interleaving the
/// cell serializes, performs exactly one load, and every request observes
/// the first winner's class.
pub proof fn lemma_provisioning_idempotent(candidates: Seq<u64>)
    requires
        candidates.len() >= 1,
    ensures
        cell_run(candidates) == (Some(candidates[0]), 1int),
        forall|i: int| 0 <= i < candidates.len() ==> cell_result(candidates, i) == candidates[0],
    decreases candidates.len(),
{
    if candidates.len() == 1 {
        assert(candidates.last() == candidates[0]);
        assert(cell_run(candidates.drop_last()) == (None::<u64>, 0int));
        assert(cell_run(candidates) == (Some(candidates[0]), 1int));
    } else {
        lemma_provisioning_idempotent(candidates.drop_last());
        assert(candidates.drop_last()[0] == candidates[0]);
        assert(cell_run(candidates) == (Some(candidates[0]), 1int));
    }
    assert forall|i: int| 0 <= i < candidates.len() implies cell_result(candidates, i)
        == candidates[0] by {
        if i > 0 {
            lemma_provisioning_idempotent(candidates.take(i));
            assert(candidates.take(i)[0] == candidates[0]);
        } else {
            assert(candidates.take(0) =~= Seq::<u64>::empty());
        }
    }
}

} // verus!
