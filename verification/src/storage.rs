use vstd::prelude::*;

use crate::errors::PersistenceError;
use crate::instance::Instance;
use crate::nonebot::{Adapter, Plugin};

verus! {

/// One stored instance record: the id the store assigned on creation, the
/// name it was saved under, and the instance itself. Names need not be
/// unique; ids are.
pub struct InstanceRow {
    pub id: i64,
    pub name: String,
    pub instance: Instance,
}

/// The model of the relational store: the instance table plus the two
/// registry tables, in storage order. The store assigns instance ids from
/// `next_id`, starting at 1, and never reuses one; registry tables are only
/// ever replaced whole.
pub struct Store {
    pub next_id: i64,
    pub instances: Vec<InstanceRow>,
    pub adapters: Vec<Adapter>,
    pub plugins: Vec<Plugin>,
}

impl Store {
    /// Every stored id was assigned before `next_id`, and no id repeats.
    pub open spec fn wf(&self) -> bool {
        &&& 1 <= self.next_id
        &&& forall|i: int|
            0 <= i < self.instances@.len() ==> (#[trigger] self.instances@[i]).id
                < self.next_id
        &&& forall|i: int, j: int|
            0 <= i < j < self.instances@.len() ==> (#[trigger] self.instances@[i]).id != (
            #[trigger] self.instances@[j]).id
    }

    /// Whether some row carries the given id.
    pub open spec fn contains_instance_id(&self, id: int) -> bool {
        exists|i: int| 0 <= i < self.instances@.len() && (#[trigger] self.instances@[i]).id == id
    }

    /// A fresh, empty store, as the backend bootstrap leaves it.
    pub fn new() -> (r: Self)
        ensures
            r.next_id == 1,
            r.instances@ == Seq::<InstanceRow>::empty(),
            r.adapters@ == Seq::<Adapter>::empty(),
            r.plugins@ == Seq::<Plugin>::empty(),
            r.wf(),
    {
        Store { next_id: 1, instances: Vec::new(), adapters: Vec::new(), plugins: Vec::new() }
    }
}

/// What loading an id from the instance table yields: the first row whose id
/// matches, or nothing. Under [`Store::wf`] at most one row can match.
pub open spec fn lookup_instance(rows: Seq<InstanceRow>, id: int) -> Option<Instance>
    decreases rows.len(),
{
    if rows.len() == 0 {
        None
    } else if rows.first().id == id {
        Some(rows.first().instance)
    } else {
        lookup_instance(rows.drop_first(), id)
    }
}

/// A row that matches, with no match before it, is what lookup yields.
proof fn lemma_lookup_at_index(rows: Seq<InstanceRow>, id: int, i: int)
    requires
        0 <= i < rows.len(),
        rows[i].id == id,
        forall|j: int| 0 <= j < i ==> rows[j].id != id,
    ensures
        lookup_instance(rows, id) == Some(rows[i].instance),
    decreases i,
{
    if i > 0 {
        lemma_lookup_at_index(rows.drop_first(), id, i - 1);
    }
}

/// Where no row matches, lookup yields nothing.
proof fn lemma_lookup_absent(rows: Seq<InstanceRow>, id: int)
    requires
        forall|j: int| 0 <= j < rows.len() ==> (#[trigger] rows[j]).id != id,
    ensures
        lookup_instance(rows, id) is None,
    decreases rows.len(),
{
    if rows.len() > 0 {
        lemma_lookup_absent(rows.drop_first(), id);
    }
}

/// Law: an id that was never saved loads as an absent value — lookup is
/// total, so there is no error to return for "not found".
pub proof fn lemma_load_never_saved(s: Store, id: int)
    requires
        !s.contains_instance_id(id),
    ensures
        lookup_instance(s.instances@, id) is None,
{
    lemma_lookup_absent(s.instances@, id);
}

/// Law: saving an instance and loading the id the save returned yields that
/// very instance. Appending a row whose id no earlier row carries — as
/// `save_instance` does, since it assigns a fresh id — makes the new row the
/// one that lookup finds.
pub proof fn lemma_save_load_round_trip(rows: Seq<InstanceRow>, row: InstanceRow)
    requires
        forall|i: int| 0 <= i < rows.len() ==> (#[trigger] rows[i]).id != row.id,
    ensures
        lookup_instance(rows.push(row), row.id as int) == Some(row.instance),
{
    lemma_lookup_at_index(rows.push(row), row.id as int, rows.len() as int);
}

/// Serializes the instance into one new row of the instance table and
/// returns the id the store assigned to it. Duplicate names are allowed and
/// stored as further rows; nothing is overwritten.
pub fn save_instance(store: &mut Store, name: &String, instance: &Instance) -> (id: i64)
    requires
        old(store).wf(),
        old(store).next_id < i64::MAX,
    ensures
        id == old(store).next_id,
        final(store).next_id == old(store).next_id + 1,
        final(store).instances@ == old(store).instances@.push(
            (InstanceRow { id, name: *name, instance: *instance }),
        ),
        final(store).adapters == old(store).adapters,
        final(store).plugins == old(store).plugins,
        final(store).wf(),
        lookup_instance(final(store).instances@, id as int) == Some(*instance),
{
    let id = store.next_id;
    store.next_id = store.next_id + 1;
    store.instances.push(InstanceRow { id, name: name.clone(), instance: instance.clone() });
    proof {
        let rows = old(store).instances@;
        let row = InstanceRow { id, name: *name, instance: *instance };
        assert(forall|i: int| 0 <= i < rows.len() ==> (#[trigger] rows[i]).id != row.id);
        lemma_save_load_round_trip(rows, row);
    }
    id
}

/// Deserializes the row with the given id back to an instance; an id that no
/// row carries yields an absent value, never an error.
pub fn load_instance(store: &Store, id: i64) -> (r: Option<Instance>)
    ensures
        r == lookup_instance(store.instances@, id as int),
{
    let n = store.instances.len();
    let mut i: usize = 0;
    while i < n
        invariant
            i <= n,
            n == store.instances@.len(),
            forall|j: int| 0 <= j < i ==> (#[trigger] store.instances@[j]).id != id,
        decreases n - i,
    {
        if store.instances[i].id == id {
            proof {
                lemma_lookup_at_index(store.instances@, id as int, i as int);
            }
            return Some(store.instances[i].instance.clone());
        }
        i += 1;
    }
    proof {
        lemma_lookup_absent(store.instances@, id as int);
    }
    None
}

/// Replaces the adapter table with the given entries, whole: every prior row
/// is deleted and the new entries stand in their order, with nothing merged,
/// deduplicated or retained. The rest of the store is untouched.
pub fn save_adapters(store: &mut Store, adapters: Vec<Adapter>)
    ensures
        final(store).adapters == adapters,
        final(store).plugins == old(store).plugins,
        final(store).instances == old(store).instances,
        final(store).next_id == old(store).next_id,
{
    store.adapters = adapters;
}

/// Replaces the plugin table with the given entries, whole, exactly as
/// [`save_adapters`] does for adapters.
pub fn save_plugins(store: &mut Store, plugins: Vec<Plugin>)
    ensures
        final(store).plugins == plugins,
        final(store).adapters == old(store).adapters,
        final(store).instances == old(store).instances,
        final(store).next_id == old(store).next_id,
{
    store.plugins = plugins;
}

/// Every stored adapter payload, verbatim, in storage order.
pub fn load_adapters(store: &Store) -> (r: Vec<String>)
    ensures
        r@.map_values(|s: String| s@) == store.adapters@.map_values(|a: Adapter| a.data_json@),
{
    let n = store.adapters.len();
    let mut payloads: Vec<String> = Vec::new();
    let mut i: usize = 0;
    while i < n
        invariant
            i <= n,
            n == store.adapters@.len(),
            payloads@.len() == i,
            forall|j: int| 0 <= j < i ==> (#[trigger] payloads@[j])@ == store.adapters@[j].data_json@,
        decreases n - i,
    {
        payloads.push(store.adapters[i].data_json.clone());
        i += 1;
    }
    proof {
        assert(payloads@.map_values(|s: String| s@) =~= store.adapters@.map_values(
            |a: Adapter| a.data_json@,
        ));
    }
    payloads
}

/// Every stored plugin payload, verbatim, in storage order.
pub fn load_plugins(store: &Store) -> (r: Vec<String>)
    ensures
        r@.map_values(|s: String| s@) == store.plugins@.map_values(|p: Plugin| p.data_json@),
{
    let n = store.plugins.len();
    let mut payloads: Vec<String> = Vec::new();
    let mut i: usize = 0;
    while i < n
        invariant
            i <= n,
            n == store.plugins@.len(),
            payloads@.len() == i,
            forall|j: int| 0 <= j < i ==> (#[trigger] payloads@[j])@ == store.plugins@[j].data_json@,
        decreases n - i,
    {
        payloads.push(store.plugins[i].data_json.clone());
        i += 1;
    }
    proof {
        assert(payloads@.map_values(|s: String| s@) =~= store.plugins@.map_values(
            |p: Plugin| p.data_json@,
        ));
    }
    payloads
}

/// Law: a successful replace-all followed by a load-all yields exactly the
/// replacing entries' payloads, in their order — no duplicates beyond what
/// the entries carry, and nothing left of the prior set. `save_adapters`
/// makes the table equal the entries, and `load_adapters` reads the payloads
/// off whatever the table holds, so the two contracts compose to this.
pub proof fn lemma_replace_all_then_load_all(s: Store, entries: Seq<Adapter>)
    requires
        s.adapters@ == entries,
    ensures
        s.adapters@.map_values(|a: Adapter| a.data_json@) == entries.map_values(
            |a: Adapter| a.data_json@,
        ),
{
}

/// The replace-all transaction against a backend whose inserts can fail:
/// after deleting the old rows it inserts the new ones in order into a
/// working copy, and only a run in which every insert succeeded is
/// committed. `insert_ok[i]` is the backend's outcome for the i-th insert.
///
/// Law: the transaction is atomic — a failure on any insert rolls the whole
/// transaction back and leaves the table exactly as it was before the call,
/// never empty and never mixed old and new.
pub fn replace_rows<T>(table: &mut Vec<T>, rows: Vec<T>, insert_ok: &Vec<bool>) -> (r: Result<
    (),
    PersistenceError,
>)
    requires
        insert_ok@.len() == rows@.len(),
    ensures
        r is Ok <==> (forall|i: int| 0 <= i < rows@.len() ==> insert_ok@[i]),
        r is Ok ==> final(table)@ == rows@,
        r is Err ==> final(table)@ == old(table)@ && r == Err::<(), PersistenceError>(
            PersistenceError::TransactionFailed,
        ),
{
    let n = rows.len();
    let mut i: usize = 0;
    while i < n
        invariant
            i <= n,
            n == rows@.len(),
            insert_ok@.len() == n,
            forall|j: int| 0 <= j < i ==> insert_ok@[j],
        decreases n - i,
    {
        if !insert_ok[i] {
            return Err(PersistenceError::TransactionFailed);
        }
        i += 1;
    }
    *table = rows;
    Ok(())
}

} // verus!
