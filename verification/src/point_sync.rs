//! Incremental point synchronization between the backend and the interface:
//! the keys the interface knows points by, and the batches of changed and
//! removed points it pulls.

use vstd::prelude::*;

use crate::admission::{KeyView, MasterPointKey, MasterPointScope};
use crate::measurement::DataPoint;
use crate::text::{decimal, i64_decimal, signed_decimal, u64_decimal};

verus! {

/// Which kind of scope a synchronized point belongs to.
#[derive(Clone, Copy, Debug, PartialEq, Eq, Structural)]
pub enum PointSyncScopeKind {
    ConfiguredSlave,
    LiveConnection,
    SlaveCommonAddress,
}

/// The key the interface knows a point by.
#[derive(Clone, Debug)]
pub struct PointSyncKey {
    pub scope_kind: PointSyncScopeKind,
    pub scope_id: String,
    pub common_address: u16,
    pub address: u32,
}

/// A key by its parts, the scope id by its characters.
pub type SyncKeyView = (PointSyncScopeKind, Seq<char>, u16, u32);

pub open spec fn sync_key_view(k: PointSyncKey) -> SyncKeyView {
    (k.scope_kind, k.scope_id@, k.common_address, k.address)
}

/// A changed point and its key.
#[derive(Clone, Debug)]
pub struct PointSyncItem {
    pub key: PointSyncKey,
    pub point: DataPoint,
}

/// What changed since a cursor: the new cursor, whether the interface must
/// start over, the points added or changed, and the keys of removed points.
#[derive(Clone, Debug)]
pub struct PointSyncBatch {
    pub cursor: u64,
    pub reset: bool,
    pub upserts: Vec<PointSyncItem>,
    pub removed: Vec<PointSyncKey>,
}

/// The changes a point store reports since a cursor, under its own keys.
#[derive(Debug)]
pub struct PointStoreSync<K> {
    pub cursor: u64,
    pub reset: bool,
    pub upserts: Vec<(K, DataPoint)>,
    pub removed: Vec<K>,
}

/// The interface key of a master point: a configured slave's scope is named
/// by the slave id in decimal, a live connection's by the connection id.
pub open spec fn spec_master_key(k: KeyView) -> SyncKeyView {
    match k.0.0 {
        Some(id) => (PointSyncScopeKind::ConfiguredSlave, signed_decimal(id as int), k.1, k.2),
        None => (PointSyncScopeKind::LiveConnection, k.0.1, k.1, k.2),
    }
}

/// The interface key of a slave point `(common address, address)`: its scope is named by the common address in decimal.
pub open spec fn spec_slave_key(k: (u16, u32)) -> SyncKeyView {
    (PointSyncScopeKind::SlaveCommonAddress, decimal(k.0 as nat), k.0, k.1)
}

/// The interface key of a master point.
pub fn master_key(key: MasterPointKey) -> (r: PointSyncKey)
    ensures
        sync_key_view(r) == spec_master_key(key@),
{
    let MasterPointKey { scope, common_address, ioa } = key;
    match scope {
        MasterPointScope::ConfiguredSlave(id) => PointSyncKey {
            scope_kind: PointSyncScopeKind::ConfiguredSlave,
            scope_id: i64_decimal(id),
            common_address,
            address: ioa,
        },
        MasterPointScope::LiveConnection(id) => PointSyncKey {
            scope_kind: PointSyncScopeKind::LiveConnection,
            scope_id: id,
            common_address,
            address: ioa,
        },
    }
}

/// The interface key of a slave point `(common address, address)`.
pub fn slave_key(key: (u16, u32)) -> (r: PointSyncKey)
    ensures
        sync_key_view(r) == spec_slave_key(key),
{
    let (common_address, address) = key;
    PointSyncKey {
        scope_kind: PointSyncScopeKind::SlaveCommonAddress,
        scope_id: u64_decimal(common_address as u64),
        common_address,
        address,
    }
}

/// A batch is `sync` with its keys mapped by `f`, in order.
pub open spec fn batch_of<K>(sync: PointStoreSync<K>, f: spec_fn(K) -> SyncKeyView, r: PointSyncBatch) -> bool {
    &&& r.cursor == sync.cursor
    &&& r.reset == sync.reset
    &&& r.upserts@.len() == sync.upserts@.len()
    &&& forall|i: int| 0 <= i < r.upserts@.len() ==> {
        &&& sync_key_view((#[trigger] r.upserts@[i]).key) == f(sync.upserts@[i].0)
        &&& r.upserts@[i].point == sync.upserts@[i].1
    }
    &&& r.removed@.len() == sync.removed@.len()
    &&& forall|i: int| 0 <= i < r.removed@.len() ==> sync_key_view(#[trigger] r.removed@[i]) == f(sync.removed@[i])
}

pub open spec fn master_key_of() -> spec_fn(MasterPointKey) -> SyncKeyView {
    |k: MasterPointKey| spec_master_key(k@)
}

pub open spec fn slave_key_of() -> spec_fn((u16, u32)) -> SyncKeyView {
    |k: (u16, u32)| spec_slave_key(k)
}

/// The batch of a master point store's changes.
pub fn master_batch(sync: PointStoreSync<MasterPointKey>) -> (r: PointSyncBatch)
    ensures
        batch_of(sync, master_key_of(), r),
{
    let ghost given = sync;
    let PointStoreSync { cursor, reset, upserts, removed } = sync;
    let n = upserts.len();
    let mut rest = upserts;
    let mut items: Vec<PointSyncItem> = Vec::new();
    let mut i: usize = 0;
    while i < n
        invariant
            n == given.upserts@.len(),
            i <= n,
            rest@ == given.upserts@.subrange(i as int, n as int),
            items@.len() == i,
            forall|k: int| 0 <= k < i ==> {
                &&& sync_key_view((#[trigger] items@[k]).key) == spec_master_key(given.upserts@[k].0@)
                &&& items@[k].point == given.upserts@[k].1
            },
        decreases n - i,
    {
        let (key, point) = rest.remove(0);
        assert(rest@ =~= given.upserts@.subrange(i + 1, n as int));
        items.push(PointSyncItem { key: master_key(key), point });
        i = i + 1;
    }
    let m = removed.len();
    let mut rest_keys = removed;
    let mut keys: Vec<PointSyncKey> = Vec::new();
    let mut j: usize = 0;
    while j < m
        invariant
            m == given.removed@.len(),
            j <= m,
            rest_keys@ == given.removed@.subrange(j as int, m as int),
            keys@.len() == j,
            forall|k: int| 0 <= k < j ==> sync_key_view(#[trigger] keys@[k]) == spec_master_key(given.removed@[k]@),
        decreases m - j,
    {
        let key = rest_keys.remove(0);
        assert(rest_keys@ =~= given.removed@.subrange(j + 1, m as int));
        keys.push(master_key(key));
        j = j + 1;
    }
    PointSyncBatch { cursor, reset, upserts: items, removed: keys }
}

/// The batch of a slave point store's changes.
pub fn slave_batch(sync: PointStoreSync<(u16, u32)>) -> (r: PointSyncBatch)
    ensures
        batch_of(sync, slave_key_of(), r),
{
    let ghost given = sync;
    let PointStoreSync { cursor, reset, upserts, removed } = sync;
    let n = upserts.len();
    let mut rest = upserts;
    let mut items: Vec<PointSyncItem> = Vec::new();
    let mut i: usize = 0;
    while i < n
        invariant
            n == given.upserts@.len(),
            i <= n,
            rest@ == given.upserts@.subrange(i as int, n as int),
            items@.len() == i,
            forall|k: int| 0 <= k < i ==> {
                &&& sync_key_view((#[trigger] items@[k]).key) == spec_slave_key(given.upserts@[k].0)
                &&& items@[k].point == given.upserts@[k].1
            },
        decreases n - i,
    {
        let (key, point) = rest.remove(0);
        assert(rest@ =~= given.upserts@.subrange(i + 1, n as int));
        items.push(PointSyncItem { key: slave_key(key), point });
        i = i + 1;
    }
    let m = removed.len();
    let mut keys: Vec<PointSyncKey> = Vec::new();
    let mut j: usize = 0;
    while j < m
        invariant
            m == given.removed@.len(),
            removed@ == given.removed@,
            j <= m,
            keys@.len() == j,
            forall|k: int| 0 <= k < j ==> sync_key_view(#[trigger] keys@[k]) == spec_slave_key(given.removed@[k]),
        decreases m - j,
    {
        keys.push(slave_key(removed[j]));
        j = j + 1;
    }
    PointSyncBatch { cursor, reset, upserts: items, removed: keys }
}

} // verus!
