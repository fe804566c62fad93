//! The master's store of the last known state of each point, by scope, common
//! address and object address, and how received points and events meet it.

use vstd::prelude::*;

use crate::admission::{data_point_key, key_eq, KeyView, MasterPointKey, MasterPointScope, ScopeView};
use crate::measurement::{clone_point, merge_received_point, spec_merged_point, DataPoint, SoeEvent};
use crate::registry::{same_type_family, table_family, TypeDescriptor};

verus! {

/// Whether `k` is the key of one of `s`'s entries.
pub open spec fn has_key(s: Seq<(MasterPointKey, DataPoint)>, k: KeyView) -> bool {
    exists|i: int| 0 <= i < s.len() && (#[trigger] s[i]).0@ == k
}

/// The points of the entries, by key.
pub open spec fn entries_map(s: Seq<(MasterPointKey, DataPoint)>) -> Map<KeyView, DataPoint> {
    Map::new(
        |k: KeyView| has_key(s, k),
        |k: KeyView| s[choose|i: int| 0 <= i < s.len() && (#[trigger] s[i]).0@ == k].1,
    )
}

/// No key occurs twice.
pub open spec fn keys_unique(s: Seq<(MasterPointKey, DataPoint)>) -> bool {
    forall|i: int, j: int| 0 <= i < j < s.len() ==> (#[trigger] s[i]).0@ != (#[trigger] s[j]).0@
}

proof fn lemma_entry_value(s: Seq<(MasterPointKey, DataPoint)>, i: int)
    requires
        keys_unique(s),
        0 <= i < s.len(),
    ensures
        entries_map(s).contains_key(s[i].0@),
        entries_map(s)[s[i].0@] == s[i].1,
{
    let k = s[i].0@;
    assert(has_key(s, k));
    let j = choose|j: int| 0 <= j < s.len() && (#[trigger] s[j]).0@ == k;
    if j < i {
        assert(s[j].0@ != s[i].0@);
    } else if i < j {
        assert(s[i].0@ != s[j].0@);
    }
}

/// The master's point store: the last known state of each point, no key twice.
pub struct MasterPointStore {
    entries: Vec<(MasterPointKey, DataPoint)>,
}

impl View for MasterPointStore {
    type V = Map<KeyView, DataPoint>;

    closed spec fn view(&self) -> Map<KeyView, DataPoint> {
        entries_map(self.entries@)
    }
}

impl MasterPointStore {
    pub closed spec fn wf(self) -> bool {
        keys_unique(self.entries@)
    }

    /// An empty store.
    pub fn new() -> (r: Self)
        ensures
            r.wf(),
            r@ == Map::<KeyView, DataPoint>::empty(),
    {
        let r = MasterPointStore { entries: Vec::new() };
        assert(r@ =~= Map::<KeyView, DataPoint>::empty());
        r
    }

    fn index_of(&self, key: &MasterPointKey) -> (r: Option<usize>)
        requires
            self.wf(),
        ensures
            match r {
                Some(i) => i < self.entries@.len() && self.entries@[i as int].0@ == key@,
                None => !has_key(self.entries@, key@),
            },
    {
        let mut i: usize = 0;
        while i < self.entries.len()
            invariant
                i <= self.entries@.len(),
                forall|j: int| 0 <= j < i ==> (#[trigger] self.entries@[j]).0@ != key@,
            decreases self.entries@.len() - i,
        {
            if key_eq(&self.entries[i].0, key) {
                return Some(i);
            }
            i = i + 1;
        }
        None
    }

    /// The point stored under `key`, if any.
    pub fn get(&self, key: &MasterPointKey) -> (r: Option<&DataPoint>)
        requires
            self.wf(),
        ensures
            match r {
                Some(p) => self@.contains_key(key@) && *p == self@[key@],
                None => !self@.contains_key(key@),
            },
    {
        match self.index_of(key) {
            Some(i) => {
                proof { lemma_entry_value(self.entries@, i as int); }
                Some(&self.entries[i].1)
            },
            None => None,
        }
    }

    /// Forgets the point stored under `key`, if any.
    pub fn remove(&mut self, key: &MasterPointKey)
        requires
            old(self).wf(),
        ensures
            final(self).wf(),
            final(self)@ == old(self)@.remove(key@),
    {
        match self.index_of(key) {
            None => {
                assert(self@ =~= old(self)@.remove(key@));
            },
            Some(i) => {
                let ghost s = self.entries@;
                let _ = self.entries.remove(i);
                let ghost t = self.entries@;
                assert(t =~= s.subrange(0, i as int) + s.subrange(i + 1, s.len() as int));
                assert forall|a: int, b: int| 0 <= a < b < t.len() implies (#[trigger] t[a]).0@ != (#[trigger] t[b]).0@ by {
                    let a2 = if a < i { a } else { a + 1 };
                    let b2 = if b < i { b } else { b + 1 };
                    assert(t[a] == s[a2] && t[b] == s[b2]);
                }
                assert forall|k: KeyView| #[trigger] has_key(t, k) == (has_key(s, k) && k != key@) by {
                    if has_key(t, k) {
                        let a = choose|a: int| 0 <= a < t.len() && (#[trigger] t[a]).0@ == k;
                        let a2 = if a < i { a } else { a + 1 };
                        assert(t[a] == s[a2]);
                        assert(s[a2].0@ != s[i as int].0@);
                    }
                    if has_key(s, k) && k != key@ {
                        let a = choose|a: int| 0 <= a < s.len() && (#[trigger] s[a]).0@ == k;
                        assert(a != i);
                        let a2 = if a < i { a } else { a - 1 };
                        assert(t[a2] == s[a]);
                    }
                }
                assert forall|k: KeyView| #[trigger] entries_map(t).contains_key(k) implies
                    entries_map(t)[k] == entries_map(s)[k] by {
                    let a = choose|a: int| 0 <= a < t.len() && (#[trigger] t[a]).0@ == k;
                    let a2 = if a < i { a } else { a + 1 };
                    assert(t[a] == s[a2]);
                    lemma_entry_value(t, a);
                    lemma_entry_value(s, a2);
                }
                assert(self@ =~= old(self)@.remove(key@));
            },
        }
    }

    /// Stores `point` under `key`, in place of what was stored there.
    pub fn insert(&mut self, key: MasterPointKey, point: DataPoint)
        requires
            old(self).wf(),
        ensures
            final(self).wf(),
            final(self)@ == old(self)@.insert(key@, point),
    {
        let ghost s = self.entries@;
        let ghost kv = key@;
        match self.index_of(&key) {
            None => {
                self.entries.push((key, point));
                let ghost t = self.entries@;
                assert forall|a: int, b: int| 0 <= a < b < t.len() implies (#[trigger] t[a]).0@ != (#[trigger] t[b]).0@ by {
                    if b == s.len() {
                        assert(t[a] == s[a]);
                    } else {
                        assert(t[a] == s[a] && t[b] == s[b]);
                    }
                }
                assert forall|k: KeyView| #[trigger] has_key(t, k) == (has_key(s, k) || k == kv) by {
                    if has_key(s, k) {
                        let a = choose|a: int| 0 <= a < s.len() && (#[trigger] s[a]).0@ == k;
                        assert(t[a] == s[a]);
                    }
                    if k == kv {
                        assert(t[s.len() as int].0@ == kv);
                    }
                    if has_key(t, k) {
                        let a = choose|a: int| 0 <= a < t.len() && (#[trigger] t[a]).0@ == k;
                        if a < s.len() {
                            assert(t[a] == s[a]);
                        }
                    }
                }
                assert forall|k: KeyView| #[trigger] entries_map(t).contains_key(k) implies
                    entries_map(t)[k] == old(self)@.insert(kv, point)[k] by {
                    let a = choose|a: int| 0 <= a < t.len() && (#[trigger] t[a]).0@ == k;
                    lemma_entry_value(t, a);
                    if a < s.len() {
                        assert(t[a] == s[a]);
                        lemma_entry_value(s, a);
                    }
                }
                assert(self@ =~= old(self)@.insert(kv, point));
            },
            Some(i) => {
                self.entries.set(i, (key, point));
                let ghost t = self.entries@;
                assert forall|a: int, b: int| 0 <= a < b < t.len() implies (#[trigger] t[a]).0@ != (#[trigger] t[b]).0@ by {
                    assert(t[a].0@ == s[a].0@ && t[b].0@ == s[b].0@);
                }
                assert forall|k: KeyView| #[trigger] has_key(t, k) == has_key(s, k) by {
                    if has_key(s, k) {
                        let a = choose|a: int| 0 <= a < s.len() && (#[trigger] s[a]).0@ == k;
                        assert(t[a].0@ == s[a].0@);
                    }
                    if has_key(t, k) {
                        let a = choose|a: int| 0 <= a < t.len() && (#[trigger] t[a]).0@ == k;
                        assert(t[a].0@ == s[a].0@);
                    }
                }
                assert forall|k: KeyView| #[trigger] entries_map(t).contains_key(k) implies
                    entries_map(t)[k] == old(self)@.insert(kv, point)[k] by {
                    let a = choose|a: int| 0 <= a < t.len() && (#[trigger] t[a]).0@ == k;
                    lemma_entry_value(t, a);
                    if a != i {
                        assert(t[a] == s[a]);
                        lemma_entry_value(s, a);
                    }
                }
                assert(has_key(s, kv));
                assert(self@ =~= old(self)@.insert(kv, point));
            },
        }
    }
}

/// The key a received point is stored under: its scope, its common address
/// (0 when it has none) and its object address.
pub open spec fn store_key(scope: ScopeView, p: DataPoint) -> KeyView {
    (scope, match p.common_address { Some(c) => c, None => 0u16 }, p.address)
}

/// The key under which a point known without a common address is stored.
pub open spec fn fallback_key(scope: ScopeView, p: DataPoint) -> KeyView {
    (scope, 0u16, p.address)
}

/// The known point a received one is merged into: the one under its own key,
/// else the one under the key without a common address.
pub open spec fn known_point(m: Map<KeyView, DataPoint>, scope: ScopeView, p: DataPoint) -> Option<DataPoint> {
    if m.contains_key(store_key(scope, p)) {
        Some(m[store_key(scope, p)])
    } else if m.contains_key(fallback_key(scope, p)) {
        Some(m[fallback_key(scope, p)])
    } else {
        None
    }
}

/// The store after one received point: a point of another type family than the
/// known one is refused; otherwise the merged point is stored under the
/// point's own key and the entry without a common address is dropped.
pub open spec fn merged_store(m: Map<KeyView, DataPoint>, scope: ScopeView, cause: u16, table: Seq<TypeDescriptor>, p: DataPoint) -> Map<KeyView, DataPoint> {
    let known = known_point(m, scope, p);
    let same = match known {
        Some(e) => table_family(table, e.type_id) is Some && table_family(table, e.type_id) == table_family(table, p.type_id),
        None => true,
    };
    match spec_merged_point(known, p, cause, same) {
        Some(merged) => m.remove(fallback_key(scope, p)).insert(store_key(scope, p), merged),
        None => m,
    }
}

/// The store after the received points, taken in order.
pub open spec fn merged_store_all(m: Map<KeyView, DataPoint>, scope: ScopeView, cause: u16, table: Seq<TypeDescriptor>, points: Seq<DataPoint>) -> Map<KeyView, DataPoint>
    decreases points.len(),
{
    if points.len() == 0 {
        m
    } else {
        merged_store_all(merged_store(m, scope, cause, table, points[0]), scope, cause, table, points.drop_first())
    }
}

/// Merges received points into the store, in order (see `merged_store`).
pub fn merge_received_points(store: &mut MasterPointStore, scope: &MasterPointScope, cause: u16, table: &Vec<TypeDescriptor>, points: &Vec<DataPoint>)
    requires
        old(store).wf(),
    ensures
        final(store).wf(),
        final(store)@ == merged_store_all(old(store)@, scope@, cause, table@, points@),
{
    let ghost target = merged_store_all(old(store)@, scope@, cause, table@, points@);
    let mut i: usize = 0;
    assert(points@.subrange(0, points@.len() as int) =~= points@);
    while i < points.len()
        invariant
            i <= points@.len(),
            store.wf(),
            target == merged_store_all(store@, scope@, cause, table@, points@.subrange(i as int, points@.len() as int)),
        decreases points@.len() - i,
    {
        let p = &points[i];
        let ghost rest = points@.subrange(i as int, points@.len() as int);
        assert(rest[0] == points@[i as int]);
        assert(rest.drop_first() =~= points@.subrange(i + 1, points@.len() as int));
        let ca: u16 = match p.common_address { Some(c) => c, None => 0 };
        let key = data_point_key(scope, ca, p.address);
        let fallback = data_point_key(scope, 0, p.address);
        let merged = {
            let known = match store.get(&key) {
                Some(e) => Some(e),
                None => store.get(&fallback),
            };
            let same = match known {
                Some(e) => same_type_family(table, e.type_id, p.type_id),
                None => true,
            };
            merge_received_point(known, clone_point(p), cause, same)
        };
        match merged {
            Some(m) => {
                store.remove(&fallback);
                store.insert(key, m);
            },
            None => {},
        }
        i = i + 1;
    }
}

/// The event with the name of its point, where the store knows the point
/// under the event's scope, common address and object address.
pub open spec fn named_event(m: Map<KeyView, DataPoint>, scope: ScopeView, e: SoeEvent) -> SoeEvent {
    if m.contains_key((scope, e.common_address, e.ioa)) {
        SoeEvent { point_name: Some(m[(scope, e.common_address, e.ioa)].name), ..e }
    } else {
        e
    }
}

/// Gives each event the name of its point, where the store knows it.
pub fn hydrate_soe_point_names(store: &MasterPointStore, scope: &MasterPointScope, events: &mut Vec<SoeEvent>)
    requires
        store.wf(),
    ensures
        final(events)@.len() == old(events)@.len(),
        forall|k: int| 0 <= k < old(events)@.len() ==> #[trigger] final(events)@[k] == named_event(store@, scope@, old(events)@[k]),
{
    let ghost original = events@;
    let mut i: usize = 0;
    while i < events.len()
        invariant
            store.wf(),
            i <= events@.len(),
            events@.len() == original.len(),
            forall|k: int| 0 <= k < i ==> #[trigger] events@[k] == named_event(store@, scope@, original[k]),
            forall|k: int| i <= k < events@.len() ==> #[trigger] events@[k] == original[k],
        decreases events@.len() - i,
    {
        let key = data_point_key(scope, events[i].common_address, events[i].ioa);
        match store.get(&key) {
            Some(point) => {
                let name = point.name.clone();
                let mut e = events[i].duplicate();
                e.point_name = Some(name);
                events.set(i, e);
            },
            None => {},
        }
        i = i + 1;
    }
}

} // verus!
