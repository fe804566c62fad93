//! Which received points the master admits: the configured point keys of
//! each scope (a configured slave or a live connection), and which of them,
//! or which whole scopes, are disabled.

use vstd::prelude::*;
use vstd::string::*;

use crate::strutil::str_equals;
use crate::types::PointDef;

verus! {

/// The scope point keys belong to.
#[derive(Clone, Debug)]
pub enum MasterPointScope {
    /// A slave configured in a link profile, by its id.
    ConfiguredSlave(i64),
    /// A connection without configured slave, by its connection id.
    LiveConnection(String),
}

/// Abstract scope: the slave id, or no slave id and the connection id.
pub type ScopeView = (Option<i64>, Seq<char>);

impl View for MasterPointScope {
    type V = ScopeView;

    open spec fn view(&self) -> ScopeView {
        match *self {
            MasterPointScope::ConfiguredSlave(id) => (Some(id), Seq::empty()),
            MasterPointScope::LiveConnection(c) => (None, c@),
        }
    }
}

/// A point of a scope, by common address and information object address.
#[derive(Clone, Debug)]
pub struct MasterPointKey {
    pub scope: MasterPointScope,
    pub common_address: u16,
    pub ioa: u32,
}

pub type KeyView = (ScopeView, u16, u32);

impl View for MasterPointKey {
    type V = KeyView;

    open spec fn view(&self) -> KeyView {
        (self.scope@, self.common_address, self.ioa)
    }
}

/// The scope of a point: the configured slave when there is one, else the live connection.
pub fn resolve_point_scope(connection_id: &str, slave_id: Option<i64>) -> (r: MasterPointScope)
    ensures
        r@ == (match slave_id { Some(v) => (Some(v), Seq::<char>::empty()), None => (None::<i64>, connection_id@) }),
{
    match slave_id {
        Some(value) => MasterPointScope::ConfiguredSlave(value),
        None => MasterPointScope::LiveConnection(String::from_str(connection_id)),
    }
}

fn clone_scope(scope: &MasterPointScope) -> (r: MasterPointScope)
    ensures
        r@ == scope@,
{
    match scope {
        MasterPointScope::ConfiguredSlave(v) => MasterPointScope::ConfiguredSlave(*v),
        MasterPointScope::LiveConnection(c) => MasterPointScope::LiveConnection(c.clone()),
    }
}

/// The key of a point of `scope`.
pub fn data_point_key(scope: &MasterPointScope, common_address: u16, address: u32) -> (r: MasterPointKey)
    ensures
        r@ == (scope@, common_address, address),
{
    MasterPointKey { scope: clone_scope(scope), common_address, ioa: address }
}

/// Whether two scopes are the same.
pub fn scope_eq(a: &MasterPointScope, b: &MasterPointScope) -> (r: bool)
    ensures
        r == (a@ == b@),
{
    match (a, b) {
        (MasterPointScope::ConfiguredSlave(x), MasterPointScope::ConfiguredSlave(y)) => *x == *y,
        (MasterPointScope::LiveConnection(x), MasterPointScope::LiveConnection(y)) => str_equals(x.as_str(), y.as_str()),
        (MasterPointScope::ConfiguredSlave(_), MasterPointScope::LiveConnection(_)) => false,
        (MasterPointScope::LiveConnection(_), MasterPointScope::ConfiguredSlave(_)) => false,
    }
}

pub(crate) fn key_eq(a: &MasterPointKey, b: &MasterPointKey) -> (r: bool)
    ensures
        r == (a@ == b@),
{
    a.common_address == b.common_address && a.ioa == b.ioa && scope_eq(&a.scope, &b.scope)
}

/// The abstract keys held by a vector.
pub open spec fn key_set(s: Seq<MasterPointKey>) -> Set<KeyView> {
    Set::new(|v: KeyView| exists|i: int| 0 <= i < s.len() && #[trigger] s[i]@ == v)
}

pub type ScopeEntryView = (ScopeView, u16);

pub open spec fn scope_entry_set(s: Seq<(MasterPointScope, u16)>) -> Set<ScopeEntryView> {
    Set::new(|v: ScopeEntryView| exists|i: int| 0 <= i < s.len() && (#[trigger] s[i]).0@ == v.0 && s[i].1 == v.1)
}

/// The keys `defs` give in `scope` under `common_address`, selected by `pick`.
pub open spec fn def_keys(scope: ScopeView, common_address: u16, defs: Seq<PointDef>, pick: spec_fn(PointDef) -> bool) -> Set<KeyView> {
    Set::new(|v: KeyView| exists|i: int| 0 <= i < defs.len() && pick(defs[i]) && v == (scope, common_address, #[trigger] defs[i].address))
}

/// Keys of `set` outside `scope`.
pub open spec fn without_scope(set: Set<KeyView>, scope: ScopeView) -> Set<KeyView> {
    set.filter(|v: KeyView| v.0 != scope)
}

/// Keys of `set` inside `scope`.
pub open spec fn within_scope(set: Set<KeyView>, scope: ScopeView) -> Set<KeyView> {
    set.filter(|v: KeyView| v.0 == scope)
}

/// Every point of a table.
pub open spec fn all_points() -> spec_fn(PointDef) -> bool {
    |d: PointDef| true
}

/// The points of a table that are disabled: all of them when the scope is
/// disabled, else those the table disables.
pub open spec fn disabled_points(scope_enabled: bool) -> spec_fn(PointDef) -> bool {
    |d: PointDef| !scope_enabled || !d.is_enabled
}

/// Disabled-scope entries of other scopes than `scope`.
pub open spec fn entry_outside(scope: ScopeView) -> spec_fn(ScopeEntryView) -> bool {
    |e: ScopeEntryView| e.0 != scope
}

/// `after` is `before` with the point table of `scope` replaced by `defs`
/// under `common_address`, the scope enabled or not.
pub open spec fn replaced_scope(
    before: MasterPointAdmission,
    after: MasterPointAdmission,
    scope: ScopeView,
    common_address: u16,
    defs: Seq<PointDef>,
    scope_enabled: bool,
) -> bool {
    &&& after.configured() == without_scope(before.configured(), scope).union(def_keys(scope, common_address, defs, all_points()))
    &&& after.disabled() == without_scope(before.disabled(), scope)
        .union(def_keys(scope, common_address, defs, disabled_points(scope_enabled)))
    &&& after.disabled_scope_entries() == before.disabled_scope_entries().filter(entry_outside(scope))
        .union(if scope_enabled { Set::<ScopeEntryView>::empty() } else { set![(scope, common_address)] })
}

/// `after` is `before` with everything known of `scope` forgotten.
pub open spec fn cleared_scope(before: MasterPointAdmission, after: MasterPointAdmission, scope: ScopeView) -> bool {
    &&& after.configured() == without_scope(before.configured(), scope)
    &&& after.disabled() == without_scope(before.disabled(), scope)
    &&& after.disabled_scope_entries() == before.disabled_scope_entries().filter(entry_outside(scope))
}

/// Configured, disabled point keys and disabled scopes of the master.
#[derive(Debug)]
pub struct MasterPointAdmission {
    configured_keys: Vec<MasterPointKey>,
    disabled_keys: Vec<MasterPointKey>,
    disabled_scopes: Vec<(MasterPointScope, u16)>,
}

impl MasterPointAdmission {
    pub closed spec fn configured(self) -> Set<KeyView> {
        key_set(self.configured_keys@)
    }

    pub closed spec fn disabled(self) -> Set<KeyView> {
        key_set(self.disabled_keys@)
    }

    pub closed spec fn disabled_scope_entries(self) -> Set<ScopeEntryView> {
        scope_entry_set(self.disabled_scopes@)
    }

    /// Whether a point of `scope` is disabled: its whole scope is disabled under
    /// its common address or under the wildcard address 0, or the point itself
    /// is disabled under either address.
    pub open spec fn spec_is_disabled(self, scope: ScopeView, common_address: u16, address: u32) -> bool {
        ||| self.disabled_scope_entries().contains((scope, common_address))
        ||| self.disabled_scope_entries().contains((scope, 0))
        ||| self.disabled().contains((scope, common_address, address))
        ||| self.disabled().contains((scope, 0, address))
    }

    /// Nothing configured, nothing disabled.
    pub fn new() -> (r: Self)
        ensures
            r.configured() == Set::<KeyView>::empty(),
            r.disabled() == Set::<KeyView>::empty(),
            r.disabled_scope_entries() == Set::<ScopeEntryView>::empty(),
    {
        let r = MasterPointAdmission { configured_keys: Vec::new(), disabled_keys: Vec::new(), disabled_scopes: Vec::new() };
        assert(key_set(r.configured_keys@) =~= Set::<KeyView>::empty());
        assert(key_set(r.disabled_keys@) =~= Set::<KeyView>::empty());
        assert(scope_entry_set(r.disabled_scopes@) =~= Set::<ScopeEntryView>::empty());
        r
    }

    /// Whether a point of `scope` is disabled.
    pub fn is_disabled(&self, scope: &MasterPointScope, common_address: u16, address: u32) -> (r: bool)
        ensures
            r == self.spec_is_disabled(scope@, common_address, address),
    {
        let exact = data_point_key(scope, common_address, address);
        let wildcard = data_point_key(scope, 0, address);
        scope_listed(&self.disabled_scopes, scope, common_address)
            || scope_listed(&self.disabled_scopes, scope, 0)
            || key_listed(&self.disabled_keys, &exact)
            || key_listed(&self.disabled_keys, &wildcard)
    }

    /// Replaces everything known of `scope` by the point table `defs` under
    /// `common_address`. A disabled scope disables the scope and each of its
    /// points; otherwise the points disabled in the table are. Returns the keys
    /// the scope had configured before, each once.
    pub fn replace_scope(&mut self, scope: &MasterPointScope, common_address: u16, defs: &Vec<PointDef>, scope_enabled: bool) -> (r: Vec<MasterPointKey>)
        ensures
            key_set(r@) == within_scope(old(self).configured(), scope@),
            replaced_scope(*old(self), *final(self), scope@, common_address, defs@, scope_enabled),
    {
        let previous = keys_in_scope(&self.configured_keys, scope);
        let configured = keys_outside_scope(&self.configured_keys, scope);
        let disabled = keys_outside_scope(&self.disabled_keys, scope);
        let mut disabled_scopes = entries_outside_scope(&self.disabled_scopes, scope);
        if !scope_enabled {
            let ghost before = disabled_scopes@;
            disabled_scopes.push((clone_scope(scope), common_address));
            assert(scope_entry_set(disabled_scopes@) =~= scope_entry_set(before).insert((scope@, common_address))) by {
                assert(disabled_scopes@[before.len() as int].0@ == scope@);
                assert forall|v: ScopeEntryView| scope_entry_set(disabled_scopes@).contains(v)
                    implies scope_entry_set(before).insert((scope@, common_address)).contains(v) by {
                    let i = choose|i: int| 0 <= i < disabled_scopes@.len() && (#[trigger] disabled_scopes@[i]).0@ == v.0 && disabled_scopes@[i].1 == v.1;
                    if i < before.len() { assert(before[i] == disabled_scopes@[i]); }
                }
                assert forall|v: ScopeEntryView| scope_entry_set(before).contains(v)
                    implies scope_entry_set(disabled_scopes@).contains(v) by {
                    let i = choose|i: int| 0 <= i < before.len() && (#[trigger] before[i]).0@ == v.0 && before[i].1 == v.1;
                    assert(disabled_scopes@[i] == before[i]);
                }
            }
        }
        let ghost base_configured = key_set(configured@);
        let ghost base_disabled = key_set(disabled@);
        let mut configured = configured;
        let mut disabled = disabled;
        let mut i: usize = 0;
        while i < defs.len()
            invariant
                i <= defs@.len(),
                key_set(configured@) == base_configured.union(def_keys(scope@, common_address, defs@.take(i as int), all_points())),
                key_set(disabled@) == base_disabled.union(def_keys(scope@, common_address, defs@.take(i as int), disabled_points(scope_enabled))),
            decreases defs@.len() - i,
        {
            let key = data_point_key(scope, common_address, defs[i].address);
            proof {
                lemma_def_keys_step(scope@, common_address, defs@, i as int, all_points());
                lemma_def_keys_step(scope@, common_address, defs@, i as int, disabled_points(scope_enabled));
            }
            insert_key(&mut configured, key.clone_key());
            if !scope_enabled || !defs[i].is_enabled {
                insert_key(&mut disabled, key);
            }
            i = i + 1;
        }
        assert(defs@.take(defs@.len() as int) =~= defs@);
        self.configured_keys = configured;
        self.disabled_keys = disabled;
        self.disabled_scopes = disabled_scopes;
        assert(self.disabled_scope_entries() =~= old(self).disabled_scope_entries().filter(entry_outside(scope@))
            .union(if scope_enabled { Set::<ScopeEntryView>::empty() } else { set![(scope@, common_address)] }));
        previous
    }

    /// Forgets everything known of `scope`; returns the keys it had configured.
    pub fn clear_scope(&mut self, scope: &MasterPointScope) -> (r: Vec<MasterPointKey>)
        ensures
            key_set(r@) == within_scope(old(self).configured(), scope@),
            cleared_scope(*old(self), *final(self), scope@),
    {
        let none: Vec<PointDef> = Vec::new();
        let r = self.replace_scope(scope, 0, &none, true);
        assert(def_keys(scope@, 0, none@, all_points()) =~= Set::<KeyView>::empty());
        assert(def_keys(scope@, 0, none@, disabled_points(true)) =~= Set::<KeyView>::empty());
        assert(final(self).configured() =~= without_scope(old(self).configured(), scope@));
        assert(final(self).disabled() =~= without_scope(old(self).disabled(), scope@));
        assert(final(self).disabled_scope_entries() =~= old(self).disabled_scope_entries().filter(entry_outside(scope@)));
        r
    }
}

impl MasterPointKey {
    /// A copy of the key.
    pub fn clone_key(&self) -> (r: MasterPointKey)
        ensures
            r@ == self@,
    {
        MasterPointKey { scope: clone_scope(&self.scope), common_address: self.common_address, ioa: self.ioa }
    }
}

proof fn lemma_def_keys_step(scope: ScopeView, common_address: u16, defs: Seq<PointDef>, i: int, pick: spec_fn(PointDef) -> bool)
    requires
        0 <= i < defs.len(),
    ensures
        def_keys(scope, common_address, defs.take(i + 1), pick) == def_keys(scope, common_address, defs.take(i), pick).union(
            if pick(defs[i]) { set![(scope, common_address, defs[i].address)] } else { Set::<KeyView>::empty() }),
{
    let a = def_keys(scope, common_address, defs.take(i + 1), pick);
    let b = def_keys(scope, common_address, defs.take(i), pick).union(
        if pick(defs[i]) { set![(scope, common_address, defs[i].address)] } else { Set::<KeyView>::empty() });
    assert forall|v: KeyView| a.contains(v) implies b.contains(v) by {
        let j = choose|j: int| 0 <= j < defs.take(i + 1).len() && pick(defs.take(i + 1)[j]) && v == (scope, common_address, #[trigger] defs.take(i + 1)[j].address);
        if j < i {
            assert(defs.take(i)[j] == defs.take(i + 1)[j]);
        }
    }
    assert forall|v: KeyView| b.contains(v) implies a.contains(v) by {
        if def_keys(scope, common_address, defs.take(i), pick).contains(v) {
            let j = choose|j: int| 0 <= j < defs.take(i).len() && pick(defs.take(i)[j]) && v == (scope, common_address, #[trigger] defs.take(i)[j].address);
            assert(defs.take(i + 1)[j] == defs.take(i)[j]);
        } else {
            assert(defs.take(i + 1)[i] == defs[i]);
        }
    }
    assert(a =~= b);
}

fn key_listed(keys: &Vec<MasterPointKey>, key: &MasterPointKey) -> (r: bool)
    ensures
        r == key_set(keys@).contains(key@),
{
    let mut i: usize = 0;
    while i < keys.len()
        invariant
            i <= keys@.len(),
            forall|j: int| 0 <= j < i ==> #[trigger] keys@[j]@ != key@,
        decreases keys@.len() - i,
    {
        if key_eq(&keys[i], key) {
            assert(keys@[i as int]@ == key@);
            return true;
        }
        i = i + 1;
    }
    false
}

fn scope_listed(entries: &Vec<(MasterPointScope, u16)>, scope: &MasterPointScope, common_address: u16) -> (r: bool)
    ensures
        r == scope_entry_set(entries@).contains((scope@, common_address)),
{
    let mut i: usize = 0;
    while i < entries.len()
        invariant
            i <= entries@.len(),
            forall|j: int| 0 <= j < i ==> !((#[trigger] entries@[j]).0@ == scope@ && entries@[j].1 == common_address),
        decreases entries@.len() - i,
    {
        if entries[i].1 == common_address && scope_eq(&entries[i].0, scope) {
            assert(entries@[i as int].0@ == scope@);
            return true;
        }
        i = i + 1;
    }
    false
}

fn insert_key(keys: &mut Vec<MasterPointKey>, key: MasterPointKey)
    ensures
        key_set(final(keys)@) == key_set(old(keys)@).insert(key@),
{
    if key_listed(keys, &key) {
        assert(key_set(keys@).insert(key@) =~= key_set(keys@));
        return;
    }
    let ghost before = keys@;
    let ghost kv = key@;
    keys.push(key);
    assert(key_set(keys@) =~= key_set(before).insert(kv)) by {
        assert(keys@[before.len() as int]@ == kv);
        assert forall|v: KeyView| key_set(keys@).contains(v) implies key_set(before).insert(kv).contains(v) by {
            let i = choose|i: int| 0 <= i < keys@.len() && #[trigger] keys@[i]@ == v;
            if i < before.len() { assert(before[i] == keys@[i]); }
        }
        assert forall|v: KeyView| key_set(before).contains(v) implies key_set(keys@).contains(v) by {
            let i = choose|i: int| 0 <= i < before.len() && #[trigger] before[i]@ == v;
            assert(keys@[i] == before[i]);
        }
    }
}

fn keys_outside_scope(keys: &Vec<MasterPointKey>, scope: &MasterPointScope) -> (r: Vec<MasterPointKey>)
    ensures
        key_set(r@) == without_scope(key_set(keys@), scope@),
{
    let mut out: Vec<MasterPointKey> = Vec::new();
    let mut i: usize = 0;
    while i < keys.len()
        invariant
            i <= keys@.len(),
            forall|v: KeyView| key_set(out@).contains(v) <==> (v.0 != scope@ && exists|j: int| 0 <= j < i && #[trigger] keys@[j]@ == v),
        decreases keys@.len() - i,
    {
        if !scope_eq(&keys[i].scope, scope) {
            let ghost before = out@;
            let k = keys[i].clone_key();
            out.push(k);
            assert forall|v: KeyView| key_set(out@).contains(v) <==> (v.0 != scope@ && exists|j: int| 0 <= j < i + 1 && #[trigger] keys@[j]@ == v) by {
                if key_set(out@).contains(v) {
                    let p = choose|p: int| 0 <= p < out@.len() && #[trigger] out@[p]@ == v;
                    if p < before.len() { assert(before[p] == out@[p]); assert(key_set(before).contains(v)); }
                    else { assert(keys@[i as int]@ == v); }
                }
                if v.0 != scope@ && exists|j: int| 0 <= j < i + 1 && #[trigger] keys@[j]@ == v {
                    let j = choose|j: int| 0 <= j < i + 1 && #[trigger] keys@[j]@ == v;
                    if j < i {
                        assert(key_set(before).contains(v));
                        let p = choose|p: int| 0 <= p < before.len() && #[trigger] before[p]@ == v;
                        assert(out@[p] == before[p]);
                    } else {
                        assert(out@[before.len() as int]@ == v);
                    }
                }
            }
        } else {
            assert forall|v: KeyView| key_set(out@).contains(v) <==> (v.0 != scope@ && exists|j: int| 0 <= j < i + 1 && #[trigger] keys@[j]@ == v) by {
                if v.0 != scope@ && exists|j: int| 0 <= j < i + 1 && #[trigger] keys@[j]@ == v {
                    let j = choose|j: int| 0 <= j < i + 1 && #[trigger] keys@[j]@ == v;
                    if j == i { assert(keys@[i as int].scope@ == scope@); }
                }
            }
        }
        i = i + 1;
    }
    assert(key_set(out@) =~= without_scope(key_set(keys@), scope@));
    out
}

fn keys_in_scope(keys: &Vec<MasterPointKey>, scope: &MasterPointScope) -> (r: Vec<MasterPointKey>)
    ensures
        key_set(r@) == within_scope(key_set(keys@), scope@),
{
    let mut out: Vec<MasterPointKey> = Vec::new();
    let mut i: usize = 0;
    while i < keys.len()
        invariant
            i <= keys@.len(),
            forall|v: KeyView| key_set(out@).contains(v) <==> (v.0 == scope@ && exists|j: int| 0 <= j < i && #[trigger] keys@[j]@ == v),
        decreases keys@.len() - i,
    {
        if scope_eq(&keys[i].scope, scope) {
            let ghost before = out@;
            let k = keys[i].clone_key();
            out.push(k);
            assert forall|v: KeyView| key_set(out@).contains(v) <==> (v.0 == scope@ && exists|j: int| 0 <= j < i + 1 && #[trigger] keys@[j]@ == v) by {
                if key_set(out@).contains(v) {
                    let p = choose|p: int| 0 <= p < out@.len() && #[trigger] out@[p]@ == v;
                    if p < before.len() { assert(before[p] == out@[p]); assert(key_set(before).contains(v)); }
                    else { assert(keys@[i as int]@ == v); }
                }
                if v.0 == scope@ && exists|j: int| 0 <= j < i + 1 && #[trigger] keys@[j]@ == v {
                    let j = choose|j: int| 0 <= j < i + 1 && #[trigger] keys@[j]@ == v;
                    if j < i {
                        assert(key_set(before).contains(v));
                        let p = choose|p: int| 0 <= p < before.len() && #[trigger] before[p]@ == v;
                        assert(out@[p] == before[p]);
                    } else {
                        assert(out@[before.len() as int]@ == v);
                    }
                }
            }
        } else {
            assert forall|v: KeyView| key_set(out@).contains(v) <==> (v.0 == scope@ && exists|j: int| 0 <= j < i + 1 && #[trigger] keys@[j]@ == v) by {
                if v.0 == scope@ && exists|j: int| 0 <= j < i + 1 && #[trigger] keys@[j]@ == v {
                    let j = choose|j: int| 0 <= j < i + 1 && #[trigger] keys@[j]@ == v;
                    if j == i { assert(keys@[i as int].scope@ != scope@); }
                }
            }
        }
        i = i + 1;
    }
    assert(key_set(out@) =~= within_scope(key_set(keys@), scope@));
    out
}

fn entries_outside_scope(entries: &Vec<(MasterPointScope, u16)>, scope: &MasterPointScope) -> (r: Vec<(MasterPointScope, u16)>)
    ensures
        scope_entry_set(r@) == scope_entry_set(entries@).filter(entry_outside(scope@)),
{
    let mut out: Vec<(MasterPointScope, u16)> = Vec::new();
    let mut i: usize = 0;
    while i < entries.len()
        invariant
            i <= entries@.len(),
            forall|v: ScopeEntryView| scope_entry_set(out@).contains(v) <==>
                (v.0 != scope@ && exists|j: int| 0 <= j < i && (#[trigger] entries@[j]).0@ == v.0 && entries@[j].1 == v.1),
        decreases entries@.len() - i,
    {
        if !scope_eq(&entries[i].0, scope) {
            let ghost before = out@;
            let e = (clone_scope(&entries[i].0), entries[i].1);
            out.push(e);
            assert forall|v: ScopeEntryView| scope_entry_set(out@).contains(v) <==>
                (v.0 != scope@ && exists|j: int| 0 <= j < i + 1 && (#[trigger] entries@[j]).0@ == v.0 && entries@[j].1 == v.1) by {
                if scope_entry_set(out@).contains(v) {
                    let p = choose|p: int| 0 <= p < out@.len() && (#[trigger] out@[p]).0@ == v.0 && out@[p].1 == v.1;
                    if p < before.len() { assert(before[p] == out@[p]); assert(scope_entry_set(before).contains(v)); }
                }
                if v.0 != scope@ && exists|j: int| 0 <= j < i + 1 && (#[trigger] entries@[j]).0@ == v.0 && entries@[j].1 == v.1 {
                    let j = choose|j: int| 0 <= j < i + 1 && (#[trigger] entries@[j]).0@ == v.0 && entries@[j].1 == v.1;
                    if j < i {
                        assert(scope_entry_set(before).contains(v));
                        let p = choose|p: int| 0 <= p < before.len() && (#[trigger] before[p]).0@ == v.0 && before[p].1 == v.1;
                        assert(out@[p] == before[p]);
                    } else {
                        assert(out@[before.len() as int].0@ == v.0);
                    }
                }
            }
        } else {
            assert forall|v: ScopeEntryView| scope_entry_set(out@).contains(v) <==>
                (v.0 != scope@ && exists|j: int| 0 <= j < i + 1 && (#[trigger] entries@[j]).0@ == v.0 && entries@[j].1 == v.1) by {
                if v.0 != scope@ && exists|j: int| 0 <= j < i + 1 && (#[trigger] entries@[j]).0@ == v.0 && entries@[j].1 == v.1 {
                    let j = choose|j: int| 0 <= j < i + 1 && (#[trigger] entries@[j]).0@ == v.0 && entries@[j].1 == v.1;
                    if j == i { assert(entries@[i as int].0@ == scope@); }
                }
            }
        }
        i = i + 1;
    }
    assert(scope_entry_set(out@) =~= scope_entry_set(entries@).filter(entry_outside(scope@)));
    out
}

/// After a scope's point table is replaced, a point of that scope is disabled
/// exactly when the scope is disabled or the table disables that point; no
/// other scope changes.
pub proof fn replace_scope_decides_admission(
    before: MasterPointAdmission,
    after: MasterPointAdmission,
    scope: ScopeView,
    common_address: u16,
    defs: Seq<PointDef>,
    scope_enabled: bool,
    other: ScopeView,
    ca: u16,
    address: u32,
)
    requires
        replaced_scope(before, after, scope, common_address, defs, scope_enabled),
    ensures
        after.spec_is_disabled(scope, common_address, address) == (!scope_enabled
            || exists|i: int| 0 <= i < defs.len() && #[trigger] defs[i].address == address && !defs[i].is_enabled),
        other != scope ==> after.spec_is_disabled(other, ca, address) == before.spec_is_disabled(other, ca, address),
{
    let pick = disabled_points(scope_enabled);
    if exists|i: int| 0 <= i < defs.len() && #[trigger] defs[i].address == address && !defs[i].is_enabled {
        let i = choose|i: int| 0 <= i < defs.len() && #[trigger] defs[i].address == address && !defs[i].is_enabled;
        assert(def_keys(scope, common_address, defs, pick).contains((scope, common_address, defs[i].address)));
    }
    if !scope_enabled {
        assert(after.disabled_scope_entries().contains((scope, common_address)));
    }
    if after.spec_is_disabled(scope, common_address, address) && scope_enabled {
        if after.disabled().contains((scope, common_address, address)) {
            let j = choose|j: int| 0 <= j < defs.len() && pick(defs[j]) && (scope, common_address, address) == (scope, common_address, #[trigger] defs[j].address);
            assert(defs[j].address == address && !defs[j].is_enabled);
        } else if after.disabled().contains((scope, 0, address)) {
            let j = choose|j: int| 0 <= j < defs.len() && pick(defs[j]) && (scope, 0u16, address) == (scope, common_address, #[trigger] defs[j].address);
            assert(defs[j].address == address && !defs[j].is_enabled);
        }
    }
    if other != scope {
        assert(after.disabled_scope_entries().contains((other, ca)) == before.disabled_scope_entries().contains((other, ca)));
        assert(after.disabled_scope_entries().contains((other, 0)) == before.disabled_scope_entries().contains((other, 0)));
        assert(!def_keys(scope, common_address, defs, pick).contains((other, ca, address)));
        assert(!def_keys(scope, common_address, defs, pick).contains((other, 0, address)));
    }
}

/// After a scope is cleared none of its points is disabled, whatever the address.
pub proof fn cleared_scope_admits_everything(
    before: MasterPointAdmission,
    after: MasterPointAdmission,
    scope: ScopeView,
    ca: u16,
    address: u32,
)
    requires
        cleared_scope(before, after, scope),
    ensures
        !after.spec_is_disabled(scope, ca, address),
{
}

/// After a scope's point table is replaced, the keys configured in the scope
/// are exactly those of the table, so the next replacement or clearing of the
/// scope returns them.
pub proof fn replaced_scope_holds_its_table(
    before: MasterPointAdmission,
    after: MasterPointAdmission,
    scope: ScopeView,
    common_address: u16,
    defs: Seq<PointDef>,
    scope_enabled: bool,
)
    requires
        replaced_scope(before, after, scope, common_address, defs, scope_enabled),
    ensures
        within_scope(after.configured(), scope) == def_keys(scope, common_address, defs, all_points()),
{
    assert(within_scope(after.configured(), scope) =~= def_keys(scope, common_address, defs, all_points()));
}

/// After a scope is cleared it holds no keys, so the next replacement or
/// clearing of the scope returns none.
pub proof fn cleared_scope_holds_nothing(before: MasterPointAdmission, after: MasterPointAdmission, scope: ScopeView)
    requires
        cleared_scope(before, after, scope),
    ensures
        within_scope(after.configured(), scope) == Set::<KeyView>::empty(),
{
    assert(within_scope(after.configured(), scope) =~= Set::<KeyView>::empty());
}

/// Replacing or clearing one scope leaves the keys and the admission of every
/// other scope as they were; so the keys a replacement returns are those of
/// the last call that touched its scope.
pub proof fn other_scopes_keep_their_tables(
    before: MasterPointAdmission,
    after: MasterPointAdmission,
    touched: ScopeView,
    common_address: u16,
    defs: Seq<PointDef>,
    scope_enabled: bool,
    cleared: bool,
    scope: ScopeView,
    ca: u16,
    address: u32,
)
    requires
        touched != scope,
        cleared ==> cleared_scope(before, after, touched),
        !cleared ==> replaced_scope(before, after, touched, common_address, defs, scope_enabled),
    ensures
        within_scope(after.configured(), scope) == within_scope(before.configured(), scope),
        after.spec_is_disabled(scope, ca, address) == before.spec_is_disabled(scope, ca, address),
{
    assert(within_scope(after.configured(), scope) =~= within_scope(before.configured(), scope));
    if cleared {
        assert(after.disabled_scope_entries().contains((scope, ca)) == before.disabled_scope_entries().contains((scope, ca)));
        assert(after.disabled_scope_entries().contains((scope, 0)) == before.disabled_scope_entries().contains((scope, 0)));
    } else {
        replace_scope_decides_admission(before, after, touched, common_address, defs, scope_enabled, scope, ca, address);
    }
}

} // verus!
