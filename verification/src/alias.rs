//! ASDU aliases: a map from a type's canonical name to the name the user
//! gives it, held as a list of pairs with distinct keys.

use vstd::prelude::*;
use vstd::string::*;

use crate::registry::{iec104_type_id, iec104_type_name, spec_type_id_of_name, spec_type_name, TypeDescriptor};
use crate::strutil::{str_equals, trim_bounds, trim_seq};

verus! {

/// No key occurs twice.
pub open spec fn keys_unique(s: Seq<(String, String)>) -> bool {
    forall|i: int, j: int| 0 <= i < j < s.len() ==> (#[trigger] s[i]).0@ != (#[trigger] s[j]).0@
}

/// The value the map holds under `key`.
pub open spec fn alias_lookup(s: Seq<(String, String)>, key: Seq<char>) -> Option<Seq<char>> {
    if exists|i: int| 0 <= i < s.len() && (#[trigger] s[i]).0@ == key {
        Some(s[choose|i: int| 0 <= i < s.len() && (#[trigger] s[i]).0@ == key].1@)
    } else {
        None
    }
}

proof fn lemma_lookup_at(s: Seq<(String, String)>, i: int)
    requires
        keys_unique(s),
        0 <= i < s.len(),
    ensures
        alias_lookup(s, s[i].0@) == Some(s[i].1@),
{
    let key = s[i].0@;
    let j = choose|j: int| 0 <= j < s.len() && (#[trigger] s[j]).0@ == key;
    if j != i {
        if j < i { assert(s[j].0@ != s[i].0@); } else { assert(s[i].0@ != s[j].0@); }
    }
}

/// Sets the value under `key`, replacing the one it had.
pub fn alias_set(v: &mut Vec<(String, String)>, key: String, value: String)
    requires
        keys_unique(old(v)@),
    ensures
        keys_unique(final(v)@),
        forall|k: Seq<char>| #[trigger] alias_lookup(final(v)@, k) == (if k == key@ { Some(value@) } else { alias_lookup(old(v)@, k) }),
{
    let ghost before = v@;
    let mut i: usize = 0;
    while i < v.len()
        invariant
            v@ == before,
            before == old(v)@,
            keys_unique(before),
            i <= v@.len(),
            forall|j: int| 0 <= j < i ==> (#[trigger] v@[j]).0@ != key@,
        decreases v@.len() - i,
    {
        if str_equals(v[i].0.as_str(), key.as_str()) {
            let ghost kv = key@;
            let ghost vv = value@;
            assert(before[i as int].0@ == kv);
            v.set(i, (key, value));
            proof {
                let after = v@;
                assert(after[i as int].0@ == before[i as int].0@);
                assert forall|p: int, q: int| 0 <= p < q < after.len() implies (#[trigger] after[p]).0@ != (#[trigger] after[q]).0@ by {
                    assert(after[p].0@ == before[p].0@);
                    assert(after[q].0@ == before[q].0@);
                }
                assert forall|k: Seq<char>| #[trigger] alias_lookup(after, k) == (if k == kv { Some(vv) } else { alias_lookup(before, k) }) by {
                    if k == kv {
                        lemma_lookup_at(after, i as int);
                    } else {
                        if exists|p: int| 0 <= p < before.len() && (#[trigger] before[p]).0@ == k {
                            let p = choose|p: int| 0 <= p < before.len() && (#[trigger] before[p]).0@ == k;
                            lemma_lookup_at(before, p);
                            assert(after[p] == before[p]);
                            lemma_lookup_at(after, p);
                        } else {
                            assert forall|p: int| 0 <= p < after.len() implies (#[trigger] after[p]).0@ != k by {
                                assert(after[p].0@ == before[p].0@ || p == i);
                            }
                        }
                    }
                }
            }
            return;
        }
        i = i + 1;
    }
    let ghost kv = key@;
    let ghost vv = value@;
    v.push((key, value));
    proof {
        let after = v@;
        let n = before.len() as int;
        assert forall|p: int, q: int| 0 <= p < q < after.len() implies (#[trigger] after[p]).0@ != (#[trigger] after[q]).0@ by {
            if q < n { assert(after[p] == before[p] && after[q] == before[q]); } else { assert(after[p] == before[p]); }
        }
        assert forall|k: Seq<char>| #[trigger] alias_lookup(after, k) == (if k == kv { Some(vv) } else { alias_lookup(before, k) }) by {
            if k == kv {
                lemma_lookup_at(after, n);
            } else if exists|p: int| 0 <= p < before.len() && (#[trigger] before[p]).0@ == k {
                let p = choose|p: int| 0 <= p < before.len() && (#[trigger] before[p]).0@ == k;
                lemma_lookup_at(before, p);
                assert(after[p] == before[p]);
                lemma_lookup_at(after, p);
            } else {
                assert forall|p: int| 0 <= p < after.len() implies (#[trigger] after[p]).0@ != k by {
                    if p < n { assert(after[p] == before[p]); }
                }
            }
        }
    }
}

/// The value under `key`, if any.
pub fn alias_get<'a>(v: &'a Vec<(String, String)>, key: &str) -> (r: Option<&'a String>)
    requires
        keys_unique(v@),
    ensures
        match alias_lookup(v@, key@) {
            Some(val) => r matches Some(s) && s@ == val,
            None => r is None,
        },
{
    let mut i: usize = 0;
    while i < v.len()
        invariant
            i <= v@.len(),
            keys_unique(v@),
            forall|j: int| 0 <= j < i ==> (#[trigger] v@[j]).0@ != key@,
        decreases v@.len() - i,
    {
        if str_equals(v[i].0.as_str(), key) {
            proof { lemma_lookup_at(v@, i as int); }
            return Some(&v[i].1);
        }
        i = i + 1;
    }
    None
}

/// The map after an entry-wise extension: every entry of `incoming`, in order, is set.
pub open spec fn extended_lookup(base: Seq<(String, String)>, incoming: Seq<(String, String)>, k: Seq<char>) -> Option<Seq<char>>
    decreases incoming.len(),
{
    if incoming.len() == 0 {
        alias_lookup(base, k)
    } else if incoming.last().0@ == k {
        Some(incoming.last().1@)
    } else {
        extended_lookup(base, incoming.drop_last(), k)
    }
}

/// Sets every entry of `incoming` in `base`, later entries last.
pub fn alias_extend(base: &mut Vec<(String, String)>, incoming: Vec<(String, String)>)
    requires
        keys_unique(old(base)@),
    ensures
        keys_unique(final(base)@),
        forall|k: Seq<char>| #[trigger] alias_lookup(final(base)@, k) == extended_lookup(old(base)@, incoming@, k),
{
    let ghost original = base@;
    let ghost all = incoming@;
    let mut rest = incoming;
    let ghost mut done: Seq<(String, String)> = Seq::empty();
    while rest.len() > 0
        invariant
            keys_unique(base@),
            all == done + rest@,
            forall|k: Seq<char>| #[trigger] alias_lookup(base@, k) == extended_lookup(original, done, k),
        decreases rest@.len(),
    {
        let (k, v) = rest.remove(0);
        let ghost entry = (k, v);
        let ghost kv = k@;
        alias_set(base, k, v);
        proof {
            let nd = done.push(entry);
            assert(nd.drop_last() =~= done);
            assert forall|key: Seq<char>| #[trigger] alias_lookup(base@, key) == extended_lookup(original, nd, key) by {}
            assert(all =~= nd + rest@);
            done = nd;
        }
    }
    assert(done =~= all);
}

/// The canonical entry a raw alias entry gives: the table's name of the type
/// its key names, and its value trimmed; none when the key names no type or
/// the value is blank.
pub open spec fn canonical_entry(table: Seq<TypeDescriptor>, entry: (String, String)) -> Option<(Seq<char>, Seq<char>)> {
    match spec_type_id_of_name(table, trim_seq(entry.0@)) {
        Some(t) => {
            let alias = trim_seq(entry.1@);
            if alias.len() == 0 { None } else { Some((spec_type_name(table, t), alias)) }
        },
        None => None,
    }
}

/// The value a normalized map holds under `k`: that of the last raw entry whose canonical key is `k`.
pub open spec fn normalized_lookup(table: Seq<TypeDescriptor>, raw: Seq<(String, String)>, k: Seq<char>) -> Option<Seq<char>>
    decreases raw.len(),
{
    if raw.len() == 0 {
        None
    } else {
        match canonical_entry(table, raw.last()) {
            Some((name, alias)) => if name == k { Some(alias) } else { normalized_lookup(table, raw.drop_last(), k) },
            None => normalized_lookup(table, raw.drop_last(), k),
        }
    }
}

fn trimmed_copy(s: &str) -> (r: String)
    ensures
        r@ == trim_seq(s@),
{
    let (a, b) = trim_bounds(s);
    String::from_str(s.substring_char(a, b))
}

/// Canonical aliases: keys become the table's type names, values are trimmed,
/// entries with an unknown type or a blank alias are dropped; of entries with
/// the same canonical key the last one counts.
pub fn normalize_asdu_alias_map(table: &Vec<TypeDescriptor>, raw: Vec<(String, String)>) -> (r: Vec<(String, String)>)
    ensures
        keys_unique(r@),
        forall|k: Seq<char>| #[trigger] alias_lookup(r@, k) == normalized_lookup(table@, raw@, k),
{
    let ghost all = raw@;
    let mut rest = raw;
    let mut out: Vec<(String, String)> = Vec::new();
    let ghost mut done: Seq<(String, String)> = Seq::empty();
    while rest.len() > 0
        invariant
            keys_unique(out@),
            all == done + rest@,
            forall|k: Seq<char>| #[trigger] alias_lookup(out@, k) == normalized_lookup(table@, done, k),
        decreases rest@.len(),
    {
        let (key, value) = rest.remove(0);
        let ghost entry = (key, value);
        let name = trimmed_copy(key.as_str());
        let type_id = iec104_type_id(table, name.as_str());
        match type_id {
            Some(t) => {
                let alias = trimmed_copy(value.as_str());
                if alias.unicode_len() > 0 {
                    let canonical = iec104_type_name(table, t);
                    alias_set(&mut out, canonical, alias);
                }
            },
            None => {},
        }
        proof {
            let nd = done.push(entry);
            assert(nd.drop_last() =~= done);
            assert(nd.last() == entry);
            done = nd;
            assert(all =~= done + rest@);
        }
    }
    assert(done =~= all);
    out
}

} // verus!
