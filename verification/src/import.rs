//! Point table import: what a parsed point table is checked against before it
//! replaces or extends the point table of a slave, and how an append merges.

use vstd::prelude::*;
use vstd::multiset::*;
use vstd::string::*;

use crate::alias::{alias_extend, alias_get, alias_lookup, extended_lookup, keys_unique, normalize_asdu_alias_map, normalized_lookup};
use crate::registry::TypeDescriptor;
use crate::text::{decimal, join2, text_then_number, text_with_number};
use crate::seqs::{first_match, lemma_first_match};
use crate::types::PointDef;

verus! {

/// Where a point table goes.
#[derive(Clone, Copy, Debug, PartialEq, Eq, Structural)]
pub enum PointTableImportTarget {
    MasterLinkSlave { slave_id: i64 },
    SlaveStationSlave { slave_id: i64 },
}

/// Formats a point table file comes in.
#[derive(Clone, Copy, Debug, PartialEq, Eq, Structural)]
pub enum PointTableImportFormat {
    Xml,
    Csv,
    Json,
}

/// Whether an import extends or replaces the point table.
#[derive(Clone, Copy, Debug, PartialEq, Eq, Structural)]
pub enum PointTableImportMode {
    AppendOnly,
    ReplaceAll,
}

/// A common address the file names, and where.
#[derive(Clone, Debug)]
pub struct PointTableImportSourceCommonAddress {
    pub common_address: u16,
    pub location: String,
}

/// An error or warning of an import.
#[derive(Clone, Debug)]
pub struct PointTableImportIssue {
    pub code: String,
    pub message: String,
    pub location: Option<String>,
}

/// Counts an import preview shows.
#[derive(Clone, Copy, Debug, PartialEq, Eq, Structural)]
pub struct PointTableImportSummary {
    pub total_points: usize,
    pub normalized_points: usize,
    pub preview_points: usize,
    pub duplicate_address_count: usize,
    pub control_mapping_count: usize,
    pub asdu_alias_count: usize,
    pub existing_points_count: usize,
    pub error_count: usize,
    pub warning_count: usize,
}

/// A parsed point table: points, ASDU aliases (pairs with distinct keys), and the common addresses it names.
#[derive(Clone, Debug)]
pub struct PointTableImportNormalizedPayload {
    pub point_defs: Vec<PointDef>,
    pub asdu_aliases: Vec<(String, String)>,
    pub source_common_addresses: Vec<PointTableImportSourceCommonAddress>,
}

/// The preview of an import.
#[derive(Clone, Debug)]
pub struct PointTableImportPreview {
    pub target: PointTableImportTarget,
    pub file_path: String,
    pub file_name: String,
    pub file_size: u64,
    pub format: PointTableImportFormat,
    pub encoding: String,
    pub can_apply: bool,
    pub summary: PointTableImportSummary,
    pub errors: Vec<PointTableImportIssue>,
    pub warnings: Vec<PointTableImportIssue>,
    pub points_preview: Vec<PointDef>,
    pub asdu_aliases_preview: Vec<(String, String)>,
    pub normalized_payload: PointTableImportNormalizedPayload,
}

/// What a point table file decoded to.
#[derive(Clone, Debug)]
pub struct DecodedPointTableImport {
    pub file_path: String,
    pub file_name: String,
    pub file_size: u64,
    pub format: PointTableImportFormat,
    pub encoding: String,
    pub total_points: usize,
    pub duplicate_address_count: usize,
    pub points_preview: Vec<PointDef>,
    pub payload: PointTableImportNormalizedPayload,
    pub errors: Vec<PointTableImportIssue>,
    pub warnings: Vec<PointTableImportIssue>,
}

/// The outcome of an applied import; the cursor is the point store version after it, when the runtime took it.
#[derive(Clone, Debug)]
pub struct PointTableImportApplyResult {
    pub target: PointTableImportTarget,
    pub imported_points: usize,
    pub existing_points: usize,
    pub asdu_aliases_updated: usize,
    pub runtime_applied: bool,
    pub applied_point_cursor: Option<u64>,
}

/// Only a slave station's slave stores control mappings.
pub fn target_supports_control_mapping(target: &PointTableImportTarget) -> (r: bool)
    ensures
        r == (*target is SlaveStationSlave),
{
    match target {
        PointTableImportTarget::SlaveStationSlave { .. } => true,
        PointTableImportTarget::MasterLinkSlave { .. } => false,
    }
}

/// The number of points with a control mapping.
pub open spec fn control_mapping_count(defs: Seq<PointDef>) -> nat
    decreases defs.len(),
{
    if defs.len() == 0 { 0 } else {
        control_mapping_count(defs.drop_last()) + (if defs.last().control_ioa is Some { 1nat } else { 0nat })
    }
}

/// Counts the points with a control mapping.
pub fn count_control_mappings(defs: &Vec<PointDef>) -> (r: usize)
    ensures
        r == control_mapping_count(defs@),
{
    let mut n: usize = 0;
    let mut i: usize = 0;
    while i < defs.len()
        invariant
            i <= defs@.len(),
            n == control_mapping_count(defs@.take(i as int)),
            n <= i,
        decreases defs@.len() - i,
    {
        assert(defs@.take(i + 1).drop_last() =~= defs@.take(i as int));
        if defs[i].control_ioa.is_some() {
            n = n + 1;
        }
        i = i + 1;
    }
    assert(defs@.take(defs@.len() as int) =~= defs@);
    n
}

/// The warnings of a target: one when a target that stores no control mappings receives some.
pub open spec fn capability_warnings_spec(target: PointTableImportTarget, defs: Seq<PointDef>, r: Seq<PointTableImportIssue>) -> bool {
    if control_mapping_count(defs) > 0 && target is MasterLinkSlave {
        &&& r.len() == 1
        &&& r[0].code@ == "TARGET_UNSUPPORTED_CONTROL_MAPPING"@
        &&& r[0].message@ == "当前导入目标不支持保存 control_ioa 映射，提交时将忽略 "@
            + decimal(control_mapping_count(defs)) + " 项"@
        &&& r[0].location is None
    } else {
        r.len() == 0
    }
}

/// Warns when a target that stores no control mappings receives some.
pub fn build_target_capability_warnings(target: &PointTableImportTarget, payload: &PointTableImportNormalizedPayload) -> (r: Vec<PointTableImportIssue>)
    ensures
        capability_warnings_spec(*target, payload.point_defs@, r@),
{
    let mut warnings: Vec<PointTableImportIssue> = Vec::new();
    let count = count_control_mappings(&payload.point_defs);
    if count > 0 && !target_supports_control_mapping(target) {
        warnings.push(PointTableImportIssue {
            code: String::from_str("TARGET_UNSUPPORTED_CONTROL_MAPPING"),
            message: text_with_number("当前导入目标不支持保存 control_ioa 映射，提交时将忽略 ", count as u64, " 项"),
            location: None,
        });
    }
    warnings
}

/// The message of a common address the file names that is not the target's.
pub open spec fn ca_mismatch_message(file_ca: u16, target_ca: Option<u16>) -> Seq<char> {
    "文件 common_address="@ + decimal(file_ca as nat) + " 与导入目标 CA="@
        + (match target_ca { Some(c) => decimal(c as nat), None => "未指定"@ }) + " 不一致"@
}

/// Whether a named common address differs from the target's.
pub open spec fn ca_differs(target_ca: Option<u16>) -> spec_fn(PointTableImportSourceCommonAddress) -> bool {
    |s: PointTableImportSourceCommonAddress| Some(s.common_address) != target_ca
}

/// Whether a point's address is among the target's.
pub open spec fn address_taken(existing: Seq<u32>) -> spec_fn(PointDef) -> bool {
    |d: PointDef| existing.contains(d.address)
}

/// Whether the target holds the alias's key with another value.
pub open spec fn alias_differs(existing: Seq<(String, String)>) -> spec_fn((String, String)) -> bool {
    |e: (String, String)| alias_lookup(existing, e.0@) matches Some(v) && v != e.1@
}

/// The issues the file's common addresses raise against the target's (see `validate_source_common_addresses`).
pub open spec fn ca_issues_spec(
    sources: Seq<PointTableImportSourceCommonAddress>,
    target_ca: Result<Option<u16>, (String, String)>,
    r: Seq<PointTableImportIssue>,
) -> bool {
    if sources.len() == 0 {
        r.len() == 0
    } else {
        match target_ca {
            Err((code, message)) => r.len() == 1 && r[0].code == code && r[0].message == message && r[0].location is None,
            Ok(t) => {
                let mismatched = sources.filter(ca_differs(t));
                &&& r.len() == mismatched.len()
                &&& forall|k: int| 0 <= k < r.len() ==> {
                    &&& (#[trigger] r[k]).code@ == "COMMON_ADDRESS_MISMATCH"@
                    &&& r[k].message@ == ca_mismatch_message(mismatched[k].common_address, t)
                    &&& r[k].location == Some(mismatched[k].location)
                }
            },
        }
    }
}

/// The issues the file's common addresses raise against the target's: none
/// when the file names none; the failure to read the target's address; or one
/// per named address that differs from it, in file order.
pub fn validate_source_common_addresses(
    payload: &PointTableImportNormalizedPayload,
    target_common_address: &Result<Option<u16>, (String, String)>,
) -> (r: Vec<PointTableImportIssue>)
    ensures
        ca_issues_spec(payload.source_common_addresses@, *target_common_address, r@),
{
    let mut issues: Vec<PointTableImportIssue> = Vec::new();
    if payload.source_common_addresses.len() == 0 {
        return issues;
    }
    let target_ca = match target_common_address {
        Err((code, message)) => {
            issues.push(PointTableImportIssue { code: code.clone(), message: message.clone(), location: None });
            return issues;
        },
        Ok(v) => *v,
    };
    let sources = &payload.source_common_addresses;
    let ghost p = ca_differs(target_ca);
    let mut i: usize = 0;
    while i < sources.len()
        invariant
            i <= sources@.len(),
            p == ca_differs(target_ca),
            issues@.len() == sources@.take(i as int).filter(p).len(),
            forall|k: int| 0 <= k < issues@.len() ==> {
                &&& (#[trigger] issues@[k]).code@ == "COMMON_ADDRESS_MISMATCH"@
                &&& issues@[k].message@ == ca_mismatch_message(sources@.take(i as int).filter(p)[k].common_address, target_ca)
                &&& issues@[k].location == Some(sources@.take(i as int).filter(p)[k].location)
            },
        decreases sources@.len() - i,
    {
        proof { crate::seqs::lemma_filter_take_step(sources@, i as int, p); }
        let entry = &sources[i];
        if Some(entry.common_address) != target_ca {
            let shown = match target_ca {
                Some(c) => crate::text::u64_decimal(c as u64),
                None => String::from_str("未指定"),
            };
            let head = text_with_number("文件 common_address=", entry.common_address as u64, " 与导入目标 CA=");
            let tail = join2(shown.as_str(), " 不一致");
            issues.push(PointTableImportIssue {
                code: String::from_str("COMMON_ADDRESS_MISMATCH"),
                message: join2(head.as_str(), tail.as_str()),
                location: Some(entry.location.clone()),
            });
        }
        i = i + 1;
    }
    assert(sources@.take(sources@.len() as int) =~= sources@);
    issues
}

/// Strips what the target does not store: control mappings on a master
/// link's slave; aliases are normalized (see `normalize_asdu_alias_map`).
pub fn sanitize_payload_for_target(
    target: &PointTableImportTarget,
    payload: PointTableImportNormalizedPayload,
    table: &Vec<TypeDescriptor>,
) -> (r: PointTableImportNormalizedPayload)
    ensures
        r.point_defs@.len() == payload.point_defs@.len(),
        forall|k: int| 0 <= k < r.point_defs@.len() ==> #[trigger] r.point_defs@[k] == (if *target is MasterLinkSlave {
            PointDef { control_ioa: None, ..payload.point_defs@[k] } } else { payload.point_defs@[k] }),
        keys_unique(r.asdu_aliases@),
        forall|key: Seq<char>| #[trigger] alias_lookup(r.asdu_aliases@, key) == normalized_lookup(table@, payload.asdu_aliases@, key),
        r.source_common_addresses == payload.source_common_addresses,
{
    let PointTableImportNormalizedPayload { point_defs, asdu_aliases, source_common_addresses } = payload;
    let keep = target_supports_control_mapping(target);
    let ghost original = point_defs@;
    let mut rest = point_defs;
    let mut out: Vec<PointDef> = Vec::new();
    let mut i: usize = 0;
    let n = rest.len();
    while i < n
        invariant
            n == original.len(),
            i <= n,
            rest@ == original.subrange(i as int, n as int),
            out@.len() == i,
            keep == (*target is SlaveStationSlave),
            forall|k: int| 0 <= k < i ==> #[trigger] out@[k] == (if !keep { PointDef { control_ioa: None, ..original[k] } } else { original[k] }),
        decreases n - i,
    {
        let mut def = rest.remove(0);
        assert(def == original[i as int]);
        if !keep {
            def.control_ioa = None;
        }
        out.push(def);
        assert(rest@ =~= original.subrange(i + 1, n as int));
        i = i + 1;
    }
    let aliases = normalize_asdu_alias_map(table, asdu_aliases);
    PointTableImportNormalizedPayload { point_defs: out, asdu_aliases: aliases, source_common_addresses }
}

/// Whether the sequence is ordered by address.
pub open spec fn sorted_by_address(s: Seq<PointDef>) -> bool {
    forall|i: int, j: int| 0 <= i < j < s.len() ==> s[i].address <= s[j].address
}

/// Whether a point has the given address.
pub open spec fn has_address(a: u32) -> spec_fn(PointDef) -> bool {
    |d: PointDef| d.address == a
}

/// Inserting a point before a run of larger addresses puts it last among its address.
proof fn lemma_insert_before_larger(s: Seq<PointDef>, p: int, d: PointDef, a: u32)
    requires
        0 <= p <= s.len(),
        forall|q: int| p <= q < s.len() ==> (#[trigger] s[q]).address > d.address,
    ensures
        s.insert(p, d).filter(has_address(a)) == (if d.address == a {
            s.filter(has_address(a)).push(d)
        } else {
            s.filter(has_address(a))
        }),
{
    let f = has_address(a);
    let front = s.take(p);
    let back = s.skip(p);
    let one = Seq::<PointDef>::empty().push(d);
    assert(s.insert(p, d) =~= (front + one) + back);
    assert(s =~= front + back);
    Seq::filter_distributes_over_add(front + one, back, f);
    Seq::filter_distributes_over_add(front, one, f);
    Seq::filter_distributes_over_add(front, back, f);
    crate::seqs::lemma_filter_push(Seq::<PointDef>::empty(), d, f);
    crate::seqs::lemma_filter_none(Seq::<PointDef>::empty(), f);
    if d.address == a {
        assert forall|i: int| 0 <= i < back.len() implies !f(#[trigger] back[i]) by {
            assert(back[i] == s[p + i]);
        }
        crate::seqs::lemma_filter_none(back, f);
        assert(front.filter(f) + one =~= front.filter(f).push(d));
        assert(front.filter(f) + Seq::<PointDef>::empty() =~= front.filter(f));
    } else {
        assert(front.filter(f) + Seq::<PointDef>::empty() =~= front.filter(f));
    }
}

/// The points ordered by address; points with equal addresses keep their order.
pub fn sort_point_defs_by_address(defs: Vec<PointDef>) -> (r: Vec<PointDef>)
    ensures
        sorted_by_address(r@),
        r@.to_multiset() == defs@.to_multiset(),
        forall|a: u32| #[trigger] r@.filter(has_address(a)) == defs@.filter(has_address(a)),
{
    broadcast use vstd::seq_lib::to_multiset_insert, vstd::seq_lib::to_multiset_remove;
    let ghost original = defs@;
    let mut rest = defs;
    let mut out: Vec<PointDef> = Vec::new();
    let ghost mut taken: Seq<PointDef> = Seq::empty();
    proof {
        assert forall|a: u32| #[trigger] out@.filter(has_address(a)) == taken.filter(has_address(a)) by {
            assert(out@ =~= taken);
        }
    }
    while rest.len() > 0
        invariant
            original == taken + rest@,
            sorted_by_address(out@),
            out@.to_multiset() == taken.to_multiset(),
            forall|a: u32| #[trigger] out@.filter(has_address(a)) == taken.filter(has_address(a)),
        decreases rest@.len(),
    {
        let def = rest.remove(0);
        let ghost d = def;
        let mut p: usize = out.len();
        while p > 0 && out[p - 1].address > def.address
            invariant
                p <= out@.len(),
                forall|q: int| p <= q < out@.len() ==> (#[trigger] out@[q]).address > def.address,
            decreases p,
        {
            p = p - 1;
        }
        let ghost before = out@;
        out.insert(p, def);
        proof {
            assert(out@ =~= before.insert(p as int, d));
            assert forall|a: int, b: int| 0 <= a < b < out@.len() implies out@[a].address <= out@[b].address by {
                if b < p {
                } else if b == p {
                    if a < p { assert(before[a].address <= before[p - 1].address || a == p - 1); }
                } else if a < p {
                    if a == p - 1 || p == 0 {} else { assert(before[a].address <= before[p - 1].address); }
                } else if a == p {
                    assert(before[b - 1].address > d.address);
                } else {
                }
            }
            vstd::seq_lib::to_multiset_insert(before, p as int, d);
            vstd::seq_lib::to_multiset_build(taken, d);
            let old_taken = taken;
            assert forall|a: u32| #[trigger] out@.filter(has_address(a)) == old_taken.push(d).filter(has_address(a)) by {
                lemma_insert_before_larger(before, p as int, d, a);
                crate::seqs::lemma_filter_push(old_taken, d, has_address(a));
                assert(before.filter(has_address(a)) == old_taken.filter(has_address(a)));
            }
            taken = taken.push(d);
            assert(original =~= taken + rest@);
        }
    }
    assert(taken =~= original);
    out
}

/// The preview issues an append raises (see `append_only_preview_issues`).
pub open spec fn append_issues_spec(
    defs: Seq<PointDef>,
    aliases: Seq<(String, String)>,
    existing_addresses: Seq<u32>,
    existing_aliases: Seq<(String, String)>,
    r: Seq<PointTableImportIssue>,
) -> bool {
    let clashing = defs.filter(address_taken(existing_addresses));
    let differing = aliases.filter(alias_differs(existing_aliases));
    &&& r.len() == clashing.len() + differing.len()
    &&& forall|k: int| 0 <= k < clashing.len() ==> {
        &&& (#[trigger] r[k]).code@ == "CONFLICT_IOA_EXISTING"@
        &&& r[k].message@ == "IOA="@ + decimal(clashing[k].address as nat) + " 已存在，严格追加模式不允许覆盖"@
        &&& r[k].location matches Some(l) && l@ == "IOA="@ + decimal(clashing[k].address as nat)
    }
    &&& forall|k: int| clashing.len() <= k < r.len() ==> {
        &&& (#[trigger] r[k]).code@ == "CONFLICT_ASDU_ALIAS"@
        &&& r[k].message@ == "ASDU 别名 "@ + differing[k - clashing.len()].0@ + " 已存在且值不同"@
        &&& r[k].location matches Some(l) && l@ == differing[k - clashing.len()].0@
    }
}

/// The preview issues an append raises: every incoming point whose address
/// the target already has, then every incoming alias the target holds with
/// another value.
pub fn append_only_preview_issues(
    incoming: &PointTableImportNormalizedPayload,
    existing_addresses: &Vec<u32>,
    existing_aliases: &Vec<(String, String)>,
) -> (r: Vec<PointTableImportIssue>)
    requires
        keys_unique(existing_aliases@),
    ensures
        append_issues_spec(incoming.point_defs@, incoming.asdu_aliases@, existing_addresses@, existing_aliases@, r@),
{
    let mut issues: Vec<PointTableImportIssue> = Vec::new();
    let defs = &incoming.point_defs;
    let ghost p = address_taken(existing_addresses@);
    let mut i: usize = 0;
    while i < defs.len()
        invariant
            i <= defs@.len(),
            p == address_taken(existing_addresses@),
            issues@.len() == defs@.take(i as int).filter(p).len(),
            forall|k: int| 0 <= k < issues@.len() ==> {
                &&& (#[trigger] issues@[k]).code@ == "CONFLICT_IOA_EXISTING"@
                &&& issues@[k].message@ == "IOA="@ + decimal(defs@.take(i as int).filter(p)[k].address as nat) + " 已存在，严格追加模式不允许覆盖"@
                &&& issues@[k].location matches Some(l) && l@ == "IOA="@ + decimal(defs@.take(i as int).filter(p)[k].address as nat)
            },
        decreases defs@.len() - i,
    {
        proof { crate::seqs::lemma_filter_take_step(defs@, i as int, p); }
        let address = defs[i].address;
        if vec_contains_u32(existing_addresses, address) {
            issues.push(PointTableImportIssue {
                code: String::from_str("CONFLICT_IOA_EXISTING"),
                message: text_with_number("IOA=", address as u64, " 已存在，严格追加模式不允许覆盖"),
                location: Some(text_then_number("IOA=", address as u64)),
            });
        }
        i = i + 1;
    }
    assert(defs@.take(defs@.len() as int) =~= defs@);
    let ghost base = issues@.len();
    let aliases = &incoming.asdu_aliases;
    let ghost q = alias_differs(existing_aliases@);
    let mut j: usize = 0;
    while j < aliases.len()
        invariant
            j <= aliases@.len(),
            keys_unique(existing_aliases@),
            q == alias_differs(existing_aliases@),
            issues@.len() == base + aliases@.take(j as int).filter(q).len(),
            base == defs@.filter(p).len(),
            forall|k: int| 0 <= k < base ==> {
                &&& (#[trigger] issues@[k]).code@ == "CONFLICT_IOA_EXISTING"@
                &&& issues@[k].message@ == "IOA="@ + decimal(defs@.filter(p)[k].address as nat) + " 已存在，严格追加模式不允许覆盖"@
                &&& issues@[k].location matches Some(l) && l@ == "IOA="@ + decimal(defs@.filter(p)[k].address as nat)
            },
            forall|k: int| base <= k < issues@.len() ==> {
                &&& (#[trigger] issues@[k]).code@ == "CONFLICT_ASDU_ALIAS"@
                &&& issues@[k].message@ == "ASDU 别名 "@ + aliases@.take(j as int).filter(q)[k - base].0@ + " 已存在且值不同"@
                &&& issues@[k].location matches Some(l) && l@ == aliases@.take(j as int).filter(q)[k - base].0@
            },
        decreases aliases@.len() - j,
    {
        proof { crate::seqs::lemma_filter_take_step(aliases@, j as int, q); }
        let (name, alias) = (&aliases[j].0, &aliases[j].1);
        let differs = match alias_get(existing_aliases, name.as_str()) {
            Some(existing) => !crate::strutil::str_equals(existing.as_str(), alias.as_str()),
            None => false,
        };
        if differs {
            issues.push(PointTableImportIssue {
                code: String::from_str("CONFLICT_ASDU_ALIAS"),
                message: crate::text::join3("ASDU 别名 ", name.as_str(), " 已存在且值不同"),
                location: Some(name.clone()),
            });
        }
        j = j + 1;
    }
    assert(aliases@.take(aliases@.len() as int) =~= aliases@);
    issues
}

fn vec_contains_u32(v: &Vec<u32>, x: u32) -> (r: bool)
    ensures
        r == v@.contains(x),
{
    let mut i: usize = 0;
    while i < v.len()
        invariant
            i <= v@.len(),
            forall|j: int| 0 <= j < i ==> v@[j] != x,
        decreases v@.len() - i,
    {
        if v[i] == x {
            return true;
        }
        i = i + 1;
    }
    false
}

/// The addresses of the points, in order.
pub open spec fn point_addresses(defs: Seq<PointDef>) -> Seq<u32> {
    defs.map_values(|d: PointDef| d.address)
}

fn collect_addresses(defs: &Vec<PointDef>) -> (r: Vec<u32>)
    ensures
        r@ == point_addresses(defs@),
{
    let mut out: Vec<u32> = Vec::new();
    let mut i: usize = 0;
    while i < defs.len()
        invariant
            i <= defs@.len(),
            out@ == point_addresses(defs@.take(i as int)),
        decreases defs@.len() - i,
    {
        out.push(defs[i].address);
        i = i + 1;
        assert(out@ =~= point_addresses(defs@.take(i as int)));
    }
    assert(defs@.take(defs@.len() as int) =~= defs@);
    out
}

/// The message that refuses an append whose point's address the target has.
pub open spec fn ioa_conflict_message(a: u32) -> Seq<char> {
    "IOA="@ + decimal(a as nat) + " 已存在，严格追加导入已整体拒绝"@
}

/// The message that refuses an append whose alias the target holds with another value.
pub open spec fn alias_conflict_message(name: Seq<char>) -> Seq<char> {
    "ASDU 别名 "@ + name + " 已存在且值不同，严格追加导入已整体拒绝"@
}

/// What an append-only merge gives: refused, naming the first incoming point
/// whose address the target has; else the failure to read the target's
/// aliases; else refused, naming the first incoming alias the target holds
/// with another value; else the target's points followed by the incoming ones,
/// ordered by address (equal addresses keep their order), with the incoming
/// aliases set over the target's.
pub open spec fn append_merge_outcome(
    existing_defs: Seq<PointDef>,
    existing_aliases: Result<Vec<(String, String)>, (String, String)>,
    incoming: PointTableImportNormalizedPayload,
    r: Result<PointTableImportNormalizedPayload, (String, String)>,
) -> bool {
    match first_match(incoming.point_defs@, address_taken(point_addresses(existing_defs))) {
        Some(i) => r matches Err((code, message)) && code@ == "CONFLICT_IOA_EXISTING"@
            && message@ == ioa_conflict_message(incoming.point_defs@[i].address),
        None => match existing_aliases {
            Err(e) => r == Err::<PointTableImportNormalizedPayload, (String, String)>(e),
            Ok(aliases) => match first_match(incoming.asdu_aliases@, alias_differs(aliases@)) {
                Some(j) => r matches Err((code, message)) && code@ == "CONFLICT_ASDU_ALIAS"@
                    && message@ == alias_conflict_message(incoming.asdu_aliases@[j].0@),
                None => r matches Ok(merged) && {
                    let all = existing_defs + incoming.point_defs@;
                    &&& sorted_by_address(merged.point_defs@)
                    &&& merged.point_defs@.to_multiset() == all.to_multiset()
                    &&& forall|a: u32| #[trigger] merged.point_defs@.filter(has_address(a)) == all.filter(has_address(a))
                    &&& keys_unique(merged.asdu_aliases@)
                    &&& forall|k: Seq<char>| #[trigger] alias_lookup(merged.asdu_aliases@, k)
                        == extended_lookup(aliases@, incoming.asdu_aliases@, k)
                    &&& merged.source_common_addresses == incoming.source_common_addresses
                },
            },
        },
    }
}

/// Merges an append-only import into the target's points and aliases (see `append_merge_outcome`).
pub fn merge_append_only(
    existing_defs: Vec<PointDef>,
    existing_aliases: Result<Vec<(String, String)>, (String, String)>,
    incoming: PointTableImportNormalizedPayload,
) -> (r: Result<PointTableImportNormalizedPayload, (String, String)>)
    requires
        existing_aliases matches Ok(a) ==> keys_unique(a@),
    ensures
        append_merge_outcome(existing_defs@, existing_aliases, incoming, r),
{
    let addresses = collect_addresses(&existing_defs);
    let ghost p = address_taken(point_addresses(existing_defs@));
    let mut i: usize = 0;
    while i < incoming.point_defs.len()
        invariant
            i <= incoming.point_defs@.len(),
            addresses@ == point_addresses(existing_defs@),
            p == address_taken(point_addresses(existing_defs@)),
            forall|j: int| 0 <= j < i ==> !p(#[trigger] incoming.point_defs@[j]),
        decreases incoming.point_defs@.len() - i,
    {
        let address = incoming.point_defs[i].address;
        if vec_contains_u32(&addresses, address) {
            proof { lemma_first_match(incoming.point_defs@, p, i as int); }
            return Err((String::from_str("CONFLICT_IOA_EXISTING"),
                text_with_number("IOA=", address as u64, " 已存在，严格追加导入已整体拒绝")));
        }
        i = i + 1;
    }
    proof { lemma_first_match(incoming.point_defs@, p, i as int); }
    let ghost given_aliases = existing_aliases;
    let aliases = match existing_aliases {
        Err(e) => { return Err(e); },
        Ok(a) => a,
    };
    let ghost q = alias_differs(aliases@);
    let mut j: usize = 0;
    while j < incoming.asdu_aliases.len()
        invariant
            j <= incoming.asdu_aliases@.len(),
            keys_unique(aliases@),
            given_aliases == Ok::<Vec<(String, String)>, (String, String)>(aliases),
            given_aliases == existing_aliases,
            q == alias_differs(aliases@),
            first_match(incoming.point_defs@, address_taken(point_addresses(existing_defs@))) is None,
            forall|k: int| 0 <= k < j ==> !q(#[trigger] incoming.asdu_aliases@[k]),
        decreases incoming.asdu_aliases@.len() - j,
    {
        let name = &incoming.asdu_aliases[j].0;
        let alias = &incoming.asdu_aliases[j].1;
        let differs = match alias_get(&aliases, name.as_str()) {
            Some(existing) => !crate::strutil::str_equals(existing.as_str(), alias.as_str()),
            None => false,
        };
        if differs {
            proof { lemma_first_match(incoming.asdu_aliases@, q, j as int); }
            return Err((String::from_str("CONFLICT_ASDU_ALIAS"),
                crate::text::join3("ASDU 别名 ", name.as_str(), " 已存在且值不同，严格追加导入已整体拒绝")));
        }
        j = j + 1;
    }
    proof { lemma_first_match(incoming.asdu_aliases@, q, j as int); }
    let ghost incoming_defs = incoming.point_defs@;
    let ghost incoming_aliases = incoming.asdu_aliases@;
    let PointTableImportNormalizedPayload { point_defs, asdu_aliases, source_common_addresses } = incoming;
    let mut all = existing_defs;
    let mut tail = point_defs;
    all.append(&mut tail);
    let merged_defs = sort_point_defs_by_address(all);
    let mut merged_aliases = aliases;
    alias_extend(&mut merged_aliases, asdu_aliases);
    Ok(PointTableImportNormalizedPayload {
        point_defs: merged_defs,
        asdu_aliases: merged_aliases,
        source_common_addresses,
    })
}

/// Why the file's common addresses refuse an apply: the failure to read the
/// target's address, or the first named address that differs from it.
pub open spec fn source_ca_refusal(
    sources: Seq<PointTableImportSourceCommonAddress>,
    target_ca: Result<Option<u16>, (String, String)>,
) -> Option<(Seq<char>, Seq<char>)> {
    if sources.len() == 0 {
        None
    } else {
        match target_ca {
            Err((code, message)) => Some((code@, message@)),
            Ok(t) => {
                let mismatched = sources.filter(ca_differs(t));
                if mismatched.len() == 0 {
                    None
                } else {
                    Some(("COMMON_ADDRESS_MISMATCH"@, ca_mismatch_message(mismatched[0].common_address, t)))
                }
            },
        }
    }
}

/// The checks and merge an apply makes before it stores a sanitized payload:
/// an empty point table is refused; then the file's common addresses; then,
/// in append mode, the merge with the target's points and aliases. Replace
/// mode keeps the payload as it is.
pub fn prepare_point_table_apply(
    mode: PointTableImportMode,
    payload: PointTableImportNormalizedPayload,
    target_common_address: &Result<Option<u16>, (String, String)>,
    existing_defs: Result<Vec<PointDef>, (String, String)>,
    existing_aliases: Result<Vec<(String, String)>, (String, String)>,
) -> (r: Result<PointTableImportNormalizedPayload, (String, String)>)
    requires
        existing_aliases matches Ok(a) ==> keys_unique(a@),
    ensures
        payload.point_defs@.len() == 0 ==> (r matches Err((code, message)) && code@ == "EMPTY_POINT_TABLE"@
            && message@ == "未解析到可导入的点表定义"@),
        payload.point_defs@.len() > 0 ==> match source_ca_refusal(payload.source_common_addresses@, *target_common_address) {
            Some((code, message)) => r matches Err((c, m)) && c@ == code && m@ == message,
            None => match mode {
                PointTableImportMode::ReplaceAll => r == Ok::<PointTableImportNormalizedPayload, (String, String)>(payload),
                PointTableImportMode::AppendOnly => match existing_defs {
                    Err(e) => r == Err::<PointTableImportNormalizedPayload, (String, String)>(e),
                    Ok(defs) => append_merge_outcome(defs@, existing_aliases, payload, r),
                },
            },
        },
{
    if payload.point_defs.len() == 0 {
        return Err((String::from_str("EMPTY_POINT_TABLE"), String::from_str("未解析到可导入的点表定义")));
    }
    let issues = validate_source_common_addresses(&payload, target_common_address);
    if issues.len() > 0 {
        let first = &issues[0];
        return Err((first.code.clone(), first.message.clone()));
    }
    proof {
        if payload.source_common_addresses@.len() > 0 {
            if let Ok(t) = *target_common_address {
                assert(payload.source_common_addresses@.filter(ca_differs(t)).len() == 0);
            }
        }
    }
    match mode {
        PointTableImportMode::ReplaceAll => Ok(payload),
        PointTableImportMode::AppendOnly => match existing_defs {
            Err(e) => Err(e),
            Ok(defs) => merge_append_only(defs, existing_aliases, payload),
        },
    }
}

/// The number of issues the file's common addresses raise.
pub open spec fn ca_issue_count(
    sources: Seq<PointTableImportSourceCommonAddress>,
    target_ca: Result<Option<u16>, (String, String)>,
) -> int {
    if sources.len() == 0 {
        0
    } else {
        match target_ca {
            Err(_) => 1,
            Ok(t) => sources.filter(ca_differs(t)).len() as int,
        }
    }
}

/// The preview of a decoded file against its target: the decoder's errors,
/// then the common-address issues, then, in append mode, the conflicts with
/// the target's points and aliases; the decoder's warnings, then the target's;
/// the counts of the summary; and it can be applied when it has no error.
pub open spec fn preview_spec(
    target: PointTableImportTarget,
    mode: PointTableImportMode,
    decoded: DecodedPointTableImport,
    existing_points_count: usize,
    target_ca: Result<Option<u16>, (String, String)>,
    existing_addresses: Seq<u32>,
    existing_aliases: Seq<(String, String)>,
    p: PointTableImportPreview,
) -> bool {
    let payload = decoded.payload;
    let n0 = decoded.errors@.len();
    let n1 = n0 + ca_issue_count(payload.source_common_addresses@, target_ca);
    let w0 = decoded.warnings@.len();
    &&& n1 <= p.errors@.len()
    &&& p.errors@.take(n0 as int) == decoded.errors@
    &&& ca_issues_spec(payload.source_common_addresses@, target_ca, p.errors@.subrange(n0 as int, n1))
    &&& (mode is AppendOnly ==> append_issues_spec(payload.point_defs@, payload.asdu_aliases@,
            existing_addresses, existing_aliases, p.errors@.skip(n1)))
    &&& (mode is ReplaceAll ==> p.errors@.len() == n1)
    &&& w0 <= p.warnings@.len()
    &&& p.warnings@.take(w0 as int) == decoded.warnings@
    &&& capability_warnings_spec(target, payload.point_defs@, p.warnings@.skip(w0 as int))
    &&& p.target == target
    &&& p.file_path == decoded.file_path
    &&& p.file_name == decoded.file_name
    &&& p.file_size == decoded.file_size
    &&& p.format == decoded.format
    &&& p.encoding == decoded.encoding
    &&& p.can_apply == (p.errors@.len() == 0)
    &&& p.summary == PointTableImportSummary {
        total_points: decoded.total_points,
        normalized_points: payload.point_defs@.len() as usize,
        preview_points: decoded.points_preview@.len() as usize,
        duplicate_address_count: decoded.duplicate_address_count,
        control_mapping_count: control_mapping_count(payload.point_defs@) as usize,
        asdu_alias_count: payload.asdu_aliases@.len() as usize,
        existing_points_count,
        error_count: p.errors@.len() as usize,
        warning_count: p.warnings@.len() as usize,
    }
    &&& p.points_preview == decoded.points_preview
    &&& p.asdu_aliases_preview@ == payload.asdu_aliases@
    &&& p.normalized_payload == payload
}

fn copy_alias_pairs(v: &Vec<(String, String)>) -> (r: Vec<(String, String)>)
    ensures
        r@ == v@,
{
    let mut out: Vec<(String, String)> = Vec::new();
    let mut i: usize = 0;
    while i < v.len()
        invariant
            i <= v@.len(),
            out@ == v@.take(i as int),
        decreases v@.len() - i,
    {
        out.push((v[i].0.clone(), v[i].1.clone()));
        i = i + 1;
        assert(out@ =~= v@.take(i as int));
    }
    assert(v@.take(v@.len() as int) =~= v@);
    out
}

/// Builds the preview of a decoded file. Reading the target's point count
/// fails it first; in append mode, reading the target's addresses, then its
/// aliases, fails it next; else it is the preview of `preview_spec`.
pub fn build_point_table_import_preview(
    target: PointTableImportTarget,
    mode: PointTableImportMode,
    decoded: DecodedPointTableImport,
    existing_points_count: Result<usize, (String, String)>,
    target_common_address: &Result<Option<u16>, (String, String)>,
    existing_addresses: Result<Vec<u32>, (String, String)>,
    existing_aliases: Result<Vec<(String, String)>, (String, String)>,
) -> (r: Result<PointTableImportPreview, (String, String)>)
    requires
        existing_aliases matches Ok(a) ==> keys_unique(a@),
    ensures
        match existing_points_count {
            Err(e) => r == Err::<PointTableImportPreview, (String, String)>(e),
            Ok(count) => match mode {
                PointTableImportMode::ReplaceAll => r matches Ok(p)
                    && preview_spec(target, mode, decoded, count, *target_common_address, Seq::empty(), Seq::empty(), p),
                PointTableImportMode::AppendOnly => match (existing_addresses, existing_aliases) {
                    (Err(e), _) => r == Err::<PointTableImportPreview, (String, String)>(e),
                    (Ok(_), Err(e)) => r == Err::<PointTableImportPreview, (String, String)>(e),
                    (Ok(addresses), Ok(aliases)) => r matches Ok(p)
                        && preview_spec(target, mode, decoded, count, *target_common_address, addresses@, aliases@, p),
                },
            },
        },
{
    let count = match existing_points_count {
        Err(e) => { return Err(e); },
        Ok(c) => c,
    };
    let ghost given = decoded;
    let DecodedPointTableImport {
        file_path, file_name, file_size, format, encoding, total_points, duplicate_address_count,
        points_preview, payload, errors, warnings,
    } = decoded;
    let mut all_errors = errors;
    let mut ca = validate_source_common_addresses(&payload, target_common_address);
    let ghost ca_issues = ca@;
    all_errors.append(&mut ca);
    let ghost after_ca = all_errors@;
    let ghost mut extra_issues: Seq<PointTableImportIssue> = Seq::empty();
    let ghost mut addresses_seen: Seq<u32> = Seq::empty();
    let ghost mut aliases_seen: Seq<(String, String)> = Seq::empty();
    match mode {
        PointTableImportMode::AppendOnly => {
            let addresses = match existing_addresses {
                Err(e) => { return Err(e); },
                Ok(a) => a,
            };
            let aliases = match existing_aliases {
                Err(e) => { return Err(e); },
                Ok(a) => a,
            };
            let mut extra = append_only_preview_issues(&payload, &addresses, &aliases);
            proof {
                extra_issues = extra@;
                addresses_seen = addresses@;
                aliases_seen = aliases@;
            }
            all_errors.append(&mut extra);
        },
        PointTableImportMode::ReplaceAll => {},
    }
    let mut all_warnings = warnings;
    let ghost w_before = all_warnings@;
    let mut capability = build_target_capability_warnings(&target, &payload);
    let ghost cap_issues = capability@;
    all_warnings.append(&mut capability);
    let summary = PointTableImportSummary {
        total_points,
        normalized_points: payload.point_defs.len(),
        preview_points: points_preview.len(),
        duplicate_address_count,
        control_mapping_count: count_control_mappings(&payload.point_defs),
        asdu_alias_count: payload.asdu_aliases.len(),
        existing_points_count: count,
        error_count: all_errors.len(),
        warning_count: all_warnings.len(),
    };
    let aliases_preview = copy_alias_pairs(&payload.asdu_aliases);
    let can_apply = all_errors.len() == 0;
    let preview = PointTableImportPreview {
        target,
        file_path,
        file_name,
        file_size,
        format,
        encoding,
        can_apply,
        summary,
        errors: all_errors,
        warnings: all_warnings,
        points_preview,
        asdu_aliases_preview: aliases_preview,
        normalized_payload: payload,
    };
    proof {
        let n0 = given.errors@.len();
        let n1: int = (n0 + ca_issues.len()) as int;
        assert(preview.errors@.take(n0 as int) =~= given.errors@);
        assert(preview.errors@.subrange(n0 as int, n1) =~= ca_issues);
        assert(preview.errors@.skip(n1) =~= extra_issues);
        assert(preview.warnings@.take(w_before.len() as int) =~= w_before);
        assert(preview.warnings@.skip(w_before.len() as int) =~= cap_issues);
    }
    Ok(preview)
}

/// The outcome an apply reports: an append counts what it brought, a replace
/// what the store took; `stored` is the target's earlier point count, the
/// points stored and the aliases stored; the point cursor is reported only
/// when the runtime took the table.
pub fn build_point_table_import_apply_result(
    target: PointTableImportTarget,
    mode: PointTableImportMode,
    incoming_points: usize,
    incoming_aliases: usize,
    stored: (usize, usize, usize),
    runtime_applied: bool,
    point_cursor: Option<u64>,
) -> (r: PointTableImportApplyResult)
    ensures
        r.target == target,
        r.existing_points == stored.0,
        r.imported_points == (if mode is AppendOnly { incoming_points } else { stored.1 }),
        r.asdu_aliases_updated == (if mode is AppendOnly { incoming_aliases } else { stored.2 }),
        r.runtime_applied == runtime_applied,
        r.applied_point_cursor == (if runtime_applied { point_cursor } else { None }),
{
    let (existing_points, imported, aliases_updated) = stored;
    let append = match mode {
        PointTableImportMode::AppendOnly => true,
        PointTableImportMode::ReplaceAll => false,
    };
    PointTableImportApplyResult {
        target,
        imported_points: if append { incoming_points } else { imported },
        existing_points,
        asdu_aliases_updated: if append { incoming_aliases } else { aliases_updated },
        runtime_applied,
        applied_point_cursor: if runtime_applied { point_cursor } else { None },
    }
}

} // verus!
