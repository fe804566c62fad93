//! The master's message log: a bounded record of frames and command events,
//! numbered in order, that the user interface pulls incrementally.

use vstd::prelude::*;
use vstd::string::*;

use crate::strutil::str_equals;

verus! {

/// Most message records the master keeps.
pub const MAX_MASTER_MESSAGE_RECORDS: usize = 5000;
/// Most capture packets the master keeps.
pub const MAX_MASTER_CAPTURE_PACKETS: usize = 10000;
/// Most SOE records the master keeps.
pub const MAX_MASTER_SOE_RECORDS: usize = 10000;

/// Direction of a logged message.
#[derive(Clone, Copy, Debug, PartialEq, Eq, Structural)]
pub enum MessageDirection {
    Sent,
    Received,
    Error,
}

/// One logged message.
#[derive(Debug)]
pub struct MasterMessageRecord {
    pub id: u64,
    pub timestamp_ms: i64,
    pub connection_id: String,
    pub direction: MessageDirection,
    pub content: String,
    pub hex_data: Option<String>,
    pub type_id: Option<u8>,
    pub cause: Option<u16>,
    pub common_address: Option<u16>,
    pub command_trace_id: Option<String>,
    pub command_state: Option<String>,
}

fn clone_opt_string(s: &Option<String>) -> (r: Option<String>)
    ensures
        r == *s,
{
    match s {
        Some(t) => Some(t.clone()),
        None => None,
    }
}

impl MasterMessageRecord {
    /// A copy of the record.
    pub fn duplicate(&self) -> (r: Self)
        ensures
            r == *self,
    {
        MasterMessageRecord {
            id: self.id,
            timestamp_ms: self.timestamp_ms,
            connection_id: self.connection_id.clone(),
            direction: self.direction,
            content: self.content.clone(),
            hex_data: clone_opt_string(&self.hex_data),
            type_id: self.type_id,
            cause: self.cause,
            common_address: self.common_address,
            command_trace_id: clone_opt_string(&self.command_trace_id),
            command_state: clone_opt_string(&self.command_state),
        }
    }
}

/// Whether a message is logged even while message tracking is off: command
/// state changes other than the dispatch itself are.
pub open spec fn spec_bypass_tracking(command_state: Option<Seq<char>>) -> bool {
    match command_state {
        Some(s) => s != "dispatch"@,
        None => false,
    }
}

pub fn should_bypass_master_message_tracking(command_state: Option<&str>) -> (r: bool)
    ensures
        r == spec_bypass_tracking(match command_state { Some(s) => Some(s@), None => None }),
{
    match command_state {
        Some(state) => !str_equals(state, "dispatch"),
        None => false,
    }
}

/// `s` and `item` with the oldest entries dropped so that at most `cap` remain.
pub open spec fn capped_push<T>(s: Seq<T>, item: T, cap: nat) -> Seq<T> {
    let all = s.push(item);
    if all.len() > cap { all.subrange(all.len() - cap, all.len() as int) } else { all }
}

/// Appends `item`, dropping the oldest entries so that at most `cap` remain.
pub fn push_capped<T>(v: &mut Vec<T>, item: T, cap: usize)
    ensures
        final(v)@ == capped_push(old(v)@, item, cap as nat),
{
    v.push(item);
    if v.len() > cap {
        let drop = v.len() - cap;
        let ghost all = v@;
        let mut k: usize = 0;
        while k < drop
            invariant
                k <= drop,
                drop == all.len() - cap,
                v@ == all.subrange(k as int, all.len() as int),
            decreases drop - k,
        {
            v.remove(0);
            assert(v@ =~= all.subrange(k + 1, all.len() as int));
            k = k + 1;
        }
    }
}

/// Ids strictly increase along the log and never pass the last id handed out.
pub open spec fn ids_ascending(s: Seq<MasterMessageRecord>, next_id: u64) -> bool {
    &&& forall|i: int, j: int| 0 <= i < j < s.len() ==> s[i].id < s[j].id
    &&& forall|i: int| 0 <= i < s.len() ==> (#[trigger] s[i]).id <= next_id
}

/// The log: its records, the last id handed out, and whether tracking is
/// registered and, if so, on.
#[derive(Debug)]
pub struct MessageLog {
    pub records: Vec<MasterMessageRecord>,
    pub next_id: u64,
    pub tracking: Option<bool>,
}

impl MessageLog {
    pub open spec fn wf(self) -> bool {
        &&& self.records@.len() <= MAX_MASTER_MESSAGE_RECORDS
        &&& ids_ascending(self.records@, self.next_id)
    }

    /// An empty log.
    pub fn new(tracking: Option<bool>) -> (r: Self)
        ensures
            r.wf(),
            r.records@.len() == 0,
            r.next_id == 0,
            r.tracking == tracking,
    {
        MessageLog { records: Vec::new(), next_id: 0, tracking }
    }

    /// Whether a message with `command_state` is logged now.
    pub open spec fn accepts(self, command_state: Option<Seq<char>>) -> bool {
        match self.tracking {
            None => true,
            Some(on) => on || spec_bypass_tracking(command_state),
        }
    }

    /// Logs a message at `now_ms` under the next id, unless tracking is
    /// registered, off, and the message is no command state change. The oldest
    /// records give way beyond the log's capacity.
    pub fn append_master_message_meta(
        &mut self,
        direction: MessageDirection,
        connection_id: &str,
        content: String,
        hex_data: Option<String>,
        type_id: Option<u8>,
        cause: Option<u16>,
        common_address: Option<u16>,
        command_trace_id: Option<String>,
        command_state: Option<String>,
        now_ms: i64,
    ) -> (logged: bool)
        requires
            old(self).wf(),
            old(self).next_id < u64::MAX,
        ensures
            final(self).wf(),
            final(self).tracking == old(self).tracking,
            logged == old(self).accepts(match command_state { Some(s) => Some(s@), None => None }),
            !logged ==> final(self).records@ == old(self).records@ && final(self).next_id == old(self).next_id,
            logged ==> {
                &&& final(self).next_id == old(self).next_id + 1
                &&& final(self).records@.len() > 0
                &&& final(self).records@.last() == (MasterMessageRecord {
                    id: final(self).next_id,
                    timestamp_ms: now_ms,
                    connection_id: final(self).records@.last().connection_id,
                    direction, content, hex_data, type_id, cause, common_address, command_trace_id, command_state,
                })
                &&& final(self).records@.last().connection_id@ == connection_id@
                &&& final(self).records@.drop_last() == capped_push(old(self).records@, final(self).records@.last(), MAX_MASTER_MESSAGE_RECORDS as nat).drop_last()
                &&& final(self).records@ == capped_push(old(self).records@, final(self).records@.last(), MAX_MASTER_MESSAGE_RECORDS as nat)
            },
    {
        let bypass = match &command_state {
            Some(s) => !str_equals(s.as_str(), "dispatch"),
            None => false,
        };
        let accepted = match self.tracking {
            None => true,
            Some(on) => on || bypass,
        };
        if !accepted {
            return false;
        }
        let id = self.next_id + 1;
        let record = MasterMessageRecord {
            id,
            timestamp_ms: now_ms,
            connection_id: String::from_str(connection_id),
            direction,
            content,
            hex_data,
            type_id,
            cause,
            common_address,
            command_trace_id,
            command_state,
        };
        let ghost before = self.records@;
        let ghost rec = record;
        push_capped(&mut self.records, record, MAX_MASTER_MESSAGE_RECORDS);
        self.next_id = id;
        proof {
            let all = before.push(rec);
            assert forall|i: int, j: int| 0 <= i < j < self.records@.len() implies self.records@[i].id < self.records@[j].id by {
                if all.len() > MAX_MASTER_MESSAGE_RECORDS {
                    let off = all.len() - MAX_MASTER_MESSAGE_RECORDS;
                    assert(self.records@[i] == all[i + off]);
                    assert(self.records@[j] == all[j + off]);
                } else {
                    assert(self.records@[i] == all[i]);
                }
            }
            assert forall|i: int| 0 <= i < self.records@.len() implies (#[trigger] self.records@[i]).id <= self.next_id by {
                if all.len() > MAX_MASTER_MESSAGE_RECORDS {
                    let off = all.len() - MAX_MASTER_MESSAGE_RECORDS;
                    assert(self.records@[i] == all[i + off]);
                } else {
                    assert(self.records@[i] == all[i]);
                }
            }
            assert(self.records@.last() == rec);
        }
        true
    }

    /// Logs a message that is no command event.
    pub fn append_master_message(
        &mut self,
        direction: MessageDirection,
        connection_id: &str,
        content: String,
        hex_data: Option<String>,
        type_id: Option<u8>,
        cause: Option<u16>,
        common_address: Option<u16>,
        now_ms: i64,
    ) -> (logged: bool)
        requires
            old(self).wf(),
            old(self).next_id < u64::MAX,
        ensures
            final(self).wf(),
            logged == (old(self).tracking != Some(false)),
            !logged ==> final(self).records@ == old(self).records@ && final(self).next_id == old(self).next_id,
            logged ==> final(self).next_id == old(self).next_id + 1 && final(self).records@.last().id == final(self).next_id
                && final(self).records@.last().content == content,
    {
        self.append_master_message_meta(direction, connection_id, content, hex_data, type_id, cause, common_address, None, None, now_ms)
    }

    /// Clears the log and restarts numbering; tracking is then `enabled`.
    pub fn reset(&mut self, enabled: bool)
        ensures
            final(self).wf(),
            final(self).records@.len() == 0,
            final(self).next_id == 0,
            final(self).tracking == (match old(self).tracking { Some(_) => Some(enabled), None => None }),
    {
        self.records = Vec::new();
        self.next_id = 0;
        self.tracking = match self.tracking { Some(_) => Some(enabled), None => None };
    }
}

/// The number of records a pull returns at most: the request clamped to 1..=1000.
pub open spec fn bounded_limit(limit: usize) -> int {
    if limit < 1 { 1 } else if limit > 1000 { 1000 } else { limit as int }
}

pub open spec fn newer_than(since_id: Option<u64>) -> spec_fn(MasterMessageRecord) -> bool {
    |r: MasterMessageRecord| match since_id { Some(id) => r.id > id, None => true }
}

/// The records newer than `since_id`, oldest first, at most `limit` (clamped to 1..=1000) of them.
pub fn get_messages(records: &Vec<MasterMessageRecord>, since_id: Option<u64>, limit: usize) -> (r: Vec<MasterMessageRecord>)
    ensures
        ({
            let matching = records@.filter(newer_than(since_id));
            r@ == matching.take(if matching.len() < bounded_limit(limit) { matching.len() as int } else { bounded_limit(limit) })
        }),
{
    let bounded: usize = if limit < 1 { 1 } else if limit > 1000 { 1000 } else { limit };
    let ghost p = newer_than(since_id);
    let mut out: Vec<MasterMessageRecord> = Vec::new();
    let mut i: usize = 0;
    while i < records.len() && out.len() < bounded
        invariant
            i <= records@.len(),
            p == newer_than(since_id),
            bounded == bounded_limit(limit),
            out@ == records@.take(i as int).filter(p),
            out@.len() <= bounded,
        decreases records@.len() - i,
    {
        proof { crate::seqs::lemma_filter_take_step(records@, i as int, p); }
        let newer = match since_id { Some(id) => records[i].id > id, None => true };
        assert(newer == p(records@[i as int]));
        if newer {
            out.push(records[i].duplicate());
        }
        i = i + 1;
    }
    proof {
        let matching = records@.filter(p);
        assert(records@ == records@.take(i as int) + records@.subrange(i as int, records@.len() as int));
        Seq::filter_distributes_over_add(records@.take(i as int), records@.subrange(i as int, records@.len() as int), p);
        assert(matching == out@ + records@.subrange(i as int, records@.len() as int).filter(p));
        if i == records@.len() {
            assert(records@.subrange(i as int, records@.len() as int) =~= Seq::<MasterMessageRecord>::empty());
            reveal(Seq::filter);
            assert(matching =~= out@);
        } else {
            assert(out@.len() == bounded);
        }
        assert(matching.take(if matching.len() < bounded_limit(limit) { matching.len() as int } else { bounded_limit(limit) }) =~= out@);
    }
    out
}

} // verus!
