//! Storing an imported point table for one slave as a step function. The
//! caller runs each store or runtime operation the step names and hands back
//! its outcome; the step decides what follows, and how a failed write or a
//! failed runtime sync is rolled back: the earlier points and aliases are
//! written back and, after a runtime failure, the earlier table is handed to
//! the runtime again.

use vstd::prelude::*;

use crate::import::PointTableImportTarget;
use crate::text::{join2, join3};

verus! {

/// An operation on the store or the runtime; its outcome is `Ok` with a count
/// (for `ReadSlave` 0 when the slave is absent; for `ReadPoints` the earlier
/// point count; for `WritePoints` the points written) or `Err` with the reason.
#[derive(Clone, Copy, Debug, PartialEq, Eq, Structural)]
pub enum StoreOp {
    /// Read the slave the table is for.
    ReadSlave,
    /// Read the slave's earlier points.
    ReadPoints,
    /// Read the slave's earlier aliases.
    ReadAliases,
    /// Replace the slave's points with the imported ones.
    WritePoints,
    /// Replace the slave's aliases with the imported ones.
    WriteAliases,
    /// Hand the imported table to the running slave station.
    SyncRuntime,
    /// Write the earlier points back.
    RollbackPoints,
    /// Write the earlier aliases back.
    RollbackAliases,
    /// Hand the earlier table to the running slave station again.
    RestoreRuntime,
}

/// What the caller does next.
#[derive(Debug)]
pub enum StoreNext {
    /// Run the operation and step with its outcome.
    Do(StoreOp),
    /// Stored: the earlier point count, the points and aliases written, and
    /// whether the running station took the table.
    Stored { existing: usize, stored_points: usize, stored_aliases: usize, runtime_applied: bool },
    /// Refused: an error code and a message.
    Fail(String, String),
}

/// An import being stored.
#[derive(Clone, Debug)]
pub struct ImportStore {
    /// The table is for a slave station's slave (which also runs it).
    pub slave_station: bool,
    /// The number of imported aliases.
    pub alias_count: usize,
    /// The operation whose outcome comes next.
    pub op: StoreOp,
    pub finished: bool,
    /// The earlier point count.
    pub existing: usize,
    /// The points written.
    pub stored_points: usize,
    /// While rolling back: the failure that started it, and whether it was the runtime's.
    pub failure: Option<String>,
    pub runtime_failed: bool,
}

impl ImportStore {
    /// Exactly the rollback operations know why they run; only a slave
    /// station runs the table, and only a runtime failure is restored there.
    pub open spec fn wf(self) -> bool {
        &&& (self.op is RollbackPoints || self.op is RollbackAliases || self.op is RestoreRuntime) <==> self.failure is Some
        &&& self.runtime_failed ==> self.failure is Some
        &&& (self.op is SyncRuntime || self.runtime_failed) ==> self.slave_station
        &&& self.op is RestoreRuntime ==> self.runtime_failed
    }
}

/// Starts storing an import of `alias_count` aliases for `target`: first the slave is read.
pub fn start_import_store(target: PointTableImportTarget, alias_count: usize) -> (r: (ImportStore, StoreNext))
    ensures
        r.0.wf(),
        !r.0.finished,
        r.0.slave_station == (target is SlaveStationSlave),
        r.0.alias_count == alias_count,
        r.0.op == StoreOp::ReadSlave,
        r.0.failure is None,
        !r.0.runtime_failed,
        r.1 == StoreNext::Do(StoreOp::ReadSlave),
{
    let slave_station = match target {
        PointTableImportTarget::MasterLinkSlave { .. } => false,
        PointTableImportTarget::SlaveStationSlave { .. } => true,
    };
    (ImportStore {
        slave_station,
        alias_count,
        op: StoreOp::ReadSlave,
        finished: false,
        existing: 0,
        stored_points: 0,
        failure: None,
        runtime_failed: false,
    }, StoreNext::Do(StoreOp::ReadSlave))
}

pub open spec fn read_slave_failed(slave_station: bool) -> Seq<char> {
    if slave_station { "读取从站失败"@ } else { "读取主站从站失败"@ }
}

pub open spec fn read_points_failed(slave_station: bool) -> Seq<char> {
    if slave_station { "读取子从站点表失败"@ } else { "读取主站点表失败"@ }
}

pub open spec fn write_points_failed(slave_station: bool) -> Seq<char> {
    if slave_station { "保存子从站点表失败"@ } else { "保存主站点表失败"@ }
}

/// A failure message: what failed, then the reason.
pub open spec fn failed_for(what: Seq<char>, reason: Seq<char>) -> Seq<char> {
    what + ": "@ + reason
}

/// The step moves on to `op`, the rest as in `o` but for what it learned.
pub open spec fn moves_to(r: StoreNext, f: ImportStore, o: ImportStore, op: StoreOp) -> bool {
    r == StoreNext::Do(op) && f.op == op && !f.finished && f.slave_station == o.slave_station
        && f.alias_count == o.alias_count
}

/// The step ends the store with `code` and `message`.
pub open spec fn ends_with(r: StoreNext, f: ImportStore, code: Seq<char>, message: Seq<char>) -> bool {
    f.finished && (r matches StoreNext::Fail(c, m) && c@ == code && m@ == message)
}

fn fail_with(s: &mut ImportStore, code: &str, message: String) -> (r: StoreNext)
    ensures
        *final(s) == (ImportStore { finished: true, ..*old(s) }),
        r matches StoreNext::Fail(c, m) && c@ == code@ && m@ == message@,
{
    s.finished = true;
    StoreNext::Fail(String::from_str(code), message)
}

/// One step of storing an import, given the outcome of the operation it named
/// last. The slave is read (absent: `SLAVE_NOT_FOUND`), then its earlier
/// points and aliases, then the imported points and aliases are written; a
/// slave station's slave then hands the table to its runtime. A failed read or
/// point write ends it; a failed alias write writes the earlier points and
/// aliases back and ends it; a failed runtime sync writes the earlier points
/// back (a failure there ends it at once), then the aliases, hands the earlier
/// table to the runtime again and ends it. Every failure but the absent slave
/// is `DB_TRANSACTION_FAILED`.
pub fn import_store_step(s: &mut ImportStore, outcome: Result<usize, String>) -> (r: StoreNext)
    requires
        old(s).wf(),
        !old(s).finished,
    ensures
        final(s).wf(),
        ({
            let o = *old(s);
            let f = *final(s);
            let db = "DB_TRANSACTION_FAILED"@;
            match o.op {
                StoreOp::ReadSlave => match outcome {
                    Err(e) => ends_with(r, f, db, failed_for(read_slave_failed(o.slave_station), e@)),
                    Ok(n) => if n == 0 {
                        ends_with(r, f, "SLAVE_NOT_FOUND"@, "从站不存在"@)
                    } else {
                        moves_to(r, f, o, StoreOp::ReadPoints) && f.failure is None && !f.runtime_failed
                    },
                },
                StoreOp::ReadPoints => match outcome {
                    Err(e) => ends_with(r, f, db, failed_for(read_points_failed(o.slave_station), e@)),
                    Ok(n) => moves_to(r, f, o, StoreOp::ReadAliases) && f.existing == n && f.failure is None
                        && !f.runtime_failed,
                },
                StoreOp::ReadAliases => match outcome {
                    Err(e) => ends_with(r, f, db, failed_for("读取 ASDU 别名失败"@, e@)),
                    Ok(_) => moves_to(r, f, o, StoreOp::WritePoints) && f.existing == o.existing && f.failure is None
                        && !f.runtime_failed,
                },
                StoreOp::WritePoints => match outcome {
                    Err(e) => ends_with(r, f, db, failed_for(write_points_failed(o.slave_station), e@)),
                    Ok(n) => moves_to(r, f, o, StoreOp::WriteAliases) && f.existing == o.existing
                        && f.stored_points == n && f.failure is None && !f.runtime_failed,
                },
                StoreOp::WriteAliases => match outcome {
                    Err(e) => moves_to(r, f, o, StoreOp::RollbackPoints) && !f.runtime_failed
                        && (f.failure matches Some(m) && m@ == failed_for("保存 ASDU 别名失败"@, e@)),
                    Ok(_) => if o.slave_station {
                        moves_to(r, f, o, StoreOp::SyncRuntime) && f.existing == o.existing
                            && f.stored_points == o.stored_points && f.failure is None && !f.runtime_failed
                    } else {
                        f.finished && r == (StoreNext::Stored {
                            existing: o.existing, stored_points: o.stored_points, stored_aliases: o.alias_count,
                            runtime_applied: false })
                    },
                },
                StoreOp::SyncRuntime => match outcome {
                    Err(e) => moves_to(r, f, o, StoreOp::RollbackPoints) && f.runtime_failed
                        && (f.failure matches Some(m) && m@ == e@),
                    Ok(_) => f.finished && r == (StoreNext::Stored {
                        existing: o.existing, stored_points: o.stored_points, stored_aliases: o.alias_count,
                        runtime_applied: true }),
                },
                StoreOp::RollbackPoints => {
                    let cause = o.failure->0@;
                    if o.runtime_failed && outcome is Err {
                        ends_with(r, f, db, "子从站点表导入运行态同步失败且回滚持久化失败: "@ + cause + "; rollback="@
                            + outcome->Err_0@)
                    } else {
                        moves_to(r, f, o, StoreOp::RollbackAliases) && f.failure == o.failure
                            && f.runtime_failed == o.runtime_failed
                    }
                },
                StoreOp::RollbackAliases => {
                    let cause = o.failure->0@;
                    if o.runtime_failed {
                        moves_to(r, f, o, StoreOp::RestoreRuntime) && f.failure == o.failure && f.runtime_failed
                    } else {
                        ends_with(r, f, db, cause)
                    }
                },
                StoreOp::RestoreRuntime => ends_with(r, f, db, "子从站点表导入失败，持久化已回滚: "@ + o.failure->0@),
            }
        }),
{
    let db = "DB_TRANSACTION_FAILED";
    proof { reveal_strlit("DB_TRANSACTION_FAILED"); }
    match s.op {
        StoreOp::ReadSlave => match outcome {
            Err(e) => {
                let what = if s.slave_station { "读取从站失败" } else { "读取主站从站失败" };
                fail_with(s, db, join3(what, ": ", e.as_str()))
            },
            Ok(n) => if n == 0 {
                fail_with(s, "SLAVE_NOT_FOUND", String::from_str("从站不存在"))
            } else {
                s.op = StoreOp::ReadPoints;
                StoreNext::Do(StoreOp::ReadPoints)
            },
        },
        StoreOp::ReadPoints => match outcome {
            Err(e) => {
                let what = if s.slave_station { "读取子从站点表失败" } else { "读取主站点表失败" };
                fail_with(s, db, join3(what, ": ", e.as_str()))
            },
            Ok(n) => {
                s.existing = n;
                s.op = StoreOp::ReadAliases;
                StoreNext::Do(StoreOp::ReadAliases)
            },
        },
        StoreOp::ReadAliases => match outcome {
            Err(e) => fail_with(s, db, join3("读取 ASDU 别名失败", ": ", e.as_str())),
            Ok(_) => {
                s.op = StoreOp::WritePoints;
                StoreNext::Do(StoreOp::WritePoints)
            },
        },
        StoreOp::WritePoints => match outcome {
            Err(e) => {
                let what = if s.slave_station { "保存子从站点表失败" } else { "保存主站点表失败" };
                fail_with(s, db, join3(what, ": ", e.as_str()))
            },
            Ok(n) => {
                s.stored_points = n;
                s.op = StoreOp::WriteAliases;
                StoreNext::Do(StoreOp::WriteAliases)
            },
        },
        StoreOp::WriteAliases => match outcome {
            Err(e) => {
                s.failure = Some(join3("保存 ASDU 别名失败", ": ", e.as_str()));
                s.op = StoreOp::RollbackPoints;
                StoreNext::Do(StoreOp::RollbackPoints)
            },
            Ok(_) => if s.slave_station {
                s.op = StoreOp::SyncRuntime;
                StoreNext::Do(StoreOp::SyncRuntime)
            } else {
                s.finished = true;
                StoreNext::Stored {
                    existing: s.existing,
                    stored_points: s.stored_points,
                    stored_aliases: s.alias_count,
                    runtime_applied: false,
                }
            },
        },
        StoreOp::SyncRuntime => match outcome {
            Err(e) => {
                s.failure = Some(e);
                s.runtime_failed = true;
                s.op = StoreOp::RollbackPoints;
                StoreNext::Do(StoreOp::RollbackPoints)
            },
            Ok(_) => {
                s.finished = true;
                StoreNext::Stored {
                    existing: s.existing,
                    stored_points: s.stored_points,
                    stored_aliases: s.alias_count,
                    runtime_applied: true,
                }
            },
        },
        StoreOp::RollbackPoints => {
            let cause = match &s.failure { Some(m) => m.clone(), None => String::new() };
            match outcome {
                Err(e) => if s.runtime_failed {
                    let head = join3("子从站点表导入运行态同步失败且回滚持久化失败: ", cause.as_str(), "; rollback=");
                    fail_with(s, db, join2(head.as_str(), e.as_str()))
                } else {
                    s.op = StoreOp::RollbackAliases;
                    StoreNext::Do(StoreOp::RollbackAliases)
                },
                Ok(_) => {
                    s.op = StoreOp::RollbackAliases;
                    StoreNext::Do(StoreOp::RollbackAliases)
                },
            }
        },
        StoreOp::RollbackAliases => {
            if s.runtime_failed {
                s.op = StoreOp::RestoreRuntime;
                StoreNext::Do(StoreOp::RestoreRuntime)
            } else {
                let cause = match &s.failure { Some(m) => m.clone(), None => String::new() };
                fail_with(s, db, cause)
            }
        },
        StoreOp::RestoreRuntime => {
            let cause = match &s.failure { Some(m) => m.clone(), None => String::new() };
            fail_with(s, db, join2("子从站点表导入失败，持久化已回滚: ", cause.as_str()))
        },
    }
}

} // verus!
