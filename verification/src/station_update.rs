//! The decisions of updating a slave station's listener configuration: which
//! store read or write comes next, when the runtime is synchronized, and how a
//! failed synchronization rolls the stored row back, so that the update never
//! stays half done.

use vstd::prelude::*;

use crate::api::{shows_station, station_config_to_response, ApiError, ApiErrorCode, StationConfig};
use crate::requests::UpdateSlaveStationConfigBundleResponse;

verus! {

/// The step an update of a slave station's configuration is at.
#[derive(Clone, Copy, Debug, PartialEq, Eq, Structural)]
pub enum StationUpdateStage {
    /// The stored station row is being read.
    ReadStation,
    /// The station's logical slaves are being read for the default one.
    ReadDevices,
    /// The new row is being written.
    WriteStation,
    /// The running station is being given the new configuration.
    SyncRuntime,
    /// The earlier row is being written back after a failed synchronization.
    RollBack,
    /// The update has been answered.
    Finished,
}

/// What the store or the runtime answered.
#[derive(Debug)]
pub enum StationUpdateEvent {
    /// The stored row was read: whether it exists, or why the read failed.
    StationRead(Result<bool, String>),
    /// The logical slaves were read: the common address of the default one
    /// (the one with the lowest row id), or why the read failed.
    DevicesRead(Result<Option<u16>, String>),
    /// The new row was written: how many rows changed, or why it failed.
    StationWritten(Result<u64, String>),
    /// The runtime took the new configuration, or why it did not.
    RuntimeSynced(Result<(), String>),
    /// The earlier row was written back, or why it could not be.
    RolledBack(Result<(), String>),
}

/// What the update does next.
#[derive(Debug)]
pub enum StationUpdateAction {
    /// Read the logical slaves of the station.
    ReadDevices,
    /// Write the new row, with the default slave's common address.
    WriteStation { common_address: u16 },
    /// Give the running station the new configuration.
    SyncRuntime,
    /// Write the earlier row back.
    RollBack,
    /// Give the running station its earlier configuration again (as far as it
    /// goes), then answer with the error.
    RestoreRuntimeAndReply(ApiError),
    /// Answer the request: success, or the error.
    Reply(Result<(), ApiError>),
    /// The event does not belong to this step; nothing changes.
    Ignore,
}

/// An update in progress: its step, the default slave's common address once
/// known, and the synchronization error while rolling back.
#[derive(Debug)]
pub struct StationUpdate {
    pub stage: StationUpdateStage,
    pub common_address: u16,
    pub runtime_error: Option<String>,
}

/// An error with code `code` and message `m`.
pub open spec fn is_error(e: ApiError, code: ApiErrorCode, m: Seq<char>) -> bool {
    e.code == code && e.message@ == m && e.detail is None && e.params is None
}

fn error(code: ApiErrorCode, message: String) -> (r: ApiError)
    ensures
        is_error(r, code, message@),
{
    ApiError { code, message, detail: None, params: None }
}

/// An update that starts by reading the stored row.
pub fn start_station_update() -> (r: StationUpdate)
    ensures
        r.stage == StationUpdateStage::ReadStation,
        r.common_address == 0,
        r.runtime_error is None,
{
    StationUpdate { stage: StationUpdateStage::ReadStation, common_address: 0, runtime_error: None }
}

/// One step of an update: what an answer of the store or the runtime changes
/// and what comes next. A missing row or slave and a failed read or write end
/// the update with an error; a write that changed no row means the station
/// is gone. A failed synchronization writes the earlier row back; if that
/// fails too both errors are reported, else the runtime is given its earlier
/// configuration and the synchronization error is reported.
pub fn station_update_step(update: &mut StationUpdate, event: StationUpdateEvent) -> (r: StationUpdateAction)
    ensures
        match (old(update).stage, event) {
            (StationUpdateStage::ReadStation, StationUpdateEvent::StationRead(Ok(true))) =>
                final(update).stage == StationUpdateStage::ReadDevices && r is ReadDevices,
            (StationUpdateStage::ReadStation, StationUpdateEvent::StationRead(Ok(false))) =>
                final(update).stage == StationUpdateStage::Finished
                && (r matches StationUpdateAction::Reply(Err(e)) && is_error(e, ApiErrorCode::StationNotFound, "站点不存在"@)),
            (StationUpdateStage::ReadStation, StationUpdateEvent::StationRead(Err(m))) =>
                final(update).stage == StationUpdateStage::Finished
                && (r matches StationUpdateAction::Reply(Err(e))
                    && is_error(e, ApiErrorCode::DbTransactionFailed, "读取站点配置失败: "@ + m@)),
            (StationUpdateStage::ReadDevices, StationUpdateEvent::DevicesRead(Ok(Some(ca)))) =>
                final(update).stage == StationUpdateStage::WriteStation && final(update).common_address == ca
                && (r matches StationUpdateAction::WriteStation { common_address } && common_address == ca),
            (StationUpdateStage::ReadDevices, StationUpdateEvent::DevicesRead(Ok(None))) =>
                final(update).stage == StationUpdateStage::Finished
                && (r matches StationUpdateAction::Reply(Err(e))
                    && is_error(e, ApiErrorCode::SlaveNotFound, "监听端点缺少默认逻辑从站"@)),
            (StationUpdateStage::ReadDevices, StationUpdateEvent::DevicesRead(Err(m))) =>
                final(update).stage == StationUpdateStage::Finished
                && (r matches StationUpdateAction::Reply(Err(e))
                    && is_error(e, ApiErrorCode::DbTransactionFailed, "读取默认逻辑从站失败: "@ + m@)),
            (StationUpdateStage::WriteStation, StationUpdateEvent::StationWritten(Ok(n))) => if n == 0 {
                final(update).stage == StationUpdateStage::Finished
                && (r matches StationUpdateAction::Reply(Err(e)) && is_error(e, ApiErrorCode::StationNotFound, "站点不存在"@))
            } else {
                final(update).stage == StationUpdateStage::SyncRuntime && r is SyncRuntime
            },
            (StationUpdateStage::WriteStation, StationUpdateEvent::StationWritten(Err(m))) =>
                final(update).stage == StationUpdateStage::Finished
                && (r matches StationUpdateAction::Reply(Err(e))
                    && is_error(e, ApiErrorCode::DbTransactionFailed, "保存从站配置失败: "@ + m@)),
            (StationUpdateStage::SyncRuntime, StationUpdateEvent::RuntimeSynced(Ok(()))) =>
                final(update).stage == StationUpdateStage::Finished && r matches StationUpdateAction::Reply(Ok(())),
            (StationUpdateStage::SyncRuntime, StationUpdateEvent::RuntimeSynced(Err(m))) =>
                final(update).stage == StationUpdateStage::RollBack && r is RollBack
                && final(update).runtime_error == Some(m),
            (StationUpdateStage::RollBack, StationUpdateEvent::RolledBack(Ok(()))) =>
                final(update).stage == StationUpdateStage::Finished
                && (r matches StationUpdateAction::RestoreRuntimeAndReply(e)
                    && is_error(e, ApiErrorCode::DbTransactionFailed, "更新从站运行配置失败，持久化已回滚: "@
                        + match old(update).runtime_error { Some(s) => s@, None => Seq::empty() })),
            (StationUpdateStage::RollBack, StationUpdateEvent::RolledBack(Err(m))) =>
                final(update).stage == StationUpdateStage::Finished
                && (r matches StationUpdateAction::Reply(Err(e))
                    && is_error(e, ApiErrorCode::DbTransactionFailed, "更新从站运行配置失败且回滚持久化失败: "@
                        + match old(update).runtime_error { Some(s) => s@, None => Seq::empty() } + "; rollback="@ + m@)),
            _ => r is Ignore && final(update).stage == old(update).stage,
        },
        final(update).stage != StationUpdateStage::WriteStation || old(update).stage == StationUpdateStage::ReadDevices
            || old(update).stage == StationUpdateStage::WriteStation,
        old(update).stage != StationUpdateStage::ReadDevices ==> final(update).common_address == old(update).common_address,
{
    match (update.stage, event) {
        (StationUpdateStage::ReadStation, StationUpdateEvent::StationRead(Ok(found))) => {
            if found {
                update.stage = StationUpdateStage::ReadDevices;
                StationUpdateAction::ReadDevices
            } else {
                update.stage = StationUpdateStage::Finished;
                StationUpdateAction::Reply(Err(error(ApiErrorCode::StationNotFound, String::from_str("站点不存在"))))
            }
        },
        (StationUpdateStage::ReadStation, StationUpdateEvent::StationRead(Err(m))) => {
            update.stage = StationUpdateStage::Finished;
            StationUpdateAction::Reply(Err(error(ApiErrorCode::DbTransactionFailed,
                String::from_str("读取站点配置失败: ").concat(m.as_str()))))
        },
        (StationUpdateStage::ReadDevices, StationUpdateEvent::DevicesRead(Ok(device))) => match device {
            Some(ca) => {
                update.stage = StationUpdateStage::WriteStation;
                update.common_address = ca;
                StationUpdateAction::WriteStation { common_address: ca }
            },
            None => {
                update.stage = StationUpdateStage::Finished;
                StationUpdateAction::Reply(Err(error(ApiErrorCode::SlaveNotFound, String::from_str("监听端点缺少默认逻辑从站"))))
            },
        },
        (StationUpdateStage::ReadDevices, StationUpdateEvent::DevicesRead(Err(m))) => {
            update.stage = StationUpdateStage::Finished;
            StationUpdateAction::Reply(Err(error(ApiErrorCode::DbTransactionFailed,
                String::from_str("读取默认逻辑从站失败: ").concat(m.as_str()))))
        },
        (StationUpdateStage::WriteStation, StationUpdateEvent::StationWritten(Ok(n))) => {
            if n == 0 {
                update.stage = StationUpdateStage::Finished;
                StationUpdateAction::Reply(Err(error(ApiErrorCode::StationNotFound, String::from_str("站点不存在"))))
            } else {
                update.stage = StationUpdateStage::SyncRuntime;
                StationUpdateAction::SyncRuntime
            }
        },
        (StationUpdateStage::WriteStation, StationUpdateEvent::StationWritten(Err(m))) => {
            update.stage = StationUpdateStage::Finished;
            StationUpdateAction::Reply(Err(error(ApiErrorCode::DbTransactionFailed,
                String::from_str("保存从站配置失败: ").concat(m.as_str()))))
        },
        (StationUpdateStage::SyncRuntime, StationUpdateEvent::RuntimeSynced(Ok(()))) => {
            update.stage = StationUpdateStage::Finished;
            StationUpdateAction::Reply(Ok(()))
        },
        (StationUpdateStage::SyncRuntime, StationUpdateEvent::RuntimeSynced(Err(m))) => {
            update.stage = StationUpdateStage::RollBack;
            update.runtime_error = Some(m);
            StationUpdateAction::RollBack
        },
        (StationUpdateStage::RollBack, StationUpdateEvent::RolledBack(outcome)) => {
            let runtime_error = match &update.runtime_error { Some(s) => s.clone(), None => String::new() };
            update.stage = StationUpdateStage::Finished;
            match outcome {
                Ok(()) => StationUpdateAction::RestoreRuntimeAndReply(error(ApiErrorCode::DbTransactionFailed,
                    String::from_str("更新从站运行配置失败，持久化已回滚: ").concat(runtime_error.as_str()))),
                Err(m) => StationUpdateAction::Reply(Err(error(ApiErrorCode::DbTransactionFailed,
                    String::from_str("更新从站运行配置失败且回滚持久化失败: ").concat(runtime_error.as_str())
                        .concat("; rollback=").concat(m.as_str())))),
            }
        },
        _ => StationUpdateAction::Ignore,
    }
}

/// The answer to an update that went through: the new configuration, and no
/// point definitions changed.
pub fn station_update_reply(config: &StationConfig) -> (r: UpdateSlaveStationConfigBundleResponse)
    ensures
        shows_station(r.station, *config),
        r.point_defs_updated == 0,
{
    UpdateSlaveStationConfigBundleResponse { station: station_config_to_response(config), point_defs_updated: 0 }
}

} // verus!
