//! Which slave, and under which common address, a command or file transfer on
//! a master connection addresses.

use vstd::prelude::*;
use vstd::string::*;

use crate::file_transfer::pick_default_transfer_slave;
use crate::text::join2;

verus! {

/// Why a request's slave cannot be addressed.
#[derive(Clone, Debug)]
pub enum TargetRefusal {
    /// The named slave belongs to another link profile than the connection's.
    SlaveNotOnConnection,
    /// The named slave does not exist.
    SlaveNotFound,
    /// The slaves could not be read; the store's message is given.
    ReadFailed(String),
}

impl TargetRefusal {
    /// The message shown for the refusal.
    pub fn message(&self) -> (r: String)
        ensures
            r@ == (match *self {
                TargetRefusal::SlaveNotOnConnection => "从站不属于当前链路连接"@,
                TargetRefusal::SlaveNotFound => "从站不存在"@,
                TargetRefusal::ReadFailed(e) => "读取从站失败: "@ + e@,
            }),
    {
        match self {
            TargetRefusal::SlaveNotOnConnection => String::from_str("从站不属于当前链路连接"),
            TargetRefusal::SlaveNotFound => String::from_str("从站不存在"),
            TargetRefusal::ReadFailed(e) => join2("读取从站失败: ", e.as_str()),
        }
    }
}

/// Whether `found` is the default slave of `rows` `(id, common address,
/// enabled)`: the first enabled row with the lowest common address, its id 0
/// when it has none.
pub open spec fn default_slave_choice(rows: Seq<(Option<i64>, u16, bool)>, found: (i64, u16)) -> bool {
    exists|k: int| {
        &&& 0 <= k < rows.len()
        &&& (#[trigger] rows[k]).2
        &&& found.1 == rows[k].1
        &&& found.0 == (match rows[k].0 { Some(v) => v, None => 0 })
        &&& forall|j: int| 0 <= j < rows.len() && rows[j].2 ==> rows[k].1 <= #[trigger] rows[j].1
        &&& forall|j: int| 0 <= j < k && rows[j].2 ==> rows[k].1 < #[trigger] rows[j].1
    }
}

/// Resolves the slave a request on a connection addresses, as `(slave id,
/// common address)`. A request naming a slave (`requested_slave_id > 0`)
/// takes that slave, as read into `requested_row` (its link profile and common
/// address), unless the connection is known and belongs to another profile.
/// A request naming none takes, when the connection is known and has a
/// profile, the profile's default slave from `profile_slaves`
/// (`(id, common address, enabled)`, see `pick_default_transfer_slave`);
/// otherwise no slave (id 0) under the station's common address. Reads not
/// needed are not consulted.
pub fn resolve_request_target(
    requested_slave_id: i64,
    requested_row: Result<Option<(i64, u16)>, String>,
    connection_profile: Option<Option<i64>>,
    profile_slaves: Result<Vec<(Option<i64>, u16, bool)>, String>,
    station_common_address: u16,
) -> (r: Result<(i64, u16), TargetRefusal>)
    ensures
        requested_slave_id > 0 ==> match requested_row {
            Err(e) => r matches Err(TargetRefusal::ReadFailed(m)) && m@ == e@,
            Ok(None) => r matches Err(TargetRefusal::SlaveNotFound),
            Ok(Some((profile, ca))) => if (connection_profile matches Some(p) && p != Some(profile)) {
                r matches Err(TargetRefusal::SlaveNotOnConnection)
            } else {
                r == Ok::<(i64, u16), TargetRefusal>((requested_slave_id, ca))
            },
        },
        requested_slave_id <= 0 ==> match connection_profile {
            Some(Some(_)) => match profile_slaves {
                Err(e) => r matches Err(TargetRefusal::ReadFailed(m)) && m@ == e@,
                Ok(rows) => if exists|k: int| 0 <= k < rows@.len() && (#[trigger] rows@[k]).2 {
                    r matches Ok(found) && default_slave_choice(rows@, found)
                } else {
                    r == Ok::<(i64, u16), TargetRefusal>((0, station_common_address))
                },
            },
            _ => r == Ok::<(i64, u16), TargetRefusal>((0, station_common_address)),
        },
{
    if requested_slave_id > 0 {
        match requested_row {
            Err(e) => Err(TargetRefusal::ReadFailed(e)),
            Ok(None) => Err(TargetRefusal::SlaveNotFound),
            Ok(Some((profile, ca))) => {
                let foreign = match connection_profile {
                    Some(p) => p != Some(profile),
                    None => false,
                };
                if foreign {
                    Err(TargetRefusal::SlaveNotOnConnection)
                } else {
                    Ok((requested_slave_id, ca))
                }
            },
        }
    } else {
        match connection_profile {
            Some(Some(_)) => match profile_slaves {
                Err(e) => Err(TargetRefusal::ReadFailed(e)),
                Ok(rows) => match pick_default_transfer_slave(&rows) {
                    Some(found) => Ok(found),
                    None => Ok((0, station_common_address)),
                },
            },
            _ => Ok((0, station_common_address)),
        }
    }
}

} // verus!
