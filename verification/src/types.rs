//! Point definitions shared by the master and the slave.

use vstd::prelude::*;

verus! {

/// Where a point definition comes from.
#[derive(Clone, Copy, Debug, PartialEq, Eq, Structural)]
pub enum PointSource {
    BuiltIn,
    Imported,
    Manual,
}

/// A configured point of a point table.
#[derive(Clone, Debug)]
pub struct PointDef {
    pub address: u32,
    pub name: String,
    pub type_id: u8,
    pub data_type: String,
    pub description: Option<String>,
    pub control_ioa: Option<u32>,
    pub gi_group: Option<u8>,
    pub counter_group: Option<u8>,
    /// The default value as JSON text.
    pub default_value: Option<String>,
    pub is_enabled: bool,
    pub source: PointSource,
}

} // verus!
