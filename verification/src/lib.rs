//! Verified core of a machine-identity rotation tool: an identity config
//! store with backup/restore and read-only protection, a transactional
//! auth key-value updater, a regex-driven bundle patch engine, and the
//! rotation flow that sequences them.

pub mod api_config;
pub mod auth;
pub mod config;
pub mod events;
pub mod flow;
pub mod fsmodel;
pub mod idgen;
pub mod jsontext;
pub mod patch;
pub mod paths;
pub mod store;
pub mod textops;

use vstd::prelude::*;

verus! {

/// A freshly generated set of identifier values used by a rotation.
pub struct IdBundle {
    pub machine_id: String,
    pub telemetry_machine_id: String,
    pub mac_machine_id: String,
    pub dev_device_id: String,
    pub sqm_id: String,
}

} // verus!
