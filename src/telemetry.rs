//! The telemetry model: plain records that a platform collector produces
//! once per collection cycle.
use vstd::prelude::*;

verus! {

/// An installed security product.
#[derive(Clone, Debug)]
pub struct AntivirusInfo {
    pub name: String,
    pub is_enabled: bool,
    pub version: Option<String>,
}

/// A browser extension found in a browser profile.
#[derive(Clone, Debug)]
pub struct ExtensionInfo {
    pub name: String,
    pub version: String,
    pub id: String,
    pub is_enabled: bool,
}

/// An installed browser and the paths of its profiles.
#[derive(Clone, Debug)]
pub struct BrowserInfo {
    pub name: String,
    pub version: Option<String>,
    pub install_path: String,
    pub profiles: Vec<String>,
}

/// An attached display.
#[derive(Clone, Debug)]
pub struct DisplayInfo {
    pub name: String,
    pub device_id: String,
    pub is_primary: bool,
}

/// A running process.
#[derive(Clone, Debug)]
pub struct ProcessInfo {
    pub pid: u32,
    pub name: String,
}

/// A connected network adapter.
#[derive(Clone, Debug)]
pub struct NetworkAdapterInfo {
    pub name: String,
    pub description: String,
    pub mac_address: String,
}

/// One override line of the hosts file.
#[derive(Clone, Debug)]
pub struct HostsEntry {
    pub ip: String,
    pub domain: String,
}

} // verus!
