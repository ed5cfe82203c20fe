//! The process-wide configuration snapshot.
//!
//! Loaded once before discovery begins and never mutated afterwards; every
//! integration reads its own section to decide whether and where to probe.
use vstd::prelude::*;
use vstd::string::StringExecFns;

verus! {

/// Default bound, in milliseconds, on how long a vendor discovery pass may
/// wait for devices to answer.
pub fn default_scan_timeout() -> (t: u64)
    ensures
        t == 5000,
{
    5000
}

/// Configuration section for the UDP lamp vendor.
#[derive(Debug, Clone)]
pub struct GoveeConfig {
    /// Gates the integration's preflight check.
    pub enabled: bool,
    /// Static list of device addresses to probe; no broadcast scan.
    pub addresses: Vec<String>,
    /// Bound on the discovery wait, in milliseconds; the runtime applies
    /// it to the receive of each device probe.
    pub scan_timeout: u64,
}

impl Default for GoveeConfig {
    /// Disabled, with no addresses and the default scan timeout.
    fn default() -> (c: Self)
        ensures
            !c.enabled,
            c.addresses@.len() == 0,
            c.scan_timeout == 5000,
    {
        GoveeConfig { enabled: false, addresses: Vec::new(), scan_timeout: default_scan_timeout() }
    }
}

/// Configuration section for the RGB-hub vendor.
#[derive(Debug, Clone)]
pub struct OpenRgbConfig {
    /// Gates the integration's preflight check.
    pub enabled: bool,
    /// Host the hub server listens on.
    pub address: String,
    /// Port the hub server listens on.
    pub port: u16,
}

impl Default for OpenRgbConfig {
    /// Disabled, pointing at the hub's conventional local endpoint.
    fn default() -> (c: Self)
        ensures
            !c.enabled,
            c.address@ == "localhost"@,
            c.port == 6742,
    {
        OpenRgbConfig { enabled: false, address: String::from_str("localhost"), port: 6742 }
    }
}

/// The whole configuration snapshot, one section per vendor.
#[derive(Debug, Clone)]
pub struct CuteLightsConfig {
    pub govee: GoveeConfig,
    pub openrgb: OpenRgbConfig,
}

impl Default for CuteLightsConfig {
    /// Every vendor disabled.
    fn default() -> (c: Self)
        ensures
            !c.govee.enabled,
            !c.openrgb.enabled,
    {
        CuteLightsConfig { govee: GoveeConfig::default(), openrgb: OpenRgbConfig::default() }
    }
}

} // verus!
