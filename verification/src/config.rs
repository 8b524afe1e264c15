//! The per-check settings: thresholds (in hundredths of the metric's unit)
//! and, for the filesystem check, the mounts that are read-only by design.

use vstd::prelude::*;

use crate::text::owned;

verus! {

/// Settings of the filesystem check.
pub struct FilesystemCheckConfig {
    /// Read-only mounts (in hundredths of a mount) at which to call for attention.
    pub warning: i64,
    /// Read-only mounts (in hundredths of a mount) at which the check is critical.
    pub critical: i64,
    /// Mount points that are read-only by design, matched exactly.
    pub ignore_mounts: Vec<String>,
}

impl Default for FilesystemCheckConfig {
    /// A single read-only mount is critical; NixOS's `/nix/store` is ignored.
    fn default() -> (r: Self)
        ensures
            r.warning == 100,
            r.critical == 100,
            r.ignore_mounts@.len() == 1,
            r.ignore_mounts@[0]@ == "/nix/store"@,
    {
        let mut ignore_mounts = Vec::new();
        ignore_mounts.push(owned("/nix/store"));
        FilesystemCheckConfig { warning: 100, critical: 100, ignore_mounts }
    }
}

/// Settings of the pressure check (memory `full avg60`, in hundredths of a percent).
pub struct PressureCheckConfig {
    pub warning: i64,
    pub critical: i64,
}

impl Default for PressureCheckConfig {
    /// Attention from 10 % of the minute fully stalled, critical from 25 %.
    fn default() -> (r: Self)
        ensures
            r.warning == 1000,
            r.critical == 2500,
    {
        PressureCheckConfig { warning: 1000, critical: 2500 }
    }
}

/// Settings of the reboot check (the flag is `100` when a restart is due).
pub struct RebootCheckConfig {
    pub warning: i64,
    pub critical: i64,
}

impl Default for RebootCheckConfig {
    /// A pending restart calls for attention and is never critical.
    fn default() -> (r: Self)
        ensures
            r.warning == 100,
            r.critical == 200,
    {
        RebootCheckConfig { warning: 100, critical: 200 }
    }
}

/// Settings of the SMART check (wear in hundredths of a percent).
pub struct SmartCheckConfig {
    /// SMART usually needs root, so the check is opt-in.
    pub enabled: bool,
    pub wear_warning: i64,
    pub wear_critical: i64,
}

impl Default for SmartCheckConfig {
    /// Off; attention from 80 % worn, critical from 90 %.
    fn default() -> (r: Self)
        ensures
            !r.enabled,
            r.wear_warning == 8000,
            r.wear_critical == 9000,
    {
        SmartCheckConfig { enabled: false, wear_warning: 8000, wear_critical: 9000 }
    }
}

} // verus!
