//! Versioned state migrations. Each run moves the stored version one step toward
//! `LATEST_VERSION` and is a no-op once there.
use vstd::prelude::*;

verus! {

/// The newest version this build knows how to migrate to.
pub const LATEST_VERSION: u32 = 2;

/// The version after one migration from `current_version`.
pub open spec fn migrated(current_version: u32) -> u32 {
    if current_version >= LATEST_VERSION {
        current_version
    } else {
        (current_version + 1) as u32
    }
}

/// Runs the migrations for `current_version` and returns the new version: unchanged once
/// at or past `LATEST_VERSION`, else one higher (v1 to v2 needs no state change).
pub fn run(current_version: u32) -> (v: u32)
    ensures
        v == migrated(current_version),
{
    if current_version >= LATEST_VERSION {
        return current_version;
    }
    match current_version {
        1 => 2,
        other => other + 1,
    }
}

/// Migrating is idempotent from any initialized version (1 and up): a second run changes
/// nothing. It never lowers the version, and leaves it alone once at the latest.
pub proof fn lemma_migration_idempotent(v: u32)
    ensures
        v >= 1 ==> migrated(migrated(v)) == migrated(v),
        migrated(v) >= v,
        v >= LATEST_VERSION ==> migrated(v) == v,
        v < LATEST_VERSION ==> migrated(v) == v + 1,
{
}

} // verus!
